use vstd::prelude::*;

use crate::error::PrettyError;

verus! {

/// An asset is written only where its file is known to be absent; a file that exists,
/// or whose existence could not be told, is left alone.
pub open spec fn write_needed(exists: Option<bool>) -> bool {
    exists == Some(false)
}

/// Whether a bundled asset is to be written, given what the existence check of its own
/// file said (`None` where the check failed).
pub fn should_write_asset(exists: Option<bool>) -> (r: bool)
    ensures
        r == write_needed(exists),
{
    match exists {
        Some(e) => !e,
        None => false,
    }
}

/// An asset file's content after one setup run: `None` is an absent file.
pub open spec fn asset_after_run(state: Option<Seq<u8>>, bundled: Seq<u8>) -> Option<Seq<u8>> {
    if write_needed(Some(state is Some)) {
        Some(bundled)
    } else {
        state
    }
}

/// Setting up twice in a row leaves an asset that the user has changed as the user left
/// it; an absent asset is written once, with the bundled content.
pub proof fn lemma_setup_keeps_user_assets(user: Seq<u8>, bundled: Seq<u8>)
    ensures
        asset_after_run(asset_after_run(Some(user), bundled), bundled) == Some(user),
        asset_after_run(None, bundled) == Some(bundled),
        asset_after_run(asset_after_run(None, bundled), bundled) == Some(bundled),
{
}

/// The result of setup, given which assets are present afterwards: success where all are,
/// else an `Initialization` error that names the first missing one.
pub fn setup_outcome(names: &Vec<String>, present: &Vec<bool>) -> (r: Result<(), PrettyError>)
    requires
        names.len() == present.len(),
    ensures
        (forall|i: int| 0 <= i < present@.len() ==> present@[i]) <==> r is Ok,
        forall|i: int|
            0 <= i < present@.len() && !present@[i] && (forall|j: int| 0 <= j < i ==> present@[j])
                ==> r is Err && r->Err_0 is Initialization
                    && r->Err_0->Initialization_0@ == "missing asset: "@ + names@[i]@,
{
    let mut k: usize = 0;
    while k < present.len()
        invariant
            k <= present.len(),
            names.len() == present.len(),
            forall|j: int| 0 <= j < k ==> present@[j],
        decreases present.len() - k,
    {
        if !present[k] {
            let msg = String::from_str("missing asset: ").concat(names[k].as_str());
            return Err(PrettyError::Initialization(msg));
        }
        k = k + 1;
    }
    Ok(())
}

} // verus!
