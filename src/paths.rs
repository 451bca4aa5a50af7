use vstd::prelude::*;

verus! {

/// The view of an optional string.
pub open spec fn opt_view(o: Option<String>) -> Option<Seq<char>> {
    match o {
        Some(s) => Some(s@),
        None => None,
    }
}

/// `dir` and `name` joined by one separator. As with `std::path::Path::join`, an absolute
/// `name` replaces `dir`, and an empty `dir` leaves `name` alone.
pub open spec fn join_spec(dir: Seq<char>, name: Seq<char>) -> Seq<char> {
    if name.len() > 0 && name[0] == '/' {
        name
    } else if dir.len() == 0 {
        name
    } else if dir.last() == '/' {
        dir + name
    } else {
        dir + seq!['/'] + name
    }
}

/// Joins a directory and a file name.
pub fn join(dir: &String, name: &str) -> (r: String)
    ensures
        r@ == join_spec(dir@, name@),
{
    let d = dir.as_str();
    if name.unicode_len() > 0 && name.get_char(0) == '/' {
        String::from_str(name)
    } else if d.is_empty() {
        String::from_str(name)
    } else {
        let n: usize = d.unicode_len();
        let last = d.get_char(n - 1);
        let mut r = dir.clone();
        if last != '/' {
            r.append("/");
            proof { reveal_strlit("/"); }
        }
        r.append(name);
        r
    }
}

/// The parent of a path, as `std::path::Path::parent` gives it.
pub uninterp spec fn parent_of(p: Seq<char>) -> Option<Seq<char>>;

/// The file name of a path without its final extension, as `std::path::Path::file_stem`
/// gives it.
pub uninterp spec fn stem_of(p: Seq<char>) -> Option<Seq<char>>;

/// Relies on `std::path::Path::parent`: the result depends on the path's text alone.
#[verifier::external_body]
pub(crate) fn path_parent(p: &String) -> (r: Option<String>)
    ensures
        opt_view(r) == parent_of(p@),
{
    std::path::Path::new(p.as_str()).parent().map(|q| q.to_string_lossy().into_owned())
}

/// Relies on `std::path::Path::file_stem`: the result depends on the path's text alone.
#[verifier::external_body]
pub(crate) fn path_file_stem(p: &String) -> (r: Option<String>)
    ensures
        opt_view(r) == stem_of(p@),
{
    std::path::Path::new(p.as_str()).file_stem().map(|q| q.to_string_lossy().into_owned())
}

/// Relies on `std::path::Path::is_dir`: whether the path names an existing directory
/// at the time of the call. Nothing is promised, as it depends on the disk.
#[verifier::external_body]
pub(crate) fn path_is_dir(p: &String) -> (r: bool) {
    std::path::Path::new(p.as_str()).is_dir()
}

} // verus!
