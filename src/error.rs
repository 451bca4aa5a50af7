use vstd::prelude::*;

use crate::paths::opt_view;
use crate::text::{decimal, decimal_spec};

verus! {

/// Failures of fetching a remote document.
#[derive(Debug, Clone, PartialEq, Eq)]
pub enum DownloadError {
    /// The request could not be sent or the connection failed.
    Reqwest(String),
    /// The server answered with a status outside the success range.
    StatusCode(u16),
    /// The fetched body could not be written to the local file.
    IO(String),
}

/// Failures of running the external converter.
#[derive(Debug, Clone, PartialEq, Eq)]
pub enum CompilationError {
    OSUnsupported,
    Pandoc(String),
    FileNotFound,
    InvalidOutputPath,
}

/// Every failure that ends a run.
#[derive(Debug, Clone, PartialEq, Eq)]
pub enum PrettyError {
    ConfigDirNotFound,
    Initialization(String),
    InvalidPath(String),
    Download(DownloadError),
    Compilation(CompilationError),
    Copy(String),
    Open(String),
}

pub open spec fn download_message_spec(e: DownloadError) -> Seq<char> {
    "DownloadError occurred: "@ + match e {
        DownloadError::Reqwest(s) => "Failed to request content url \""@ + s@ + "\""@,
        DownloadError::StatusCode(c) => "Unexpected status code: "@ + status_text_spec(c),
        DownloadError::IO(s) => "Couldn't save to file \""@ + s@ + "\""@,
    }
}

/// A status code in decimal, then its canonical reason phrase, or a placeholder where the
/// code has none.
pub open spec fn status_text_spec(code: u16) -> Seq<char> {
    decimal_spec(code as nat) + " "@ + match reason_of(code) {
        Some(r) => r,
        None => "<unknown status code>"@,
    }
}

/// The canonical reason phrase of an HTTP status code, as `reqwest::StatusCode` gives it.
pub uninterp spec fn reason_of(code: u16) -> Option<Seq<char>>;

/// Relies on `reqwest::StatusCode::from_u16` and `StatusCode::canonical_reason`: the
/// reason phrase of a valid code from the crate's fixed table; `None` for a code that is
/// out of range or has no phrase.
#[verifier::external_body]
fn status_reason(code: u16) -> (r: Option<String>)
    ensures
        opt_view(r) == reason_of(code),
{
    reqwest::StatusCode::from_u16(code).ok().and_then(|s| s.canonical_reason()).map(|t| t.to_string())
}

pub open spec fn compilation_detail_spec(e: CompilationError) -> Seq<char> {
    match e {
        CompilationError::OSUnsupported => "the operating system is not supported"@,
        CompilationError::Pandoc(s) => "Failed to run pandoc: "@ + s@,
        CompilationError::FileNotFound => "no input file was given"@,
        CompilationError::InvalidOutputPath => "the output path is not valid"@,
    }
}

pub open spec fn compilation_message_spec(e: CompilationError) -> Seq<char> {
    "CompilationError occurred: "@ + compilation_detail_spec(e)
}

pub open spec fn pretty_message_spec(e: PrettyError) -> Seq<char> {
    "An Error occurred during execution: "@ + match e {
        PrettyError::ConfigDirNotFound => "Config directory could not be found"@,
        PrettyError::Initialization(s) => s@,
        PrettyError::InvalidPath(s) => "Invalid output path: "@ + s@,
        PrettyError::Download(d) => download_message_spec(d),
        PrettyError::Compilation(c) => compilation_message_spec(c),
        PrettyError::Copy(s) => "The PDF was produced, but copying the markdown failed: "@ + s@,
        PrettyError::Open(s) => "The PDF was produced, but opening it failed: "@ + s@,
    }
}

impl DownloadError {
    /// The human-readable description of this error.
    pub fn message(&self) -> (r: String)
        ensures
            r@ == download_message_spec(*self),
    {
        let mut r = String::from_str("DownloadError occurred: ");
        match self {
            DownloadError::Reqwest(s) => {
                r.append("Failed to request content url \"");
                r.append(s.as_str());
                r.append("\"");
            },
            DownloadError::StatusCode(c) => {
                r.append("Unexpected status code: ");
                let d = decimal(*c);
                r.append(d.as_str());
                r.append(" ");
                match status_reason(*c) {
                    Some(reason) => r.append(reason.as_str()),
                    None => r.append("<unknown status code>"),
                }
            },
            DownloadError::IO(s) => {
                r.append("Couldn't save to file \"");
                r.append(s.as_str());
                r.append("\"");
            },
        }
        proof {
            reveal_strlit("DownloadError occurred: ");
        }
        r
    }
}

impl CompilationError {
    /// The human-readable description of this error.
    pub fn message(&self) -> (r: String)
        ensures
            r@ == compilation_message_spec(*self),
    {
        let mut r = String::from_str("CompilationError occurred: ");
        match self {
            CompilationError::OSUnsupported => {
                r.append("the operating system is not supported");
                proof { reveal_strlit("the operating system is not supported"); }
            },
            CompilationError::Pandoc(s) => {
                r.append("Failed to run pandoc: ");
                r.append(s.as_str());
                proof { reveal_strlit("Failed to run pandoc: "); }
            },
            CompilationError::FileNotFound => {
                r.append("no input file was given");
                proof { reveal_strlit("no input file was given"); }
            },
            CompilationError::InvalidOutputPath => {
                r.append("the output path is not valid");
                proof { reveal_strlit("the output path is not valid"); }
            },
        }
        proof {
            reveal_strlit("CompilationError occurred: ");
        }
        r
    }
}

impl PrettyError {
    /// The human-readable description of this error, prefixed with its category.
    pub fn message(&self) -> (r: String)
        ensures
            r@ == pretty_message_spec(*self),
    {
        let mut r = String::from_str("An Error occurred during execution: ");
        match self {
            PrettyError::ConfigDirNotFound => {
                r.append("Config directory could not be found");
            },
            PrettyError::Initialization(s) => {
                r.append(s.as_str());
            },
            PrettyError::InvalidPath(s) => {
                r.append("Invalid output path: ");
                r.append(s.as_str());
            },
            PrettyError::Download(d) => {
                let m = d.message();
                r.append(m.as_str());
            },
            PrettyError::Compilation(c) => {
                let m = c.message();
                r.append(m.as_str());
            },
            PrettyError::Copy(s) => {
                r.append("The PDF was produced, but copying the markdown failed: ");
                r.append(s.as_str());
            },
            PrettyError::Open(s) => {
                r.append("The PDF was produced, but opening it failed: ");
                r.append(s.as_str());
            },
        }
        proof {
            reveal_strlit("An Error occurred during execution: ");
        }
        r
    }
}

impl From<DownloadError> for PrettyError {
    fn from(value: DownloadError) -> (r: PrettyError)
        ensures
            r == PrettyError::Download(value),
    {
        PrettyError::Download(value)
    }
}

impl vstd::std_specs::convert::FromSpecImpl<DownloadError> for PrettyError {
    open spec fn obeys_from_spec() -> bool {
        true
    }

    open spec fn from_spec(v: DownloadError) -> PrettyError {
        PrettyError::Download(v)
    }
}

impl From<CompilationError> for PrettyError {
    fn from(value: CompilationError) -> (r: PrettyError)
        ensures
            r == PrettyError::Compilation(value),
    {
        PrettyError::Compilation(value)
    }
}

impl vstd::std_specs::convert::FromSpecImpl<CompilationError> for PrettyError {
    open spec fn obeys_from_spec() -> bool {
        true
    }

    open spec fn from_spec(v: CompilationError) -> PrettyError {
        PrettyError::Compilation(v)
    }
}

} // verus!
