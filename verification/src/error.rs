//! The error type of the rendering and data pipeline.
use vstd::prelude::*;

verus! {

#[verifier::external_type_specification]
#[verifier::external_body]
pub struct ExIoError(std::io::Error);

/// All failure modes of the rendering and data pipeline.
///
/// Each variant carries a description so context survives propagation.
#[derive(Debug)]
#[non_exhaustive]
pub enum StarsightError {
    /// Failure inside a backend: path build, paint creation, mask, ...
    Render(String),
    /// Data shape, length, or type mismatch detected before rendering.
    Data(String),
    /// File-system or I/O failure.
    Io(std::io::Error),
    /// Scale domain/range invariants violated (empty domain, zero span, ...).
    Scale(String),
    /// Output format error during file export.
    Export(String),
    /// Invalid configuration: features, theme, layout, ...
    Config(String),
    /// Anything that does not fit the categories above.
    Unknown(String),
}

/// `prefix`, then the detail quoted in backticks.
pub open spec fn quoted_message(prefix: Seq<char>, detail: Seq<char>) -> Seq<char> {
    prefix + "`"@ + detail + "`"@
}

/// The description that `std::io::Error`'s `Display` writes. It depends on
/// the operating system's error messages, so nothing is stated of the text.
#[verifier::external_body]
fn io_error_text(e: &std::io::Error) -> String {
    e.to_string()
}

/// `prefix`, then `detail` in backticks.
fn quote(prefix: &str, detail: &str) -> (s: String)
    ensures
        s@ == quoted_message(prefix@, detail@),
{
    let mut s = String::from_str(prefix);
    s.append("`");
    s.append(detail);
    s.append("`");
    s
}

impl StarsightError {
    /// The display text of the error: the category's description, then the
    /// carried detail in backticks.
    pub fn to_string(&self) -> (s: String)
        ensures
            match self {
                StarsightError::Render(m) => s@ == quoted_message(
                    "Rendering backend failure: "@,
                    m@,
                ),
                StarsightError::Data(m) => s@ == quoted_message("Data shape/type mismatch: "@, m@),
                StarsightError::Io(_) => exists|t: Seq<char>|
                    s@ == quoted_message("File I/O error: "@, t),
                StarsightError::Scale(m) => s@ == quoted_message(
                    "Scale domain/range error: "@,
                    m@,
                ),
                StarsightError::Export(m) => s@ == quoted_message("Export format error: "@, m@),
                StarsightError::Config(m) => s@ == quoted_message(
                    "Invalid configuration error: "@,
                    m@,
                ),
                StarsightError::Unknown(m) => s@ == quoted_message("Unknown error: "@, m@),
            },
    {
        match self {
            StarsightError::Render(m) => quote("Rendering backend failure: ", m.as_str()),
            StarsightError::Data(m) => quote("Data shape/type mismatch: ", m.as_str()),
            StarsightError::Io(e) => {
                let t = io_error_text(e);
                quote("File I/O error: ", t.as_str())
            },
            StarsightError::Scale(m) => quote("Scale domain/range error: ", m.as_str()),
            StarsightError::Export(m) => quote("Export format error: ", m.as_str()),
            StarsightError::Config(m) => quote("Invalid configuration error: ", m.as_str()),
            StarsightError::Unknown(m) => quote("Unknown error: ", m.as_str()),
        }
    }
}

} // verus!
