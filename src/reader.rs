use vstd::prelude::*;

use crate::text::same_text;

verus! {

/// What `std::path::Path::extension` gives for a path, as text.
pub uninterp spec fn extension_of(path: Seq<char>) -> Option<Seq<char>>;

/// What `str::to_lowercase` gives for a text.
pub uninterp spec fn lower_of(s: Seq<char>) -> Seq<char>;

/// Relies on `std::path::Path::extension`: the extension of a path, which
/// depends on the path's text alone. An extension of a `&str` path is
/// always valid UTF-8, so the conversion back to text loses nothing.
#[verifier::external_body]
fn path_extension(path: &str) -> (r: Option<String>)
    ensures
        r matches Some(e) ==> extension_of(path@) == Some(e@),
        r is None ==> extension_of(path@) is None,
{
    let ext = std::path::Path::new(path).extension()?;
    Some(ext.to_str()?.to_string())
}

/// Relies on `str::to_lowercase`: the lowercase form of a text, which
/// depends on the text alone.
#[verifier::external_body]
fn lowercase(s: &str) -> (r: String)
    ensures
        r@ == lower_of(s@),
{
    s.to_lowercase()
}

/// How the content of one file is to be read.
#[derive(PartialEq, Eq, Structural, Debug, Clone, Copy)]
pub enum ReadPlan {
    /// Extract the text of a PDF document.
    Pdf,
    /// Take the raw bytes of the file as text.
    Text,
    /// Read nothing; the content is empty.
    Skip,
}

/// The plan for a file whose extension, already lowercased, is `ext`
/// (`None` when the file has no extension).
pub open spec fn plan_for(ext: Option<Seq<char>>) -> ReadPlan {
    match ext {
        None => ReadPlan::Text,
        Some(e) => if e == "pdf"@ {
            ReadPlan::Pdf
        } else if e == "csv"@ {
            ReadPlan::Text
        } else {
            ReadPlan::Skip
        },
    }
}

/// The plan for a path: dispatch on its extension, case-insensitively.
pub open spec fn plan_of_path(path: Seq<char>) -> ReadPlan {
    match extension_of(path) {
        None => plan_for(None),
        Some(e) => plan_for(Some(lower_of(e))),
    }
}

/// Chooses the plan from a lowercased extension.
pub fn plan_for_extension(ext: Option<&str>) -> (r: ReadPlan)
    ensures
        r == plan_for(
            match ext {
                Some(e) => Some(e@),
                None => None,
            },
        ),
{
    match ext {
        None => ReadPlan::Text,
        Some(e) => {
            if same_text(e, "pdf") {
                ReadPlan::Pdf
            } else if same_text(e, "csv") {
                ReadPlan::Text
            } else {
                ReadPlan::Skip
            }
        },
    }
}

/// Chooses how to read the file at `path` from its extension, ignoring case.
pub fn read_plan(path: &str) -> (r: ReadPlan)
    ensures
        r == plan_of_path(path@),
{
    match path_extension(path) {
        None => plan_for_extension(None),
        Some(e) => {
            let lower = lowercase(e.as_str());
            plan_for_extension(Some(lower.as_str()))
        },
    }
}

/// The content that a read came to: a failed read, and a file that is not
/// read at all, give the empty text.
pub open spec fn content_of(plan: ReadPlan, outcome: Option<Seq<char>>) -> Seq<char> {
    match (plan, outcome) {
        (ReadPlan::Skip, _) => Seq::empty(),
        (_, Some(text)) => text,
        (_, None) => Seq::empty(),
    }
}

/// Settles the content of one file from the outcome of carrying out `plan`
/// (`None` where the adapter failed). This never fails.
pub fn finish_read(plan: ReadPlan, outcome: Option<String>) -> (r: String)
    ensures
        r@ == content_of(
            plan,
            match outcome {
                Some(t) => Some(t@),
                None => None,
            },
        ),
{
    match (plan, outcome) {
        (ReadPlan::Skip, _) => String::new(),
        (_, Some(text)) => text,
        (_, None) => String::new(),
    }
}

} // verus!
