use vstd::prelude::*;

use crate::content_map::ContentMap;

verus! {

/// The answer to a request for the contents under a path.
pub enum FileReply {
    /// The path was read: what it holds.
    Found(ContentMap),
    /// The path could not be read: the system's message.
    Failed(String),
    /// The request named no path.
    MissingPath,
}

impl FileReply {
    /// The numeric code of the reply; a request without a path has none.
    pub fn code(&self) -> (r: Option<u32>)
        ensures
            r == (match self {
                FileReply::Found(_) => Some(0u32),
                FileReply::Failed(_) => Some(404u32),
                FileReply::MissingPath => None,
            }),
    {
        match self {
            FileReply::Found(_) => Some(0),
            FileReply::Failed(_) => Some(404),
            FileReply::MissingPath => None,
        }
    }

    /// `"success"` for a reply that carries data, `"error"` otherwise.
    pub fn status(&self) -> (r: String)
        ensures
            r@ == (match self {
                FileReply::Found(_) => "success"@,
                _ => "error"@,
            }),
    {
        match self {
            FileReply::Found(_) => "success".to_string(),
            _ => "error".to_string(),
        }
    }

    /// The system's message of a failed read, unchanged.
    pub fn error_text(&self) -> (r: Option<String>)
        ensures
            r == (match self {
                FileReply::Failed(m) => Some(*m),
                _ => None,
            }),
    {
        match self {
            FileReply::Failed(m) => Some(m.clone()),
            _ => None,
        }
    }
}

/// The reply for a request: `None` where it named no path, else the outcome
/// of classifying that path.
pub fn file_reply(outcome: Option<Result<ContentMap, String>>) -> (r: FileReply)
    ensures
        match outcome {
            None => r is MissingPath,
            Some(Err(m)) => r == FileReply::Failed(m),
            Some(Ok(c)) => r == FileReply::Found(c),
        },
{
    match outcome {
        None => FileReply::MissingPath,
        Some(Err(m)) => FileReply::Failed(m),
        Some(Ok(c)) => FileReply::Found(c),
    }
}

} // verus!
