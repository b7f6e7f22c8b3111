//! Decisions of a local file helper: which paths are scanned or read, how
//! each file's content is extracted and kept, and what a request is answered.

use vstd::prelude::*;

pub mod content_map;
pub mod laws;
pub mod port;
pub mod reader;
pub mod reply;
pub mod scan;
pub mod text;
pub mod upload;

verus! {

} // verus!
