use vstd::prelude::*;
use vstd::utf8::{decode_utf8, valid_utf8};

use crate::text::same_text;

verus! {

/// What `String::from_utf8_lossy` gives for a sequence of bytes.
pub uninterp spec fn lossy_text(bytes: Seq<u8>) -> Seq<char>;

/// Relies on `String::from_utf8_lossy`: the bytes read as UTF-8, with each
/// invalid sequence replaced; valid UTF-8 comes back as the text it encodes.
#[verifier::external_body]
fn text_from_bytes(bytes: &[u8]) -> (r: String)
    ensures
        r@ == lossy_text(bytes@),
        valid_utf8(bytes@) ==> r@ == decode_utf8(bytes@),
{
    String::from_utf8_lossy(bytes).into_owned()
}

/// The part that a field of an upload form plays.
#[derive(PartialEq, Eq, Structural, Debug, Clone, Copy)]
pub enum FieldRole {
    /// The field named `file`: the content to store.
    FileData,
    /// The field named `filePath`: where to store it.
    TargetPath,
    /// Any other field, passed over.
    Ignored,
}

/// The role of a form field, by its exact name.
pub fn field_role(name: &str) -> (r: FieldRole)
    ensures
        r == (if name@ == "file"@ {
            FieldRole::FileData
        } else if name@ == "filePath"@ {
            FieldRole::TargetPath
        } else {
            FieldRole::Ignored
        }),
{
    if same_text(name, "file") {
        FieldRole::FileData
    } else if same_text(name, "filePath") {
        FieldRole::TargetPath
    } else {
        FieldRole::Ignored
    }
}

/// An upload being gathered from the fields of a form.
pub struct Upload {
    target: Option<String>,
    has_file: bool,
    contents: Vec<u8>,
}

impl View for Upload {
    /// The path to store to, if one was given, and the content so far, if a
    /// file part came.
    type V = (Option<Seq<char>>, Option<Seq<u8>>);

    closed spec fn view(&self) -> (Option<Seq<char>>, Option<Seq<u8>>) {
        (
            match self.target {
                Some(t) => Some(t@),
                None => None,
            },
            if self.has_file {
                Some(self.contents@)
            } else {
                None
            },
        )
    }
}

/// The content so far, empty where no file part came yet.
pub open spec fn content_so_far(contents: Option<Seq<u8>>) -> Seq<u8> {
    match contents {
        Some(c) => c,
        None => Seq::empty(),
    }
}

impl Upload {
    pub fn new() -> (r: Upload)
        ensures
            r@ == (None::<Seq<char>>, None::<Seq<u8>>),
    {
        Upload { target: None, has_file: false, contents: Vec::new() }
    }

    /// Notes that a file part came, which may carry no bytes at all.
    pub fn begin_file(&mut self)
        ensures
            final(self)@ == (old(self)@.0, Some(content_so_far(old(self)@.1))),
    {
        if !self.has_file {
            self.contents = Vec::new();
            self.has_file = true;
        }
    }

    /// Appends a chunk of the file's content, byte for byte.
    pub fn add_file_chunk(&mut self, chunk: &[u8])
        ensures
            final(self)@ == (old(self)@.0, Some(content_so_far(old(self)@.1) + chunk@)),
    {
        self.begin_file();
        let mut i: usize = 0;
        let ghost start = self.contents@;
        let ghost target = self.target;
        while i < chunk.len()
            invariant
                self.target == target,
                self.has_file,
                i <= chunk@.len(),
                self.contents@ == start + chunk@.subrange(0, i as int),
            decreases chunk@.len() - i,
        {
            self.contents.push(chunk[i]);
            assert(self.contents@ =~= start + chunk@.subrange(0, i + 1));
            i = i + 1;
        }
        assert(chunk@.subrange(0, chunk@.len() as int) =~= chunk@);
    }

    /// Takes the path to store to from the bytes of its field; a later path
    /// replaces an earlier one.
    pub fn set_target(&mut self, bytes: &[u8])
        ensures
            final(self)@ == (Some(lossy_text(bytes@)), old(self)@.1),
            valid_utf8(bytes@) ==> final(self)@.0 == Some(decode_utf8(bytes@)),
    {
        self.target = Some(text_from_bytes(bytes));
    }

    /// The path and the content to store, or `None` where the form lacked
    /// either the path or the file part.
    pub fn finish(self) -> (r: Option<(String, Vec<u8>)>)
        ensures
            r is None <==> (self@.0 is None || self@.1 is None),
            r matches Some(p) ==> self@.0 == Some(p.0@) && self@.1 == Some(p.1@),
    {
        if !self.has_file {
            return None;
        }
        match self.target {
            Some(t) => Some((t, self.contents)),
            None => None,
        }
    }
}

} // verus!
