//! File attachments: a file name and the file's bytes in base64.

use vstd::prelude::*;
use vstd::string::*;

verus! {

/// The standard, padded base64 encoding of `b`.
pub uninterp spec fn base64_standard(b: Seq<u8>) -> Seq<char>;

/// Relies on base64's `Engine::encode` with the STANDARD engine: the padded
/// standard-alphabet base64 text of `b`.
#[verifier::external_body]
fn encode_base64(b: &[u8]) -> (r: String)
    ensures
        r@ == base64_standard(b@),
{
    base64::Engine::encode(&base64::engine::general_purpose::STANDARD, b)
}

/// The name an attachment gets when its path has no usable file name.
pub const FALLBACK_NAME: &'static str = "attachment";

/// A file attached to an email.
#[derive(Debug, Clone, PartialEq)]
pub struct Attachment {
    /// Attachment id, the file name.
    pub id: String,
    /// The file's content, base64 encoded.
    pub data: String,
}

impl Attachment {
    /// An attachment named `filename` holding `content`.
    pub fn from_bytes(content: &[u8], filename: &str) -> (r: Attachment)
        ensures
            r.id@ == filename@,
            r.data@ == base64_standard(content@),
    {
        Attachment { id: String::from_str(filename), data: encode_base64(content) }
    }

    /// An attachment for a file that was read: named by the file's base name,
    /// or `attachment` when the path has none.
    pub fn from_file(file_name: Option<&str>, content: &[u8]) -> (r: Attachment)
        ensures
            r.id@ == match file_name {
                Some(n) => n@,
                None => FALLBACK_NAME@,
            },
            r.data@ == base64_standard(content@),
    {
        match file_name {
            Some(n) => Attachment::from_bytes(content, n),
            None => Attachment::from_bytes(content, FALLBACK_NAME),
        }
    }

    /// The wire fields of the attachment, in order.
    pub open spec fn record_spec(&self) -> Seq<(Seq<char>, Seq<char>)> {
        seq![("id"@, self.id@), ("data"@, self.data@)]
    }

    /// The wire fields of the attachment.
    pub fn record(&self) -> (r: Vec<(String, String)>)
        ensures
            crate::wire::record_view(r@) == self.record_spec(),
    {
        let mut r: Vec<(String, String)> = Vec::new();
        r.push((String::from_str("id"), self.id.clone()));
        r.push((String::from_str("data"), self.data.clone()));
        assert(crate::wire::record_view(r@) =~= self.record_spec());
        r
    }
}

} // verus!
