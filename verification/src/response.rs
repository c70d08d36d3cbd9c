//! What a handler returns, read as the description of a response.

use vstd::prelude::*;
use vstd::string::*;
use vstd::utf8::encode_utf8;
use crate::assoc::{get_value, value_of, Pairs};
use crate::error::ServerError;
use crate::text::same_text;

verus! {

/// Where the body of a response comes from.
#[derive(Debug, PartialEq, Eq)]
pub enum BodyKind {
    /// The bytes themselves.
    Inline(Vec<u8>),
    /// The file at this path, to be read when the response is put together.
    StaticFile(String),
}

/// A response as the handler described it.
#[derive(Debug, PartialEq, Eq)]
pub struct ResponseDescriptor {
    /// The status code, as text.
    pub status_code: String,
    /// Where the body comes from.
    pub body: BodyKind,
}

/// A body kind as contracts see it.
pub enum BodyKindView {
    Inline(Seq<u8>),
    StaticFile(Seq<char>),
}

/// A descriptor as contracts see it.
pub struct DescriptorView {
    pub status_code: Seq<char>,
    pub body: BodyKindView,
}

impl View for BodyKind {
    type V = BodyKindView;

    open spec fn view(&self) -> BodyKindView {
        match self {
            BodyKind::Inline(bytes) => BodyKindView::Inline(bytes@),
            BodyKind::StaticFile(path) => BodyKindView::StaticFile(path@),
        }
    }
}

impl View for ResponseDescriptor {
    type V = DescriptorView;

    open spec fn view(&self) -> DescriptorView {
        DescriptorView { status_code: self.status_code@, body: self.body@ }
    }
}

/// The description that a returned set of fields gives. `status_code` must
/// be there. With `type` set to `static_file` the body is the file named by
/// `file_path`, which must be there; otherwise the body is the text under
/// `body`, which must be there, in UTF-8.
pub open spec fn interpreted(fields: Pairs) -> Result<DescriptorView, ServerError> {
    match value_of(fields, "status_code"@) {
        None => Err(ServerError::MalformedResponseShape),
        Some(code) => if value_of(fields, "type"@) == Some("static_file"@) {
            match value_of(fields, "file_path"@) {
                None => Err(ServerError::MalformedResponseShape),
                Some(path) => Ok(
                    DescriptorView { status_code: code, body: BodyKindView::StaticFile(path) },
                ),
            }
        } else {
            match value_of(fields, "body"@) {
                None => Err(ServerError::MalformedResponseShape),
                Some(text) => Ok(
                    DescriptorView {
                        status_code: code,
                        body: BodyKindView::Inline(encode_utf8(text)),
                    },
                ),
            }
        },
    }
}

/// Reads the fields a handler returned as the description of a response.
pub fn interpret_result(fields: &Vec<(String, String)>) -> (read: Result<
    ResponseDescriptor,
    ServerError,
>)
    ensures
        match interpreted(fields.deep_view()) {
            Err(e) => read == Err::<ResponseDescriptor, ServerError>(e),
            Ok(d) => read is Ok && read->Ok_0@ == d,
        },
{
    let code = match get_value(fields, "status_code") {
        None => {
            return Err(ServerError::MalformedResponseShape);
        },
        Some(code) => code,
    };
    let is_file = match get_value(fields, "type") {
        None => false,
        Some(kind) => same_text(kind, "static_file"),
    };
    if is_file {
        match get_value(fields, "file_path") {
            None => Err(ServerError::MalformedResponseShape),
            Some(path) => Ok(
                ResponseDescriptor {
                    status_code: code.to_owned(),
                    body: BodyKind::StaticFile(path.to_owned()),
                },
            ),
        }
    } else {
        match get_value(fields, "body") {
            None => Err(ServerError::MalformedResponseShape),
            Some(text) => Ok(
                ResponseDescriptor {
                    status_code: code.to_owned(),
                    body: BodyKind::Inline(text.as_bytes_vec()),
                },
            ),
        }
    }
}

} // verus!
