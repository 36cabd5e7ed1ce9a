//! Uploads of plugins to the agent.

use crate::events::{Event, EventType, STATUS_ACCEPTED, STATUS_BAD_REQUEST};
use crate::text::same_text;
use vstd::prelude::*;

verus! {

/// What the body of an upload is read as.
#[derive(Debug, Clone, Copy, PartialEq, Eq, Structural)]
pub enum UploadBody {
    /// The first field of a multipart form.
    FirstField,
    /// The body as it is.
    Whole,
}

/// What the body of an upload with the content type `content_type` is read
/// as: the first field of a form for `multipart/form-data`, the whole body for
/// `image/jpeg`. Any other upload, and one without content type, is refused
/// as a bad request.
pub fn upload_body(content_type: Option<&str>) -> (r: Result<UploadBody, u16>)
    ensures
        r == (match content_type {
            None => Err::<UploadBody, u16>(STATUS_BAD_REQUEST),
            Some(given) => if given@ == "multipart/form-data"@ {
                Ok(UploadBody::FirstField)
            } else if given@ == "image/jpeg"@ {
                Ok(UploadBody::Whole)
            } else {
                Err(STATUS_BAD_REQUEST)
            },
        }),
{
    match content_type {
        None => Err(STATUS_BAD_REQUEST),
        Some(given) => {
            if same_text(given, "multipart/form-data") {
                Ok(UploadBody::FirstField)
            } else if same_text(given, "image/jpeg") {
                Ok(UploadBody::Whole)
            } else {
                Err(STATUS_BAD_REQUEST)
            }
        },
    }
}

/// The answer to an upload of plugins: accepted, and assembled.
pub fn handler() -> (r: (u16, Event))
    ensures
        r.0 == STATUS_ACCEPTED,
        r.1.says(EventType::Assembled, "received dependencies"@),
{
    (
        STATUS_ACCEPTED,
        Event::new(EventType::Assembled).message("received dependencies".to_string()),
    )
}

} // verus!
