//! The applier: turns an inbound envelope into the clipboard write to
//! perform, recording it as last synchronised content first so that the
//! detector does not send it back.

use vstd::prelude::*;
use crate::content::{ClipboardContent, ContentType, ContentView};
use crate::echo::LastSynced;

verus! {

/// Why an inbound envelope was not applied.
#[derive(Clone, Copy, Debug, PartialEq, Eq, Structural)]
pub enum ApplyError {
    /// Text that is not UTF-8, or an image whose dimensions are missing or zero.
    InvalidEnvelope,
    /// The clipboard refused the write.
    ClipboardWriteError,
}

/// The clipboard write that applying an envelope asks for.
#[derive(Debug)]
pub enum ClipboardWrite {
    Text(String),
    Image(Vec<u8>, u32, u32),
}

/// `w` is the write that puts the content of `c` on the clipboard.
pub open spec fn writes(w: ClipboardWrite, c: ContentView) -> bool {
    match w {
        ClipboardWrite::Text(s) => c.text() == Some(s@),
        ClipboardWrite::Image(b, width, height) => c.image() == Some((b@, width, height)),
    }
}

/// Applies an inbound envelope: a malformed one is refused and nothing
/// changes; otherwise it is recorded, as it came, before the returned write
/// is performed.
pub fn apply(sync: &mut LastSynced, content: ClipboardContent) -> (r: Result<ClipboardWrite, ApplyError>)
    ensures
        !content@.wf() ==> r == Err::<ClipboardWrite, ApplyError>(ApplyError::InvalidEnvelope)
            && final(sync)@ == old(sync)@,
        content@.wf() ==> {
            &&& r matches Ok(w) && writes(w, content@)
            &&& final(sync)@ == Some(content@)
        },
{
    let write = match content.content_type {
        ContentType::Text => match content.text() {
            Some(s) => ClipboardWrite::Text(s),
            None => return Err(ApplyError::InvalidEnvelope),
        },
        ContentType::Image => match content.image() {
            Some((b, w, h)) => ClipboardWrite::Image(vstd::slice::slice_to_vec(b), w, h),
            None => return Err(ApplyError::InvalidEnvelope),
        },
    };
    sync.record(content);
    Ok(write)
}

} // verus!
