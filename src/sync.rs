//! The synchronisation engine of one node: the detector's trackers and the
//! last synchronised content, with one entry point per event (a tick of the
//! sampler, an envelope from the network).

use vstd::prelude::*;
use crate::applier::{ApplyError, ClipboardWrite, apply, writes};
use crate::content::{ClipboardContent, ContentView};
use crate::detector::{
    Detector, DetectorView, Observed, candidate, emission, image_fingerprint, image_view,
    next_trackers, text_view,
};
use crate::echo::LastSynced;

verus! {

broadcast use vstd::utf8::group_utf8_lib;

/// The engine's state.
pub struct SyncView {
    pub detector: DetectorView,
    pub last: Option<ContentView>,
}

/// Clipboard synchronisation for one node. Its owner serialises the calls
/// (one lock round the whole value) and performs the clipboard reads and
/// writes outside it.
pub struct ClipboardSync {
    detector: Detector,
    last: LastSynced,
}

impl View for ClipboardSync {
    type V = SyncView;

    closed spec fn view(&self) -> SyncView {
        SyncView { detector: self.detector@, last: self.last@ }
    }
}

impl ClipboardSync {
    /// A node that has seen and synchronised nothing yet.
    pub fn new() -> (r: Self)
        ensures
            r@.detector.previous_text is None,
            r@.detector.previous_image_hash is None,
            r@.last is None,
    {
        ClipboardSync { detector: Detector::new(), last: LastSynced::new() }
    }

    /// The last content sent or applied, if any.
    pub fn last_content(&self) -> (r: Option<&ClipboardContent>)
        ensures
            r is Some <==> self@.last is Some,
            r matches Some(c) ==> self@.last == Some(c@),
    {
        self.last.last()
    }

    /// One tick of the sampler with the image's fingerprint supplied; see
    /// `Detector::observe`.
    pub fn observe(
        &mut self,
        text: Option<String>,
        image: Option<(Vec<u8>, u32, u32)>,
        fingerprint: u64,
    ) -> (r: Option<ClipboardContent>)
        ensures
            final(self)@.detector == next_trackers(
                old(self)@.detector,
                text_view(text),
                image_view(image),
                fingerprint,
            ),
            match emission(old(self)@.detector, old(self)@.last, text_view(text), image_view(image), fingerprint) {
                Some(c) => {
                    &&& r matches Some(e) && c.describes(e@)
                    &&& final(self)@.last == Some(r->0@)
                },
                None => r is None && final(self)@.last == old(self)@.last,
            },
    {
        self.detector.observe(&mut self.last, text, image, fingerprint)
    }

    /// One tick of the sampler on the text and image read from the clipboard
    /// (each absent where it could not be read). Returns the envelope to
    /// broadcast, if the sample holds a new change.
    pub fn tick(&mut self, text: Option<String>, image: Option<(Vec<u8>, u32, u32)>) -> (r: Option<ClipboardContent>)
        ensures
            ({
                let fp = match image {
                    Some((b, _, _)) => image_fingerprint(b@),
                    None => 0,
                };
                &&& final(self)@.detector == next_trackers(old(self)@.detector, text_view(text), image_view(image), fp)
                &&& match emission(old(self)@.detector, old(self)@.last, text_view(text), image_view(image), fp) {
                    Some(c) => {
                        &&& r matches Some(e) && c.describes(e@)
                        &&& final(self)@.last == Some(r->0@)
                    },
                    None => r is None && final(self)@.last == old(self)@.last,
                }
            }),
    {
        self.detector.tick(&mut self.last, text, image)
    }

    /// Takes an envelope that arrived from the network. A malformed one is
    /// refused; otherwise it becomes the last synchronised content, and the
    /// caller performs the returned clipboard write afterwards.
    pub fn handle_incoming_content(&mut self, content: ClipboardContent) -> (r: Result<ClipboardWrite, ApplyError>)
        ensures
            final(self)@.detector == old(self)@.detector,
            !content@.wf() ==> r == Err::<ClipboardWrite, ApplyError>(ApplyError::InvalidEnvelope)
                && final(self)@.last == old(self)@.last,
            content@.wf() ==> {
                &&& r matches Ok(w) && writes(w, content@)
                &&& final(self)@.last == Some(content@)
            },
    {
        apply(&mut self.last, content)
    }
}

impl Default for ClipboardSync {
    fn default() -> (r: Self)
        ensures
            r@.detector.previous_text is None,
            r@.detector.previous_image_hash is None,
            r@.last is None,
    {
        ClipboardSync::new()
    }
}

/// A text that stays on the clipboard is emitted at most once: on the tick
/// after one that sampled text `t`, a sample with the same text emits no
/// text, whatever the images and whatever was recorded in between.
pub proof fn lemma_same_text_emitted_once(
    d: DetectorView,
    last: Option<ContentView>,
    t: Seq<char>,
    image1: Option<(Seq<u8>, u32, u32)>,
    fp1: u64,
    image2: Option<(Seq<u8>, u32, u32)>,
    fp2: u64,
)
    ensures
        !(emission(next_trackers(d, Some(t), image1, fp1), last, Some(t), image2, fp2) matches Some(
            Observed::Text(_),
        )),
{
}

/// No echo: once an envelope has been applied, a tick that samples the
/// clipboard holding exactly its content (its text, or its image) emits
/// nothing, whatever the detector had seen before.
pub proof fn lemma_applied_content_not_echoed(d: DetectorView, e: ContentView, fp: u64)
    requires
        e.wf(),
    ensures
        emission(d, Some(e), e.text(), e.image(), fp) is None,
{
}

/// Text takes precedence: when the sampled text differs from the previous
/// one, the tick's candidate is that text, and an image in the same sample
/// is never emitted.
pub proof fn lemma_text_takes_precedence(
    d: DetectorView,
    last: Option<ContentView>,
    t: Seq<char>,
    image: (Seq<u8>, u32, u32),
    fp: u64,
)
    requires
        d.previous_text != Some(t),
    ensures
        candidate(d, Some(t), Some(image), fp) == Some(Observed::Text(t)),
        match emission(d, last, Some(t), Some(image), fp) {
            Some(c) => c == Observed::Text(t),
            None => true,
        },
{
}

} // verus!
