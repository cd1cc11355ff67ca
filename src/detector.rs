//! The change detector: one tick compares a clipboard sample with the
//! previous one, picks at most one candidate change (text first), and
//! emits it unless it repeats the last synchronised content.

use vstd::prelude::*;
use vstd::utf8::*;
use crate::content::{ClipboardContent, ContentType, ContentView};
use crate::echo::LastSynced;

verus! {

broadcast use vstd::utf8::group_utf8_lib;

/// The fingerprint of an image's raw bytes.
pub uninterp spec fn image_fingerprint(bytes: Seq<u8>) -> u64;

/// Relies on std's DefaultHasher: hashers made by `DefaultHasher::new` all
/// start alike, so the hash of the written bytes depends on the bytes alone.
#[verifier::external_body]
fn fingerprint(bytes: &[u8]) -> (r: u64)
    ensures
        r == image_fingerprint(bytes@),
{
    let mut hasher = std::collections::hash_map::DefaultHasher::new();
    std::hash::Hasher::write(&mut hasher, bytes);
    std::hash::Hasher::finish(&hasher)
}

/// A change picked from one sample.
pub enum Observed {
    Text(Seq<char>),
    Image(Seq<u8>, u32, u32),
}

impl Observed {
    pub open spec fn kind(self) -> ContentType {
        match self {
            Observed::Text(_) => ContentType::Text,
            Observed::Image(..) => ContentType::Image,
        }
    }

    /// The bytes an envelope of this change carries.
    pub open spec fn payload(self) -> Seq<u8> {
        match self {
            Observed::Text(t) => encode_utf8(t),
            Observed::Image(b, _, _) => b,
        }
    }

    /// Text always; an image only with a non-zero area.
    pub open spec fn publishable(self) -> bool {
        match self {
            Observed::Text(_) => true,
            Observed::Image(_, w, h) => w > 0 && h > 0,
        }
    }

    /// `c` is a locally sampled envelope of this change.
    pub open spec fn describes(self, c: ContentView) -> bool {
        &&& c.kind == self.kind()
        &&& c.data == self.payload()
        &&& !c.from_network
        &&& match self {
            Observed::Text(_) => c.width is None && c.height is None,
            Observed::Image(_, w, h) => c.width == Some(w) && c.height == Some(h),
        }
    }
}

/// What the detector remembers of the previous tick.
pub struct DetectorView {
    pub previous_text: Option<Seq<char>>,
    pub previous_image_hash: Option<u64>,
}

pub open spec fn text_view(t: Option<String>) -> Option<Seq<char>> {
    match t {
        Some(s) => Some(s@),
        None => None,
    }
}

pub open spec fn image_view(i: Option<(Vec<u8>, u32, u32)>) -> Option<(Seq<u8>, u32, u32)> {
    match i {
        Some((b, w, h)) => Some((b@, w, h)),
        None => None,
    }
}

/// The candidate change of a tick. A text that differs from the previous
/// tick's (absence included) takes the tick; otherwise an image whose
/// fingerprint `fp` differs from the one recorded.
pub open spec fn candidate(
    d: DetectorView,
    text: Option<Seq<char>>,
    image: Option<(Seq<u8>, u32, u32)>,
    fp: u64,
) -> Option<Observed> {
    if text != d.previous_text {
        match text {
            Some(t) => Some(Observed::Text(t)),
            None => None,
        }
    } else {
        match image {
            Some((b, w, h)) => if d.previous_image_hash != Some(fp) {
                Some(Observed::Image(b, w, h))
            } else {
                None
            },
            None => None,
        }
    }
}

/// The trackers after a tick, whatever was emitted.
pub open spec fn next_trackers(
    d: DetectorView,
    text: Option<Seq<char>>,
    image: Option<(Seq<u8>, u32, u32)>,
    fp: u64,
) -> DetectorView {
    if text != d.previous_text {
        DetectorView { previous_text: text, previous_image_hash: None }
    } else {
        match image {
            Some(_) => DetectorView { previous_text: d.previous_text, previous_image_hash: Some(fp) },
            None => DetectorView { previous_text: d.previous_text, previous_image_hash: None },
        }
    }
}

/// Whether a candidate is emitted: it can be published and does not repeat
/// the last synchronised content.
pub open spec fn emits(last: Option<ContentView>, c: Observed) -> bool {
    c.publishable() && !(last matches Some(l) && l.kind == c.kind() && l.data == c.payload())
}

/// The change a tick emits, if any.
pub open spec fn emission(
    d: DetectorView,
    last: Option<ContentView>,
    text: Option<Seq<char>>,
    image: Option<(Seq<u8>, u32, u32)>,
    fp: u64,
) -> Option<Observed> {
    match candidate(d, text, image, fp) {
        Some(c) => if emits(last, c) {
            Some(c)
        } else {
            None
        },
        None => None,
    }
}

/// The periodic sampler's memory between ticks.
pub struct Detector {
    previous_text: Option<String>,
    previous_image_hash: Option<u64>,
}

impl View for Detector {
    type V = DetectorView;

    closed spec fn view(&self) -> DetectorView {
        DetectorView {
            previous_text: text_view(self.previous_text),
            previous_image_hash: self.previous_image_hash,
        }
    }
}

fn same_text(a: &Option<String>, b: &Option<String>) -> (r: bool)
    ensures
        r == (text_view(*a) == text_view(*b)),
{
    match (a, b) {
        (Some(x), Some(y)) => x.eq(y),
        (None, None) => true,
        _ => false,
    }
}

impl Detector {
    /// A detector that has seen nothing yet.
    pub fn new() -> (r: Self)
        ensures
            r@.previous_text is None,
            r@.previous_image_hash is None,
    {
        Detector { previous_text: None, previous_image_hash: None }
    }

    /// One tick on a sample whose image fingerprint the caller supplies
    /// (`fingerprint` is read only when an image is present).
    pub fn observe(
        &mut self,
        sync: &mut LastSynced,
        text: Option<String>,
        image: Option<(Vec<u8>, u32, u32)>,
        fingerprint: u64,
    ) -> (r: Option<ClipboardContent>)
        ensures
            final(self)@ == next_trackers(old(self)@, text_view(text), image_view(image), fingerprint),
            match emission(old(self)@, old(sync)@, text_view(text), image_view(image), fingerprint) {
                Some(c) => {
                    &&& r matches Some(e) && c.describes(e@)
                    &&& final(sync)@ == Some(r->0@)
                },
                None => r is None && final(sync)@ == old(sync)@,
            },
    {
        if !same_text(&text, &self.previous_text) {
            let emitted = match &text {
                Some(t) => {
                    sync.offer(ClipboardContent::new_text(t.clone()))
                },
                None => None,
            };
            self.previous_text = text;
            self.previous_image_hash = None;
            emitted
        } else {
            match image {
                Some((bytes, w, h)) => {
                    let changed = match self.previous_image_hash {
                        Some(p) => p != fingerprint,
                        None => true,
                    };
                    self.previous_image_hash = Some(fingerprint);
                    if changed {
                        match ClipboardContent::new_image(bytes, w, h) {
                            Ok(c) => sync.offer(c),
                            Err(_) => None,
                        }
                    } else {
                        None
                    }
                },
                None => {
                    self.previous_image_hash = None;
                    None
                },
            }
        }
    }

    /// One tick on a clipboard sample: the text read (absent when it could
    /// not be read) and the image read, as pixels, width and height.
    pub fn tick(
        &mut self,
        sync: &mut LastSynced,
        text: Option<String>,
        image: Option<(Vec<u8>, u32, u32)>,
    ) -> (r: Option<ClipboardContent>)
        ensures
            ({
                let fp = match image {
                    Some((b, _, _)) => image_fingerprint(b@),
                    None => 0,
                };
                &&& final(self)@ == next_trackers(old(self)@, text_view(text), image_view(image), fp)
                &&& match emission(old(self)@, old(sync)@, text_view(text), image_view(image), fp) {
                    Some(c) => {
                        &&& r matches Some(e) && c.describes(e@)
                        &&& final(sync)@ == Some(r->0@)
                    },
                    None => r is None && final(sync)@ == old(sync)@,
                }
            }),
    {
        let fp: u64 = match &image {
            Some((b, _, _)) => fingerprint(b.as_slice()),
            None => 0,
        };
        self.observe(sync, text, image, fp)
    }
}

} // verus!
