//! The envelope that carries one clipboard snapshot between nodes.

use vstd::prelude::*;
use vstd::slice::slice_to_vec;
use vstd::utf8::*;

verus! {

broadcast use vstd::utf8::group_utf8_lib;

/// What an envelope carries.
#[derive(Clone, Copy, Debug, PartialEq, Eq, Structural)]
pub enum ContentType {
    Text,
    Image,
}

/// One clipboard snapshot with its provenance.
///
/// `data` holds UTF-8 bytes for text and the raw pixel buffer for an image;
/// `width` and `height` are set for images only. `timestamp` (seconds since
/// the Unix epoch) and `from_network` are informational.
#[derive(Debug)]
pub struct ClipboardContent {
    pub content_type: ContentType,
    pub data: Vec<u8>,
    pub timestamp: u64,
    pub width: Option<u32>,
    pub height: Option<u32>,
    pub from_network: bool,
}

/// Why an envelope could not be built.
#[derive(Clone, Copy, Debug, PartialEq, Eq, Structural)]
pub enum ContentError {
    /// An image with a zero width or a zero height.
    InvalidDimensions,
}

/// The mathematical value of an envelope.
pub struct ContentView {
    pub kind: ContentType,
    pub data: Seq<u8>,
    pub timestamp: u64,
    pub width: Option<u32>,
    pub height: Option<u32>,
    pub from_network: bool,
}

impl View for ClipboardContent {
    type V = ContentView;

    open spec fn view(&self) -> ContentView {
        ContentView {
            kind: self.content_type,
            data: self.data@,
            timestamp: self.timestamp,
            width: self.width,
            height: self.height,
            from_network: self.from_network,
        }
    }
}

impl ContentView {
    /// The text carried, if this is a text envelope whose bytes are valid UTF-8.
    pub open spec fn text(self) -> Option<Seq<char>> {
        if self.kind == ContentType::Text && valid_utf8(self.data) {
            Some(decode_utf8(self.data))
        } else {
            None
        }
    }

    /// The pixels and dimensions carried, if this is an image envelope with
    /// both dimensions present and non-zero.
    pub open spec fn image(self) -> Option<(Seq<u8>, u32, u32)> {
        match (self.kind, self.width, self.height) {
            (ContentType::Image, Some(w), Some(h)) => if w > 0 && h > 0 {
                Some((self.data, w, h))
            } else {
                None
            },
            _ => None,
        }
    }

    /// A well-formed envelope: valid UTF-8 text, or an image of non-zero area.
    pub open spec fn wf(self) -> bool {
        match self.kind {
            ContentType::Text => self.text() is Some,
            ContentType::Image => self.image() is Some,
        }
    }

    /// Two envelopes are the same content when kind and payload agree;
    /// timestamps, dimensions and provenance play no part.
    pub open spec fn same_content(self, other: ContentView) -> bool {
        self.kind == other.kind && self.data == other.data
    }
}

/// Relies on SystemTime::now: the clock's reading, in whole seconds since the
/// Unix epoch (0 where the clock reads earlier). Nothing is known of the value.
#[verifier::external_body]
fn unix_time_secs() -> (r: u64) {
    std::time::SystemTime::now().duration_since(std::time::UNIX_EPOCH).map(|d| d.as_secs()).unwrap_or(0)
}

/// Relies on String::from_utf8: it succeeds exactly on valid UTF-8, and the
/// string then holds the decoded characters.
#[verifier::external_body]
fn decode_text(bytes: Vec<u8>) -> (r: Option<String>)
    ensures
        r is Some <==> valid_utf8(bytes@),
        r matches Some(s) ==> s@ == decode_utf8(bytes@),
{
    String::from_utf8(bytes).ok()
}

/// Byte-wise equality of two buffers.
pub fn bytes_equal(a: &[u8], b: &[u8]) -> (r: bool)
    ensures
        r == (a@ == b@),
{
    if a.len() != b.len() {
        return false;
    }
    let mut i: usize = 0;
    while i < a.len()
        invariant
            a@.len() == b@.len(),
            i <= a@.len(),
            a@.subrange(0, i as int) == b@.subrange(0, i as int),
        decreases a@.len() - i,
    {
        if a[i] != b[i] {
            assert(a@.subrange(0, i as int + 1)[i as int] != b@.subrange(0, i as int + 1)[i as int]);
            return false;
        }
        assert(a@.subrange(0, i as int + 1) =~= a@.subrange(0, i as int).push(a@[i as int]));
        assert(b@.subrange(0, i as int + 1) =~= b@.subrange(0, i as int).push(b@[i as int]));
        i = i + 1;
    }
    assert(a@ =~= a@.subrange(0, a@.len() as int));
    assert(b@ =~= b@.subrange(0, b@.len() as int));
    true
}

impl Clone for ClipboardContent {
    fn clone(&self) -> (r: Self)
        ensures
            r@ == self@,
    {
        ClipboardContent {
            content_type: self.content_type,
            data: slice_to_vec(self.data.as_slice()),
            timestamp: self.timestamp,
            width: self.width,
            height: self.height,
            from_network: self.from_network,
        }
    }
}

impl ClipboardContent {
    /// A text envelope holding the UTF-8 encoding of `text`, stamped `now`
    /// (seconds since the Unix epoch).
    pub fn new_text_at(text: String, now: u64) -> (r: Self)
        ensures
            r@.kind == ContentType::Text,
            r@.data == encode_utf8(text@),
            r@.timestamp == now,
            r@.width is None,
            r@.height is None,
            !r@.from_network,
            r@.text() == Some(text@),
            r@.wf(),
    {
        let data = slice_to_vec(text.as_str().as_bytes());
        ClipboardContent {
            content_type: ContentType::Text,
            data,
            timestamp: now,
            width: None,
            height: None,
            from_network: false,
        }
    }

    /// A text envelope holding the UTF-8 encoding of `text`, stamped with the
    /// current time.
    pub fn new_text(text: String) -> (r: Self)
        ensures
            r@.kind == ContentType::Text,
            r@.data == encode_utf8(text@),
            r@.width is None,
            r@.height is None,
            !r@.from_network,
            r@.text() == Some(text@),
            r@.wf(),
    {
        ClipboardContent::new_text_at(text, unix_time_secs())
    }

    /// An image envelope of `width` by `height` pixels, stamped `now`
    /// (seconds since the Unix epoch); refused when either dimension is zero.
    pub fn new_image_at(data: Vec<u8>, width: u32, height: u32, now: u64) -> (r: Result<Self, ContentError>)
        ensures
            width == 0 || height == 0 <==> r is Err,
            r matches Err(e) ==> e == ContentError::InvalidDimensions,
            r matches Ok(c) ==> {
                &&& c@.kind == ContentType::Image
                &&& c@.data == data@
                &&& c@.timestamp == now
                &&& c@.width == Some(width)
                &&& c@.height == Some(height)
                &&& !c@.from_network
                &&& c@.image() == Some((data@, width, height))
                &&& c@.wf()
            },
    {
        if width == 0 || height == 0 {
            return Err(ContentError::InvalidDimensions);
        }
        Ok(ClipboardContent {
            content_type: ContentType::Image,
            data,
            timestamp: now,
            width: Some(width),
            height: Some(height),
            from_network: false,
        })
    }

    /// An image envelope of `width` by `height` pixels, stamped with the
    /// current time; refused when either dimension is zero.
    pub fn new_image(data: Vec<u8>, width: u32, height: u32) -> (r: Result<Self, ContentError>)
        ensures
            width == 0 || height == 0 <==> r is Err,
            r matches Err(e) ==> e == ContentError::InvalidDimensions,
            r matches Ok(c) ==> {
                &&& c@.kind == ContentType::Image
                &&& c@.data == data@
                &&& c@.width == Some(width)
                &&& c@.height == Some(height)
                &&& !c@.from_network
                &&& c@.image() == Some((data@, width, height))
                &&& c@.wf()
            },
    {
        ClipboardContent::new_image_at(data, width, height, unix_time_secs())
    }

    /// The text carried: `None` for an image or for bytes that are not UTF-8.
    pub fn text(&self) -> (r: Option<String>)
        ensures
            r is Some <==> self@.text() is Some,
            r matches Some(s) ==> self@.text() == Some(s@),
    {
        match self.content_type {
            ContentType::Text => decode_text(slice_to_vec(self.data.as_slice())),
            ContentType::Image => None,
        }
    }

    /// The pixels and dimensions carried: `None` for text, or for an image
    /// whose dimensions are missing or zero.
    pub fn image(&self) -> (r: Option<(&[u8], u32, u32)>)
        ensures
            r is Some <==> self@.image() is Some,
            r matches Some(t) ==> self@.image() == Some((t.0@, t.1, t.2)),
    {
        match (self.content_type, self.width, self.height) {
            (ContentType::Image, Some(w), Some(h)) => if w > 0 && h > 0 {
                Some((self.data.as_slice(), w, h))
            } else {
                None
            },
            _ => None,
        }
    }

    /// Whether the envelope is well formed (see `ContentView::wf`).
    pub fn is_valid(&self) -> (r: bool)
        ensures
            r == self@.wf(),
    {
        match self.content_type {
            ContentType::Text => self.text().is_some(),
            ContentType::Image => self.image().is_some(),
        }
    }

    /// Whether `self` and `other` carry the same kind and payload.
    pub fn same_content(&self, other: &ClipboardContent) -> (r: bool)
        ensures
            r == self@.same_content(other@),
    {
        self.content_type == other.content_type && bytes_equal(self.data.as_slice(), other.data.as_slice())
    }
}

/// Text read back from a text envelope of `s` (one whose payload is the
/// UTF-8 encoding of `s`, as `new_text` builds it) is `s` itself.
pub proof fn lemma_text_round_trip(s: Seq<char>, c: ContentView)
    requires
        c.kind == ContentType::Text,
        c.data == encode_utf8(s),
    ensures
        c.text() == Some(s),
{
}

/// The image read back from an image envelope of `b` with non-zero
/// dimensions `w` and `h` (as `new_image` builds it) is `(b, w, h)`.
pub proof fn lemma_image_round_trip(b: Seq<u8>, w: u32, h: u32, c: ContentView)
    requires
        w > 0,
        h > 0,
        c.kind == ContentType::Image,
        c.data == b,
        c.width == Some(w),
        c.height == Some(h),
    ensures
        c.image() == Some((b, w, h)),
{
}

} // verus!
