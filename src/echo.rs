//! The last-synchronised content: the one envelope this node most recently
//! sent or applied. Both the detector and the applier go through it, so a
//! write that came from the network is not broadcast back.

use vstd::prelude::*;
use crate::content::{ClipboardContent, ContentView};

verus! {

/// The record of the last content sent or applied; empty at start.
pub struct LastSynced {
    last: Option<ClipboardContent>,
}

impl View for LastSynced {
    type V = Option<ContentView>;

    closed spec fn view(&self) -> Option<ContentView> {
        match self.last {
            Some(c) => Some(c@),
            None => None,
        }
    }
}

/// Whether `candidate` repeats the recorded content (same kind and payload).
pub open spec fn is_echo_of(last: Option<ContentView>, candidate: ContentView) -> bool {
    last matches Some(l) && l.same_content(candidate)
}

impl LastSynced {
    /// An empty record.
    pub fn new() -> (r: Self)
        ensures
            r@ is None,
    {
        LastSynced { last: None }
    }

    /// The recorded content, if any.
    pub fn last(&self) -> (r: Option<&ClipboardContent>)
        ensures
            r is Some <==> self@ is Some,
            r matches Some(c) ==> self@ == Some(c@),
    {
        match &self.last {
            Some(c) => Some(c),
            None => None,
        }
    }

    /// Whether `candidate` repeats the recorded content.
    pub fn is_echo(&self, candidate: &ClipboardContent) -> (r: bool)
        ensures
            r == is_echo_of(self@, candidate@),
    {
        match &self.last {
            Some(l) => l.same_content(candidate),
            None => false,
        }
    }

    /// Records `content` as the last synchronised content.
    pub fn record(&mut self, content: ClipboardContent)
        ensures
            final(self)@ == Some(content@),
    {
        self.last = Some(content);
    }

    /// Compare and store: an echo of the record is dropped and leaves the
    /// record as it was; anything else is recorded and handed back.
    pub fn offer(&mut self, candidate: ClipboardContent) -> (r: Option<ClipboardContent>)
        ensures
            is_echo_of(old(self)@, candidate@) ==> r is None && final(self)@ == old(self)@,
            !is_echo_of(old(self)@, candidate@) ==> {
                &&& r matches Some(c) && c@ == candidate@
                &&& final(self)@ == Some(candidate@)
            },
    {
        if self.is_echo(&candidate) {
            None
        } else {
            self.record(candidate.clone());
            Some(candidate)
        }
    }
}

} // verus!
