//! The last two frames on which something was found, shown side by side.
use vstd::prelude::*;

verus! {

/// Two frame slots written in turn; `toggle` says which one was written last.
pub struct FoundToggle {
    entry0: Vec<u8>,
    entry1: Vec<u8>,
    toggle: bool,
}

impl FoundToggle {
    /// The most recent frame.
    pub closed spec fn latest_view(&self) -> Seq<u8> {
        if self.toggle { self.entry0@ } else { self.entry1@ }
    }

    /// The frame before the most recent one.
    pub closed spec fn last_view(&self) -> Seq<u8> {
        if self.toggle { self.entry1@ } else { self.entry0@ }
    }

    /// Starts with both slots holding `frame` (the placeholder image).
    pub fn new(frame: Vec<u8>) -> (r: Self)
        ensures
            r.latest_view() == frame@,
            r.last_view() == frame@,
    {
        let copy = frame.clone();
        assert(copy@ =~= frame@);
        Self { entry0: copy, entry1: frame, toggle: false }
    }

    /// Records a newly found frame.
    pub fn update(&mut self, data: &[u8])
        ensures
            final(self).latest_view() == data@,
            final(self).last_view() == old(self).latest_view(),
    {
        let v = vstd::slice::slice_to_vec(data);
        if self.toggle {
            self.entry1 = v;
        } else {
            self.entry0 = v;
        }
        self.toggle = !self.toggle;
    }

    /// The most recent frame.
    pub fn latest(&self) -> (r: &[u8])
        ensures
            r@ == self.latest_view(),
    {
        if self.toggle {
            self.entry0.as_slice()
        } else {
            self.entry1.as_slice()
        }
    }

    /// The frame before the most recent one.
    pub fn last(&self) -> (r: &[u8])
        ensures
            r@ == self.last_view(),
    {
        if self.toggle {
            self.entry1.as_slice()
        } else {
            self.entry0.as_slice()
        }
    }
}

} // verus!
