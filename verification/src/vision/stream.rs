//! The reassembly of the 3DS screen stream: each screen image arrives as a
//! run of UDP packets, numbered within the frame, and is whole when its last
//! packet arrives in order.
use vstd::prelude::*;

verus! {

/// One of the two screens of a 3DS.
#[derive(Clone, Copy, Debug, PartialEq, Eq, Structural)]
pub enum Screen {
    Top,
    Bottom,
}

/// The image of one screen being gathered: the frame it belongs to, the
/// number of the last packet taken, and the bytes so far.
pub struct ScreenAssembly {
    frame_num: u8,
    frame_seq: u8,
    buf: Vec<u8>,
}

/// The abstract value of a [`ScreenAssembly`].
pub struct ScreenView {
    pub frame_num: u8,
    pub frame_seq: u8,
    pub buf: Seq<u8>,
}

impl View for ScreenAssembly {
    type V = ScreenView;

    closed spec fn view(&self) -> ScreenView {
        ScreenView { frame_num: self.frame_num, frame_seq: self.frame_seq, buf: self.buf@ }
    }
}

/// The packet number that poisons a frame after a packet went missing, so
/// that nothing more of that frame is taken.
pub open spec fn poisoned_seq() -> u8 {
    250
}

/// The screen a packet belongs to: the low half of its second byte is 1 for
/// the top screen.
pub open spec fn packet_screen(p: Seq<u8>) -> Screen {
    if p[1] & 0xfu8 == 1u8 { Screen::Top } else { Screen::Bottom }
}

/// Whether a packet is the last of its frame: the high half of its second
/// byte is 1.
pub open spec fn packet_is_last(p: Seq<u8>) -> bool {
    p[1] & 0xf0u8 == 0x10u8
}

/// One packet taken into the image of its screen: the image after it, and
/// the whole image when the packet completes it. A packet numbered 0 starts
/// a new frame; the next packet of the same frame adds its data; any other
/// packet poisons the frame.
pub open spec fn screen_next(s: ScreenView, p: Seq<u8>) -> (ScreenView, Option<Seq<u8>>) {
    let frame_id = p[0];
    let seq = p[3];
    let data = p.subrange(4, p.len() as int);
    if seq == 0 {
        (ScreenView { frame_num: frame_id, frame_seq: 0, buf: data }, None)
    } else if s.frame_num == frame_id && seq == s.frame_seq + 1 {
        let s2 = ScreenView { frame_num: s.frame_num, frame_seq: seq, buf: s.buf + data };
        (s2, if packet_is_last(p) { Some(s2.buf) } else { None })
    } else {
        (ScreenView { frame_seq: poisoned_seq(), ..s }, None)
    }
}

impl ScreenAssembly {
    fn new() -> (r: Self)
        ensures
            r@ == (ScreenView { frame_num: 0, frame_seq: 0, buf: Seq::empty() }),
    {
        ScreenAssembly { frame_num: 0, frame_seq: 0, buf: Vec::new() }
    }

    fn take(&mut self, packet: &[u8]) -> (r: Option<Vec<u8>>)
        requires
            packet.len() >= 4,
        ensures
            final(self)@ == screen_next(old(self)@, packet@).0,
            match screen_next(old(self)@, packet@).1 {
                Some(img) => r matches Some(v) && v@ == img,
                None => r is None,
            },
    {
        let frame_id = packet[0];
        let seq = packet[3];
        let is_last = (packet[1] & 0xf0) == 0x10;
        if seq == 0 {
            self.frame_num = frame_id;
            self.frame_seq = 0;
            self.buf = Vec::new();
            append_from(&mut self.buf, packet, 4);
            None
        } else if self.frame_num == frame_id && (seq as u16) == (self.frame_seq as u16) + 1 {
            self.frame_seq = seq;
            append_from(&mut self.buf, packet, 4);
            if is_last {
                Some(self.buf.clone())
            } else {
                None
            }
        } else {
            self.frame_seq = 250;
            None
        }
    }
}

/// Appends `src[from..]` to `dst`.
fn append_from(dst: &mut Vec<u8>, src: &[u8], from: usize)
    requires
        from <= src.len(),
    ensures
        final(dst)@ == old(dst)@ + src@.subrange(from as int, src.len() as int),
{
    let mut i: usize = from;
    while i < src.len()
        invariant
            from <= i <= src.len(),
            dst@ == old(dst)@ + src@.subrange(from as int, i as int),
        decreases src.len() - i,
    {
        dst.push(src[i]);
        i = i + 1;
        assert(dst@ =~= old(dst)@ + src@.subrange(from as int, i as int));
    }
}

/// The images of both screens being gathered from the stream.
pub struct StreamAssembly {
    top: ScreenAssembly,
    bottom: ScreenAssembly,
}

impl StreamAssembly {
    /// The image of the top screen so far.
    pub closed spec fn top_view(&self) -> ScreenView {
        self.top@
    }

    /// The image of the bottom screen so far.
    pub closed spec fn bottom_view(&self) -> ScreenView {
        self.bottom@
    }

    /// Nothing gathered yet: both screens at frame 0, packet 0, no bytes.
    pub fn new() -> (r: Self)
        ensures
            r.top_view() == (ScreenView { frame_num: 0, frame_seq: 0, buf: Seq::empty() }),
            r.bottom_view() == (ScreenView { frame_num: 0, frame_seq: 0, buf: Seq::empty() }),
    {
        StreamAssembly { top: ScreenAssembly::new(), bottom: ScreenAssembly::new() }
    }

    /// Takes one packet of the stream (frame number, flags, a byte, packet
    /// number, then data) into the image of its screen. Returns the screen
    /// and its whole image (the encoded picture) when the packet completes
    /// one; the other screen is left as it was.
    pub fn receive(&mut self, packet: &[u8]) -> (r: Option<(Screen, Vec<u8>)>)
        requires
            packet.len() >= 4,
        ensures
            packet_screen(packet@) == Screen::Top ==> {
                &&& final(self).top_view() == screen_next(old(self).top_view(), packet@).0
                &&& final(self).bottom_view() == old(self).bottom_view()
                &&& match screen_next(old(self).top_view(), packet@).1 {
                    Some(img) => r matches Some((s, v)) && s == Screen::Top && v@ == img,
                    None => r is None,
                }
            },
            packet_screen(packet@) == Screen::Bottom ==> {
                &&& final(self).bottom_view() == screen_next(old(self).bottom_view(), packet@).0
                &&& final(self).top_view() == old(self).top_view()
                &&& match screen_next(old(self).bottom_view(), packet@).1 {
                    Some(img) => r matches Some((s, v)) && s == Screen::Bottom && v@ == img,
                    None => r is None,
                }
            },
    {
        if (packet[1] & 0xf) == 1 {
            match self.top.take(packet) {
                Some(v) => Some((Screen::Top, v)),
                None => None,
            }
        } else {
            match self.bottom.take(packet) {
                Some(v) => Some((Screen::Bottom, v)),
                None => None,
            }
        }
    }
}

} // verus!
