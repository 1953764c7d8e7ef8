//! The packets of the NTR screen-streaming protocol spoken by the 3DS.
use vstd::prelude::*;

verus! {

/// The number of bytes in a packet header.
pub const HDR_SIZE: usize = 84;

/// A packet header: sequence number, type, command, the three arguments that
/// start streaming, the arguments read from the wire, and the length of the
/// data that follows.
pub struct NTRPacket {
    seq: u32,
    typ: u32,
    cmd: u32,
    arg_priority: u32,
    arg_quality: u32,
    arg_qos: u32,
    args_extra: Vec<u32>,
    data_length: u32,
}

/// The abstract value of an [`NTRPacket`].
pub struct NTRView {
    pub seq: u32,
    pub typ: u32,
    pub cmd: u32,
    pub arg_priority: u32,
    pub arg_quality: u32,
    pub arg_qos: u32,
    pub args_extra: Seq<u32>,
    pub data_length: u32,
}

impl View for NTRPacket {
    type V = NTRView;

    closed spec fn view(&self) -> NTRView {
        NTRView {
            seq: self.seq,
            typ: self.typ,
            cmd: self.cmd,
            arg_priority: self.arg_priority,
            arg_quality: self.arg_quality,
            arg_qos: self.arg_qos,
            args_extra: self.args_extra@,
            data_length: self.data_length,
        }
    }
}

/// The big-endian number in bytes `off..off + 4`.
pub open spec fn be_u32(b: Seq<u8>, off: int) -> u32 {
    (b[off] * 16777216 + b[off + 1] * 65536 + b[off + 2] * 256 + b[off + 3]) as u32
}

/// The little-endian number in bytes `off..off + 4`.
pub open spec fn le_u32(b: Seq<u8>, off: int) -> u32 {
    (b[off] + b[off + 1] * 256 + b[off + 2] * 65536 + b[off + 3] * 16777216) as u32
}

/// The four little-endian bytes of `x`.
pub open spec fn le_bytes(x: u32) -> Seq<u8> {
    seq![(x % 256) as u8, ((x / 256) % 256) as u8, ((x / 65536) % 256) as u8, (x / 16777216) as u8]
}

/// The marker that starts every packet, read big-endian.
pub open spec fn ntr_magic() -> u32 {
    0x78563412
}

/// The header that `from_wire` reads from `b`, when its marker is right.
pub open spec fn parse_header(b: Seq<u8>) -> Option<NTRView> {
    if be_u32(b, 0) == ntr_magic() {
        Some(NTRView {
            seq: be_u32(b, 4),
            typ: be_u32(b, 8),
            cmd: be_u32(b, 12),
            arg_priority: 0,
            arg_quality: 0,
            arg_qos: 0,
            args_extra: Seq::new(16, |i: int| be_u32(b, 16 + 4 * i)),
            data_length: le_u32(b, 80),
        })
    } else {
        None
    }
}

/// The bytes that `to_wire` writes for `p`: the marker, then sequence,
/// type, command and the three streaming arguments little-endian, then
/// zeros up to the header size.
pub open spec fn wire_bytes(p: NTRView) -> Seq<u8> {
    seq![0x78u8, 0x56u8, 0x34u8, 0x12u8] + le_bytes(p.seq) + le_bytes(p.typ) + le_bytes(p.cmd)
        + le_bytes(p.arg_priority) + le_bytes(p.arg_quality) + le_bytes(p.arg_qos)
        + Seq::new(56, |i: int| 0u8)
}

fn read_be(b: &[u8; 84], off: usize) -> (r: u32)
    requires
        off + 4 <= 84,
    ensures
        r == be_u32(b@, off as int),
{
    (b[off] as u32) * 16777216 + (b[off + 1] as u32) * 65536 + (b[off + 2] as u32) * 256 + (b[off + 3] as u32)
}

pub(crate) fn push_le(buf: &mut Vec<u8>, x: u32)
    ensures
        final(buf)@ == old(buf)@ + le_bytes(x),
{
    buf.push((x % 256) as u8);
    buf.push(((x / 256) % 256) as u8);
    buf.push(((x / 65536) % 256) as u8);
    buf.push((x / 16777216) as u8);
    assert(final(buf)@ =~= old(buf)@ + le_bytes(x));
}

impl NTRPacket {
    /// A heartbeat with sequence number `seq`.
    pub fn heartbeat(seq: u32) -> (r: Self)
        ensures
            r@ == (NTRView {
                seq,
                typ: 0,
                cmd: 0,
                arg_priority: 0,
                arg_quality: 0,
                arg_qos: 0,
                args_extra: Seq::empty(),
                data_length: 0,
            }),
    {
        let r = NTRPacket {
            seq,
            typ: 0,
            cmd: 0,
            arg_priority: 0,
            arg_quality: 0,
            arg_qos: 0,
            args_extra: Vec::new(),
            data_length: 0,
        };
        assert(r@.args_extra =~= Seq::empty());
        r
    }

    /// The request to start streaming: sequence 3000, command 901, the top
    /// screen with priority 2, quality 20, and a QoS of 16 (sent doubled,
    /// shifted by 16 bits).
    pub fn init() -> (r: Self)
        ensures
            r@ == (NTRView {
                seq: 3000,
                typ: 0,
                cmd: 901,
                arg_priority: 2,
                arg_quality: 20,
                arg_qos: 2097152,
                args_extra: Seq::empty(),
                data_length: 0,
            }),
    {
        let r = NTRPacket {
            seq: 3000,
            typ: 0,
            cmd: 901,
            arg_priority: 2,
            arg_quality: 20,
            arg_qos: 2097152,
            args_extra: Vec::new(),
            data_length: 0,
        };
        assert(r@.args_extra =~= Seq::empty());
        r
    }

    /// The length of the data that follows the header.
    pub fn extra_len(&self) -> (r: usize)
        ensures
            r == self@.data_length,
    {
        self.data_length as usize
    }

    /// Reads a header from the wire; `None` when the marker is wrong.
    pub fn from_wire(bytes: &[u8; 84]) -> (r: Option<Self>)
        ensures
            match parse_header(bytes@) {
                Some(v) => r matches Some(p) && p@ == v,
                None => r is None,
            },
    {
        let magic = read_be(bytes, 0);
        let seq = read_be(bytes, 4);
        let typ = read_be(bytes, 8);
        let cmd = read_be(bytes, 12);
        let mut args: Vec<u32> = Vec::new();
        let mut i: usize = 0;
        while i < 16
            invariant
                i <= 16,
                args@.len() == i,
                forall|j: int| 0 <= j < i ==> args@[j] == be_u32(bytes@, 16 + 4 * j),
            decreases 16 - i,
        {
            let start = 16 + i * 4;
            args.push(read_be(bytes, start));
            i = i + 1;
        }
        let extra_length = (bytes[80] as u32) + (bytes[81] as u32) * 256 + (bytes[82] as u32) * 65536
            + (bytes[83] as u32) * 16777216;
        if magic == 0x78563412 {
            let p = NTRPacket {
                seq,
                typ,
                cmd,
                arg_priority: 0,
                arg_quality: 0,
                arg_qos: 0,
                args_extra: args,
                data_length: extra_length,
            };
            assert(p@.args_extra =~= Seq::new(16, |i: int| be_u32(bytes@, 16 + 4 * i)));
            Some(p)
        } else {
            None
        }
    }

    /// Writes the header to the wire. Extra arguments and data are not
    /// written.
    pub fn to_wire(&self) -> (r: Vec<u8>)
        ensures
            r@ == wire_bytes(self@),
    {
        let mut buf: Vec<u8> = Vec::new();
        buf.push(0x78);
        buf.push(0x56);
        buf.push(0x34);
        buf.push(0x12);
        assert(buf@ =~= seq![0x78u8, 0x56u8, 0x34u8, 0x12u8]);
        push_le(&mut buf, self.seq);
        push_le(&mut buf, self.typ);
        push_le(&mut buf, self.cmd);
        push_le(&mut buf, self.arg_priority);
        push_le(&mut buf, self.arg_quality);
        push_le(&mut buf, self.arg_qos);
        let ghost head = buf@;
        assert(head.len() == 28);
        while buf.len() < 84
            invariant
                28 <= buf.len() <= 84,
                buf@ == head + Seq::new((buf.len() - 28) as nat, |i: int| 0u8),
            decreases 84 - buf.len(),
        {
            buf.push(0x00);
            assert(buf@ =~= head + Seq::new((buf.len() - 28) as nat, |i: int| 0u8));
        }
        buf
    }
}

/// Every header written carries the marker that reading accepts, and its
/// data length reads back as zero.
pub proof fn law_written_headers_are_accepted(p: NTRView)
    ensures
        wire_bytes(p).len() == HDR_SIZE,
        parse_header(wire_bytes(p)) is Some,
        parse_header(wire_bytes(p))->0.data_length == 0,
{
    let b = wire_bytes(p);
    assert(b[0] == 0x78u8 && b[1] == 0x56u8 && b[2] == 0x34u8 && b[3] == 0x12u8);
    assert(b[80] == 0u8 && b[81] == 0u8 && b[82] == 0u8 && b[83] == 0u8);
}

} // verus!
