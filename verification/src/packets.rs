//! The packet/streaming interface.
//!
//! Data moves in packets: one buffer of IQ or spectrum samples plus timing
//! and frequency metadata.  The sample memory itself is vendor-owned and only
//! valid until the packet is consumed, so it stays with the shell; what is
//! modeled here is the packet metadata, the flag word, and the polling
//! protocol — a blocking fetch retries while the queue answers "empty", a
//! non-blocking fetch surfaces "empty" to the caller, and every other error
//! aborts immediately.

use vstd::prelude::*;

use crate::status::{err_of, err_spec, Error};

verus! {

/// Flag bit: the packet starts a segment.
pub const PACKET_SEGMENT_START: u64 = 0x1;
/// Flag bit: the packet ends a segment.
pub const PACKET_SEGMENT_END: u64 = 0x2;
/// Flag bit: the packet starts a stream.
pub const PACKET_STREAM_START: u64 = 0x4;
/// Flag bit: the packet ends a stream.
pub const PACKET_STREAM_END: u64 = 0x8;

/// The flag word of a packet.
#[derive(Clone, Copy, Debug)]
pub struct PacketFlags {
    v: u64,
}

impl PacketFlags {
    /// The raw flag word.
    pub closed spec fn spec_bits(&self) -> u64 {
        self.v
    }

    /// A flag word with every flag cleared.
    pub fn new() -> (r: PacketFlags)
        ensures
            r.spec_bits() == 0,
    {
        PacketFlags { v: 0 }
    }

    /// The raw flag word, as sent to the vendor.
    pub fn bits(&self) -> (r: u64)
        ensures
            r == self.spec_bits(),
    {
        self.v
    }

    /// A flag word from a raw vendor flag field.
    pub fn from_bits(v: u64) -> (r: PacketFlags)
        ensures
            r.spec_bits() == v,
    {
        PacketFlags { v }
    }

    /// Whether the packet starts a segment.
    pub fn segment_start(&self) -> (r: bool)
        ensures
            r == (self.spec_bits() & PACKET_SEGMENT_START != 0),
    {
        self.v & PACKET_SEGMENT_START != 0
    }

    /// Whether the packet ends a segment.
    pub fn segment_end(&self) -> (r: bool)
        ensures
            r == (self.spec_bits() & PACKET_SEGMENT_END != 0),
    {
        self.v & PACKET_SEGMENT_END != 0
    }

    /// Whether the packet starts a stream.
    pub fn stream_start(&self) -> (r: bool)
        ensures
            r == (self.spec_bits() & PACKET_STREAM_START != 0),
    {
        self.v & PACKET_STREAM_START != 0
    }

    /// Whether the packet ends a stream.
    pub fn stream_end(&self) -> (r: bool)
        ensures
            r == (self.spec_bits() & PACKET_STREAM_END != 0),
    {
        self.v & PACKET_STREAM_END != 0
    }

    /// Marks the packet as start of a segment.
    pub fn set_segment_start(&mut self)
        ensures
            final(self).spec_bits() == old(self).spec_bits() | PACKET_SEGMENT_START,
    {
        self.v = self.v | PACKET_SEGMENT_START;
    }

    /// Marks the packet as end of a segment.
    pub fn set_segment_end(&mut self)
        ensures
            final(self).spec_bits() == old(self).spec_bits() | PACKET_SEGMENT_END,
    {
        self.v = self.v | PACKET_SEGMENT_END;
    }

    /// Marks the packet as start of a stream.
    pub fn set_stream_start(&mut self)
        ensures
            final(self).spec_bits() == old(self).spec_bits() | PACKET_STREAM_START,
    {
        self.v = self.v | PACKET_STREAM_START;
    }

    /// Marks the packet as end of a stream.
    pub fn set_stream_end(&mut self)
        ensures
            final(self).spec_bits() == old(self).spec_bits() | PACKET_STREAM_END,
    {
        self.v = self.v | PACKET_STREAM_END;
    }
}

impl Default for PacketFlags {
    /// The default flag word has every flag cleared.
    fn default() -> (r: Self)
        ensures
            r.spec_bits() == 0,
    {
        PacketFlags::new()
    }
}

/// Metadata of one streaming packet.  Times and frequencies are 64-bit float
/// fields of the vendor structure; they are carried here as their IEEE-754
/// bit patterns, untouched.  The sample buffer the vendor structure points
/// into is not part of this value: it is only valid until the packet is
/// consumed and stays with the shell that performs the foreign calls.
#[derive(Clone, Copy, Debug, PartialEq, Eq, Structural)]
pub struct Packet {
    pub stream_id: u64,
    pub flags: u64,
    pub start_time: u64,
    pub end_time: u64,
    pub start_frequency: u64,
    pub step_frequency: u64,
    pub span_frequency: u64,
    pub rbw_frequency: u64,
    pub num: i64,
    pub total: i64,
    pub size: i64,
    pub stride: i64,
}

impl Packet {
    /// A zeroed packet, as handed to the vendor fetch call to fill in.
    pub fn new() -> (r: Packet)
        ensures
            r == (Packet {
                stream_id: 0u64,
                flags: 0u64,
                start_time: 0u64,
                end_time: 0u64,
                start_frequency: 0u64,
                step_frequency: 0u64,
                span_frequency: 0u64,
                rbw_frequency: 0u64,
                num: 0i64,
                total: 0i64,
                size: 0i64,
                stride: 0i64,
            }),
    {
        Packet {
            stream_id: 0,
            flags: 0,
            start_time: 0,
            end_time: 0,
            start_frequency: 0,
            step_frequency: 0,
            span_frequency: 0,
            rbw_frequency: 0,
            num: 0,
            total: 0,
            size: 0,
            stride: 0,
        }
    }

    /// The stream this packet belongs to.
    pub fn stream_id(&self) -> (r: u64)
        ensures
            r == self.stream_id,
    {
        self.stream_id
    }

    /// The packet's flag word.
    pub fn flags(&self) -> (r: PacketFlags)
        ensures
            r.spec_bits() == self.flags,
    {
        PacketFlags::from_bits(self.flags)
    }

    /// Bit pattern of the packet start time.
    pub fn start_time(&self) -> (r: u64)
        ensures
            r == self.start_time,
    {
        self.start_time
    }

    /// Bit pattern of the packet end time.
    pub fn end_time(&self) -> (r: u64)
        ensures
            r == self.end_time,
    {
        self.end_time
    }

    /// Bit pattern of the packet start frequency.
    pub fn start_frequency(&self) -> (r: u64)
        ensures
            r == self.start_frequency,
    {
        self.start_frequency
    }

    /// Bit pattern of the packet step frequency.
    pub fn step_frequency(&self) -> (r: u64)
        ensures
            r == self.step_frequency,
    {
        self.step_frequency
    }

    /// Bit pattern of the packet span frequency.
    pub fn span_frequency(&self) -> (r: u64)
        ensures
            r == self.span_frequency,
    {
        self.span_frequency
    }

    /// Bit pattern of the packet real-time bandwidth.
    pub fn rbw_frequency(&self) -> (r: u64)
        ensures
            r == self.rbw_frequency,
    {
        self.rbw_frequency
    }

    /// Number of items in one stride.
    pub fn num(&self) -> (r: i64)
        ensures
            r == self.num,
    {
        self.num
    }

    /// Total number of items in the packet.
    pub fn total(&self) -> (r: i64)
        ensures
            r == self.total,
    {
        self.total
    }

    /// Total byte size of the packet.
    pub fn size(&self) -> (r: i64)
        ensures
            r == self.size,
    {
        self.size
    }

    /// Sample stride.
    pub fn stride(&self) -> (r: i64)
        ensures
            r == self.stride,
    {
        self.stride
    }
}

/// One answer of the non-blocking fetch primitive: its status code and the
/// packet metadata it filled in (meaningful only on success).
#[derive(Clone, Copy, Debug, PartialEq, Eq, Structural)]
pub struct PollResponse {
    pub code: u32,
    pub packet: Packet,
}

/// The outcome of a single non-blocking fetch: the packet on success, and
/// otherwise the mapped error — in particular, an "empty" queue comes back to
/// the caller as [`Error::Empty`] exactly once, with no retry.
pub fn try_packet_outcome(code: u32, packet: Packet) -> (r: Result<Packet, Error>)
    ensures
        code == 0 ==> r == Ok::<Packet, Error>(packet),
        code != 0 ==> r == Err::<Packet, Error>(err_spec(code)),
        code == 1 ==> r == Err::<Packet, Error>(Error::Empty),
{
    if code == 0 {
        Ok(packet)
    } else {
        Err(err_of(code))
    }
}

/// What a blocking fetch yields for a sequence of poll answers: the meaning
/// of the first answer that is not "empty".  While the queue answers "empty"
/// the fetch only waits and polls again; it never returns early on that
/// account.
pub open spec fn blocking_packet_spec(s: Seq<PollResponse>) -> Result<Packet, Error>
    decreases s.len(),
{
    if s.len() == 0 {
        Err(Error::Empty)
    } else if s[0].code == 1 {
        blocking_packet_spec(s.drop_first())
    } else if s[0].code == 0 {
        Ok(s[0].packet)
    } else {
        Err(err_spec(s[0].code))
    }
}

/// A leading "empty" answer never changes what a blocking fetch yields: the
/// fetch retries through any number of them instead of returning.
pub proof fn lemma_blocking_packet_ignores_empty(s: Seq<PollResponse>, p: Packet)
    ensures
        blocking_packet_spec(seq![PollResponse { code: 1u32, packet: p }] + s)
            == blocking_packet_spec(s),
{
    assert((seq![PollResponse { code: 1u32, packet: p }] + s).drop_first() =~= s);
}

/// `blocking_packet_spec` at the first non-empty answer.
proof fn lemma_blocking_packet_spec_at(s: Seq<PollResponse>, i: int)
    requires
        0 <= i < s.len(),
        forall|j: int| 0 <= j < i ==> s[j].code == 1,
        s[i].code != 1,
    ensures
        s[i].code == 0 ==> blocking_packet_spec(s) == Ok::<Packet, Error>(s[i].packet),
        s[i].code != 0 ==> blocking_packet_spec(s) == Err::<Packet, Error>(err_spec(s[i].code)),
    decreases i,
{
    if i > 0 {
        lemma_blocking_packet_spec_at(s.drop_first(), i - 1);
    }
}

/// The blocking fetch: polls the non-blocking primitive, waiting out every
/// "empty" answer (the shell sleeps a fixed short interval between polls),
/// and yields the meaning of the first other answer.  The wrapper imposes no
/// bound on the number of retries; the fetch returns only when the vendor
/// answers something other than "empty" (callers establish that some answer
/// does).
pub fn blocking_packet_outcome(responses: &Vec<PollResponse>) -> (r: Result<Packet, Error>)
    requires
        exists|i: int| 0 <= i < responses@.len() && responses@[i].code != 1,
    ensures
        r == blocking_packet_spec(responses@),
{
    let n = responses.len();
    let mut i: usize = 0;
    loop
        invariant
            n == responses@.len(),
            i <= n,
            forall|j: int| 0 <= j < i ==> responses@[j].code == 1,
            exists|k: int| 0 <= k < responses@.len() && responses@[k].code != 1,
        ensures
            i < responses@.len(),
            responses@[i as int].code != 1,
            forall|j: int| 0 <= j < i ==> responses@[j].code == 1,
        decreases responses@.len() - i,
    {
        proof {
            let k = choose|k: int| 0 <= k < responses@.len() && responses@[k].code != 1;
            assert(i < responses@.len());
        }
        if responses[i].code != 1 {
            break ;
        }
        i = i + 1;
    }
    proof {
        lemma_blocking_packet_spec_at(responses@, i as int);
    }
    let resp = &responses[i];
    if resp.code == 0 {
        Ok(resp.packet)
    } else {
        Err(err_of(resp.code))
    }
}

/// The outcome of the queue-depth query: the depth the vendor wrote on
/// success, and otherwise the mapped error.  The vendor reports a queue
/// depth, which is never negative.
pub fn packets_avail_outcome(code: u32, n: i32) -> (r: Result<usize, Error>)
    requires
        n >= 0,
    ensures
        code == 0 ==> r == Ok::<usize, Error>(n as usize),
        code != 0 ==> r == Err::<usize, Error>(err_spec(code)),
{
    if code == 0 {
        Ok(n as usize)
    } else {
        Err(err_of(code))
    }
}

/// The outcome of the master-stream-time query: the bit pattern of the time
/// the vendor wrote on success, and otherwise the mapped error.
pub fn clock_outcome(code: u32, value: u64) -> (r: Result<u64, Error>)
    ensures
        code == 0 ==> r == Ok::<u64, Error>(value),
        code != 0 ==> r == Err::<u64, Error>(err_spec(code)),
{
    if code == 0 {
        Ok(value)
    } else {
        Err(err_of(code))
    }
}

} // verus!
