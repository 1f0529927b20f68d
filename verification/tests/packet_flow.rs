use aaronia_rtsa::packets::{
    blocking_packet_outcome, clock_outcome, packets_avail_outcome, try_packet_outcome,
    PollResponse,
};
use aaronia_rtsa::{Error, Packet, PacketFlags};

fn tagged(stream_id: u64) -> Packet {
    let mut p = Packet::new();
    p.stream_id = stream_id;
    p
}

#[test]
fn try_packet_surfaces_empty_exactly_once() {
    let r = try_packet_outcome(1, Packet::new());
    assert_eq!(r, Err(Error::Empty));
}

#[test]
fn try_packet_delivers_on_success() {
    let p = tagged(7);
    assert_eq!(try_packet_outcome(0, p), Ok(p));
}

#[test]
fn try_packet_propagates_hard_errors() {
    assert_eq!(try_packet_outcome(0x80000008, Packet::new()), Err(Error::ErrorInvalidChannel));
}

#[test]
fn blocking_fetch_waits_out_empty_answers() {
    let responses = vec![
        PollResponse { code: 1, packet: Packet::new() },
        PollResponse { code: 1, packet: Packet::new() },
        PollResponse { code: 1, packet: Packet::new() },
        PollResponse { code: 0, packet: tagged(9) },
    ];
    assert_eq!(blocking_packet_outcome(&responses), Ok(tagged(9)));
}

#[test]
fn blocking_fetch_aborts_on_any_other_error() {
    let responses = vec![
        PollResponse { code: 1, packet: Packet::new() },
        PollResponse { code: 0x80000008, packet: Packet::new() },
    ];
    assert_eq!(blocking_packet_outcome(&responses), Err(Error::ErrorInvalidChannel));
}

#[test]
fn flags_set_and_query() {
    let mut f = PacketFlags::new();
    assert!(!f.segment_start() && !f.segment_end() && !f.stream_start() && !f.stream_end());
    f.set_segment_start();
    f.set_stream_end();
    assert!(f.segment_start());
    assert!(!f.segment_end());
    assert!(!f.stream_start());
    assert!(f.stream_end());
    assert_eq!(f.bits(), 0x1 | 0x8);
}

#[test]
fn flags_round_trip_through_bits() {
    let mut f = PacketFlags::new();
    f.set_segment_end();
    f.set_stream_start();
    let raw = f.bits();
    let g = PacketFlags::from_bits(raw);
    assert!(!g.segment_start());
    assert!(g.segment_end());
    assert!(g.stream_start());
    assert!(!g.stream_end());
}

#[test]
fn default_flags_are_cleared() {
    let f = PacketFlags::default();
    assert_eq!(f.bits(), 0);
}

#[test]
fn packet_getters_report_the_fields() {
    let mut p = Packet::new();
    p.stream_id = 3;
    p.flags = 0x5;
    p.start_time = 1.5f64.to_bits();
    p.end_time = 2.5f64.to_bits();
    p.start_frequency = 100.0f64.to_bits();
    p.step_frequency = 0.5f64.to_bits();
    p.span_frequency = 20.0f64.to_bits();
    p.rbw_frequency = 1.0f64.to_bits();
    p.num = 1024;
    p.total = 4096;
    p.size = 8192;
    p.stride = 2;
    assert_eq!(p.stream_id(), 3);
    assert!(p.flags().segment_start());
    assert!(p.flags().stream_start());
    assert_eq!(f64::from_bits(p.start_time()), 1.5);
    assert_eq!(f64::from_bits(p.end_time()), 2.5);
    assert_eq!(f64::from_bits(p.start_frequency()), 100.0);
    assert_eq!(f64::from_bits(p.step_frequency()), 0.5);
    assert_eq!(f64::from_bits(p.span_frequency()), 20.0);
    assert_eq!(f64::from_bits(p.rbw_frequency()), 1.0);
    assert_eq!(p.num(), 1024);
    assert_eq!(p.total(), 4096);
    assert_eq!(p.size(), 8192);
    assert_eq!(p.stride(), 2);
}

#[test]
fn queue_depth_query() {
    assert_eq!(packets_avail_outcome(0, 12), Ok(12));
    assert_eq!(packets_avail_outcome(0x80000008, 0), Err(Error::ErrorInvalidChannel));
}

#[test]
fn clock_query() {
    let bits = 1.25f64.to_bits();
    assert_eq!(clock_outcome(0, bits), Ok(bits));
    assert_eq!(clock_outcome(0x80000001, bits), Err(Error::ErrorNotInitialized));
}
