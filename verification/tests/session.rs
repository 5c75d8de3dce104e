//! End-to-end session scenarios: the register trace and the buffer content
//! observed while a simulated slave answers the driver's events.

use smartoris_i2c::{
    DmaErrFlags, I2CDrv, I2CEvent, I2CMode, I2CSetup, MasterGrant, ReadPoll, RxEvent, RxPoll,
    TraceOp, WritePoll, I2CMaster, RxAwait,
};

fn setup() -> I2CSetup {
    I2CSetup {
        i2c_freq: 42,
        i2c_presc: 35,
        i2c_trise: 13,
        i2c_mode: I2CMode::Fm2,
        dma_tx_ch: 1,
        dma_tx_pl: 0b11,
        dma_rx_ch: 1,
        dma_rx_pl: 0b11,
    }
}

fn ev_sb() -> I2CEvent {
    I2CEvent { sb: true, addr: false, btf: false, tra: false }
}

fn ev_addr(tra: bool) -> I2CEvent {
    I2CEvent { sb: false, addr: true, btf: false, tra }
}

fn ev_btf() -> I2CEvent {
    I2CEvent { sb: false, addr: false, btf: true, tra: false }
}

fn ev_none() -> I2CEvent {
    I2CEvent { sb: false, addr: false, btf: false, tra: false }
}

fn no_err() -> DmaErrFlags {
    DmaErrFlags { teif: false, dmeif: false, feif: false }
}

fn must_ready(g: MasterGrant) -> I2CMaster {
    match g {
        MasterGrant::Ready(m) => m,
        MasterGrant::Busy(_, _) => panic!("session refused while no stop was pending"),
    }
}

/// Drives a write segment with the event sequence of a cooperative slave:
/// start generated, address acknowledged in transmitter direction, then the
/// final byte clears the shift register.
fn run_write(m: I2CMaster, addr: u8, lo: usize, hi: usize) -> I2CMaster {
    let mut x = m.write(addr, lo, hi);
    for ev in [ev_none(), ev_sb(), ev_addr(true), ev_btf()] {
        x = match x.poll(ev) {
            WritePoll::Pending(x) => x,
            WritePoll::Done(m) => return m,
        };
    }
    panic!("write segment did not complete");
}

/// Drives a read segment: repeated-start case first sees the pending
/// byte-transfer flag, then start, then address in receiver direction;
/// afterwards the DMA receive task completes with `data`.
fn run_read(m: I2CMaster, addr: u8, lo: usize, hi: usize, repeated: bool, data: Vec<u8>) -> I2CMaster {
    let mut x = m.read(addr, lo, hi);
    let events = if repeated {
        vec![ev_btf(), ev_sb(), ev_addr(false)]
    } else {
        vec![ev_sb(), ev_addr(false)]
    };
    let mut rx: Option<RxAwait> = None;
    for ev in events {
        x = match x.poll(ev) {
            ReadPoll::Pending(x) => x,
            ReadPoll::Addressed(a) => {
                rx = Some(a);
                break;
            }
        };
    }
    let a = rx.expect("read address phase did not complete");
    // first DMA invocation: nothing yet
    let a = match a.poll(RxEvent { err: no_err(), tcif: false, data: Vec::new() }) {
        RxPoll::Pending(a) => a,
        _ => panic!("receive completed before the transfer-complete flag"),
    };
    match a.poll(RxEvent { err: no_err(), tcif: true, data }) {
        RxPoll::Done(m) => m,
        _ => panic!("receive did not complete on the transfer-complete flag"),
    }
}

#[test]
fn four_byte_write_read_stop() {
    let drv = I2CDrv::init(setup());
    let buf = vec![0x92u8, 0, 0, 0];
    let m = must_ready(drv.master(buf));
    // the byte the armed transmit range hands to DMA
    assert_eq!(m.buf()[0], 0x92);
    let m = run_write(m, 0x39, 0, 1);
    let m = run_read(m, 0x39, 0, 4, true, vec![0xAA, 0xBB, 0xCC, 0xDD]);
    let (drv, buf) = m.stop();
    assert_eq!(buf, vec![0xAA, 0xBB, 0xCC, 0xDD]);
    let expected = vec![
        TraceOp::TxArm { off: 0, len: 1 },
        TraceOp::EvIntOn,
        TraceOp::AckClear,
        TraceOp::StartSet,
        TraceOp::DrWrite(0x39 << 1),
        TraceOp::EvIntOff,
        TraceOp::RxArm { off: 0, len: 4 },
        TraceOp::EvIntOn,
        TraceOp::AckSet,
        TraceOp::StartSet,
        TraceOp::DrWrite((0x39 << 1) | 1),
        TraceOp::RxTcifClear,
        TraceOp::StopSet,
    ];
    assert_eq!(drv.trace(), &expected);
}

#[test]
fn chained_read_observes_repeated_start_without_stop() {
    let drv = I2CDrv::init(setup());
    let m = must_ready(drv.master(vec![0x10u8, 0, 0]));
    let m = run_write(m, 0x50, 0, 1);
    let after_write = m.trace().len();
    let x = m.read(0x50, 1, 3);
    // arming the chained read generates neither Start nor Stop
    let armed: Vec<TraceOp> = x.trace()[after_write..].to_vec();
    assert_eq!(armed, vec![TraceOp::RxArm { off: 1, len: 2 }, TraceOp::EvIntOn]);
    // the pending byte-transfer event produces the repeated Start
    let x = match x.poll(ev_btf()) {
        ReadPoll::Pending(x) => x,
        ReadPoll::Addressed(_) => panic!("segment completed before its repeated start"),
    };
    let tail: Vec<TraceOp> = x.trace()[after_write..].to_vec();
    assert_eq!(
        tail,
        vec![
            TraceOp::RxArm { off: 1, len: 2 },
            TraceOp::EvIntOn,
            TraceOp::AckSet,
            TraceOp::StartSet,
        ]
    );
    assert!(!x.trace()[after_write..].contains(&TraceOp::StopSet));
}

#[test]
fn session_waits_for_prior_stop() {
    let drv = I2CDrv::init(setup());
    let m = must_ready(drv.master(vec![0x01u8]));
    let m = run_write(m, 0x2A, 0, 1);
    let (mut drv, buf) = m.stop();
    assert!(drv.stop_pending());
    // the stop has not physically completed: no new session, no bus activity
    let (mut drv, buf) = match drv.master(buf) {
        MasterGrant::Busy(d, b) => (d, b),
        MasterGrant::Ready(_) => panic!("session granted while stop was pending"),
    };
    let starts_before = drv.trace().iter().filter(|op| **op == TraceOp::StartSet).count();
    drv.finish_stop();
    assert!(!drv.stop_pending());
    let m = must_ready(drv.master(buf));
    let m = run_write(m, 0x2A, 0, 1);
    let starts_after = m.trace().iter().filter(|op| **op == TraceOp::StartSet).count();
    assert_eq!(starts_before + 1, starts_after);
    let (_, _) = m.stop();
}

#[test]
fn single_byte_read_clears_ack_before_start() {
    let drv = I2CDrv::init(setup());
    let m = must_ready(drv.master(vec![0u8, 0]));
    let x = m.read(0x44, 0, 1);
    assert_eq!(
        x.trace(),
        &vec![
            TraceOp::RxArm { off: 0, len: 1 },
            TraceOp::EvIntOn,
            TraceOp::AckClear,
            TraceOp::StartSet,
        ]
    );
}

#[test]
fn multi_byte_read_sets_ack_before_start() {
    let drv = I2CDrv::init(setup());
    let m = must_ready(drv.master(vec![0u8, 0, 0]));
    let x = m.read(0x44, 0, 3);
    assert_eq!(
        x.trace(),
        &vec![
            TraceOp::RxArm { off: 0, len: 3 },
            TraceOp::EvIntOn,
            TraceOp::AckSet,
            TraceOp::StartSet,
        ]
    );
}

#[test]
fn read_fills_only_the_armed_range() {
    let drv = I2CDrv::init(setup());
    let m = must_ready(drv.master(vec![0x92u8, 0, 0, 0]));
    let m = run_read(m, 0x39, 1, 4, false, vec![0xDE, 0xAD, 0xBE]);
    let (_, buf) = m.stop();
    assert_eq!(buf, vec![0x92, 0xDE, 0xAD, 0xBE]);
}

#[test]
fn first_segment_write_generates_immediate_start() {
    let drv = I2CDrv::init(setup());
    let m = must_ready(drv.master(vec![7u8, 8]));
    let x = m.write(0x08, 0, 2);
    assert_eq!(
        x.trace(),
        &vec![
            TraceOp::TxArm { off: 0, len: 2 },
            TraceOp::EvIntOn,
            TraceOp::AckClear,
            TraceOp::StartSet,
        ]
    );
}

#[test]
fn idle_event_yields_and_touches_nothing() {
    let drv = I2CDrv::init(setup());
    let m = must_ready(drv.master(vec![1u8]));
    let x = m.write(0x10, 0, 1);
    let before = x.trace().clone();
    let x = match x.poll(ev_none()) {
        WritePoll::Pending(x) => x,
        WritePoll::Done(_) => panic!("segment completed on an empty status snapshot"),
    };
    assert_eq!(x.trace(), &before);
}

#[test]
fn address_phase_in_transmitter_direction_yields() {
    let drv = I2CDrv::init(setup());
    let m = must_ready(drv.master(vec![1u8]));
    let x = m.write(0x10, 0, 1);
    let x = match x.poll(ev_sb()) {
        WritePoll::Pending(x) => x,
        WritePoll::Done(_) => panic!("segment completed on the start event"),
    };
    match x.poll(ev_addr(true)) {
        WritePoll::Pending(_) => {}
        WritePoll::Done(_) => panic!("write segment completed at the address phase"),
    }
}

#[test]
fn buffer_accessors_reach_the_session_buffer() {
    let drv = I2CDrv::init(setup());
    let mut m = must_ready(drv.master(vec![1u8, 2, 3]));
    assert_eq!(m.buf(), &vec![1u8, 2, 3]);
    m.buf_mut()[1] = 9;
    assert_eq!(m.buf(), &vec![1u8, 9, 3]);
    let (_, buf) = m.stop();
    assert_eq!(buf, vec![1u8, 9, 3]);
}

#[test]
fn write_address_byte_carries_cleared_rw_bit() {
    let drv = I2CDrv::init(setup());
    let m = must_ready(drv.master(vec![5u8]));
    let x = m.write(0x7F, 0, 1);
    let x = match x.poll(ev_sb()) {
        WritePoll::Pending(x) => x,
        WritePoll::Done(_) => panic!("segment completed on the start event"),
    };
    assert_eq!(x.trace().last(), Some(&TraceOp::DrWrite(0xFE)));
}

#[test]
fn read_address_byte_carries_set_rw_bit() {
    let drv = I2CDrv::init(setup());
    let m = must_ready(drv.master(vec![5u8, 6]));
    let x = m.read(0x7F, 0, 2);
    let x = match x.poll(ev_sb()) {
        ReadPoll::Pending(x) => x,
        ReadPoll::Addressed(_) => panic!("segment completed on the start event"),
    };
    assert_eq!(x.trace().last(), Some(&TraceOp::DrWrite(0xFF)));
}
