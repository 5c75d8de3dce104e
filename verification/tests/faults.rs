//! The fault monitors: every fault kind surfaces from its flag, the first
//! set flag in the documented order decides, and re-invocation surfaces the
//! remaining flags in turn.

use smartoris_i2c::{
    handle_dma_err, handle_i2c_err, DmaErrFlags, Fault, I2CDrv, I2CErrFlags, I2CMode, I2CSetup,
    MasterGrant, MonitorStep, ReadPoll, RxEvent, RxPoll,
};

fn i2c_flags(berr: bool, arlo: bool, af: bool, ovr: bool, timeout: bool) -> I2CErrFlags {
    I2CErrFlags { berr, arlo, af, ovr, timeout }
}

fn dma_flags(teif: bool, dmeif: bool, feif: bool) -> DmaErrFlags {
    DmaErrFlags { teif, dmeif, feif }
}

#[test]
fn bus_error_is_fatal() {
    assert_eq!(
        handle_i2c_err(i2c_flags(true, false, false, false, false)),
        MonitorStep::Fatal(Fault::BusProtocolViolation)
    );
}

#[test]
fn arbitration_lost_is_fatal() {
    assert_eq!(
        handle_i2c_err(i2c_flags(false, true, false, false, false)),
        MonitorStep::Fatal(Fault::ArbitrationLost)
    );
}

#[test]
fn acknowledge_failure_is_fatal() {
    assert_eq!(
        handle_i2c_err(i2c_flags(false, false, true, false, false)),
        MonitorStep::Fatal(Fault::AcknowledgeFailure)
    );
}

#[test]
fn overrun_underrun_is_fatal() {
    assert_eq!(
        handle_i2c_err(i2c_flags(false, false, false, true, false)),
        MonitorStep::Fatal(Fault::DataOverrunUnderrun)
    );
}

#[test]
fn clock_timeout_is_fatal() {
    assert_eq!(
        handle_i2c_err(i2c_flags(false, false, false, false, true)),
        MonitorStep::Fatal(Fault::ClockTimeout)
    );
}

#[test]
fn dma_transfer_error_is_fatal() {
    assert_eq!(
        handle_dma_err(dma_flags(true, false, false)),
        MonitorStep::Fatal(Fault::DmaTransferError)
    );
}

#[test]
fn dma_direct_mode_error_is_fatal() {
    assert_eq!(
        handle_dma_err(dma_flags(false, true, false)),
        MonitorStep::Fatal(Fault::DmaDirectModeError)
    );
}

#[test]
fn dma_fifo_error_is_fatal() {
    assert_eq!(
        handle_dma_err(dma_flags(false, false, true)),
        MonitorStep::Fatal(Fault::DmaFifoError)
    );
}

#[test]
fn monitors_yield_with_no_flag_set() {
    assert_eq!(handle_i2c_err(i2c_flags(false, false, false, false, false)), MonitorStep::Yield);
    assert_eq!(handle_dma_err(dma_flags(false, false, false)), MonitorStep::Yield);
}

#[test]
fn first_checked_i2c_flag_wins_and_the_rest_surface_on_reinvocation() {
    // every flag set at once: exactly one fault per invocation, in order
    assert_eq!(
        handle_i2c_err(i2c_flags(true, true, true, true, true)),
        MonitorStep::Fatal(Fault::BusProtocolViolation)
    );
    assert_eq!(
        handle_i2c_err(i2c_flags(false, true, true, true, true)),
        MonitorStep::Fatal(Fault::ArbitrationLost)
    );
    assert_eq!(
        handle_i2c_err(i2c_flags(false, false, true, true, true)),
        MonitorStep::Fatal(Fault::AcknowledgeFailure)
    );
    assert_eq!(
        handle_i2c_err(i2c_flags(false, false, false, true, true)),
        MonitorStep::Fatal(Fault::DataOverrunUnderrun)
    );
    assert_eq!(
        handle_i2c_err(i2c_flags(false, false, false, false, true)),
        MonitorStep::Fatal(Fault::ClockTimeout)
    );
}

#[test]
fn first_checked_dma_flag_wins_and_the_rest_surface_on_reinvocation() {
    assert_eq!(
        handle_dma_err(dma_flags(true, true, true)),
        MonitorStep::Fatal(Fault::DmaTransferError)
    );
    assert_eq!(
        handle_dma_err(dma_flags(false, true, true)),
        MonitorStep::Fatal(Fault::DmaDirectModeError)
    );
    assert_eq!(
        handle_dma_err(dma_flags(false, false, true)),
        MonitorStep::Fatal(Fault::DmaFifoError)
    );
}

#[test]
fn receive_task_checks_errors_before_completion() {
    let drv = I2CDrv::init(I2CSetup {
        i2c_freq: 8,
        i2c_presc: 40,
        i2c_trise: 9,
        i2c_mode: I2CMode::Sm1,
        dma_tx_ch: 1,
        dma_tx_pl: 0,
        dma_rx_ch: 1,
        dma_rx_pl: 0,
    });
    let m = match drv.master(vec![0u8, 0]) {
        MasterGrant::Ready(m) => m,
        MasterGrant::Busy(_, _) => panic!("session refused while no stop was pending"),
    };
    let x = m.read(0x21, 0, 2);
    let x = match x.poll(smartoris_i2c::I2CEvent { sb: true, addr: false, btf: false, tra: false })
    {
        ReadPoll::Pending(x) => x,
        ReadPoll::Addressed(_) => panic!("segment completed on the start event"),
    };
    let a = match x.poll(smartoris_i2c::I2CEvent { sb: false, addr: true, btf: false, tra: false })
    {
        ReadPoll::Addressed(a) => a,
        ReadPoll::Pending(_) => panic!("receiver address phase did not complete"),
    };
    // an error flag wins even when the transfer-complete flag is set too
    match a.poll(RxEvent { err: dma_flags(true, false, false), tcif: true, data: vec![1, 2] }) {
        RxPoll::Fatal(f) => assert_eq!(f, Fault::DmaTransferError),
        _ => panic!("DMA error flag did not take the fatal path"),
    }
}
