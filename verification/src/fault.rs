//! Fault monitors.
//!
//! Two long-lived monitor tasks watch the I²C error interrupt line and the
//! DMA channel interrupt lines. On every invocation each monitor inspects a
//! snapshot of its error flags; any set flag is a fatal fault carrying a
//! specific reason. A monitor never completes: it either yields or raises a
//! fault, and the caller is expected to halt the program on a fault.

use vstd::prelude::*;

verus! {

/// The reason a fault monitor halts the program.
///
/// Every fault is unrecoverable by design: there is no retry and no caller
/// to report back to, and the hardware state is assumed unusable without a
/// full peripheral reset.
#[derive(Clone, Copy, Debug, PartialEq, Eq, Structural)]
pub enum Fault {
    /// A misplaced Start or Stop condition was detected on the bus.
    BusProtocolViolation,
    /// Multi-master arbitration was lost.
    ArbitrationLost,
    /// An expected ACK was not received from the slave.
    AcknowledgeFailure,
    /// The receive or transmit buffer was not serviced in time.
    DataOverrunUnderrun,
    /// SCL was held low beyond the 25 ms hardware limit.
    ClockTimeout,
    /// A DMA channel reported a transfer error.
    DmaTransferError,
    /// A DMA channel reported a direct-mode error.
    DmaDirectModeError,
    /// A DMA channel reported a FIFO error.
    DmaFifoError,
}

/// What one invocation of a fault-monitor task decides.
#[derive(Clone, Copy, Debug, PartialEq, Eq, Structural)]
pub enum MonitorStep {
    /// No error flag was set; keep the task installed and wait for the next
    /// invocation of the interrupt line.
    Yield,
    /// An error flag was set; the program must halt with this reason.
    Fatal(Fault),
}

/// A snapshot of the error flags of the I²C status register, taken once per
/// invocation of the error interrupt.
#[derive(Clone, Copy, Debug, PartialEq, Eq, Structural)]
pub struct I2CErrFlags {
    /// Bus error: misplaced Start or Stop condition.
    pub berr: bool,
    /// Arbitration lost.
    pub arlo: bool,
    /// Acknowledge failure.
    pub af: bool,
    /// Overrun or underrun.
    pub ovr: bool,
    /// SCL remained low for 25 ms.
    pub timeout: bool,
}

/// A snapshot of the error flags of one DMA channel, taken once per
/// invocation of the channel's interrupt.
#[derive(Clone, Copy, Debug, PartialEq, Eq, Structural)]
pub struct DmaErrFlags {
    /// Transfer error.
    pub teif: bool,
    /// Direct-mode error.
    pub dmeif: bool,
    /// FIFO error.
    pub feif: bool,
}

/// The decision of the I²C error monitor on a flag snapshot: the first set
/// flag, in the fixed order bus error, arbitration lost, acknowledge
/// failure, overrun/underrun, timeout, is fatal; otherwise the task yields.
pub open spec fn i2c_fault_spec(f: I2CErrFlags) -> MonitorStep {
    if f.berr {
        MonitorStep::Fatal(Fault::BusProtocolViolation)
    } else if f.arlo {
        MonitorStep::Fatal(Fault::ArbitrationLost)
    } else if f.af {
        MonitorStep::Fatal(Fault::AcknowledgeFailure)
    } else if f.ovr {
        MonitorStep::Fatal(Fault::DataOverrunUnderrun)
    } else if f.timeout {
        MonitorStep::Fatal(Fault::ClockTimeout)
    } else {
        MonitorStep::Yield
    }
}

/// The decision of a DMA error monitor on a flag snapshot: the first set
/// flag, in the fixed order transfer error, direct-mode error, FIFO error,
/// is fatal; otherwise the task yields.
pub open spec fn dma_fault_spec(f: DmaErrFlags) -> MonitorStep {
    if f.teif {
        MonitorStep::Fatal(Fault::DmaTransferError)
    } else if f.dmeif {
        MonitorStep::Fatal(Fault::DmaDirectModeError)
    } else if f.feif {
        MonitorStep::Fatal(Fault::DmaFifoError)
    } else {
        MonitorStep::Yield
    }
}

/// One invocation of the I²C error-monitor task.
pub fn handle_i2c_err(f: I2CErrFlags) -> (r: MonitorStep)
    ensures
        r == i2c_fault_spec(f),
{
    if f.berr {
        MonitorStep::Fatal(Fault::BusProtocolViolation)
    } else if f.arlo {
        MonitorStep::Fatal(Fault::ArbitrationLost)
    } else if f.af {
        MonitorStep::Fatal(Fault::AcknowledgeFailure)
    } else if f.ovr {
        MonitorStep::Fatal(Fault::DataOverrunUnderrun)
    } else if f.timeout {
        MonitorStep::Fatal(Fault::ClockTimeout)
    } else {
        MonitorStep::Yield
    }
}

/// One invocation of a DMA error-monitor task.
pub fn handle_dma_err(f: DmaErrFlags) -> (r: MonitorStep)
    ensures
        r == dma_fault_spec(f),
{
    if f.teif {
        MonitorStep::Fatal(Fault::DmaTransferError)
    } else if f.dmeif {
        MonitorStep::Fatal(Fault::DmaDirectModeError)
    } else if f.feif {
        MonitorStep::Fatal(Fault::DmaFifoError)
    } else {
        MonitorStep::Yield
    }
}

} // verus!
