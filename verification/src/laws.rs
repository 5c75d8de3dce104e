//! Bus-ordering laws of the driver, proved over the register-transition
//! specifications that the executable functions are verified against.

use vstd::prelude::*;

use crate::drv::{
    ack_op, event_step_spec, master_grants, rx_arm_spec, rx_done_spec, segment_done_spec,
    start_arm_spec, stop_spec, tx_arm_spec, DrvView, I2CEvent, StartTask, TraceOp,
};
use crate::fault::{dma_fault_spec, i2c_fault_spec, DmaErrFlags, Fault, I2CErrFlags, MonitorStep};

verus! {

/// A segment chained onto an owned bus re-uses that ownership via a
/// repeated Start: arming the next read appends no Start and no Stop
/// operation, and the deferred Start is generated by the byte-transfer
/// event that ends the previous write — so between the two segments the
/// trace holds no Stop, and the next Start is a repeated one.
pub proof fn lemma_chained_read_repeated_start(
    d: DrvView,
    ack: bool,
    lo: usize,
    len: usize,
    ev: I2CEvent,
)
    requires
        d.owned,
        !ev.sb,
        !ev.addr,
        ev.btf,
    ensures
        ({
            let armed = start_arm_spec(rx_arm_spec(d, lo, len), ack);
            let t = StartTask { addr: 0, ack, repeated: true };
            let stepped = event_step_spec(t, armed, ev);
            &&& armed.trace == d.trace.push(TraceOp::RxArm { off: lo, len }).push(
                TraceOp::EvIntOn,
            )
            &&& stepped.trace == armed.trace.push(ack_op(ack)).push(TraceOp::StartSet)
            &&& stepped.trace.last() == TraceOp::StartSet
            &&& forall|i: int|
                d.trace.len() <= i < stepped.trace.len() ==> stepped.trace[i]
                    != TraceOp::StopSet
        }),
{
    let armed = start_arm_spec(rx_arm_spec(d, lo, len), ack);
    let t = StartTask { addr: 0, ack, repeated: true };
    let stepped = event_step_spec(t, armed, ev);
    assert forall|i: int| d.trace.len() <= i < stepped.trace.len() implies stepped.trace[i]
        != TraceOp::StopSet by {
        assert(stepped.trace == d.trace.push(TraceOp::RxArm { off: lo, len }).push(
            TraceOp::EvIntOn,
        ).push(ack_op(ack)).push(TraceOp::StartSet));
    }
}

/// The Start-generation bit is never set while a previous session's Stop
/// generation is still pending: a session is granted only once the Stop
/// bit has fallen, and no transaction operation raises the Stop bit — only
/// the session's own release does, after which no transfer is reachable.
pub proof fn lemma_no_start_while_stop_pending(
    d: DrvView,
    t: StartTask,
    ack: bool,
    lo: usize,
    len: usize,
    ev: I2CEvent,
)
    ensures
        d.stop ==> !master_grants(d),
        tx_arm_spec(d, lo, len).stop == d.stop,
        rx_arm_spec(d, lo, len).stop == d.stop,
        start_arm_spec(d, ack).stop == d.stop,
        event_step_spec(t, d, ev).stop == d.stop,
        segment_done_spec(d).stop == d.stop,
        rx_done_spec(d).stop == d.stop,
{
}

/// Before a receive segment's Start is generated, the ACK-enable bit is
/// programmed from the expected length — cleared for a single byte (the
/// master NACKs after it), set for more than one — and the ACK write
/// immediately precedes the Start write, whether the Start is immediate
/// (bus free) or deferred to the byte-transfer event (repeated Start).
pub proof fn lemma_ack_before_start(d: DrvView, lo: usize, len: usize, ev: I2CEvent)
    ensures
        ({
            let ack = len > 1;
            let armed = start_arm_spec(rx_arm_spec(d, lo, len), ack);
            &&& !d.owned ==> armed.trace == d.trace.push(TraceOp::RxArm { off: lo, len }).push(
                TraceOp::EvIntOn,
            ).push(ack_op(ack)).push(TraceOp::StartSet)
            &&& !d.owned ==> armed.ack == (len > 1) && armed.start
            &&& d.owned ==> armed.trace == d.trace.push(TraceOp::RxArm { off: lo, len }).push(
                TraceOp::EvIntOn,
            ) && armed.start == d.start
            &&& (d.owned && !ev.sb && !ev.addr && ev.btf) ==> ({
                let t = StartTask { addr: 0, ack, repeated: true };
                let stepped = event_step_spec(t, armed, ev);
                &&& stepped.trace == armed.trace.push(ack_op(ack)).push(TraceOp::StartSet)
                &&& stepped.ack == (len > 1)
                &&& stepped.start
            })
            &&& ack_op(len > 1) == if len > 1 {
                TraceOp::AckSet
            } else {
                TraceOp::AckClear
            }
        }),
{
}

/// No transfer operation ever generates a Stop condition: arming either
/// DMA channel, beginning a segment, stepping the event task and completing
/// a receive leave every earlier trace entry in place and append no Stop —
/// the only Stop in a session's trace is the one its release appends last.
pub proof fn lemma_transfers_append_no_stop(
    d: DrvView,
    t: StartTask,
    ack: bool,
    lo: usize,
    len: usize,
    ev: I2CEvent,
)
    ensures
        ({
            let dt = tx_arm_spec(d, lo, len);
            dt.trace.take(d.trace.len() as int) == d.trace && forall|i: int|
                d.trace.len() <= i < dt.trace.len() ==> dt.trace[i] != TraceOp::StopSet
        }),
        ({
            let dr = rx_arm_spec(d, lo, len);
            dr.trace.take(d.trace.len() as int) == d.trace && forall|i: int|
                d.trace.len() <= i < dr.trace.len() ==> dr.trace[i] != TraceOp::StopSet
        }),
        ({
            let ds = start_arm_spec(d, ack);
            ds.trace.take(d.trace.len() as int) == d.trace && forall|i: int|
                d.trace.len() <= i < ds.trace.len() ==> ds.trace[i] != TraceOp::StopSet
        }),
        ({
            let de = event_step_spec(t, d, ev);
            de.trace.take(d.trace.len() as int) == d.trace && forall|i: int|
                d.trace.len() <= i < de.trace.len() ==> de.trace[i] != TraceOp::StopSet
        }),
        rx_done_spec(d).trace == d.trace.push(TraceOp::RxTcifClear),
        segment_done_spec(d).trace == d.trace,
        stop_spec(d).trace == d.trace.push(TraceOp::StopSet),
{
    let n = d.trace.len() as int;
    assert(tx_arm_spec(d, lo, len).trace.take(n) =~= d.trace);
    assert(rx_arm_spec(d, lo, len).trace.take(n) =~= d.trace);
    assert(start_arm_spec(d, ack).trace.take(n) =~= d.trace);
    assert(event_step_spec(t, d, ev).trace.take(n) =~= d.trace);
}

/// A fault monitor decides each invocation exactly once: any set error
/// flag is fatal, the first set flag in the documented order gives the
/// reason, and with every flag clear the monitor yields. Re-invoked after
/// the leading flag has cleared, the next set flag surfaces in turn.
pub proof fn lemma_fault_monitors_decide(i: I2CErrFlags, m: DmaErrFlags)
    ensures
        (i2c_fault_spec(i) is Fatal) <==> (i.berr || i.arlo || i.af || i.ovr || i.timeout),
        (i2c_fault_spec(i) is Yield) <==> !(i.berr || i.arlo || i.af || i.ovr || i.timeout),
        i.berr ==> i2c_fault_spec(i) == MonitorStep::Fatal(Fault::BusProtocolViolation),
        !i.berr && i.arlo ==> i2c_fault_spec(i) == MonitorStep::Fatal(Fault::ArbitrationLost),
        !i.berr && !i.arlo && i.af ==> i2c_fault_spec(i) == MonitorStep::Fatal(
            Fault::AcknowledgeFailure,
        ),
        !i.berr && !i.arlo && !i.af && i.ovr ==> i2c_fault_spec(i) == MonitorStep::Fatal(
            Fault::DataOverrunUnderrun,
        ),
        !i.berr && !i.arlo && !i.af && !i.ovr && i.timeout ==> i2c_fault_spec(i)
            == MonitorStep::Fatal(Fault::ClockTimeout),
        (dma_fault_spec(m) is Fatal) <==> (m.teif || m.dmeif || m.feif),
        m.teif ==> dma_fault_spec(m) == MonitorStep::Fatal(Fault::DmaTransferError),
        !m.teif && m.dmeif ==> dma_fault_spec(m) == MonitorStep::Fatal(
            Fault::DmaDirectModeError,
        ),
        !m.teif && !m.dmeif && m.feif ==> dma_fault_spec(m) == MonitorStep::Fatal(
            Fault::DmaFifoError,
        ),
{
}

} // verus!
