//! The master session: the caller-facing object for one bus-ownership
//! period, bounded by Start and Stop.
//!
//! A session owns the driver and a byte buffer for its whole lifetime, so
//! at most one session exists per driver and no other code can touch the
//! registers while it lives. `write` and `read` each begin one
//! direction-segment and hand back a transfer object; the segment advances
//! only through that object's poll calls, each fed one status snapshot by
//! the interrupt dispatcher, so at most one transfer is ever in flight.
//! `stop` consumes the session, generates the Stop condition and returns
//! the driver and the buffer; a second `stop` on the same session is
//! impossible by construction.

use vstd::prelude::*;

use crate::drv::{
    event_done_spec, event_step_spec, rx_arm_spec, rx_done_spec, segment_done_spec,
    start_arm_spec, stop_spec, tx_arm_spec, DrvView, I2CDrv, I2CEvent, StartTask, TraceOp,
};
use crate::fault::{dma_fault_spec, handle_dma_err, DmaErrFlags, Fault, MonitorStep};

verus! {

/// The ghost image of a master session: the driver's state and the content
/// of the session buffer.
pub ghost struct MasterView {
    /// The driver's registers and trace.
    pub drv: DrvView,
    /// The session buffer.
    pub buf: Seq<u8>,
}

/// The ghost image of an in-flight write segment.
pub ghost struct WriteXferView {
    /// The driver's registers and trace.
    pub drv: DrvView,
    /// The session buffer.
    pub buf: Seq<u8>,
    /// What the event task captured for this segment.
    pub task: StartTask,
}

/// The ghost image of an in-flight read segment in its address phase.
pub ghost struct ReadXferView {
    /// The driver's registers and trace.
    pub drv: DrvView,
    /// The session buffer.
    pub buf: Seq<u8>,
    /// What the event task captured for this segment.
    pub task: StartTask,
    /// Start of the armed buffer range.
    pub lo: usize,
    /// End of the armed buffer range.
    pub hi: usize,
}

/// The ghost image of a read segment awaiting its DMA completion.
pub ghost struct RxAwaitView {
    /// The driver's registers and trace.
    pub drv: DrvView,
    /// The session buffer.
    pub buf: Seq<u8>,
    /// Start of the armed buffer range.
    pub lo: usize,
    /// End of the armed buffer range.
    pub hi: usize,
}

/// The address byte of a write segment: the 7-bit address shifted left,
/// read/write bit clear.
pub open spec fn wr_addr_byte(addr: u8) -> u8
    recommends
        addr < 128,
{
    (2 * addr) as u8
}

/// The address byte of a read segment: the 7-bit address shifted left,
/// read/write bit set.
pub open spec fn rd_addr_byte(addr: u8) -> u8
    recommends
        addr < 128,
{
    (2 * addr + 1) as u8
}

/// A buffer with `data` written over the range starting at `lo`, all other
/// bytes unchanged.
pub open spec fn splice(buf: Seq<u8>, lo: int, data: Seq<u8>) -> Seq<u8> {
    buf.take(lo) + data + buf.skip(lo + data.len())
}

/// What a session request yields: a session once no Stop is pending, or
/// the driver and buffer handed back while a previous session's Stop is
/// still completing on the wire.
pub enum MasterGrant {
    /// The bus is free of pending Stop generation; the session may begin.
    Ready(I2CMaster),
    /// A previous Stop is still completing; retry once the interrupt
    /// dispatcher has reported it done via `I2CDrv::finish_stop`.
    Busy(I2CDrv, Vec<u8>),
}

/// One poll outcome of a write segment.
pub enum WritePoll {
    /// The segment is still in its address or data phase.
    Pending(WriteXfer),
    /// The final byte has cleared the shift register; the session may
    /// chain another segment or stop.
    Done(I2CMaster),
}

/// One poll outcome of a read segment's address phase.
pub enum ReadPoll {
    /// The address phase has not completed yet.
    Pending(ReadXfer),
    /// The address phase ended in receiver direction; DMA now delivers the
    /// bytes, awaited through the returned object.
    Addressed(RxAwait),
}

/// One poll outcome of a read segment's DMA completion phase.
pub enum RxPoll {
    /// The transfer-complete flag is not set yet.
    Pending(RxAwait),
    /// The transfer completed; the received bytes stand in the armed
    /// buffer range.
    Done(I2CMaster),
    /// A DMA error flag was set; the program must halt with this reason.
    Fatal(Fault),
}

/// I²C master session. Owns the driver and the session buffer; the buffer
/// is returned by [`I2CMaster::stop`].
pub struct I2CMaster {
    drv: I2CDrv,
    buf: Vec<u8>,
}

/// An in-flight write segment: transmit DMA armed, event task running.
pub struct WriteXfer {
    drv: I2CDrv,
    buf: Vec<u8>,
    task: StartTask,
}

/// An in-flight read segment in its address phase: receive DMA armed,
/// event task running.
pub struct ReadXfer {
    drv: I2CDrv,
    buf: Vec<u8>,
    task: StartTask,
    lo: usize,
    hi: usize,
}

/// A read segment past its address phase, awaiting the receive DMA
/// transfer-complete flag.
pub struct RxAwait {
    drv: I2CDrv,
    buf: Vec<u8>,
    lo: usize,
    hi: usize,
}

/// What one invocation of the receive DMA interrupt hands to
/// [`RxAwait::poll`]: the channel's error flags, the transfer-complete
/// flag, and — when the transfer completed — the bytes the channel wrote
/// to memory.
pub struct RxEvent {
    /// The channel's error flags, checked before completion.
    pub err: DmaErrFlags,
    /// Transfer complete.
    pub tcif: bool,
    /// The bytes delivered to the armed range; meaningful only with
    /// `tcif`, where the channel has moved exactly the armed item count.
    pub data: Vec<u8>,
}

impl View for I2CMaster {
    type V = MasterView;

    closed spec fn view(&self) -> MasterView {
        MasterView { drv: self.drv@, buf: self.buf@ }
    }
}

impl View for WriteXfer {
    type V = WriteXferView;

    closed spec fn view(&self) -> WriteXferView {
        WriteXferView { drv: self.drv@, buf: self.buf@, task: self.task }
    }
}

impl View for ReadXfer {
    type V = ReadXferView;

    closed spec fn view(&self) -> ReadXferView {
        ReadXferView {
            drv: self.drv@,
            buf: self.buf@,
            task: self.task,
            lo: self.lo,
            hi: self.hi,
        }
    }
}

impl View for RxAwait {
    type V = RxAwaitView;

    closed spec fn view(&self) -> RxAwaitView {
        RxAwaitView { drv: self.drv@, buf: self.buf@, lo: self.lo, hi: self.hi }
    }
}

impl I2CDrv {
    /// Requests a new master session backed by `buf`.
    ///
    /// A session begins only once any previous Stop generation has
    /// physically completed: while the Stop bit is still set the driver
    /// and the buffer are handed back unchanged, and the caller retries
    /// after [`I2CDrv::finish_stop`]. This is what keeps a new Start from
    /// ever being generated while a prior session's Stop is active.
    pub fn master(self, buf: Vec<u8>) -> (r: MasterGrant)
        ensures
            !self@.stop ==> (r matches MasterGrant::Ready(m) && m@.drv == self@ && m@.buf
                == buf@),
            self@.stop ==> (r matches MasterGrant::Busy(d, b) && d@ == self@ && b@ == buf@),
    {
        if self.stop_pending() {
            MasterGrant::Busy(self, buf)
        } else {
            MasterGrant::Ready(I2CMaster::new(self, buf))
        }
    }
}

impl I2CMaster {
    pub(crate) fn new(drv: I2CDrv, buf: Vec<u8>) -> (m: I2CMaster)
        ensures
            m@.drv == drv@,
            m@.buf == buf@,
    {
        I2CMaster { drv, buf }
    }

    /// Begins a write segment: arms the transmit DMA channel over
    /// `lo .. hi` of the session buffer, then begins the address phase for
    /// `addr` with the read/write bit clear and ACK disabled. The segment
    /// advances through [`WriteXfer::poll`].
    pub fn write(self, addr: u8, lo: usize, hi: usize) -> (x: WriteXfer)
        requires
            addr < 128,
            lo < hi,
            hi <= self@.buf.len(),
        ensures
            x@.buf == self@.buf,
            x@.task == (StartTask {
                addr: wr_addr_byte(addr),
                ack: false,
                repeated: self@.drv.owned,
            }),
            x@.drv == start_arm_spec(tx_arm_spec(self@.drv, lo, (hi - lo) as usize), false),
    {
        let I2CMaster { mut drv, buf } = self;
        drv.dma_tx(lo, hi - lo);
        let task = drv.start(addr * 2, false);
        WriteXfer { drv, buf, task }
    }

    /// Begins a read segment: arms the receive DMA channel over
    /// `lo .. hi` of the session buffer, then begins the address phase for
    /// `addr` with the read/write bit set. ACK is enabled exactly when
    /// more than one byte is expected; for a single byte it is disabled so
    /// the master NACKs after that byte. The segment advances through
    /// [`ReadXfer::poll`].
    pub fn read(self, addr: u8, lo: usize, hi: usize) -> (x: ReadXfer)
        requires
            addr < 128,
            lo < hi,
            hi <= self@.buf.len(),
        ensures
            x@.buf == self@.buf,
            x@.lo == lo,
            x@.hi == hi,
            x@.task == (StartTask {
                addr: rd_addr_byte(addr),
                ack: hi - lo > 1,
                repeated: self@.drv.owned,
            }),
            x@.drv == start_arm_spec(
                rx_arm_spec(self@.drv, lo, (hi - lo) as usize),
                hi - lo > 1,
            ),
    {
        let I2CMaster { mut drv, buf } = self;
        let len = hi - lo;
        drv.dma_rx(lo, len);
        let task = drv.start(addr * 2 + 1, len > 1);
        ReadXfer { drv, buf, task, lo, hi }
    }

    /// A reference to the session buffer.
    #[must_use]
    pub fn buf(&self) -> (r: &Vec<u8>)
        ensures
            r@ == self@.buf,
    {
        &self.buf
    }

    /// A mutable reference to the session buffer. Only the buffer can
    /// change through it; the driver's registers and trace stay as they
    /// are.
    #[must_use]
    pub fn buf_mut(&mut self) -> (r: &mut Vec<u8>)
        ensures
            (*r)@ == old(self)@.buf,
            final(self)@.buf == (*final(r))@,
            final(self)@.drv == old(self)@.drv,
    {
        &mut self.buf
    }

    /// The transaction-phase register operations performed so far.
    pub fn trace(&self) -> (r: &Vec<TraceOp>)
        ensures
            r@ == self@.drv.trace,
    {
        self.drv.trace()
    }

    /// Releases the bus: sets the Stop-generation bit and returns the
    /// driver and the session buffer. Consuming the session makes a second
    /// `stop` for the same bus-ownership period impossible. The physical
    /// Stop completion is checked lazily at the next session request.
    #[must_use]
    pub fn stop(self) -> (r: (I2CDrv, Vec<u8>))
        ensures
            r.0@ == stop_spec(self@.drv),
            r.1@ == self@.buf,
    {
        let I2CMaster { mut drv, buf } = self;
        drv.stop();
        (drv, buf)
    }
}

impl WriteXfer {
    /// One invocation of the event-interrupt task for this write segment,
    /// on the status snapshot `ev`.
    pub fn poll(self, ev: I2CEvent) -> (r: WritePoll)
        ensures
            r is Done <==> event_done_spec(self@.task, ev),
            r matches WritePoll::Pending(x) ==> x@.task == self@.task && x@.buf == self@.buf
                && x@.drv == event_step_spec(self@.task, self@.drv, ev),
            r matches WritePoll::Done(m) ==> m@.buf == self@.buf && m@.drv
                == segment_done_spec(event_step_spec(self@.task, self@.drv, ev)),
    {
        let WriteXfer { mut drv, buf, task } = self;
        let done = drv.event_step(task, ev);
        if done {
            drv.segment_done();
            WritePoll::Done(I2CMaster { drv, buf })
        } else {
            WritePoll::Pending(WriteXfer { drv, buf, task })
        }
    }

    /// The transaction-phase register operations performed so far.
    pub fn trace(&self) -> (r: &Vec<TraceOp>)
        ensures
            r@ == self@.drv.trace,
    {
        self.drv.trace()
    }
}

impl ReadXfer {
    /// The armed range lies inside the session buffer. Established by
    /// [`I2CMaster::read`] and preserved by every poll.
    pub open spec fn wf(&self) -> bool {
        self@.lo <= self@.hi <= self@.buf.len()
    }

    /// One invocation of the event-interrupt task for this read segment,
    /// on the status snapshot `ev`. Once the address phase ends in
    /// receiver direction, the DMA completion is awaited through the
    /// returned [`RxAwait`] — sequenced after the address phase, never
    /// concurrently, because hardware delivers no byte before it.
    pub fn poll(self, ev: I2CEvent) -> (r: ReadPoll)
        requires
            self.wf(),
        ensures
            r is Addressed <==> event_done_spec(self@.task, ev),
            r matches ReadPoll::Pending(x) ==> x@.task == self@.task && x@.buf == self@.buf
                && x@.lo == self@.lo && x@.hi == self@.hi && x.wf()
                && x@.drv == event_step_spec(self@.task, self@.drv, ev),
            r matches ReadPoll::Addressed(a) ==> a@.buf == self@.buf && a@.lo == self@.lo
                && a@.hi == self@.hi && a.wf()
                && a@.drv == segment_done_spec(event_step_spec(self@.task, self@.drv, ev)),
    {
        let ReadXfer { mut drv, buf, task, lo, hi } = self;
        let done = drv.event_step(task, ev);
        if done {
            drv.segment_done();
            ReadPoll::Addressed(RxAwait { drv, buf, lo, hi })
        } else {
            ReadPoll::Pending(ReadXfer { drv, buf, task, lo, hi })
        }
    }

    /// The transaction-phase register operations performed so far.
    pub fn trace(&self) -> (r: &Vec<TraceOp>)
        ensures
            r@ == self@.drv.trace,
    {
        self.drv.trace()
    }
}

impl RxAwait {
    /// The armed range lies inside the session buffer.
    pub open spec fn wf(&self) -> bool {
        self@.lo <= self@.hi <= self@.buf.len()
    }

    /// One invocation of the receive DMA interrupt task. Error flags are
    /// checked first and are fatal; then, if the transfer completed, the
    /// flag is cleared, the delivered bytes stand in the armed range of
    /// the session buffer, and the read segment is done.
    pub fn poll(self, ev: RxEvent) -> (r: RxPoll)
        requires
            self.wf(),
            ev.tcif ==> ev.data@.len() == self@.hi - self@.lo,
        ensures
            dma_fault_spec(ev.err) matches MonitorStep::Fatal(f) ==> r == RxPoll::Fatal(f),
            dma_fault_spec(ev.err) is Yield && !ev.tcif ==> (r matches RxPoll::Pending(x)
                && x@ == self@ && x.wf()),
            dma_fault_spec(ev.err) is Yield && ev.tcif ==> (r matches RxPoll::Done(m)
                && m@.drv == rx_done_spec(self@.drv) && m@.buf == splice(
                self@.buf,
                self@.lo as int,
                ev.data@,
            )),
    {
        let RxAwait { mut drv, mut buf, lo, hi } = self;
        match handle_dma_err(ev.err) {
            MonitorStep::Fatal(f) => {
                return RxPoll::Fatal(f);
            }
            MonitorStep::Yield => {}
        }
        if ev.tcif {
            drv.rx_tcif_clear();
            let ghost buf0 = buf@;
            let n = hi - lo;
            let mut i: usize = 0;
            while i < n
                invariant
                    i <= n,
                    n == hi - lo,
                    hi <= buf0.len(),
                    ev.data@.len() == n,
                    buf@.len() == buf0.len(),
                    forall|j: int| 0 <= j < lo + i ==> buf@[j] == splice(
                        buf0,
                        lo as int,
                        ev.data@,
                    )[j],
                    forall|j: int| lo + i <= j < buf0.len() ==> buf@[j] == buf0[j],
                decreases n - i,
            {
                let b = ev.data[i];
                buf.set(lo + i, b);
                i += 1;
            }
            proof {
                assert(buf@ =~= splice(buf0, lo as int, ev.data@));
            }
            RxPoll::Done(I2CMaster { drv, buf })
        } else {
            RxPoll::Pending(RxAwait { drv, buf, lo, hi })
        }
    }

    /// The transaction-phase register operations performed so far.
    pub fn trace(&self) -> (r: &Vec<TraceOp>)
        ensures
            r@ == self@.drv.trace,
    {
        self.drv.trace()
    }
}

} // verus!
