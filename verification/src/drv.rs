//! The I²C driver: a modeled register file, its one-time configuration, and
//! the transaction state machine that drives one direction-segment of a
//! master transaction per sequence of event-interrupt invocations.
//!
//! The hardware registers are held as plain values. Every register operation
//! of the transaction phase (ACK programming, Start and Stop generation,
//! data-register writes, event-interrupt enable/disable, DMA arming) is
//! appended to an observable trace, so that the bus-level ordering rules are
//! part of each operation's contract.
//!
//! What only real hardware can do — raise status flags, deliver received
//! bytes, complete a Stop condition on the wire — enters the model as
//! events: a status snapshot handed to a poll call, or an explicit
//! completion call.

use vstd::prelude::*;

verus! {

/// One observable register operation of the transaction phase.
#[derive(Clone, Copy, Debug, PartialEq, Eq, Structural)]
pub enum TraceOp {
    /// ACK-enable bit written set (multi-byte receive: acknowledge each byte).
    AckSet,
    /// ACK-enable bit written clear (single-byte receive: NACK after one byte).
    AckClear,
    /// Start-generation bit set.
    StartSet,
    /// Stop-generation bit set.
    StopSet,
    /// The target address byte written to the data register.
    DrWrite(u8),
    /// Event interrupt enabled.
    EvIntOn,
    /// Event interrupt disabled.
    EvIntOff,
    /// Transmit DMA channel armed over the session buffer: memory address,
    /// item count, transfer-complete flag cleared, channel enabled.
    TxArm { off: usize, len: usize },
    /// Receive DMA channel armed over the session buffer: memory address,
    /// item count, channel enabled.
    RxArm { off: usize, len: usize },
    /// Receive DMA transfer-complete flag cleared on completion.
    RxTcifClear,
}

/// A snapshot of the I²C status flags relevant to the event task, read once
/// per invocation of the event interrupt.
///
/// The direction flag `tra` belongs to the second status register; hardware
/// clears the address flag as a side effect of reading that register, which
/// is why one snapshot carries both.
#[derive(Clone, Copy, Debug, PartialEq, Eq, Structural)]
pub struct I2CEvent {
    /// Start condition generated.
    pub sb: bool,
    /// End of address transmission.
    pub addr: bool,
    /// Data byte transfer succeeded (shift register empty after last byte).
    pub btf: bool,
    /// Direction at end of address phase: true for transmitter.
    pub tra: bool,
}

/// What the event task captures for the lifetime of one segment: the
/// address byte (7-bit address shifted, read/write bit included), the ACK
/// policy to program before Start, and whether the Start is repeated (the
/// bus is already owned from a prior segment of the same session).
#[derive(Clone, Copy, Debug, PartialEq, Eq, Structural)]
pub struct StartTask {
    /// The 8-bit address byte to write to the data register.
    pub addr: u8,
    /// ACK-enable value to program together with Start generation.
    pub ack: bool,
    /// True when this segment re-uses bus ownership via a repeated Start.
    pub repeated: bool,
}

/// The modeled state of one DMA channel.
#[derive(Clone, Copy, Debug, PartialEq, Eq, Structural)]
pub struct DmaCh {
    /// Channel selection.
    pub chsel: u32,
    /// Priority level.
    pub pl: u32,
    /// Memory transfer width selector: zero for byte (8-bit) transfers.
    pub msize: u32,
    /// Peripheral transfer width selector: zero for byte (8-bit) transfers.
    pub psize: u32,
    /// Memory address pointer increments after each transfer.
    pub minc: bool,
    /// Peripheral address pointer is fixed.
    pub pinc: bool,
    /// Direction: true for memory-to-peripheral.
    pub mem_to_periph: bool,
    /// Transfer-complete interrupt enabled.
    pub tcie: bool,
    /// Transfer-error interrupt enabled.
    pub teie: bool,
    /// Channel enabled.
    pub en: bool,
    /// Armed memory offset into the session buffer.
    pub off: usize,
    /// Armed number of data items.
    pub ndt: usize,
}

/// The ghost image of the driver: every modeled register field plus the
/// trace of transaction-phase register operations.
pub ghost struct DrvView {
    /// Peripheral clock enabled on its bus.
    pub clk_en: bool,
    /// Peripheral enabled.
    pub pe: bool,
    /// Peripheral clock frequency field.
    pub freq: u32,
    /// Clock-control (prescaler) field.
    pub ccr: u32,
    /// Maximum rise time field.
    pub trise: u32,
    /// Fast mode selected (Standard mode when false).
    pub fast_mode: bool,
    /// Fast-mode duty cycle 16/9 (2:1 when false).
    pub duty16_9: bool,
    /// Next DMA end-of-transfer is the last transfer (final byte NACKed by
    /// hardware).
    pub last: bool,
    /// DMA requests enabled.
    pub dmaen: bool,
    /// Error interrupt enabled.
    pub iterren: bool,
    /// ACK-enable bit.
    pub ack: bool,
    /// Start-generation bit.
    pub start: bool,
    /// Stop-generation bit.
    pub stop: bool,
    /// Event interrupt enabled.
    pub itevten: bool,
    /// Last value written to the data register by the driver.
    pub dr: u8,
    /// The bus is owned by this master: a segment of the current session has
    /// completed and no Stop has been generated since.
    pub owned: bool,
    /// Transmit DMA channel.
    pub tx: DmaCh,
    /// Receive DMA channel.
    pub rx: DmaCh,
    /// The transaction-phase register operations, oldest first.
    pub trace: Seq<TraceOp>,
}

/// The values that configure the driver once at initialization.
pub struct I2CSetup {
    /// I²C peripheral clock frequency, in MHz of the bus the peripheral is
    /// connected to.
    pub i2c_freq: u32,
    /// I²C clock prescaler: SCL clock = `i2c_freq` × 1_000_000 ÷ `i2c_presc`
    /// ÷ mode divisor.
    pub i2c_presc: u32,
    /// I²C maximum rise time: floor(`i2c_freq` × 1_000_000 × t_r) + 1.
    pub i2c_trise: u32,
    /// I²C bus mode.
    pub i2c_mode: I2CMode,
    /// DMA transmit channel selection.
    pub dma_tx_ch: u32,
    /// DMA transmit channel priority level.
    pub dma_tx_pl: u32,
    /// DMA receive channel selection.
    pub dma_rx_ch: u32,
    /// DMA receive channel priority level.
    pub dma_rx_pl: u32,
}

/// I²C bus mode.
#[derive(Clone, Copy, Debug, PartialEq, Eq, Structural)]
pub enum I2CMode {
    /// Standard mode with t_low/t_high = 1 duty cycle.
    Sm1,
    /// Fast mode with t_low/t_high = 2 duty cycle.
    Fm2,
    /// Fast mode with t_low/t_high = 16/9 duty cycle.
    Fm169,
}

/// The I²C driver: the modeled registers of the peripheral and of its two
/// DMA channels, and the observable trace.
pub struct I2CDrv {
    clk_en: bool,
    pe: bool,
    freq: u32,
    ccr: u32,
    trise: u32,
    fast_mode: bool,
    duty16_9: bool,
    last: bool,
    dmaen: bool,
    iterren: bool,
    ack: bool,
    start: bool,
    stop: bool,
    itevten: bool,
    dr: u8,
    owned: bool,
    tx: DmaCh,
    rx: DmaCh,
    trace: Vec<TraceOp>,
}

impl View for I2CDrv {
    type V = DrvView;

    closed spec fn view(&self) -> DrvView {
        DrvView {
            clk_en: self.clk_en,
            pe: self.pe,
            freq: self.freq,
            ccr: self.ccr,
            trise: self.trise,
            fast_mode: self.fast_mode,
            duty16_9: self.duty16_9,
            last: self.last,
            dmaen: self.dmaen,
            iterren: self.iterren,
            ack: self.ack,
            start: self.start,
            stop: self.stop,
            itevten: self.itevten,
            dr: self.dr,
            owned: self.owned,
            tx: self.tx,
            rx: self.rx,
            trace: self.trace@,
        }
    }
}

/// The driver state as reset leaves it, before any configuration.
pub open spec fn reset_view() -> DrvView {
    DrvView {
        clk_en: false,
        pe: false,
        freq: 0,
        ccr: 0,
        trise: 0,
        fast_mode: false,
        duty16_9: false,
        last: false,
        dmaen: false,
        iterren: false,
        ack: false,
        start: false,
        stop: false,
        itevten: false,
        dr: 0,
        owned: false,
        tx: reset_dma_ch(),
        rx: reset_dma_ch(),
        trace: Seq::empty(),
    }
}

/// A DMA channel as reset leaves it.
pub open spec fn reset_dma_ch() -> DmaCh {
    DmaCh {
        chsel: 0,
        pl: 0,
        msize: 0,
        psize: 0,
        minc: false,
        pinc: false,
        mem_to_periph: false,
        tcie: false,
        teie: false,
        en: false,
        off: 0,
        ndt: 0,
    }
}

/// Whether a bus mode selects fast mode.
pub open spec fn mode_fast(mode: I2CMode) -> bool {
    !(mode is Sm1)
}

/// Whether a bus mode selects the 16/9 duty cycle.
pub open spec fn mode_duty16_9(mode: I2CMode) -> bool {
    mode is Fm169
}

/// The effect of the one-time I²C peripheral configuration: clock enabled,
/// DMA requests with last-transfer semantics, error interrupt enabled,
/// timing programmed, peripheral enabled. The error-monitor task installed
/// here is `handle_i2c_err`.
pub open spec fn init_i2c_spec(
    d: DrvView,
    freq: u32,
    presc: u32,
    trise: u32,
    mode: I2CMode,
) -> DrvView {
    DrvView {
        clk_en: true,
        pe: true,
        freq: freq,
        ccr: presc,
        trise: trise,
        fast_mode: mode_fast(mode),
        duty16_9: if mode_fast(mode) {
            mode_duty16_9(mode)
        } else {
            d.duty16_9
        },
        last: true,
        dmaen: true,
        iterren: true,
        ..d
    }
}

/// The effect of the one-time transmit-channel configuration:
/// memory-to-peripheral byte transfers into the fixed data register, with
/// the transfer-complete interrupt disabled (completion is observed via the
/// I²C byte-transfer flag) and the transfer-error interrupt enabled. The
/// error-monitor task installed here is `handle_dma_err`.
pub open spec fn init_dma_tx_spec(d: DrvView, channel: u32, priority: u32) -> DrvView {
    DrvView {
        tx: DmaCh {
            chsel: channel,
            pl: priority,
            msize: 0,
            psize: 0,
            minc: true,
            pinc: false,
            mem_to_periph: true,
            tcie: false,
            teie: true,
            ..d.tx
        },
        ..d
    }
}

/// The effect of the one-time receive-channel configuration:
/// peripheral-to-memory byte transfers from the fixed data register, with
/// both the transfer-complete and the transfer-error interrupts enabled.
pub open spec fn init_dma_rx_spec(d: DrvView, channel: u32, priority: u32) -> DrvView {
    DrvView {
        rx: DmaCh {
            chsel: channel,
            pl: priority,
            msize: 0,
            psize: 0,
            minc: true,
            pinc: false,
            mem_to_periph: false,
            tcie: true,
            teie: true,
            ..d.rx
        },
        ..d
    }
}

/// The full initial driver state produced by `I2CDrv::init`.
pub open spec fn init_spec(setup: I2CSetup) -> DrvView {
    init_dma_rx_spec(
        init_dma_tx_spec(
            init_i2c_spec(
                reset_view(),
                setup.i2c_freq,
                setup.i2c_presc,
                setup.i2c_trise,
                setup.i2c_mode,
            ),
            setup.dma_tx_ch,
            setup.dma_tx_pl,
        ),
        setup.dma_rx_ch,
        setup.dma_rx_pl,
    )
}

/// The trace operation that programs the ACK-enable bit.
pub open spec fn ack_op(ack: bool) -> TraceOp {
    if ack {
        TraceOp::AckSet
    } else {
        TraceOp::AckClear
    }
}

/// The effect of arming the transmit DMA channel over the session buffer
/// range starting at `off` with `len` items: memory address and item count
/// programmed, transfer-complete flag cleared, channel enabled.
pub open spec fn tx_arm_spec(d: DrvView, off: usize, len: usize) -> DrvView {
    DrvView {
        tx: DmaCh { off: off, ndt: len, en: true, ..d.tx },
        trace: d.trace.push(TraceOp::TxArm { off, len }),
        ..d
    }
}

/// The effect of arming the receive DMA channel over the session buffer
/// range starting at `off` with `len` items: memory address and item count
/// programmed, channel enabled.
pub open spec fn rx_arm_spec(d: DrvView, off: usize, len: usize) -> DrvView {
    DrvView {
        rx: DmaCh { off: off, ndt: len, en: true, ..d.rx },
        trace: d.trace.push(TraceOp::RxArm { off, len }),
        ..d
    }
}

/// The register effect of programming the ACK policy and generating a
/// Start condition: the ACK bit is written first, then the Start bit is
/// set.
pub open spec fn set_start_spec(d: DrvView, ack: bool) -> DrvView {
    DrvView {
        ack: ack,
        start: true,
        trace: d.trace.push(ack_op(ack)).push(TraceOp::StartSet),
        ..d
    }
}

/// The immediate effect of beginning a segment for an address byte with an
/// ACK policy: the event interrupt is enabled, and — only when the bus is
/// not already owned — ACK is programmed and Start is generated at once.
/// When the bus is owned, Start generation is deferred until the in-flight
/// segment's last byte has cleared the shift register (see
/// `event_step_spec`).
pub open spec fn start_arm_spec(d: DrvView, ack: bool) -> DrvView {
    let d1 = DrvView { itevten: true, trace: d.trace.push(TraceOp::EvIntOn), ..d };
    if d.owned {
        d1
    } else {
        set_start_spec(d1, ack)
    }
}

/// Whether one event-task invocation on this status snapshot signals
/// completion of the segment: either the address phase ended in receiver
/// direction, or — for a non-repeated segment — the final byte of a write
/// cleared the shift register.
pub open spec fn event_done_spec(t: StartTask, ev: I2CEvent) -> bool {
    ||| (!ev.sb && ev.addr && !ev.tra)
    ||| (!ev.sb && !ev.addr && ev.btf && !t.repeated)
}

/// The register effect of one event-task invocation. The flags of the
/// snapshot are tested in the fixed order Start → Address → ByteTransfer:
///
/// * Start condition generated: the address byte goes to the data register
///   (hardware has cleared the Start bit by generating the condition);
/// * end of address transmission: no register is touched — transmitter
///   direction yields until the data phase, receiver direction completes
///   the segment (DMA delivers the bytes);
/// * byte transfer finished: a repeated segment now programs ACK and
///   generates its deferred Start; a non-repeated segment disables the
///   event interrupt and completes;
/// * no relevant flag: nothing is touched.
pub open spec fn event_step_spec(t: StartTask, d: DrvView, ev: I2CEvent) -> DrvView {
    if ev.sb {
        DrvView { dr: t.addr, start: false, trace: d.trace.push(TraceOp::DrWrite(t.addr)), ..d }
    } else if ev.addr {
        d
    } else if ev.btf {
        if t.repeated {
            set_start_spec(d, t.ack)
        } else {
            DrvView { itevten: false, trace: d.trace.push(TraceOp::EvIntOff), ..d }
        }
    } else {
        d
    }
}

/// The driver state once a segment has completed: the bus is owned by this
/// master until a Stop is generated.
pub open spec fn segment_done_spec(d: DrvView) -> DrvView {
    DrvView { owned: true, ..d }
}

/// The register effect of completing a receive segment: the DMA
/// transfer-complete flag is cleared.
pub open spec fn rx_done_spec(d: DrvView) -> DrvView {
    DrvView { trace: d.trace.push(TraceOp::RxTcifClear), ..d }
}

/// The register effect of releasing the bus: the Stop-generation bit is
/// set and bus ownership ends.
pub open spec fn stop_spec(d: DrvView) -> DrvView {
    DrvView { stop: true, owned: false, trace: d.trace.push(TraceOp::StopSet), ..d }
}

/// The effect of hardware physically completing a Stop condition on the
/// wire: the Stop-generation bit falls.
pub open spec fn stop_done_spec(d: DrvView) -> DrvView {
    DrvView { stop: false, ..d }
}

/// Whether a new master session may begin: only once no Stop generation is
/// pending from a previous session.
pub open spec fn master_grants(d: DrvView) -> bool {
    !d.stop
}

impl I2CDrv {
    /// Sets up a new driver from `setup` values: programs the I²C timing
    /// and control registers, configures both DMA channels, and leaves the
    /// peripheral enabled with an empty transaction trace.
    ///
    /// The fault monitors installed at this point are `handle_i2c_err` on
    /// the I²C error line and `handle_dma_err` on each DMA channel line;
    /// the interrupt dispatcher invokes them with a flag snapshot on every
    /// firing of their lines.
    #[must_use]
    pub fn init(setup: I2CSetup) -> (drv: I2CDrv)
        ensures
            drv@ == init_spec(setup),
    {
        let mut drv = I2CDrv {
            clk_en: false,
            pe: false,
            freq: 0,
            ccr: 0,
            trise: 0,
            fast_mode: false,
            duty16_9: false,
            last: false,
            dmaen: false,
            iterren: false,
            ack: false,
            start: false,
            stop: false,
            itevten: false,
            dr: 0,
            owned: false,
            tx: DmaCh {
                chsel: 0,
                pl: 0,
                msize: 0,
                psize: 0,
                minc: false,
                pinc: false,
                mem_to_periph: false,
                tcie: false,
                teie: false,
                en: false,
                off: 0,
                ndt: 0,
            },
            rx: DmaCh {
                chsel: 0,
                pl: 0,
                msize: 0,
                psize: 0,
                minc: false,
                pinc: false,
                mem_to_periph: false,
                tcie: false,
                teie: false,
                en: false,
                off: 0,
                ndt: 0,
            },
            trace: Vec::new(),
        };
        drv.init_i2c(setup.i2c_freq, setup.i2c_presc, setup.i2c_trise, setup.i2c_mode);
        drv.init_dma_tx(setup.dma_tx_ch, setup.dma_tx_pl);
        drv.init_dma_rx(setup.dma_rx_ch, setup.dma_rx_pl);
        drv
    }

    /// Whether a Stop generated by a previous session is still pending on
    /// the wire.
    pub fn stop_pending(&self) -> (r: bool)
        ensures
            r == self@.stop,
    {
        self.stop
    }

    /// The transaction-phase register operations performed so far, oldest
    /// first.
    pub fn trace(&self) -> (r: &Vec<TraceOp>)
        ensures
            r@ == self@.trace,
    {
        &self.trace
    }

    /// Hardware has physically completed the pending Stop condition: the
    /// Stop-generation bit falls. The interrupt dispatcher reports this
    /// while a session request is waiting.
    pub fn finish_stop(&mut self)
        ensures
            final(self)@ == stop_done_spec(old(self)@),
    {
        self.stop = false;
    }

    /// Arms the transmit DMA channel over the session buffer range
    /// `off .. off + len`: programs the memory address and the item count,
    /// clears the transfer-complete flag, and enables the channel. No
    /// completion is awaited on this channel — transmit completion is
    /// observed via the I²C byte-transfer flag.
    pub(crate) fn dma_tx(&mut self, off: usize, len: usize)
        ensures
            final(self)@ == tx_arm_spec(old(self)@, off, len),
    {
        self.tx.off = off;
        self.tx.ndt = len;
        self.tx.en = true;
        self.trace.push(TraceOp::TxArm { off, len });
    }

    /// Arms the receive DMA channel over the session buffer range
    /// `off .. off + len`: programs the memory address and the item count
    /// and enables the channel. The per-segment receive task that awaits
    /// the transfer-complete flag is the `RxAwait` poll.
    pub(crate) fn dma_rx(&mut self, off: usize, len: usize)
        ensures
            final(self)@ == rx_arm_spec(old(self)@, off, len),
    {
        self.rx.off = off;
        self.rx.ndt = len;
        self.rx.en = true;
        self.trace.push(TraceOp::RxArm { off, len });
    }

    /// Programs the ACK policy and sets the Start-generation bit, in that
    /// order, as one control-register update.
    fn set_start(&mut self, ack: bool)
        ensures
            final(self)@ == set_start_spec(old(self)@, ack),
    {
        self.ack = ack;
        self.start = true;
        if ack {
            self.trace.push(TraceOp::AckSet);
        } else {
            self.trace.push(TraceOp::AckClear);
        }
        self.trace.push(TraceOp::StartSet);
    }

    /// Begins the address phase of one segment for the already-shifted
    /// address byte `addr` with ACK policy `ack`: enables the event
    /// interrupt, generates the Start at once when the bus is free, and
    /// returns the captured state that each following event-interrupt
    /// invocation is stepped with.
    ///
    /// Whether the Start is repeated is taken from the driver's own record
    /// of bus ownership — deterministic caller-side state, not a live
    /// status bit.
    pub(crate) fn start(&mut self, addr: u8, ack: bool) -> (t: StartTask)
        ensures
            final(self)@ == start_arm_spec(old(self)@, ack),
            t == (StartTask { addr, ack, repeated: old(self)@.owned }),
    {
        let repeated = self.owned;
        self.itevten = true;
        self.trace.push(TraceOp::EvIntOn);
        if !repeated {
            self.set_start(ack);
        }
        StartTask { addr, ack, repeated }
    }

    /// One invocation of the event-interrupt task for the segment captured
    /// in `t`, on the status snapshot `ev`. Returns whether the segment's
    /// address-and-write phase has completed.
    pub(crate) fn event_step(&mut self, t: StartTask, ev: I2CEvent) -> (done: bool)
        ensures
            final(self)@ == event_step_spec(t, old(self)@, ev),
            done == event_done_spec(t, ev),
    {
        if ev.sb {
            // Start condition generated: send the address byte. Hardware
            // cleared the Start bit by generating the condition.
            self.dr = t.addr;
            self.start = false;
            self.trace.push(TraceOp::DrWrite(t.addr));
            false
        } else if ev.addr {
            // End of address transmission: in transmitter direction the
            // data phase is not ready to probe yet; in receiver direction
            // the segment is done and DMA delivers the bytes.
            !ev.tra
        } else if ev.btf {
            // The final byte of a write has cleared the shift register.
            if t.repeated {
                self.set_start(t.ack);
                false
            } else {
                self.itevten = false;
                self.trace.push(TraceOp::EvIntOff);
                true
            }
        } else {
            false
        }
    }

    /// Marks the segment complete: the bus is owned by this master until a
    /// Stop is generated.
    pub(crate) fn segment_done(&mut self)
        ensures
            final(self)@ == segment_done_spec(old(self)@),
    {
        self.owned = true;
    }

    /// Records the receive transfer-complete flag cleared.
    pub(crate) fn rx_tcif_clear(&mut self)
        ensures
            final(self)@ == rx_done_spec(old(self)@),
    {
        self.trace.push(TraceOp::RxTcifClear);
    }

    /// Sets the Stop-generation bit, releasing the bus. The physical Stop
    /// completion is not waited on here; it is checked lazily at the next
    /// session creation.
    pub(crate) fn stop(&mut self)
        ensures
            final(self)@ == stop_spec(old(self)@),
    {
        self.stop = true;
        self.owned = false;
        self.trace.push(TraceOp::StopSet);
    }

    fn init_i2c(&mut self, freq: u32, presc: u32, trise: u32, mode: I2CMode)
        ensures
            final(self)@ == init_i2c_spec(old(self)@, freq, presc, trise, mode),
    {
        self.clk_en = true;
        self.last = true;
        self.dmaen = true;
        self.iterren = true;
        self.freq = freq;
        match mode {
            I2CMode::Sm1 => {
                self.fast_mode = false;
            }
            I2CMode::Fm2 => {
                self.fast_mode = true;
                self.duty16_9 = false;
            }
            I2CMode::Fm169 => {
                self.fast_mode = true;
                self.duty16_9 = true;
            }
        }
        self.ccr = presc;
        self.trise = trise;
        self.pe = true;
    }

    fn init_dma_tx(&mut self, channel: u32, priority: u32)
        ensures
            final(self)@ == init_dma_tx_spec(old(self)@, channel, priority),
    {
        self.tx.chsel = channel;
        self.tx.pl = priority;
        self.tx.msize = 0;
        self.tx.psize = 0;
        self.tx.minc = true;
        self.tx.pinc = false;
        self.tx.mem_to_periph = true;
        self.tx.tcie = false;
        self.tx.teie = true;
    }

    fn init_dma_rx(&mut self, channel: u32, priority: u32)
        ensures
            final(self)@ == init_dma_rx_spec(old(self)@, channel, priority),
    {
        self.rx.chsel = channel;
        self.rx.pl = priority;
        self.rx.msize = 0;
        self.rx.psize = 0;
        self.rx.minc = true;
        self.rx.pinc = false;
        self.rx.mem_to_periph = false;
        self.rx.tcie = true;
        self.rx.teie = true;
    }
}

} // verus!
