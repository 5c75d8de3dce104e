//! Verified model of an I²C master driver with DMA-backed transfers.
//!
//! The driver programs a modeled register file of one I²C peripheral and two
//! DMA channels, and advances one transaction segment at a time from status
//! snapshots handed in by an interrupt dispatcher. Every register operation
//! of a transaction is recorded in an observable trace, so the bus-level
//! ordering rules (repeated Start, ACK before Start, Stop exactly once per
//! session) are stated and proved over that trace.

mod drv;
mod fault;
mod laws;
mod master;

pub use drv::{DmaCh, DrvView, I2CDrv, I2CEvent, I2CMode, I2CSetup, StartTask, TraceOp};
pub use drv::{
    ack_op, event_done_spec, event_step_spec, init_dma_rx_spec, init_dma_tx_spec, init_i2c_spec,
    init_spec, master_grants, mode_duty16_9, mode_fast, reset_dma_ch, reset_view, rx_arm_spec,
    rx_done_spec, segment_done_spec, set_start_spec, start_arm_spec, stop_done_spec, stop_spec,
    tx_arm_spec,
};
pub use master::{
    rd_addr_byte, splice, wr_addr_byte, I2CMaster, MasterGrant, MasterView, ReadPoll, ReadXfer,
    ReadXferView, RxAwait, RxAwaitView, RxEvent, RxPoll, WritePoll, WriteXfer, WriteXferView,
};
pub use fault::{handle_dma_err, handle_i2c_err, DmaErrFlags, Fault, I2CErrFlags, MonitorStep};
pub use fault::{dma_fault_spec, i2c_fault_spec};
pub use laws::{
    lemma_ack_before_start, lemma_chained_read_repeated_start, lemma_fault_monitors_decide,
    lemma_no_start_while_stop_pending, lemma_transfers_append_no_stop,
};
