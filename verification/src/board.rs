//! The board capability boundary and the bus-trace model.
//!
//! A [`Board`] carries the GPIO edge functions (CS, RESET, antenna switch),
//! the awaitable interrupt lines (DIO1 rising, BUSY falling), a wait for a
//! duration, and raw SPI transfers. Every method's contract appends one
//! [`HalEvent`] to the board's ghost trace, so the driver's contracts can pin
//! down the exact command sequence a board observes.
//!
//! Driver operations only ever extend the trace by whole [`BusStep`]s: either
//! a single pin or wait event, or a complete SPI frame (BUSY poll, CS low,
//! transfers, CS high). The lemmas at the end state the two chip-protocol
//! invariants over every such trace: each run of SPI transfers is immediately
//! bracketed by CS edges, and BUSY was polled right before the CS-low edge
//! that opens it.

use vstd::prelude::*;

verus! {

/// One event a board observes: a pin edge, a wait, or an SPI transfer. The
/// transfer events carry the bytes that crossed the wire.
pub enum HalEvent {
    /// RESET pin driven low.
    ResetLow,
    /// RESET pin driven high.
    ResetHigh,
    /// Chip-select pin driven low.
    CsLow,
    /// Chip-select pin driven high.
    CsHigh,
    /// Antenna switch put into transmit position.
    AntennaTx,
    /// Antenna switch put into receive position.
    AntennaRx,
    /// Antenna switch put into sleep position.
    AntennaSleep,
    /// The DIO1 line was awaited until it rose.
    Dio1Waited,
    /// The BUSY line was awaited until it fell.
    BusyPolled,
    /// A wait for the given number of milliseconds.
    Delayed(u32),
    /// Bytes sent to the chip.
    Wrote(Seq<u8>),
    /// Bytes read from the chip while clocking NOPs.
    ReadBytes(Seq<u8>),
}

/// Whether an event is an SPI data transfer.
pub open spec fn is_transfer(e: HalEvent) -> bool {
    e is Wrote || e is ReadBytes
}

/// The capability set the driver needs from a board: pin edges, awaitable
/// events, a delay, and raw SPI transfers. The SX126x chip, the SPI bus and
/// these pins are exclusively owned by the driver for its lifetime.
///
/// The `log` trace is the board's ghost observation record; every method
/// appends exactly one event on success and leaves the trace unchanged on
/// failure. The error byte of each `Result` is a board-defined failure kind,
/// surfaced by the driver inside the matching `RadioError` variant.
pub trait Board: Sized {
    /// The trace of events this board has observed, oldest first. A real
    /// board outside the verified world may leave this default in place and
    /// carry no trace; the driver's trace contracts then say nothing about
    /// what it observes, while its state and result contracts still hold.
    open spec fn log(&self) -> Seq<HalEvent> {
        arbitrary()
    }

    /// Set the SPI chip-select pin low (asserted).
    fn set_cs_low(&mut self) -> (r: Result<(), u8>)
        ensures
            r is Ok ==> final (self).log() == old(self).log().push(HalEvent::CsLow),
            r is Err ==> final (self).log() == old(self).log(),
    ;

    /// Set the SPI chip-select pin high (released).
    fn set_cs_high(&mut self) -> (r: Result<(), u8>)
        ensures
            r is Ok ==> final (self).log() == old(self).log().push(HalEvent::CsHigh),
            r is Err ==> final (self).log() == old(self).log(),
    ;

    /// Drive the RESET pin low.
    fn set_reset_low(&mut self) -> (r: Result<(), u8>)
        ensures
            r is Ok ==> final (self).log() == old(self).log().push(HalEvent::ResetLow),
            r is Err ==> final (self).log() == old(self).log(),
    ;

    /// Release the RESET pin.
    fn set_reset_high(&mut self) -> (r: Result<(), u8>)
        ensures
            r is Ok ==> final (self).log() == old(self).log().push(HalEvent::ResetHigh),
            r is Err ==> final (self).log() == old(self).log(),
    ;

    /// Put the antenna switch into transmit position. On boards where DIO2
    /// drives the RF switch this may be a no-op at pin level, but it is still
    /// observed.
    fn antenna_tx(&mut self) -> (r: Result<(), u8>)
        ensures
            r is Ok ==> final (self).log() == old(self).log().push(HalEvent::AntennaTx),
            r is Err ==> final (self).log() == old(self).log(),
    ;

    /// Put the antenna switch into receive position.
    fn antenna_rx(&mut self) -> (r: Result<(), u8>)
        ensures
            r is Ok ==> final (self).log() == old(self).log().push(HalEvent::AntennaRx),
            r is Err ==> final (self).log() == old(self).log(),
    ;

    /// Put the antenna switch into sleep position.
    fn antenna_sleep(&mut self) -> (r: Result<(), u8>)
        ensures
            r is Ok ==> final (self).log() == old(self).log().push(HalEvent::AntennaSleep),
            r is Err ==> final (self).log() == old(self).log(),
    ;

    /// Wait until the BUSY line is low; SPI frames may only begin when it is.
    fn wait_for_busy_low(&mut self) -> (r: Result<(), u8>)
        ensures
            r is Ok ==> final (self).log() == old(self).log().push(HalEvent::BusyPolled),
            r is Err ==> final (self).log() == old(self).log(),
    ;

    /// Wait for a rising edge on the DIO1 interrupt line.
    fn wait_for_dio1_high(&mut self) -> (r: Result<(), u8>)
        ensures
            r is Ok ==> final (self).log() == old(self).log().push(HalEvent::Dio1Waited),
            r is Err ==> final (self).log() == old(self).log(),
    ;

    /// Wait for the given number of milliseconds.
    fn delay_ms(&mut self, ms: u32)
        ensures
            final (self).log() == old(self).log().push(HalEvent::Delayed(ms)),
    ;

    /// Send the given bytes on the SPI bus, most significant bit first.
    fn spi_write(&mut self, data: &Vec<u8>) -> (r: Result<(), u8>)
        ensures
            r is Ok ==> final (self).log() == old(self).log().push(HalEvent::Wrote(data@)),
            r is Err ==> final (self).log() == old(self).log(),
    ;

    /// Clock `len` NOP bytes out on the SPI bus and return the bytes the chip
    /// drove back.
    fn spi_read(&mut self, len: usize) -> (r: Result<Vec<u8>, u8>)
        ensures
            r matches Ok(d) ==> d@.len() == len && final (self).log() == old(self).log().push(
                HalEvent::ReadBytes(d@),
            ),
            r is Err ==> final (self).log() == old(self).log(),
    ;
}

/// One whole driver-issued unit on the bus: a lone pin or wait event, or a
/// complete SPI frame together with its CS bracket and BUSY handshake.
pub enum BusStep {
    /// A single event that is not an SPI transfer.
    Plain(HalEvent),
    /// A command or register write: BUSY polled, CS low, one write transfer
    /// carrying the frame bytes, CS high.
    WriteFrame(Seq<u8>),
    /// A command read: BUSY polled, CS low, the opcode written, the status
    /// byte read while clocking one NOP, the response read, CS high.
    ReadCmdFrame(Seq<u8>, u8, Seq<u8>),
    /// A register or data-buffer read: BUSY polled, CS low, the address
    /// header written, the response read, CS high.
    ReadRegFrame(Seq<u8>, Seq<u8>),
}

/// The events one step contributes to a board trace.
pub open spec fn step_events(s: BusStep) -> Seq<HalEvent> {
    match s {
        BusStep::Plain(e) => seq![e],
        BusStep::WriteFrame(f) => seq![
            HalEvent::BusyPolled,
            HalEvent::CsLow,
            HalEvent::Wrote(f),
            HalEvent::CsHigh,
        ],
        BusStep::ReadCmdFrame(hdr, st, data) => seq![
            HalEvent::BusyPolled,
            HalEvent::CsLow,
            HalEvent::Wrote(hdr),
            HalEvent::ReadBytes(seq![st]),
            HalEvent::ReadBytes(data),
            HalEvent::CsHigh,
        ],
        BusStep::ReadRegFrame(hdr, data) => seq![
            HalEvent::BusyPolled,
            HalEvent::CsLow,
            HalEvent::Wrote(hdr),
            HalEvent::ReadBytes(data),
            HalEvent::CsHigh,
        ],
    }
}

/// The events a whole sequence of steps contributes, in order.
pub open spec fn steps_events(ss: Seq<BusStep>) -> Seq<HalEvent>
    decreases ss.len(),
{
    if ss.len() == 0 {
        Seq::empty()
    } else {
        step_events(ss[0]) + steps_events(ss.drop_first())
    }
}

/// A lone event never hides an SPI transfer outside a frame.
pub open spec fn step_wf(s: BusStep) -> bool {
    match s {
        BusStep::Plain(e) => !is_transfer(e),
        _ => true,
    }
}

/// All steps of a sequence are well-formed.
pub open spec fn steps_wf(ss: Seq<BusStep>) -> bool {
    forall|i: int| 0 <= i < ss.len() ==> step_wf(#[trigger] ss[i])
}

/// Every SPI transfer is immediately preceded by CS-low (or more of the same
/// frame) and immediately followed by CS-high (or more of the same frame):
/// each frame is bracketed by CS edges with nothing in between.
pub open spec fn cs_brackets_frames(log: Seq<HalEvent>) -> bool {
    forall|i: int|
        0 <= i < log.len() && is_transfer(#[trigger] log[i]) ==> {
            &&& 0 < i
            &&& (is_transfer(log[i - 1]) || log[i - 1] is CsLow)
            &&& i + 1 < log.len()
            &&& (is_transfer(log[i + 1]) || log[i + 1] is CsHigh)
        }
}

/// The CS-low edge that opens a frame is immediately preceded by a BUSY poll:
/// BUSY was seen low at least once before every frame.
pub open spec fn busy_polled_before_frames(log: Seq<HalEvent>) -> bool {
    forall|i: int|
        0 < i < log.len() && is_transfer(#[trigger] log[i]) && log[i - 1] is CsLow ==> {
            &&& 1 < i
            &&& log[i - 2] is BusyPolled
        }
}

/// Both chip-protocol invariants at once.
pub open spec fn trace_wf(log: Seq<HalEvent>) -> bool {
    cs_brackets_frames(log) && busy_polled_before_frames(log)
}

/// Flattening steps into events distributes over concatenation, so the trace
/// of several driver operations in a row is the concatenation of their
/// individual traces.
pub proof fn lemma_steps_events_concat(a: Seq<BusStep>, b: Seq<BusStep>)
    ensures
        steps_events(a + b) == steps_events(a) + steps_events(b),
    decreases a.len(),
{
    if a.len() == 0 {
        assert(a + b =~= b);
        assert(steps_events(a) + steps_events(b) =~= steps_events(b));
    } else {
        lemma_steps_events_concat(a.drop_first(), b);
        assert((a + b).drop_first() =~= a.drop_first() + b);
        assert((a + b)[0] == a[0]);
        assert(steps_events(a) + steps_events(b) =~= step_events(a[0]) + (steps_events(
            a.drop_first(),
        ) + steps_events(b)));
    }
}

/// Prepending one well-formed step keeps every frame CS-bracketed.
proof fn lemma_prepend_step_cs(s: BusStep, log: Seq<HalEvent>)
    requires
        step_wf(s),
        cs_brackets_frames(log),
    ensures
        cs_brackets_frames(step_events(s) + log),
{
    let d = step_events(s);
    let m = d + log;
    let n = d.len() as int;
    assert forall|i: int| 0 <= i < m.len() && is_transfer(#[trigger] m[i]) implies {
        &&& 0 < i
        &&& (is_transfer(m[i - 1]) || m[i - 1] is CsLow)
        &&& i + 1 < m.len()
        &&& (is_transfer(m[i + 1]) || m[i + 1] is CsHigh)
    } by {
        if i < n {
            match s {
                BusStep::Plain(e) => {
                    assert(!is_transfer(d[0]));
                },
                BusStep::WriteFrame(f) => {
                    assert(i == 2);
                    assert(m[i - 1] == d[1] && m[i + 1] == d[3]);
                },
                BusStep::ReadCmdFrame(hdr, st, data) => {
                    assert(i == 2 || i == 3 || i == 4);
                    assert(m[i - 1] == d[i - 1] && m[i + 1] == d[i + 1]);
                },
                BusStep::ReadRegFrame(hdr, data) => {
                    assert(i == 2 || i == 3);
                    assert(m[i - 1] == d[i - 1] && m[i + 1] == d[i + 1]);
                },
            }
        } else {
            let j = i - n;
            assert(m[i] == log[j]);
            assert(0 < j && j + 1 < log.len());
            assert(m[i - 1] == log[j - 1] && m[i + 1] == log[j + 1]);
        }
    }
}

/// Prepending one well-formed step keeps BUSY polled before every frame.
proof fn lemma_prepend_step_busy(s: BusStep, log: Seq<HalEvent>)
    requires
        step_wf(s),
        cs_brackets_frames(log),
        busy_polled_before_frames(log),
    ensures
        busy_polled_before_frames(step_events(s) + log),
{
    let d = step_events(s);
    let m = d + log;
    let n = d.len() as int;
    assert forall|i: int|
        0 < i < m.len() && is_transfer(#[trigger] m[i]) && m[i - 1] is CsLow implies {
        &&& 1 < i
        &&& m[i - 2] is BusyPolled
    } by {
        if i < n {
            match s {
                BusStep::Plain(e) => {
                    assert(!is_transfer(d[0]));
                },
                BusStep::WriteFrame(f) => {
                    assert(i == 2);
                    assert(m[i - 2] == d[0]);
                },
                BusStep::ReadCmdFrame(hdr, st, data) => {
                    if m[i - 1] is CsLow {
                        assert(i == 2);
                        assert(m[i - 2] == d[0]);
                    }
                },
                BusStep::ReadRegFrame(hdr, data) => {
                    if m[i - 1] is CsLow {
                        assert(i == 2);
                        assert(m[i - 2] == d[0]);
                    }
                },
            }
        } else {
            let j = i - n;
            assert(m[i] == log[j]);
            assert(0 < j);
            assert(m[i - 1] == log[j - 1]);
            assert(1 < j && log[j - 2] is BusyPolled);
            assert(m[i - 2] == log[j - 2]);
        }
    }
}

/// The trace of any well-formed step sequence satisfies both chip-protocol
/// invariants.
proof fn lemma_steps_trace_wf(ss: Seq<BusStep>)
    requires
        steps_wf(ss),
    ensures
        trace_wf(steps_events(ss)),
    decreases ss.len(),
{
    if ss.len() != 0 {
        let rest = ss.drop_first();
        assert(steps_wf(rest)) by {
            assert(forall|i: int| 0 <= i < rest.len() ==> rest[i] == ss[i + 1]);
        }
        lemma_steps_trace_wf(rest);
        lemma_prepend_step_cs(ss[0], steps_events(rest));
        lemma_prepend_step_busy(ss[0], steps_events(rest));
    }
}

/// Law: for every command sequence the driver can issue — any sequence of
/// well-formed bus steps — each SPI frame in the observed trace has CS low
/// immediately preceding it and CS high immediately following it.
pub proof fn lemma_cs_brackets_every_frame(ss: Seq<BusStep>)
    requires
        steps_wf(ss),
    ensures
        cs_brackets_frames(steps_events(ss)),
{
    lemma_steps_trace_wf(ss);
}

/// Law: for every command sequence the driver can issue, BUSY-low was polled
/// before each SPI frame: the CS-low edge that opens a frame is immediately
/// preceded by a BUSY poll.
pub proof fn lemma_busy_polled_before_every_frame(ss: Seq<BusStep>)
    requires
        steps_wf(ss),
    ensures
        busy_polled_before_frames(steps_events(ss)),
{
    lemma_steps_trace_wf(ss);
}

} // verus!
