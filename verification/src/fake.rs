//! A fake board with a scripted fake chip, for exercising the driver without
//! hardware. It records every event it observes and serves SPI reads from a
//! queue of scripted responses, so a test can hold the driver's command
//! sequence against the chip-dictated one and inject receptions, IRQ states
//! and failures.

use vstd::prelude::*;

use crate::board::Board;
use crate::board::HalEvent;

verus! {

/// The executable twin of [`HalEvent`]: what the fake board records.
#[derive(Debug, PartialEq, Eq)]
pub enum FakeEvent {
    ResetLow,
    ResetHigh,
    CsLow,
    CsHigh,
    AntennaTx,
    AntennaRx,
    AntennaSleep,
    Dio1Waited,
    BusyPolled,
    Delayed(u32),
    Wrote(Vec<u8>),
    ReadBytes(Vec<u8>),
}

/// The abstract event a recorded one stands for.
pub open spec fn fake_event_view(e: FakeEvent) -> HalEvent {
    match e {
        FakeEvent::ResetLow => HalEvent::ResetLow,
        FakeEvent::ResetHigh => HalEvent::ResetHigh,
        FakeEvent::CsLow => HalEvent::CsLow,
        FakeEvent::CsHigh => HalEvent::CsHigh,
        FakeEvent::AntennaTx => HalEvent::AntennaTx,
        FakeEvent::AntennaRx => HalEvent::AntennaRx,
        FakeEvent::AntennaSleep => HalEvent::AntennaSleep,
        FakeEvent::Dio1Waited => HalEvent::Dio1Waited,
        FakeEvent::BusyPolled => HalEvent::BusyPolled,
        FakeEvent::Delayed(ms) => HalEvent::Delayed(ms),
        FakeEvent::Wrote(v) => HalEvent::Wrote(v@),
        FakeEvent::ReadBytes(v) => HalEvent::ReadBytes(v@),
    }
}

/// The abstract trace a recorded event list stands for.
pub open spec fn view_events(evs: Seq<FakeEvent>) -> Seq<HalEvent> {
    evs.map_values(|e: FakeEvent| fake_event_view(e))
}

proof fn lemma_view_events_push(evs: Seq<FakeEvent>, e: FakeEvent)
    ensures
        view_events(evs.push(e)) == view_events(evs).push(fake_event_view(e)),
{
    assert(view_events(evs.push(e)) =~= view_events(evs).push(fake_event_view(e)));
}

/// Returns a fresh vector holding the same bytes.
fn copy_bytes(v: &Vec<u8>) -> (r: Vec<u8>)
    ensures
        r@ == v@,
{
    let mut r: Vec<u8> = Vec::new();
    let mut i: usize = 0;
    while i < v.len()
        invariant
            i <= v.len(),
            r@ == v@.take(i as int),
        decreases v.len() - i,
    {
        r.push(v[i]);
        assert(r@ =~= v@.take(i + 1));
        i += 1;
    }
    assert(v@.take(v.len() as int) =~= v@);
    r
}

/// A board that records what it observes and answers SPI reads from a script.
///
/// Reads consume the scripted responses in order; a missing entry reads as
/// zeros and a short one is padded with zeros, as a floating bus would. The
/// failure flags make the next matching operation fail with `fail_kind`, for
/// exercising the driver's error paths.
pub struct FakeBoard {
    /// Everything observed, oldest first.
    pub events: Vec<FakeEvent>,
    /// Scripted responses for SPI reads, consumed in order.
    pub responses: Vec<Vec<u8>>,
    /// Index of the next scripted response to serve.
    pub next_response: usize,
    /// Fail every pin-level operation (CS, RESET, antenna).
    pub fail_pins: bool,
    /// Fail every SPI transfer.
    pub fail_spi: bool,
    /// Fail every BUSY-low wait.
    pub fail_busy_wait: bool,
    /// Fail every DIO1-high wait.
    pub fail_dio1_wait: bool,
    /// Kind byte returned with every injected failure.
    pub fail_kind: u8,
}

impl FakeBoard {
    /// A fresh board: nothing observed, nothing scripted, nothing failing.
    pub fn new() -> (r: FakeBoard)
        ensures
            r.log() == Seq::<HalEvent>::empty(),
            r.events@.len() == 0,
            r.responses@.len() == 0,
            r.next_response == 0,
            !r.fail_pins && !r.fail_spi && !r.fail_busy_wait && !r.fail_dio1_wait,
    {
        let r = FakeBoard {
            events: Vec::new(),
            responses: Vec::new(),
            next_response: 0,
            fail_pins: false,
            fail_spi: false,
            fail_busy_wait: false,
            fail_dio1_wait: false,
            fail_kind: 0,
        };
        proof {
            assert(view_events(r.events@) =~= Seq::<HalEvent>::empty());
        }
        r
    }

    /// Queue the bytes the chip will drive back on the next unserved SPI read.
    pub fn push_response(&mut self, data: Vec<u8>)
        ensures
            final (self).log() == old(self).log(),
            final (self).responses@ == old(self).responses@.push(data),
    {
        self.responses.push(data);
        proof {
            assert(final (self).responses@ =~= old(self).responses@.push(data));
        }
    }
}

impl Board for FakeBoard {
    open spec fn log(&self) -> Seq<HalEvent> {
        view_events(self.events@)
    }

    fn set_cs_low(&mut self) -> (r: Result<(), u8>) {
        if self.fail_pins {
            return Err(self.fail_kind);
        }
        proof {
            lemma_view_events_push(self.events@, FakeEvent::CsLow);
        }
        self.events.push(FakeEvent::CsLow);
        Ok(())
    }

    fn set_cs_high(&mut self) -> (r: Result<(), u8>) {
        if self.fail_pins {
            return Err(self.fail_kind);
        }
        proof {
            lemma_view_events_push(self.events@, FakeEvent::CsHigh);
        }
        self.events.push(FakeEvent::CsHigh);
        Ok(())
    }

    fn set_reset_low(&mut self) -> (r: Result<(), u8>) {
        if self.fail_pins {
            return Err(self.fail_kind);
        }
        proof {
            lemma_view_events_push(self.events@, FakeEvent::ResetLow);
        }
        self.events.push(FakeEvent::ResetLow);
        Ok(())
    }

    fn set_reset_high(&mut self) -> (r: Result<(), u8>) {
        if self.fail_pins {
            return Err(self.fail_kind);
        }
        proof {
            lemma_view_events_push(self.events@, FakeEvent::ResetHigh);
        }
        self.events.push(FakeEvent::ResetHigh);
        Ok(())
    }

    fn antenna_tx(&mut self) -> (r: Result<(), u8>) {
        if self.fail_pins {
            return Err(self.fail_kind);
        }
        proof {
            lemma_view_events_push(self.events@, FakeEvent::AntennaTx);
        }
        self.events.push(FakeEvent::AntennaTx);
        Ok(())
    }

    fn antenna_rx(&mut self) -> (r: Result<(), u8>) {
        if self.fail_pins {
            return Err(self.fail_kind);
        }
        proof {
            lemma_view_events_push(self.events@, FakeEvent::AntennaRx);
        }
        self.events.push(FakeEvent::AntennaRx);
        Ok(())
    }

    fn antenna_sleep(&mut self) -> (r: Result<(), u8>) {
        if self.fail_pins {
            return Err(self.fail_kind);
        }
        proof {
            lemma_view_events_push(self.events@, FakeEvent::AntennaSleep);
        }
        self.events.push(FakeEvent::AntennaSleep);
        Ok(())
    }

    fn wait_for_busy_low(&mut self) -> (r: Result<(), u8>) {
        if self.fail_busy_wait {
            return Err(self.fail_kind);
        }
        proof {
            lemma_view_events_push(self.events@, FakeEvent::BusyPolled);
        }
        self.events.push(FakeEvent::BusyPolled);
        Ok(())
    }

    fn wait_for_dio1_high(&mut self) -> (r: Result<(), u8>) {
        if self.fail_dio1_wait {
            return Err(self.fail_kind);
        }
        proof {
            lemma_view_events_push(self.events@, FakeEvent::Dio1Waited);
        }
        self.events.push(FakeEvent::Dio1Waited);
        Ok(())
    }

    fn delay_ms(&mut self, ms: u32) {
        proof {
            lemma_view_events_push(self.events@, FakeEvent::Delayed(ms));
        }
        self.events.push(FakeEvent::Delayed(ms));
    }

    fn spi_write(&mut self, data: &Vec<u8>) -> (r: Result<(), u8>) {
        if self.fail_spi {
            return Err(self.fail_kind);
        }
        let copy = copy_bytes(data);
        proof {
            lemma_view_events_push(self.events@, FakeEvent::Wrote(copy));
        }
        self.events.push(FakeEvent::Wrote(copy));
        Ok(())
    }

    fn spi_read(&mut self, len: usize) -> (r: Result<Vec<u8>, u8>) {
        if self.fail_spi {
            return Err(self.fail_kind);
        }
        let mut out: Vec<u8> = Vec::new();
        if self.next_response < self.responses.len() {
            let mut i: usize = 0;
            while i < len
                invariant
                    i <= len,
                    out@.len() == i as int,
                    self.next_response < self.responses.len(),
                decreases len - i,
            {
                let resp = &self.responses[self.next_response];
                if i < resp.len() {
                    let b = resp[i];
                    out.push(b);
                } else {
                    out.push(0);
                }
                i += 1;
            }
            self.next_response = self.next_response + 1;
        } else {
            let mut i: usize = 0;
            while i < len
                invariant
                    i <= len,
                    out@.len() == i as int,
                decreases len - i,
            {
                out.push(0);
                i += 1;
            }
        }
        let copy = copy_bytes(&out);
        proof {
            lemma_view_events_push(self.events@, FakeEvent::ReadBytes(copy));
        }
        self.events.push(FakeEvent::ReadBytes(copy));
        Ok(out)
    }
}

} // verus!
