//! The driver state and the SPI transport layer.
//!
//! [`LoRa`] owns its board for the driver's lifetime and tracks the radio
//! bookkeeping: the operating mode mirror, the selected packet type, the
//! stored modulation and packet parameters, and the image-calibration flag.
//!
//! The transport primitives below issue whole SPI frames. Each one first
//! wakes the chip by toggling CS if the driver believes it sleeps, waits for
//! BUSY to fall, and only then opens the CS bracket — so every frame obeys
//! the chip protocol stated in [`crate::board`]. Their contracts give the
//! exact [`BusStep`] sequence appended to the board trace.

use vstd::prelude::*;

use crate::board::Board;
use crate::board::BusStep;
use crate::board::HalEvent;
use crate::board::step_events;
use crate::board::steps_events;
use crate::board::lemma_steps_events_concat;
use crate::mod_params::BoardConfig;
use crate::mod_params::ModulationParams;
use crate::mod_params::OpCode;
use crate::mod_params::PacketParams;
use crate::mod_params::PacketStatus;
use crate::mod_params::PacketType;
use crate::mod_params::RadioError;
use crate::mod_params::RadioMode;
use crate::mod_params::Register;

verus! {

/// Whether a command must first wake the chip: the chip turns its RC
/// oscillator off in Sleep and between duty-cycle receive windows, and only a
/// CS edge wakes it.
pub open spec fn wake_needed(mode: RadioMode) -> bool {
    mode == RadioMode::Sleep || mode == RadioMode::ReceiveDutyCycle
}

/// The operating mode after the chip was made ready for a command: a woken
/// chip sits in RC standby, any other keeps its mode.
pub open spec fn awake_mode(mode: RadioMode) -> RadioMode {
    if wake_needed(mode) {
        RadioMode::StandbyRC
    } else {
        mode
    }
}

/// The CS wake-up toggle, where one is needed.
pub open spec fn wake_steps(mode: RadioMode) -> Seq<BusStep> {
    if wake_needed(mode) {
        seq![BusStep::Plain(HalEvent::CsLow), BusStep::Plain(HalEvent::CsHigh)]
    } else {
        Seq::empty()
    }
}

/// Waking the chip if needed, then waiting for BUSY-low.
pub open spec fn check_ready_steps(mode: RadioMode) -> Seq<BusStep> {
    wake_steps(mode) + seq![BusStep::Plain(HalEvent::BusyPolled)]
}

/// The bytes of a command frame: the opcode followed by its parameters.
pub open spec fn command_frame(op: OpCode, params: Seq<u8>) -> Seq<u8> {
    seq![op.spec_value()] + params
}

/// A whole command write: wake if needed, then one bracketed frame.
pub open spec fn write_command_steps(mode: RadioMode, op: OpCode, params: Seq<u8>) -> Seq<
    BusStep,
> {
    wake_steps(mode) + seq![BusStep::WriteFrame(command_frame(op, params))]
}

/// A whole command read: wake if needed, then one bracketed frame carrying
/// the opcode out and the status byte and response back.
pub open spec fn read_command_steps(
    mode: RadioMode,
    op: OpCode,
    status: u8,
    data: Seq<u8>,
) -> Seq<BusStep> {
    wake_steps(mode) + seq![BusStep::ReadCmdFrame(seq![op.spec_value()], status, data)]
}

/// The bytes of a register write frame: opcode, big-endian address, data.
pub open spec fn register_write_frame(reg: Register, data: Seq<u8>) -> Seq<u8> {
    seq![OpCode::WriteRegister.spec_value(), reg.spec_addr_hi(), reg.spec_addr_lo()] + data
}

/// A whole register write: wake if needed, then one bracketed frame.
pub open spec fn write_registers_steps(mode: RadioMode, reg: Register, data: Seq<u8>) -> Seq<
    BusStep,
> {
    wake_steps(mode) + seq![BusStep::WriteFrame(register_write_frame(reg, data))]
}

/// The header of a register read frame: opcode, big-endian address, one NOP.
pub open spec fn register_read_header(reg: Register) -> Seq<u8> {
    seq![OpCode::ReadRegister.spec_value(), reg.spec_addr_hi(), reg.spec_addr_lo(), 0x00u8]
}

/// A whole register read: wake if needed, then one bracketed frame.
pub open spec fn read_registers_steps(mode: RadioMode, reg: Register, data: Seq<u8>) -> Seq<
    BusStep,
> {
    wake_steps(mode) + seq![BusStep::ReadRegFrame(register_read_header(reg), data)]
}

/// The bytes of a data-buffer write frame: opcode, offset, payload.
pub open spec fn buffer_write_frame(offset: u8, data: Seq<u8>) -> Seq<u8> {
    seq![OpCode::WriteBuffer.spec_value(), offset] + data
}

/// A whole data-buffer write: wake if needed, then one bracketed frame.
pub open spec fn write_buffer_steps(mode: RadioMode, offset: u8, data: Seq<u8>) -> Seq<BusStep> {
    wake_steps(mode) + seq![BusStep::WriteFrame(buffer_write_frame(offset, data))]
}

/// The header of a data-buffer read frame: opcode, offset, one NOP.
pub open spec fn buffer_read_header(offset: u8) -> Seq<u8> {
    seq![OpCode::ReadBuffer.spec_value(), offset, 0x00u8]
}

/// A whole data-buffer read: wake if needed, then one bracketed frame.
pub open spec fn read_buffer_steps(mode: RadioMode, offset: u8, data: Seq<u8>) -> Seq<BusStep> {
    wake_steps(mode) + seq![BusStep::ReadRegFrame(buffer_read_header(offset), data)]
}

/// Flattening a singleton step sequence gives that step's events.
pub proof fn lemma_singleton_steps(s: BusStep)
    ensures
        steps_events(seq![s]) == step_events(s),
{
    let ss = seq![s];
    assert(ss.drop_first().len() == 0);
    assert(steps_events(ss.drop_first()) =~= Seq::<HalEvent>::empty());
    assert(steps_events(ss) =~= step_events(s));
}

/// Flattening a two-step sequence gives both steps' events.
pub proof fn lemma_steps2(s0: BusStep, s1: BusStep)
    ensures
        steps_events(seq![s0, s1]) == step_events(s0) + step_events(s1),
{
    let ss = seq![s0, s1];
    assert(ss.drop_first() =~= seq![s1]);
    lemma_singleton_steps(s1);
    assert(steps_events(ss) =~= step_events(s0) + step_events(s1));
}

/// Flattening a three-step sequence gives the three steps' events.
pub proof fn lemma_steps3(s0: BusStep, s1: BusStep, s2: BusStep)
    ensures
        steps_events(seq![s0, s1, s2]) == step_events(s0) + step_events(s1) + step_events(s2),
{
    let ss = seq![s0, s1, s2];
    assert(ss.drop_first() =~= seq![s1, s2]);
    lemma_steps2(s1, s2);
    assert(steps_events(ss) =~= step_events(s0) + step_events(s1) + step_events(s2));
}

/// Two successive appends of step traces are one append of the concatenation.
pub proof fn lemma_appended_trans(
    l0: Seq<HalEvent>,
    l1: Seq<HalEvent>,
    l2: Seq<HalEvent>,
    s1: Seq<BusStep>,
    s2: Seq<BusStep>,
)
    requires
        l1 == l0 + steps_events(s1),
        l2 == l1 + steps_events(s2),
    ensures
        l2 == l0 + steps_events(s1 + s2),
{
    lemma_steps_events_concat(s1, s2);
    assert(l2 =~= l0 + steps_events(s1 + s2));
}

/// Appends all bytes of `src` to `dst`.
fn append_bytes(dst: &mut Vec<u8>, src: &Vec<u8>)
    ensures
        final (dst)@ == old(dst)@ + src@,
{
    let mut i: usize = 0;
    while i < src.len()
        invariant
            i <= src.len(),
            dst@ == old(dst)@ + src@.take(i as int),
        decreases src.len() - i,
    {
        dst.push(src[i]);
        assert(dst@ =~= old(dst)@ + src@.take(i as int + 1));
        i += 1;
    }
    assert(old(dst)@ + src@.take(src@.len() as int) =~= old(dst)@ + src@);
}

/// The driver: the board it owns and the radio bookkeeping mirror.
pub struct LoRa<B: Board> {
    /// The board, exclusively owned for the driver's lifetime.
    pub board: B,
    /// Board-level wiring: chip variant, oscillator, antenna control.
    pub config: BoardConfig,
    /// Mirror of the mode entered by the last command issued to the chip.
    pub operating_mode: RadioMode,
    /// The protocol selected by the last SetPacketType command.
    pub packet_type: PacketType,
    /// True only if the image-calibration band for the current frequency has
    /// been programmed since the last cold sleep or reset.
    pub image_calibrated: bool,
    /// Modulation parameters stored by the last configuration, if any.
    pub modulation_params: Option<ModulationParams>,
    /// Packet parameters stored by the last configuration, if any.
    pub packet_params: Option<PacketParams>,
    /// Frequency error of the last reception, in Hz.
    pub frequency_error: i32,
    /// Link quality of the last successful reception, if any.
    pub packet_status: Option<PacketStatus>,
    /// Whether reception was configured as continuous.
    pub rx_continuous: bool,
    /// Whether reception was configured with boosted LNA gain.
    pub rx_boosted: bool,
    /// Mark that a packet type has been selected on the chip at least once
    /// in this driver session: the RF frequency may only be set after that.
    pub packet_type_selected: Ghost<bool>,
}

impl<B: Board> LoRa<B> {
    /// The bus trace the owned board has observed.
    pub open spec fn log(self) -> Seq<HalEvent> {
        self.board.log()
    }

    /// The configuration record and the stored radio parameters are the same
    /// in both states, apart from the packet-type-selection mark; says
    /// nothing of the packet type, the calibration flag, the operating mode
    /// or the board.
    pub open spec fn same_radio_params_beyond_selection(pre: Self, post: Self) -> bool {
        &&& post.config == pre.config
        &&& post.modulation_params == pre.modulation_params
        &&& post.packet_params == pre.packet_params
        &&& post.frequency_error == pre.frequency_error
        &&& post.packet_status == pre.packet_status
        &&& post.rx_continuous == pre.rx_continuous
        &&& post.rx_boosted == pre.rx_boosted
    }

    /// The configuration record, the stored radio parameters and the
    /// packet-type-selection mark are the same in both states.
    pub open spec fn same_radio_params(pre: Self, post: Self) -> bool {
        &&& Self::same_radio_params_beyond_selection(pre, post)
        &&& post.packet_type_selected == pre.packet_type_selected
    }

    /// All driver bookkeeping except the board and the operating mode is the
    /// same in both states.
    pub open spec fn same_settings(pre: Self, post: Self) -> bool {
        &&& Self::same_radio_params(pre, post)
        &&& post.packet_type == pre.packet_type
        &&& post.image_calibrated == pre.image_calibrated
    }

    /// All driver bookkeeping except the board is the same in both states.
    pub open spec fn same_state(pre: Self, post: Self) -> bool {
        Self::same_settings(pre, post) && post.operating_mode == pre.operating_mode
    }

    /// The board trace grew by exactly the events of these steps.
    pub open spec fn appended(pre: Self, post: Self, ss: Seq<BusStep>) -> bool {
        post.log() == pre.log() + steps_events(ss)
    }

    /// A new driver around a board: the chip is taken as asleep, nothing is
    /// configured, nothing was received.
    pub fn new(board: B, config: BoardConfig) -> (r: LoRa<B>)
        ensures
            r.board == board,
            r.config == config,
            r.operating_mode == RadioMode::Sleep,
            r.packet_type == PacketType::LoRa,
            !r.image_calibrated,
            r.modulation_params is None,
            r.packet_params is None,
            r.frequency_error == 0,
            r.packet_status is None,
            !r.rx_continuous,
            !r.rx_boosted,
            !r.packet_type_selected@,
    {
        LoRa {
            board,
            config,
            operating_mode: RadioMode::Sleep,
            packet_type: PacketType::LoRa,
            image_calibrated: false,
            modulation_params: None,
            packet_params: None,
            frequency_error: 0,
            packet_status: None,
            rx_continuous: false,
            rx_boosted: false,
            packet_type_selected: Ghost(false),
        }
    }

    /// The operating-mode mirror.
    pub fn brd_get_operating_mode(&self) -> (r: RadioMode)
        ensures
            r == self.operating_mode,
    {
        self.operating_mode
    }

    /// Wakes a sleeping chip by toggling CS; the chip wakes into RC standby.
    /// Does nothing when the driver believes the chip is awake.
    fn brd_ensure_awake(&mut self) -> (r: Result<(), RadioError>)
        ensures
            r is Ok ==> Self::appended(
                *old(self),
                *final (self),
                wake_steps(old(self).operating_mode),
            ) && Self::same_settings(*old(self), *final (self)) && final (self).operating_mode
                == awake_mode(old(self).operating_mode),
            r matches Err(e) ==> e is DigitalOut && Self::same_settings(*old(self), *final (self)),
    {
        let ghost pre = *self;
        if self.operating_mode == RadioMode::Sleep || self.operating_mode
            == RadioMode::ReceiveDutyCycle {
            if let Err(k) = self.board.set_cs_low() {
                return Err(RadioError::DigitalOut(k));
            }
            if let Err(k) = self.board.set_cs_high() {
                return Err(RadioError::DigitalOut(k));
            }
            self.operating_mode = RadioMode::StandbyRC;
            proof {
                lemma_steps2(BusStep::Plain(HalEvent::CsLow), BusStep::Plain(HalEvent::CsHigh));
                assert(self.log() =~= pre.log() + steps_events(wake_steps(pre.operating_mode)));
            }
            Ok(())
        } else {
            proof {
                assert(self.log() =~= pre.log() + steps_events(wake_steps(pre.operating_mode)));
            }
            Ok(())
        }
    }

    /// Wakes the chip if it is in Sleep or duty-cycle receive mode and waits
    /// until BUSY is low, so that a command can be issued.
    pub fn sub_check_device_ready(&mut self) -> (r: Result<(), RadioError>)
        ensures
            r is Ok ==> Self::appended(
                *old(self),
                *final (self),
                check_ready_steps(old(self).operating_mode),
            ) && Self::same_settings(*old(self), *final (self)) && final (self).operating_mode
                == awake_mode(old(self).operating_mode),
            r matches Err(e) ==> (e is DigitalOut || e is BusyWait) && Self::same_settings(
                *old(self),
                *final (self),
            ),
    {
        let ghost pre = *self;
        self.brd_ensure_awake()?;
        let ghost mid = *self;
        if let Err(k) = self.board.wait_for_busy_low() {
            return Err(RadioError::BusyWait(k));
        }
        proof {
            lemma_singleton_steps(BusStep::Plain(HalEvent::BusyPolled));
            assert(self.log() =~= mid.log() + steps_events(
                seq![BusStep::Plain(HalEvent::BusyPolled)],
            ));
            lemma_appended_trans(
                pre.log(),
                mid.log(),
                self.log(),
                wake_steps(pre.operating_mode),
                seq![BusStep::Plain(HalEvent::BusyPolled)],
            );
        }
        Ok(())
    }

    /// Issues one opcode frame: wakes the chip if needed, waits for BUSY-low,
    /// and sends the opcode with its parameter bytes inside a CS bracket.
    pub fn brd_write_command(&mut self, op: OpCode, params: &Vec<u8>) -> (r: Result<
        (),
        RadioError,
    >)
        ensures
            r is Ok ==> Self::appended(
                *old(self),
                *final (self),
                write_command_steps(old(self).operating_mode, op, params@),
            ) && Self::same_settings(*old(self), *final (self)) && final (self).operating_mode
                == awake_mode(old(self).operating_mode),
            r matches Err(e) ==> (e is DigitalOut || e is BusyWait || e is Spi)
                && Self::same_settings(*old(self), *final (self)),
    {
        let ghost pre = *self;
        let mut frame: Vec<u8> = Vec::new();
        frame.push(op.value());
        append_bytes(&mut frame, params);
        assert(frame@ =~= command_frame(op, params@));
        self.brd_ensure_awake()?;
        let ghost mid = *self;
        if let Err(k) = self.board.wait_for_busy_low() {
            return Err(RadioError::BusyWait(k));
        }
        if let Err(k) = self.board.set_cs_low() {
            return Err(RadioError::DigitalOut(k));
        }
        if let Err(k) = self.board.spi_write(&frame) {
            return Err(RadioError::Spi(k));
        }
        if let Err(k) = self.board.set_cs_high() {
            return Err(RadioError::DigitalOut(k));
        }
        proof {
            let step = BusStep::WriteFrame(command_frame(op, params@));
            lemma_singleton_steps(step);
            assert(self.log() == mid.log() + steps_events(seq![step])) by {
                assert(self.log() =~= mid.log() + step_events(step));
            }
            lemma_appended_trans(
                pre.log(),
                mid.log(),
                self.log(),
                wake_steps(pre.operating_mode),
                seq![step],
            );
        }
        Ok(())
    }

    /// Issues one read-command frame: sends the opcode, clocks one NOP to
    /// capture the chip status byte, and reads `len` response bytes. Returns
    /// the status byte and the response.
    pub fn brd_read_command(&mut self, op: OpCode, len: usize) -> (r: Result<
        (u8, Vec<u8>),
        RadioError,
    >)
        ensures
            r matches Ok((status, data)) ==> data@.len() == len && Self::appended(
                *old(self),
                *final (self),
                read_command_steps(old(self).operating_mode, op, status, data@),
            ) && Self::same_settings(*old(self), *final (self)) && final (self).operating_mode
                == awake_mode(old(self).operating_mode),
            r matches Err(e) ==> (e is DigitalOut || e is BusyWait || e is Spi)
                && Self::same_settings(*old(self), *final (self)),
    {
        let ghost pre = *self;
        let mut hdr: Vec<u8> = Vec::new();
        hdr.push(op.value());
        assert(hdr@ =~= seq![op.spec_value()]);
        self.brd_ensure_awake()?;
        let ghost mid = *self;
        if let Err(k) = self.board.wait_for_busy_low() {
            return Err(RadioError::BusyWait(k));
        }
        if let Err(k) = self.board.set_cs_low() {
            return Err(RadioError::DigitalOut(k));
        }
        if let Err(k) = self.board.spi_write(&hdr) {
            return Err(RadioError::Spi(k));
        }
        let st = match self.board.spi_read(1) {
            Ok(d) => d,
            Err(k) => {
                return Err(RadioError::Spi(k));
            },
        };
        let data = match self.board.spi_read(len) {
            Ok(d) => d,
            Err(k) => {
                return Err(RadioError::Spi(k));
            },
        };
        if let Err(k) = self.board.set_cs_high() {
            return Err(RadioError::DigitalOut(k));
        }
        let status = st[0];
        proof {
            let step = BusStep::ReadCmdFrame(seq![op.spec_value()], status, data@);
            lemma_singleton_steps(step);
            assert(st@ =~= seq![status]);
            assert(self.log() == mid.log() + steps_events(seq![step])) by {
                assert(self.log() =~= mid.log() + step_events(step));
            }
            lemma_appended_trans(
                pre.log(),
                mid.log(),
                self.log(),
                wake_steps(pre.operating_mode),
                seq![step],
            );
        }
        Ok((status, data))
    }

    /// Writes a byte range to chip registers starting at the given register.
    pub fn brd_write_registers(&mut self, reg: Register, data: &Vec<u8>) -> (r: Result<
        (),
        RadioError,
    >)
        ensures
            r is Ok ==> Self::appended(
                *old(self),
                *final (self),
                write_registers_steps(old(self).operating_mode, reg, data@),
            ) && Self::same_settings(*old(self), *final (self)) && final (self).operating_mode
                == awake_mode(old(self).operating_mode),
            r matches Err(e) ==> (e is DigitalOut || e is BusyWait || e is Spi)
                && Self::same_settings(*old(self), *final (self)),
    {
        let ghost pre = *self;
        let mut frame: Vec<u8> = Vec::new();
        frame.push(OpCode::WriteRegister.value());
        frame.push(reg.addr_hi());
        frame.push(reg.addr_lo());
        append_bytes(&mut frame, data);
        assert(frame@ =~= register_write_frame(reg, data@));
        self.brd_ensure_awake()?;
        let ghost mid = *self;
        if let Err(k) = self.board.wait_for_busy_low() {
            return Err(RadioError::BusyWait(k));
        }
        if let Err(k) = self.board.set_cs_low() {
            return Err(RadioError::DigitalOut(k));
        }
        if let Err(k) = self.board.spi_write(&frame) {
            return Err(RadioError::Spi(k));
        }
        if let Err(k) = self.board.set_cs_high() {
            return Err(RadioError::DigitalOut(k));
        }
        proof {
            let step = BusStep::WriteFrame(register_write_frame(reg, data@));
            lemma_singleton_steps(step);
            assert(self.log() == mid.log() + steps_events(seq![step])) by {
                assert(self.log() =~= mid.log() + step_events(step));
            }
            lemma_appended_trans(
                pre.log(),
                mid.log(),
                self.log(),
                wake_steps(pre.operating_mode),
                seq![step],
            );
        }
        Ok(())
    }

    /// Reads a byte range from chip registers starting at the given register.
    pub fn brd_read_registers(&mut self, reg: Register, len: usize) -> (r: Result<
        Vec<u8>,
        RadioError,
    >)
        ensures
            r matches Ok(data) ==> data@.len() == len && Self::appended(
                *old(self),
                *final (self),
                read_registers_steps(old(self).operating_mode, reg, data@),
            ) && Self::same_settings(*old(self), *final (self)) && final (self).operating_mode
                == awake_mode(old(self).operating_mode),
            r matches Err(e) ==> (e is DigitalOut || e is BusyWait || e is Spi)
                && Self::same_settings(*old(self), *final (self)),
    {
        let ghost pre = *self;
        let mut hdr: Vec<u8> = Vec::new();
        hdr.push(OpCode::ReadRegister.value());
        hdr.push(reg.addr_hi());
        hdr.push(reg.addr_lo());
        hdr.push(0x00);
        assert(hdr@ =~= register_read_header(reg));
        self.brd_ensure_awake()?;
        let ghost mid = *self;
        if let Err(k) = self.board.wait_for_busy_low() {
            return Err(RadioError::BusyWait(k));
        }
        if let Err(k) = self.board.set_cs_low() {
            return Err(RadioError::DigitalOut(k));
        }
        if let Err(k) = self.board.spi_write(&hdr) {
            return Err(RadioError::Spi(k));
        }
        let data = match self.board.spi_read(len) {
            Ok(d) => d,
            Err(k) => {
                return Err(RadioError::Spi(k));
            },
        };
        if let Err(k) = self.board.set_cs_high() {
            return Err(RadioError::DigitalOut(k));
        }
        proof {
            let step = BusStep::ReadRegFrame(register_read_header(reg), data@);
            lemma_singleton_steps(step);
            assert(self.log() == mid.log() + steps_events(seq![step])) by {
                assert(self.log() =~= mid.log() + step_events(step));
            }
            lemma_appended_trans(
                pre.log(),
                mid.log(),
                self.log(),
                wake_steps(pre.operating_mode),
                seq![step],
            );
        }
        Ok(data)
    }

    /// Writes payload bytes into the radio data buffer at the given offset.
    pub fn brd_write_buffer(&mut self, offset: u8, data: &Vec<u8>) -> (r: Result<(), RadioError>)
        ensures
            r is Ok ==> Self::appended(
                *old(self),
                *final (self),
                write_buffer_steps(old(self).operating_mode, offset, data@),
            ) && Self::same_settings(*old(self), *final (self)) && final (self).operating_mode
                == awake_mode(old(self).operating_mode),
            r matches Err(e) ==> (e is DigitalOut || e is BusyWait || e is Spi)
                && Self::same_settings(*old(self), *final (self)),
    {
        let ghost pre = *self;
        let mut frame: Vec<u8> = Vec::new();
        frame.push(OpCode::WriteBuffer.value());
        frame.push(offset);
        append_bytes(&mut frame, data);
        assert(frame@ =~= buffer_write_frame(offset, data@));
        self.brd_ensure_awake()?;
        let ghost mid = *self;
        if let Err(k) = self.board.wait_for_busy_low() {
            return Err(RadioError::BusyWait(k));
        }
        if let Err(k) = self.board.set_cs_low() {
            return Err(RadioError::DigitalOut(k));
        }
        if let Err(k) = self.board.spi_write(&frame) {
            return Err(RadioError::Spi(k));
        }
        if let Err(k) = self.board.set_cs_high() {
            return Err(RadioError::DigitalOut(k));
        }
        proof {
            let step = BusStep::WriteFrame(buffer_write_frame(offset, data@));
            lemma_singleton_steps(step);
            assert(self.log() == mid.log() + steps_events(seq![step])) by {
                assert(self.log() =~= mid.log() + step_events(step));
            }
            lemma_appended_trans(
                pre.log(),
                mid.log(),
                self.log(),
                wake_steps(pre.operating_mode),
                seq![step],
            );
        }
        Ok(())
    }

    /// Reads payload bytes from the radio data buffer at the given offset.
    pub fn brd_read_buffer(&mut self, offset: u8, len: usize) -> (r: Result<Vec<u8>, RadioError>)
        ensures
            r matches Ok(data) ==> data@.len() == len && Self::appended(
                *old(self),
                *final (self),
                read_buffer_steps(old(self).operating_mode, offset, data@),
            ) && Self::same_settings(*old(self), *final (self)) && final (self).operating_mode
                == awake_mode(old(self).operating_mode),
            r matches Err(e) ==> (e is DigitalOut || e is BusyWait || e is Spi)
                && Self::same_settings(*old(self), *final (self)),
    {
        let ghost pre = *self;
        let mut hdr: Vec<u8> = Vec::new();
        hdr.push(OpCode::ReadBuffer.value());
        hdr.push(offset);
        hdr.push(0x00);
        assert(hdr@ =~= buffer_read_header(offset));
        self.brd_ensure_awake()?;
        let ghost mid = *self;
        if let Err(k) = self.board.wait_for_busy_low() {
            return Err(RadioError::BusyWait(k));
        }
        if let Err(k) = self.board.set_cs_low() {
            return Err(RadioError::DigitalOut(k));
        }
        if let Err(k) = self.board.spi_write(&hdr) {
            return Err(RadioError::Spi(k));
        }
        let data = match self.board.spi_read(len) {
            Ok(d) => d,
            Err(k) => {
                return Err(RadioError::Spi(k));
            },
        };
        if let Err(k) = self.board.set_cs_high() {
            return Err(RadioError::DigitalOut(k));
        }
        proof {
            let step = BusStep::ReadRegFrame(buffer_read_header(offset), data@);
            lemma_singleton_steps(step);
            assert(self.log() == mid.log() + steps_events(seq![step])) by {
                assert(self.log() =~= mid.log() + step_events(step));
            }
            lemma_appended_trans(
                pre.log(),
                mid.log(),
                self.log(),
                wake_steps(pre.operating_mode),
                seq![step],
            );
        }
        Ok(data)
    }

    /// Puts the antenna switch into transmit position.
    pub fn brd_ant_set_tx(&mut self) -> (r: Result<(), RadioError>)
        ensures
            r is Ok ==> Self::appended(
                *old(self),
                *final (self),
                seq![BusStep::Plain(HalEvent::AntennaTx)],
            ) && Self::same_state(*old(self), *final (self)),
            r matches Err(e) ==> e is DigitalOut && Self::same_state(*old(self), *final (self)),
    {
        let ghost pre = *self;
        if let Err(k) = self.board.antenna_tx() {
            return Err(RadioError::DigitalOut(k));
        }
        proof {
            lemma_singleton_steps(BusStep::Plain(HalEvent::AntennaTx));
            assert(self.log() =~= pre.log() + step_events(BusStep::Plain(HalEvent::AntennaTx)));
        }
        Ok(())
    }

    /// Puts the antenna switch into receive position.
    pub fn brd_ant_set_rx(&mut self) -> (r: Result<(), RadioError>)
        ensures
            r is Ok ==> Self::appended(
                *old(self),
                *final (self),
                seq![BusStep::Plain(HalEvent::AntennaRx)],
            ) && Self::same_state(*old(self), *final (self)),
            r matches Err(e) ==> e is DigitalOut && Self::same_state(*old(self), *final (self)),
    {
        let ghost pre = *self;
        if let Err(k) = self.board.antenna_rx() {
            return Err(RadioError::DigitalOut(k));
        }
        proof {
            lemma_singleton_steps(BusStep::Plain(HalEvent::AntennaRx));
            assert(self.log() =~= pre.log() + step_events(BusStep::Plain(HalEvent::AntennaRx)));
        }
        Ok(())
    }

    /// Puts the antenna switch into sleep position.
    pub fn brd_ant_sleep(&mut self) -> (r: Result<(), RadioError>)
        ensures
            r is Ok ==> Self::appended(
                *old(self),
                *final (self),
                seq![BusStep::Plain(HalEvent::AntennaSleep)],
            ) && Self::same_state(*old(self), *final (self)),
            r matches Err(e) ==> e is DigitalOut && Self::same_state(*old(self), *final (self)),
    {
        let ghost pre = *self;
        if let Err(k) = self.board.antenna_sleep() {
            return Err(RadioError::DigitalOut(k));
        }
        proof {
            lemma_singleton_steps(BusStep::Plain(HalEvent::AntennaSleep));
            assert(self.log() =~= pre.log() + step_events(BusStep::Plain(HalEvent::AntennaSleep)));
        }
        Ok(())
    }

    /// Drives RESET low for 50 ms and releases it. The chip restarts; the
    /// driver takes it as asleep until it is woken and put into standby.
    pub fn brd_reset(&mut self) -> (r: Result<(), RadioError>)
        ensures
            r is Ok ==> Self::appended(
                *old(self),
                *final (self),
                seq![
                    BusStep::Plain(HalEvent::ResetLow),
                    BusStep::Plain(HalEvent::Delayed(50)),
                    BusStep::Plain(HalEvent::ResetHigh),
                ],
            ) && Self::same_settings(*old(self), *final (self)) && final (self).operating_mode
                == RadioMode::Sleep,
            r matches Err(e) ==> e is DigitalOut && Self::same_settings(
                *old(self),
                *final (self),
            ),
    {
        let ghost pre = *self;
        if let Err(k) = self.board.set_reset_low() {
            return Err(RadioError::DigitalOut(k));
        }
        self.board.delay_ms(50);
        if let Err(k) = self.board.set_reset_high() {
            return Err(RadioError::DigitalOut(k));
        }
        self.operating_mode = RadioMode::Sleep;
        proof {
            let ss = seq![
                BusStep::Plain(HalEvent::ResetLow),
                BusStep::Plain(HalEvent::Delayed(50)),
                BusStep::Plain(HalEvent::ResetHigh),
            ];
            lemma_steps3(
                BusStep::Plain(HalEvent::ResetLow),
                BusStep::Plain(HalEvent::Delayed(50)),
                BusStep::Plain(HalEvent::ResetHigh),
            );
            assert(self.log() =~= pre.log() + steps_events(ss));
        }
        Ok(())
    }
}

} // verus!

verus! {

/// A concatenation of well-formed step sequences is well-formed.
pub proof fn lemma_steps_wf_concat(a: Seq<BusStep>, b: Seq<BusStep>)
    requires
        crate::board::steps_wf(a),
        crate::board::steps_wf(b),
    ensures
        crate::board::steps_wf(a + b),
{
    assert forall|i: int| 0 <= i < (a + b).len() implies crate::board::step_wf(
        #[trigger] (a + b)[i],
    ) by {
        if i < a.len() {
            assert((a + b)[i] == a[i]);
        } else {
            assert((a + b)[i] == b[i - a.len()]);
        }
    }
}

/// A lone pin or wait event is a well-formed step sequence.
pub proof fn lemma_plain_step_wf(e: HalEvent)
    requires
        !crate::board::is_transfer(e),
    ensures
        crate::board::steps_wf(seq![BusStep::Plain(e)]),
{
}

/// The wake-up toggle is well-formed.
pub proof fn lemma_wake_steps_wf(mode: RadioMode)
    ensures
        crate::board::steps_wf(wake_steps(mode)),
{
}

/// Waking and waiting for BUSY is well-formed.
pub proof fn lemma_check_ready_steps_wf(mode: RadioMode)
    ensures
        crate::board::steps_wf(check_ready_steps(mode)),
{
    lemma_wake_steps_wf(mode);
    lemma_plain_step_wf(HalEvent::BusyPolled);
    lemma_steps_wf_concat(wake_steps(mode), seq![BusStep::Plain(HalEvent::BusyPolled)]);
}

/// Every command write the transport layer issues is well-formed.
pub proof fn lemma_write_command_steps_wf(mode: RadioMode, op: OpCode, params: Seq<u8>)
    ensures
        crate::board::steps_wf(write_command_steps(mode, op, params)),
{
    lemma_wake_steps_wf(mode);
    lemma_steps_wf_concat(
        wake_steps(mode),
        seq![BusStep::WriteFrame(command_frame(op, params))],
    );
}

/// Every command read the transport layer issues is well-formed.
pub proof fn lemma_read_command_steps_wf(mode: RadioMode, op: OpCode, status: u8, data: Seq<u8>)
    ensures
        crate::board::steps_wf(read_command_steps(mode, op, status, data)),
{
    lemma_wake_steps_wf(mode);
    lemma_steps_wf_concat(
        wake_steps(mode),
        seq![BusStep::ReadCmdFrame(seq![op.spec_value()], status, data)],
    );
}

/// Every register write the transport layer issues is well-formed.
pub proof fn lemma_write_registers_steps_wf(mode: RadioMode, reg: Register, data: Seq<u8>)
    ensures
        crate::board::steps_wf(write_registers_steps(mode, reg, data)),
{
    lemma_wake_steps_wf(mode);
    lemma_steps_wf_concat(
        wake_steps(mode),
        seq![BusStep::WriteFrame(register_write_frame(reg, data))],
    );
}

/// Every register read the transport layer issues is well-formed.
pub proof fn lemma_read_registers_steps_wf(mode: RadioMode, reg: Register, data: Seq<u8>)
    ensures
        crate::board::steps_wf(read_registers_steps(mode, reg, data)),
{
    lemma_wake_steps_wf(mode);
    lemma_steps_wf_concat(
        wake_steps(mode),
        seq![BusStep::ReadRegFrame(register_read_header(reg), data)],
    );
}

/// Every data-buffer write the transport layer issues is well-formed.
pub proof fn lemma_write_buffer_steps_wf(mode: RadioMode, offset: u8, data: Seq<u8>)
    ensures
        crate::board::steps_wf(write_buffer_steps(mode, offset, data)),
{
    lemma_wake_steps_wf(mode);
    lemma_steps_wf_concat(
        wake_steps(mode),
        seq![BusStep::WriteFrame(buffer_write_frame(offset, data))],
    );
}

/// Every data-buffer read the transport layer issues is well-formed.
pub proof fn lemma_read_buffer_steps_wf(mode: RadioMode, offset: u8, data: Seq<u8>)
    ensures
        crate::board::steps_wf(read_buffer_steps(mode, offset, data)),
{
    lemma_wake_steps_wf(mode);
    lemma_steps_wf_concat(
        wake_steps(mode),
        seq![BusStep::ReadRegFrame(buffer_read_header(offset), data)],
    );
}

} // verus!
