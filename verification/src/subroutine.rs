//! One subroutine per chip command: each owns its bit packing and issues its
//! opcode frame (or register-backed workaround) through the transport layer.
//! The contracts give the exact frames sent, the operating-mode mirror after
//! the command, and the fixed-point conversions behind the parameters.

use vstd::prelude::*;
use vstd::arithmetic::div_mod::lemma_div_is_ordered;
use vstd::arithmetic::div_mod::lemma_fundamental_div_mod;
use vstd::arithmetic::div_mod::lemma_fundamental_div_mod_converse_div;
use vstd::arithmetic::div_mod::lemma_mod_division_less_than_divisor;
use vstd::arithmetic::power2::pow2;
use vstd::arithmetic::power2::lemma2_to64;

use crate::board::Board;
use crate::board::BusStep;
use crate::board::HalEvent;
use crate::board::steps_events;
use crate::lora::LoRa;
use crate::lora::awake_mode;
use crate::lora::lemma_appended_trans;
use crate::lora::read_buffer_steps;
use crate::lora::read_command_steps;
use crate::lora::read_registers_steps;
use crate::lora::write_command_steps;
use crate::lora::write_registers_steps;
use crate::mod_params::CADExitMode;
use crate::mod_params::CADSymbols;
use crate::mod_params::CalibrationParams;
use crate::mod_params::OpCode;
use crate::mod_params::PacketType;
use crate::mod_params::RadioError;
use crate::mod_params::RadioMode;
use crate::mod_params::RampTime;
use crate::mod_params::Register;
use crate::mod_params::RegulatorMode;
use crate::mod_params::SleepParams;
use crate::mod_params::StandbyMode;
use crate::mod_params::TcxoCtrlVoltage;

verus! {

/// Crystal frequency of the radio, in Hz.
pub const SX126X_XTAL_FREQ: u32 = 32000000;

/// Scaling shift used for the fixed-point PLL-step conversion.
pub const SX126X_PLL_STEP_SHIFT_AMOUNT: u32 = 14;

/// The PLL step scaled by the shift amount: the crystal frequency divided by
/// two to the eleventh.
pub const SX126X_PLL_STEP_SCALED: u32 = 15625;

/// Largest value the LoRa symbol-number timeout admits.
pub const SX126X_MAX_LORA_SYMB_NUM_TIMEOUT: u8 = 248;

/// A 24-bit timeout packed big-endian into three bytes, each tick being
/// 15.625 microseconds on the chip.
pub open spec fn timeout_bytes(timeout: u32) -> Seq<u8> {
    seq![
        ((timeout >> 16) & 0xFF) as u8,
        ((timeout >> 8) & 0xFF) as u8,
        (timeout & 0xFF) as u8,
    ]
}

/// A 16-bit value packed big-endian into two bytes.
pub open spec fn u16_be_bytes(v: u16) -> Seq<u8> {
    seq![((v >> 8) & 0xFF) as u8, (v & 0xFF) as u8]
}

/// A 32-bit value assembled big-endian from four bytes.
pub open spec fn spec_u32_from_be_bytes(b0: u8, b1: u8, b2: u8, b3: u8) -> u32 {
    ((b0 as u32) << 24) | ((b1 as u32) << 16) | ((b2 as u32) << 8) | (b3 as u32)
}

/// PLL steps of a frequency: the frequency times two to the twenty-fifth over
/// the 32 MHz crystal, rounded half up.
pub open spec fn pll_steps_of(f: int) -> int {
    (f * 33554432 + 16000000) / 32000000
}

/// The calibration band programmed by CalibrateImage for a frequency, chosen
/// among five precomputed band pairs.
pub open spec fn cal_band_bytes(freq: u32) -> Seq<u8> {
    if freq > 900000000 {
        seq![0xE1u8, 0xE9u8]
    } else if freq > 850000000 {
        seq![0xD7u8, 0xDBu8]
    } else if freq > 770000000 {
        seq![0xC1u8, 0xC5u8]
    } else if freq > 460000000 {
        seq![0x75u8, 0x81u8]
    } else if freq > 425000000 {
        seq![0x6Bu8, 0x6Fu8]
    } else {
        seq![0x00u8, 0x00u8]
    }
}

/// Entering sleep: antenna parked, then one SetSleep frame.
pub open spec fn set_sleep_steps(mode: RadioMode, cfg: SleepParams) -> Seq<BusStep> {
    seq![BusStep::Plain(HalEvent::AntennaSleep)] + write_command_steps(
        mode,
        OpCode::SetSleep,
        seq![cfg.spec_value()],
    )
}

/// Entering standby: one SetStandby frame, then the antenna parked.
pub open spec fn set_standby_steps(mode: RadioMode, standby: StandbyMode) -> Seq<BusStep> {
    write_command_steps(mode, OpCode::SetStandby, seq![standby.spec_value()]) + seq![
        BusStep::Plain(HalEvent::AntennaSleep),
    ]
}

/// Entering transmit mode: antenna to transmit, then one SetTx frame with the
/// packed timeout. The mode mirror is set before the frame goes out.
pub open spec fn set_tx_steps(timeout: u32) -> Seq<BusStep> {
    seq![BusStep::Plain(HalEvent::AntennaTx)] + write_command_steps(
        RadioMode::Transmit,
        OpCode::SetTx,
        timeout_bytes(timeout),
    )
}

/// Entering receive mode: antenna to receive, the RX gain register written,
/// then one SetRx frame with the packed timeout.
pub open spec fn set_rx_gain_steps(timeout: u32, gain: u8) -> Seq<BusStep> {
    seq![BusStep::Plain(HalEvent::AntennaRx)] + write_registers_steps(
        RadioMode::Receive,
        Register::RxGain,
        seq![gain],
    ) + write_command_steps(RadioMode::Receive, OpCode::SetRx, timeout_bytes(timeout))
}

/// Receive with the power-saving gain byte.
pub open spec fn set_rx_steps(timeout: u32) -> Seq<BusStep> {
    set_rx_gain_steps(timeout, 0x94)
}

/// Receive with the boosted-sensitivity gain byte.
pub open spec fn set_rx_boosted_steps(timeout: u32) -> Seq<BusStep> {
    set_rx_gain_steps(timeout, 0x96)
}

/// Selecting the radio protocol: one SetPacketType frame.
pub open spec fn set_packet_type_steps(mode: RadioMode, pt: crate::mod_params::PacketType) -> Seq<
    BusStep,
> {
    write_command_steps(mode, OpCode::SetPacketType, seq![pt.spec_value()])
}

/// The symbol count after clamping to the chip maximum.
pub open spec fn spec_symb_clamped(symb_num: u16) -> int {
    if symb_num > 248 {
        248int
    } else {
        symb_num as int
    }
}

/// The symbol-timeout mantissa: half the clamped count rounded up, quartered
/// (rounded up) once more when that exceeds the five-bit field.
pub open spec fn spec_symb_mant(symb_num: u16) -> u8 {
    let m = (spec_symb_clamped(symb_num) + 1) / 2;
    if m > 31 {
        ((m + 3) / 4) as u8
    } else {
        m as u8
    }
}

/// The symbol-timeout exponent: one exactly when the halved count overflows
/// the five-bit mantissa.
pub open spec fn spec_symb_exp(symb_num: u16) -> u8 {
    if (spec_symb_clamped(symb_num) + 1) / 2 > 31 {
        1u8
    } else {
        0u8
    }
}

impl<B: Board> LoRa<B> {
    /// Most significant byte of a 24-bit timeout.
    pub fn timeout_1(timeout: u32) -> (r: u8)
        ensures
            r == ((timeout >> 16) & 0xFF) as u8,
    {
        ((timeout >> 16) & 0xFF) as u8
    }

    /// Middle byte of a 24-bit timeout.
    pub fn timeout_2(timeout: u32) -> (r: u8)
        ensures
            r == ((timeout >> 8) & 0xFF) as u8,
    {
        ((timeout >> 8) & 0xFF) as u8
    }

    /// Least significant byte of a 24-bit timeout.
    pub fn timeout_3(timeout: u32) -> (r: u8)
        ensures
            r == (timeout & 0xFF) as u8,
    {
        (timeout & 0xFF) as u8
    }

    /// Assembles a 32-bit value big-endian from four bytes.
    pub fn convert_u8_buffer_to_u32(buffer: &[u8; 4]) -> (r: u32)
        ensures
            r == spec_u32_from_be_bytes(buffer[0], buffer[1], buffer[2], buffer[3]),
    {
        let b0 = buffer[0] as u32;
        let b1 = buffer[1] as u32;
        let b2 = buffer[2] as u32;
        let b3 = buffer[3] as u32;
        (b0 << 24) | (b1 << 16) | (b2 << 8) | b3
    }

    /// Converts a frequency in Hz to PLL steps: a fixed-point multiply by two
    /// to the twenty-fifth over the crystal frequency, rounded to nearest.
    /// The bound on the frequency is what keeps the 32-bit arithmetic exact;
    /// the radio itself admits 150 MHz to 960 MHz.
    pub fn convert_freq_in_hz_to_pll_step(freq_in_hz: u32) -> (r: u32)
        requires
            freq_in_hz < 4096000000,
        ensures
            r == pll_steps_of(freq_in_hz as int),
    {
        // Get integer and fractional parts of the frequency computed with a
        // PLL step scaled value
        let steps_int: u32 = freq_in_hz / SX126X_PLL_STEP_SCALED;
        let steps_frac: u32 = freq_in_hz % SX126X_PLL_STEP_SCALED;
        proof {
            lemma_div_is_ordered(freq_in_hz as int, 4095999999, 15625);
        }
        let scaled_int: u32 = steps_int * 16384;
        let scaled_frac: u32 = (steps_frac * 16384 + (SX126X_PLL_STEP_SCALED / 2))
            / SX126X_PLL_STEP_SCALED;
        proof {
            lemma_div_is_ordered(
                steps_frac as int * 16384 + 7812,
                (15624 * 16384 + 7812) as int,
                15625,
            );
        }
        let r = scaled_int + scaled_frac;
        proof {
            let f = freq_in_hz as int;
            let qi = steps_int as int;
            let rf = steps_frac as int;
            let qf = scaled_frac as int;
            lemma_fundamental_div_mod(f, 15625);
            lemma_fundamental_div_mod(rf * 16384 + 7812, 15625);
            let rr = (rf * 16384 + 7812) % 15625;
            assert(f * 33554432 + 16000000 == (qi * 16384 + qf) * 32000000 + (2048 * rr + 1024))
                by (nonlinear_arith)
                requires
                    f == 15625 * qi + rf,
                    rf * 16384 + 7812 == 15625 * qf + rr,
            ;
            lemma_fundamental_div_mod_converse_div(
                f * 33554432 + 16000000,
                32000000,
                qi * 16384 + qf,
                2048 * rr + 1024,
            );
        }
        r
    }

    /// Encodes a symbol count as a mantissa and exponent pair, clamping the
    /// count to [`SX126X_MAX_LORA_SYMB_NUM_TIMEOUT`]. The result is exactly
    /// [`spec_symb_mant`] and [`spec_symb_exp`], and the chip waits
    /// `mant * 2^(2 * exp + 1)` symbols, never fewer than asked.
    pub fn symb_num_timeout_mant_exp(symb_num: u16) -> (r: (u8, u8))
        ensures
            r == (spec_symb_mant(symb_num), spec_symb_exp(symb_num)),
            ({
                let (mant, exp) = r;
                &&& mant <= 31
                &&& exp <= 1
                &&& (mant as int) * (pow2((2 * exp + 1) as nat) as int) >= spec_symb_clamped(
                    symb_num,
                )
            }),
    {
        let clamped: u8 = if symb_num > SX126X_MAX_LORA_SYMB_NUM_TIMEOUT as u16 {
            SX126X_MAX_LORA_SYMB_NUM_TIMEOUT
        } else {
            symb_num as u8
        };
        let mut mant: u8 = (clamped + 1) / 2;
        let mut exp: u8 = 0;
        proof {
            lemma2_to64();
            lemma_fundamental_div_mod(clamped as int + 1, 2);
            lemma_mod_division_less_than_divisor(clamped as int + 1, 2);
            assert(2 * (mant as int) >= clamped as int);
            assert((2 * exp + 1) as nat == 1);
            assert((mant as int) * (pow2(1) as int) >= clamped as int) by (nonlinear_arith)
                requires
                    pow2(1) == 2,
                    2 * (mant as int) >= clamped as int,
            ;
        }
        while mant > 31
            invariant
                mant <= 124,
                exp <= 1,
                exp == 1 ==> mant <= 31,
                exp == 0 ==> mant as int == (spec_symb_clamped(symb_num) + 1) / 2,
                exp == 1 ==> (spec_symb_clamped(symb_num) + 1) / 2 > 31 && mant as int == ((
                spec_symb_clamped(symb_num) + 1) / 2 + 3) / 4,
                (mant as int) * (pow2((2 * exp + 1) as nat) as int) >= spec_symb_clamped(symb_num),
                pow2(1) == 2 && pow2(3) == 8,
            decreases mant,
        {
            let ghost m0 = mant as int;
            let ghost goal: int = spec_symb_clamped(symb_num);
            assert(exp == 0);
            mant = (mant + 3) / 4;
            exp = exp + 1;
            proof {
                lemma_fundamental_div_mod(m0 + 3, 4);
                lemma_mod_division_less_than_divisor(m0 + 3, 4);
                assert(4 * (mant as int) >= m0);
                assert(2 * m0 >= goal) by (nonlinear_arith)
                    requires
                        pow2(1) == 2,
                        m0 * (pow2(1) as int) >= goal,
                ;
                assert((2 * exp + 1) as nat == 3);
                assert((mant as int) * (pow2(3) as int) >= goal) by (nonlinear_arith)
                    requires
                        pow2(3) == 8,
                        4 * (mant as int) >= m0,
                        2 * m0 >= goal,
                ;
            }
        }
        (mant, exp)
    }
}

} // verus!

verus! {

/// A one-byte parameter list.
fn byte_params1(b0: u8) -> (r: Vec<u8>)
    ensures
        r@ == seq![b0],
{
    let mut v: Vec<u8> = Vec::new();
    v.push(b0);
    proof {
        assert(v@ =~= seq![b0]);
    }
    v
}

/// A two-byte parameter list.
fn byte_params2(b0: u8, b1: u8) -> (r: Vec<u8>)
    ensures
        r@ == seq![b0, b1],
{
    let mut v: Vec<u8> = Vec::new();
    v.push(b0);
    v.push(b1);
    proof {
        assert(v@ =~= seq![b0, b1]);
    }
    v
}

/// A four-byte parameter list.
fn byte_params4(b0: u8, b1: u8, b2: u8, b3: u8) -> (r: Vec<u8>)
    ensures
        r@ == seq![b0, b1, b2, b3],
{
    let mut v: Vec<u8> = Vec::new();
    v.push(b0);
    v.push(b1);
    v.push(b2);
    v.push(b3);
    proof {
        assert(v@ =~= seq![b0, b1, b2, b3]);
    }
    v
}

impl<B: Board> LoRa<B> {
    /// Saves the payload to be sent into the radio buffer, at offset zero.
    pub fn sub_set_payload(&mut self, payload: &Vec<u8>) -> (r: Result<(), RadioError>)
        ensures
            r is Ok ==> Self::appended(
                *old(self),
                *final (self),
                crate::lora::write_buffer_steps(old(self).operating_mode, 0x00, payload@),
            ) && Self::same_settings(*old(self), *final (self)) && final (self).operating_mode
                == awake_mode(old(self).operating_mode),
            r matches Err(e) ==> (e is DigitalOut || e is BusyWait || e is Spi),
    {
        self.brd_write_buffer(0x00, payload)
    }

    /// Sends a payload: writes it into the radio buffer, then enters transmit
    /// mode with the given timeout.
    pub fn sub_send_payload(&mut self, payload: &Vec<u8>, timeout: u32) -> (r: Result<
        (),
        RadioError,
    >)
        ensures
            r is Ok ==> Self::appended(
                *old(self),
                *final (self),
                crate::lora::write_buffer_steps(old(self).operating_mode, 0x00, payload@)
                    + set_tx_steps(timeout),
            ) && Self::same_settings(*old(self), *final (self)) && final (self).operating_mode
                == RadioMode::Transmit,
            r matches Err(e) ==> (e is DigitalOut || e is BusyWait || e is Spi),
    {
        let ghost pre = *self;
        self.sub_set_payload(payload)?;
        let ghost mid = *self;
        self.sub_set_tx(timeout)?;
        proof {
            lemma_appended_trans(
                pre.log(),
                mid.log(),
                self.log(),
                crate::lora::write_buffer_steps(pre.operating_mode, 0x00, payload@),
                set_tx_steps(timeout),
            );
        }
        Ok(())
    }

    /// Puts the radio to sleep: parks the antenna and issues SetSleep. A cold
    /// sleep (no warm start) loses the image calibration.
    pub fn sub_set_sleep(&mut self, sleep_config: SleepParams) -> (r: Result<(), RadioError>)
        ensures
            r is Ok ==> Self::appended(
                *old(self),
                *final (self),
                set_sleep_steps(old(self).operating_mode, sleep_config),
            ) && Self::same_radio_params(*old(self), *final (self)) && final (self).packet_type
                == old(self).packet_type && final (self).image_calibrated == (old(self).image_calibrated && sleep_config.warm_start) && final (self).operating_mode
                == RadioMode::Sleep,
            r matches Err(e) ==> (e is DigitalOut || e is BusyWait || e is Spi),
    {
        let ghost pre = *self;
        self.brd_ant_sleep()?;
        let ghost mid = *self;
        if !sleep_config.warm_start {
            self.image_calibrated = false;
        }
        let params = byte_params1(sleep_config.value());
        self.brd_write_command(OpCode::SetSleep, &params)?;
        self.operating_mode = RadioMode::Sleep;
        proof {
            assert(params@ =~= seq![sleep_config.spec_value()]);
            lemma_appended_trans(
                pre.log(),
                mid.log(),
                self.log(),
                seq![BusStep::Plain(HalEvent::AntennaSleep)],
                write_command_steps(
                    pre.operating_mode,
                    OpCode::SetSleep,
                    seq![sleep_config.spec_value()],
                ),
            );
        }
        Ok(())
    }

    /// Puts the radio into standby on the chosen oscillator and parks the
    /// antenna.
    pub fn sub_set_standby(&mut self, mode: StandbyMode) -> (r: Result<(), RadioError>)
        ensures
            r is Ok ==> Self::appended(
                *old(self),
                *final (self),
                set_standby_steps(old(self).operating_mode, mode),
            ) && Self::same_settings(*old(self), *final (self)) && final (self).operating_mode
                == (if mode == StandbyMode::RC {
                RadioMode::StandbyRC
            } else {
                RadioMode::StandbyXOSC
            }),
            r matches Err(e) ==> (e is DigitalOut || e is BusyWait || e is Spi),
    {
        let ghost pre = *self;
        let params = byte_params1(mode.value());
        self.brd_write_command(OpCode::SetStandby, &params)?;
        if mode == StandbyMode::RC {
            self.operating_mode = RadioMode::StandbyRC;
        } else {
            self.operating_mode = RadioMode::StandbyXOSC;
        }
        let ghost mid = *self;
        self.brd_ant_sleep()?;
        proof {
            assert(params@ =~= seq![mode.spec_value()]);
            lemma_appended_trans(
                pre.log(),
                mid.log(),
                self.log(),
                write_command_steps(pre.operating_mode, OpCode::SetStandby, seq![mode.spec_value()]),
                seq![BusStep::Plain(HalEvent::AntennaSleep)],
            );
        }
        Ok(())
    }

    /// Puts the radio into frequency-synthesis mode. The antenna is left in
    /// its current state: the chip neither transmits nor receives here.
    pub fn sub_set_fs(&mut self) -> (r: Result<(), RadioError>)
        ensures
            r is Ok ==> Self::appended(
                *old(self),
                *final (self),
                write_command_steps(old(self).operating_mode, OpCode::SetFS, Seq::empty()),
            ) && Self::same_settings(*old(self), *final (self)) && final (self).operating_mode
                == RadioMode::FrequencySynthesis,
            r matches Err(e) ==> (e is DigitalOut || e is BusyWait || e is Spi),
    {
        let params: Vec<u8> = Vec::new();
        assert(params@ =~= Seq::<u8>::empty());
        self.brd_write_command(OpCode::SetFS, &params)?;
        self.operating_mode = RadioMode::FrequencySynthesis;
        Ok(())
    }

    /// Enters transmit mode with a packed 24-bit timeout: antenna to
    /// transmit, mode mirror to Transmit, then the SetTx frame.
    pub fn sub_set_tx(&mut self, timeout: u32) -> (r: Result<(), RadioError>)
        ensures
            r is Ok ==> Self::appended(*old(self), *final (self), set_tx_steps(timeout))
                && Self::same_settings(*old(self), *final (self)) && final (self).operating_mode
                == RadioMode::Transmit,
            r matches Err(e) ==> (e is DigitalOut || e is BusyWait || e is Spi),
    {
        let ghost pre = *self;
        let mut buffer: Vec<u8> = Vec::new();
        buffer.push(Self::timeout_1(timeout));
        buffer.push(Self::timeout_2(timeout));
        buffer.push(Self::timeout_3(timeout));
        assert(buffer@ =~= timeout_bytes(timeout));
        self.brd_ant_set_tx()?;
        let ghost mid = *self;
        self.operating_mode = RadioMode::Transmit;
        self.brd_write_command(OpCode::SetTx, &buffer)?;
        proof {
            lemma_appended_trans(
                pre.log(),
                mid.log(),
                self.log(),
                seq![BusStep::Plain(HalEvent::AntennaTx)],
                write_command_steps(RadioMode::Transmit, OpCode::SetTx, timeout_bytes(timeout)),
            );
        }
        Ok(())
    }

    /// Enters receive mode with a packed 24-bit timeout and power-saving RX
    /// gain: antenna to receive, mode mirror to Receive, the RxGain register
    /// written, then the SetRx frame.
    pub fn sub_set_rx(&mut self, timeout: u32) -> (r: Result<(), RadioError>)
        ensures
            r is Ok ==> Self::appended(*old(self), *final (self), set_rx_steps(timeout))
                && Self::same_settings(*old(self), *final (self)) && final (self).operating_mode
                == RadioMode::Receive,
            r matches Err(e) ==> (e is DigitalOut || e is BusyWait || e is Spi),
    {
        let ghost pre = *self;
        let mut buffer: Vec<u8> = Vec::new();
        buffer.push(Self::timeout_1(timeout));
        buffer.push(Self::timeout_2(timeout));
        buffer.push(Self::timeout_3(timeout));
        assert(buffer@ =~= timeout_bytes(timeout));
        self.brd_ant_set_rx()?;
        let ghost mid = *self;
        self.operating_mode = RadioMode::Receive;
        let gain = byte_params1(0x94);
        self.brd_write_registers(Register::RxGain, &gain)?;
        let ghost mid2 = *self;
        self.brd_write_command(OpCode::SetRx, &buffer)?;
        proof {
            assert(gain@ =~= seq![0x94u8]);
            lemma_appended_trans(
                pre.log(),
                mid.log(),
                mid2.log(),
                seq![BusStep::Plain(HalEvent::AntennaRx)],
                write_registers_steps(RadioMode::Receive, Register::RxGain, seq![0x94u8]),
            );
            lemma_appended_trans(
                pre.log(),
                mid2.log(),
                self.log(),
                seq![BusStep::Plain(HalEvent::AntennaRx)] + write_registers_steps(
                    RadioMode::Receive,
                    Register::RxGain,
                    seq![0x94u8],
                ),
                write_command_steps(RadioMode::Receive, OpCode::SetRx, timeout_bytes(timeout)),
            );
        }
        Ok(())
    }

    /// Enters receive mode with boosted LNA gain: around 3 dB more
    /// sensitivity for about 2 mA more current than [`Self::sub_set_rx`].
    pub fn sub_set_rx_boosted(&mut self, timeout: u32) -> (r: Result<(), RadioError>)
        ensures
            r is Ok ==> Self::appended(*old(self), *final (self), set_rx_boosted_steps(timeout))
                && Self::same_settings(*old(self), *final (self)) && final (self).operating_mode
                == RadioMode::Receive,
            r matches Err(e) ==> (e is DigitalOut || e is BusyWait || e is Spi),
    {
        let ghost pre = *self;
        let mut buffer: Vec<u8> = Vec::new();
        buffer.push(Self::timeout_1(timeout));
        buffer.push(Self::timeout_2(timeout));
        buffer.push(Self::timeout_3(timeout));
        assert(buffer@ =~= timeout_bytes(timeout));
        self.brd_ant_set_rx()?;
        let ghost mid = *self;
        self.operating_mode = RadioMode::Receive;
        // max LNA gain, increasing current by around 2 mA for around 3 dB in
        // sensitivity
        let gain = byte_params1(0x96);
        self.brd_write_registers(Register::RxGain, &gain)?;
        let ghost mid2 = *self;
        self.brd_write_command(OpCode::SetRx, &buffer)?;
        proof {
            assert(gain@ =~= seq![0x96u8]);
            lemma_appended_trans(
                pre.log(),
                mid.log(),
                mid2.log(),
                seq![BusStep::Plain(HalEvent::AntennaRx)],
                write_registers_steps(RadioMode::Receive, Register::RxGain, seq![0x96u8]),
            );
            lemma_appended_trans(
                pre.log(),
                mid2.log(),
                self.log(),
                seq![BusStep::Plain(HalEvent::AntennaRx)] + write_registers_steps(
                    RadioMode::Receive,
                    Register::RxGain,
                    seq![0x96u8],
                ),
                write_command_steps(RadioMode::Receive, OpCode::SetRx, timeout_bytes(timeout)),
            );
        }
        Ok(())
    }

    /// Sets the duty-cycle receive windows: the chip alternates listening for
    /// `rx_time` ticks and sleeping for `sleep_time` ticks.
    pub fn sub_set_rx_duty_cycle(&mut self, rx_time: u32, sleep_time: u32) -> (r: Result<
        (),
        RadioError,
    >)
        ensures
            r is Ok ==> Self::appended(
                *old(self),
                *final (self),
                write_command_steps(
                    old(self).operating_mode,
                    OpCode::SetRxDutyCycle,
                    timeout_bytes(rx_time) + timeout_bytes(sleep_time),
                ),
            ) && Self::same_settings(*old(self), *final (self)) && final (self).operating_mode
                == RadioMode::ReceiveDutyCycle,
            r matches Err(e) ==> (e is DigitalOut || e is BusyWait || e is Spi),
    {
        let mut buffer: Vec<u8> = Vec::new();
        buffer.push(Self::timeout_1(rx_time));
        buffer.push(Self::timeout_2(rx_time));
        buffer.push(Self::timeout_3(rx_time));
        buffer.push(Self::timeout_1(sleep_time));
        buffer.push(Self::timeout_2(sleep_time));
        buffer.push(Self::timeout_3(sleep_time));
        assert(buffer@ =~= timeout_bytes(rx_time) + timeout_bytes(sleep_time));
        self.brd_write_command(OpCode::SetRxDutyCycle, &buffer)?;
        self.operating_mode = RadioMode::ReceiveDutyCycle;
        Ok(())
    }

    /// Enters channel-activity-detection mode: antenna to receive, the SetCAD
    /// frame, mode mirror to ChannelActivityDetection.
    pub fn sub_set_cad(&mut self) -> (r: Result<(), RadioError>)
        ensures
            r is Ok ==> Self::appended(
                *old(self),
                *final (self),
                seq![BusStep::Plain(HalEvent::AntennaRx)] + write_command_steps(
                    old(self).operating_mode,
                    OpCode::SetCAD,
                    Seq::empty(),
                ),
            ) && Self::same_settings(*old(self), *final (self)) && final (self).operating_mode
                == RadioMode::ChannelActivityDetection,
            r matches Err(e) ==> (e is DigitalOut || e is BusyWait || e is Spi),
    {
        let ghost pre = *self;
        self.brd_ant_set_rx()?;
        let ghost mid = *self;
        let params: Vec<u8> = Vec::new();
        assert(params@ =~= Seq::<u8>::empty());
        self.brd_write_command(OpCode::SetCAD, &params)?;
        self.operating_mode = RadioMode::ChannelActivityDetection;
        proof {
            lemma_appended_trans(
                pre.log(),
                mid.log(),
                self.log(),
                seq![BusStep::Plain(HalEvent::AntennaRx)],
                write_command_steps(pre.operating_mode, OpCode::SetCAD, Seq::empty()),
            );
        }
        Ok(())
    }

    /// Enters continuous-wave transmission: an unmodulated carrier, used for
    /// regulatory testing.
    pub fn sub_set_tx_continuous_wave(&mut self) -> (r: Result<(), RadioError>)
        ensures
            r is Ok ==> Self::appended(
                *old(self),
                *final (self),
                seq![BusStep::Plain(HalEvent::AntennaTx)] + write_command_steps(
                    old(self).operating_mode,
                    OpCode::SetTxContinuousWave,
                    Seq::empty(),
                ),
            ) && Self::same_settings(*old(self), *final (self)) && final (self).operating_mode
                == RadioMode::Transmit,
            r matches Err(e) ==> (e is DigitalOut || e is BusyWait || e is Spi),
    {
        let ghost pre = *self;
        self.brd_ant_set_tx()?;
        let ghost mid = *self;
        let params: Vec<u8> = Vec::new();
        assert(params@ =~= Seq::<u8>::empty());
        self.brd_write_command(OpCode::SetTxContinuousWave, &params)?;
        self.operating_mode = RadioMode::Transmit;
        proof {
            lemma_appended_trans(
                pre.log(),
                mid.log(),
                self.log(),
                seq![BusStep::Plain(HalEvent::AntennaTx)],
                write_command_steps(pre.operating_mode, OpCode::SetTxContinuousWave, Seq::empty()),
            );
        }
        Ok(())
    }

    /// Enters continuous-preamble transmission, used for regulatory testing.
    pub fn sub_set_tx_infinite_preamble(&mut self) -> (r: Result<(), RadioError>)
        ensures
            r is Ok ==> Self::appended(
                *old(self),
                *final (self),
                seq![BusStep::Plain(HalEvent::AntennaTx)] + write_command_steps(
                    old(self).operating_mode,
                    OpCode::SetTxContinuousPremable,
                    Seq::empty(),
                ),
            ) && Self::same_settings(*old(self), *final (self)) && final (self).operating_mode
                == RadioMode::Transmit,
            r matches Err(e) ==> (e is DigitalOut || e is BusyWait || e is Spi),
    {
        let ghost pre = *self;
        self.brd_ant_set_tx()?;
        let ghost mid = *self;
        let params: Vec<u8> = Vec::new();
        assert(params@ =~= Seq::<u8>::empty());
        self.brd_write_command(OpCode::SetTxContinuousPremable, &params)?;
        self.operating_mode = RadioMode::Transmit;
        proof {
            lemma_appended_trans(
                pre.log(),
                mid.log(),
                self.log(),
                seq![BusStep::Plain(HalEvent::AntennaTx)],
                write_command_steps(
                    pre.operating_mode,
                    OpCode::SetTxContinuousPremable,
                    Seq::empty(),
                ),
            );
        }
        Ok(())
    }

    /// Decides which event stops the internal receive timer: header and sync
    /// word detection when false, preamble detection when true.
    pub fn sub_set_stop_rx_timer_on_preamble_detect(&mut self, enable: bool) -> (r: Result<
        (),
        RadioError,
    >)
        ensures
            r is Ok ==> Self::appended(
                *old(self),
                *final (self),
                write_command_steps(
                    old(self).operating_mode,
                    OpCode::SetStopRxTimerOnPreamble,
                    seq![
                        if enable {
                            1u8
                        } else {
                            0u8
                        },
                    ],
                ),
            ) && Self::same_settings(*old(self), *final (self)) && final (self).operating_mode
                == awake_mode(old(self).operating_mode),
            r matches Err(e) ==> (e is DigitalOut || e is BusyWait || e is Spi),
    {
        let params = byte_params1(
            if enable {
                1
            } else {
                0
            },
        );
        self.brd_write_command(OpCode::SetStopRxTimerOnPreamble, &params)
    }

    /// Selects the power regulator (LDO or DC-DC). Using only the LDO doubles
    /// the receive and transmit current.
    pub fn sub_set_regulator_mode(&mut self, mode: RegulatorMode) -> (r: Result<(), RadioError>)
        ensures
            r is Ok ==> Self::appended(
                *old(self),
                *final (self),
                write_command_steps(
                    old(self).operating_mode,
                    OpCode::SetRegulatorMode,
                    seq![mode.spec_value()],
                ),
            ) && Self::same_settings(*old(self), *final (self)) && final (self).operating_mode
                == awake_mode(old(self).operating_mode),
            r matches Err(e) ==> (e is DigitalOut || e is BusyWait || e is Spi),
    {
        let params = byte_params1(mode.value());
        self.brd_write_command(OpCode::SetRegulatorMode, &params)
    }

    /// Calibrates the chosen radio blocks.
    pub fn sub_calibrate(&mut self, calibrate_params: CalibrationParams) -> (r: Result<
        (),
        RadioError,
    >)
        ensures
            r is Ok ==> Self::appended(
                *old(self),
                *final (self),
                write_command_steps(
                    old(self).operating_mode,
                    OpCode::Calibrate,
                    seq![calibrate_params.spec_value()],
                ),
            ) && Self::same_settings(*old(self), *final (self)) && final (self).operating_mode
                == awake_mode(old(self).operating_mode),
            r matches Err(e) ==> (e is DigitalOut || e is BusyWait || e is Spi),
    {
        let params = byte_params1(calibrate_params.value());
        self.brd_write_command(OpCode::Calibrate, &params)
    }

    /// Calibrates the image rejection for the band holding the given
    /// frequency, one of five precomputed band pairs.
    pub fn sub_calibrate_image(&mut self, freq: u32) -> (r: Result<(), RadioError>)
        ensures
            r is Ok ==> Self::appended(
                *old(self),
                *final (self),
                write_command_steps(
                    old(self).operating_mode,
                    OpCode::CalibrateImage,
                    cal_band_bytes(freq),
                ),
            ) && Self::same_settings(*old(self), *final (self)) && final (self).operating_mode
                == awake_mode(old(self).operating_mode),
            r matches Err(e) ==> (e is DigitalOut || e is BusyWait || e is Spi),
    {
        let mut cal_freq_0: u8 = 0x00;
        let mut cal_freq_1: u8 = 0x00;
        if freq > 900000000 {
            cal_freq_0 = 0xE1;
            cal_freq_1 = 0xE9;
        } else if freq > 850000000 {
            cal_freq_0 = 0xD7;
            cal_freq_1 = 0xDB;
        } else if freq > 770000000 {
            cal_freq_0 = 0xC1;
            cal_freq_1 = 0xC5;
        } else if freq > 460000000 {
            cal_freq_0 = 0x75;
            cal_freq_1 = 0x81;
        } else if freq > 425000000 {
            cal_freq_0 = 0x6B;
            cal_freq_1 = 0x6F;
        }
        let params = byte_params2(cal_freq_0, cal_freq_1);
        assert(params@ =~= cal_band_bytes(freq));
        self.brd_write_command(OpCode::CalibrateImage, &params)
    }

    /// Would extend the timeout when a long preamble is used; the chip offers
    /// no such command, so this is a no-op kept for interface parity.
    pub fn sub_set_long_preamble(&mut self, _enable: u8) -> (r: Result<(), RadioError>)
        ensures
            r is Ok,
            *final (self) == *old(self),
    {
        Ok(())
    }

    /// Sets the power-amplifier configuration.
    ///
    /// `hp_max` is 0 for the SX1261 and up to 7 for the SX1262; `device_sel`
    /// is 1 for the SX1261 and 0 for the SX1262; `pa_lut` selects the 14 dBm
    /// (0) or 22 dBm (1) lookup table.
    pub fn sub_set_pa_config(
        &mut self,
        pa_duty_cycle: u8,
        hp_max: u8,
        device_sel: u8,
        pa_lut: u8,
    ) -> (r: Result<(), RadioError>)
        ensures
            r is Ok ==> Self::appended(
                *old(self),
                *final (self),
                write_command_steps(
                    old(self).operating_mode,
                    OpCode::SetPAConfig,
                    seq![pa_duty_cycle, hp_max, device_sel, pa_lut],
                ),
            ) && Self::same_settings(*old(self), *final (self)) && final (self).operating_mode
                == awake_mode(old(self).operating_mode),
            r matches Err(e) ==> (e is DigitalOut || e is BusyWait || e is Spi),
    {
        let params = byte_params4(pa_duty_cycle, hp_max, device_sel, pa_lut);
        self.brd_write_command(OpCode::SetPAConfig, &params)
    }

    /// Defines which mode the chip falls back to after a transmission or
    /// reception completes.
    pub fn sub_set_rx_tx_fallback_mode(&mut self, fallback_mode: u8) -> (r: Result<
        (),
        RadioError,
    >)
        ensures
            r is Ok ==> Self::appended(
                *old(self),
                *final (self),
                write_command_steps(
                    old(self).operating_mode,
                    OpCode::SetTxFallbackMode,
                    seq![fallback_mode],
                ),
            ) && Self::same_settings(*old(self), *final (self)) && final (self).operating_mode
                == awake_mode(old(self).operating_mode),
            r matches Err(e) ==> (e is DigitalOut || e is BusyWait || e is Spi),
    {
        let params = byte_params1(fallback_mode);
        self.brd_write_command(OpCode::SetTxFallbackMode, &params)
    }

    /// Sets the IRQ mask and the three DIO route masks, each packed
    /// big-endian.
    pub fn sub_set_dio_irq_params(
        &mut self,
        irq_mask: u16,
        dio1_mask: u16,
        dio2_mask: u16,
        dio3_mask: u16,
    ) -> (r: Result<(), RadioError>)
        ensures
            r is Ok ==> Self::appended(
                *old(self),
                *final (self),
                write_command_steps(
                    old(self).operating_mode,
                    OpCode::CfgDIOIrq,
                    u16_be_bytes(irq_mask) + u16_be_bytes(dio1_mask) + u16_be_bytes(dio2_mask)
                        + u16_be_bytes(dio3_mask),
                ),
            ) && Self::same_settings(*old(self), *final (self)) && final (self).operating_mode
                == awake_mode(old(self).operating_mode),
            r matches Err(e) ==> (e is DigitalOut || e is BusyWait || e is Spi),
    {
        let mut buffer: Vec<u8> = Vec::new();
        buffer.push(((irq_mask >> 8) & 0x00FF) as u8);
        buffer.push((irq_mask & 0x00FF) as u8);
        buffer.push(((dio1_mask >> 8) & 0x00FF) as u8);
        buffer.push((dio1_mask & 0x00FF) as u8);
        buffer.push(((dio2_mask >> 8) & 0x00FF) as u8);
        buffer.push((dio2_mask & 0x00FF) as u8);
        buffer.push(((dio3_mask >> 8) & 0x00FF) as u8);
        buffer.push((dio3_mask & 0x00FF) as u8);
        assert(buffer@ =~= u16_be_bytes(irq_mask) + u16_be_bytes(dio1_mask) + u16_be_bytes(
            dio2_mask,
        ) + u16_be_bytes(dio3_mask)) by {
            assert(((irq_mask >> 8) & 0x00FF) as u8 == ((irq_mask >> 8) & 0xFF) as u8);
        }
        self.brd_write_command(OpCode::CfgDIOIrq, &buffer)
    }

    /// Tells the chip whether DIO2 drives the antenna RF switch.
    pub fn sub_set_dio2_as_rf_switch_ctrl(&mut self, enable: bool) -> (r: Result<(), RadioError>)
        ensures
            r is Ok ==> Self::appended(
                *old(self),
                *final (self),
                write_command_steps(
                    old(self).operating_mode,
                    OpCode::SetRFSwitchMode,
                    seq![
                        if enable {
                            1u8
                        } else {
                            0u8
                        },
                    ],
                ),
            ) && Self::same_settings(*old(self), *final (self)) && final (self).operating_mode
                == awake_mode(old(self).operating_mode),
            r matches Err(e) ==> (e is DigitalOut || e is BusyWait || e is Spi),
    {
        let params = byte_params1(
            if enable {
                1
            } else {
                0
            },
        );
        self.brd_write_command(OpCode::SetRFSwitchMode, &params)
    }

    /// Tells the chip that its main clock comes from a TCXO powered from
    /// DIO3 at the given voltage, with the packed time the TCXO gets to
    /// reach 32 MHz.
    pub fn sub_set_dio3_as_tcxo_ctrl(
        &mut self,
        tcxo_voltage: TcxoCtrlVoltage,
        timeout: u32,
    ) -> (r: Result<(), RadioError>)
        ensures
            r is Ok ==> Self::appended(
                *old(self),
                *final (self),
                write_command_steps(
                    old(self).operating_mode,
                    OpCode::SetTCXOMode,
                    seq![(tcxo_voltage.spec_value() & 0x07) as u8] + timeout_bytes(timeout),
                ),
            ) && Self::same_settings(*old(self), *final (self)) && final (self).operating_mode
                == awake_mode(old(self).operating_mode),
            r matches Err(e) ==> (e is DigitalOut || e is BusyWait || e is Spi),
    {
        let mut buffer: Vec<u8> = Vec::new();
        buffer.push(tcxo_voltage.value() & 0x07);
        buffer.push(Self::timeout_1(timeout));
        buffer.push(Self::timeout_2(timeout));
        buffer.push(Self::timeout_3(timeout));
        assert(buffer@ =~= seq![(tcxo_voltage.spec_value() & 0x07) as u8] + timeout_bytes(
            timeout,
        ));
        self.brd_write_command(OpCode::SetTCXOMode, &buffer)
    }

    /// Selects the radio protocol (LoRa or GFSK). Must run before the RF
    /// frequency, modulation parameters and packet parameters are set.
    pub fn sub_set_packet_type(&mut self, packet_type: PacketType) -> (r: Result<(), RadioError>)
        ensures
            r is Ok ==> Self::appended(
                *old(self),
                *final (self),
                set_packet_type_steps(old(self).operating_mode, packet_type),
            ) && Self::same_radio_params_beyond_selection(*old(self), *final (self)) && final (self).image_calibrated == old(self).image_calibrated && final (self).packet_type
                == packet_type && final (self).operating_mode == awake_mode(
                old(self).operating_mode,
            ),
            final (self).packet_type == packet_type,
            final (self).packet_type_selected@,
            r matches Err(e) ==> (e is DigitalOut || e is BusyWait || e is Spi)
                && Self::same_radio_params_beyond_selection(*old(self), *final (self)) && final (self).image_calibrated == old(self).image_calibrated,
    {
        self.packet_type = packet_type;
        self.packet_type_selected = Ghost(true);
        let params = byte_params1(packet_type.value());
        self.brd_write_command(OpCode::SetPacketType, &params)
    }

    /// The protocol the driver believes is selected: what
    /// [`Self::sub_get_packet_type`] reads back.
    pub open spec fn spec_packet_type(self) -> PacketType {
        self.packet_type
    }

    /// The radio protocol currently selected.
    pub fn sub_get_packet_type(&self) -> (r: PacketType)
        ensures
            r == self.spec_packet_type(),
    {
        self.packet_type
    }

    /// Sets the data-buffer base addresses for transmission and reception.
    pub fn sub_set_buffer_base_address(&mut self, tx_base_address: u8, rx_base_address: u8) -> (r:
        Result<(), RadioError>)
        ensures
            r is Ok ==> Self::appended(
                *old(self),
                *final (self),
                write_command_steps(
                    old(self).operating_mode,
                    OpCode::SetBufferBaseAddress,
                    seq![tx_base_address, rx_base_address],
                ),
            ) && Self::same_settings(*old(self), *final (self)) && final (self).operating_mode
                == awake_mode(old(self).operating_mode),
            r matches Err(e) ==> (e is DigitalOut || e is BusyWait || e is Spi),
    {
        let params = byte_params2(tx_base_address, rx_base_address);
        self.brd_write_command(OpCode::SetBufferBaseAddress, &params)
    }

    /// Clears all device errors.
    pub fn sub_clear_device_errors(&mut self) -> (r: Result<(), RadioError>)
        ensures
            r is Ok ==> Self::appended(
                *old(self),
                *final (self),
                write_command_steps(
                    old(self).operating_mode,
                    OpCode::ClrErrors,
                    seq![0x00u8, 0x00u8],
                ),
            ) && Self::same_settings(*old(self), *final (self)) && final (self).operating_mode
                == awake_mode(old(self).operating_mode),
            r matches Err(e) ==> (e is DigitalOut || e is BusyWait || e is Spi),
    {
        let params = byte_params2(0x00, 0x00);
        self.brd_write_command(OpCode::ClrErrors, &params)
    }

    /// Clears the given IRQ bits.
    pub fn sub_clear_irq_status(&mut self, irq: u16) -> (r: Result<(), RadioError>)
        ensures
            r is Ok ==> Self::appended(
                *old(self),
                *final (self),
                write_command_steps(old(self).operating_mode, OpCode::ClrIrqStatus, u16_be_bytes(irq)),
            ) && Self::same_settings(*old(self), *final (self)) && final (self).operating_mode
                == awake_mode(old(self).operating_mode),
            r matches Err(e) ==> (e is DigitalOut || e is BusyWait || e is Spi)
                && Self::same_settings(*old(self), *final (self)),
    {
        let mut buffer: Vec<u8> = Vec::new();
        buffer.push(((irq >> 8) & 0xFF) as u8);
        buffer.push((irq & 0xFF) as u8);
        assert(buffer@ =~= u16_be_bytes(irq));
        self.brd_write_command(OpCode::ClrIrqStatus, &buffer)
    }
}

} // verus!

verus! {

/// The power level sent to SetTxParams: a negative dBm value is carried as
/// its two's-complement byte.
pub open spec fn power_byte(p: i8) -> u8 {
    if p >= 0 {
        p as u8
    } else {
        (p + 256) as u8
    }
}

/// A power level clamped to the range a chip variant supports.
pub open spec fn clamp_power(v: i8, lo: i8, hi: i8) -> i8 {
    if v < lo {
        lo
    } else if v > hi {
        hi
    } else {
        v
    }
}

/// The parameter bytes of a SetModulationParams frame.
pub open spec fn modulation_params_bytes(mp: crate::mod_params::ModulationParams) -> Seq<u8> {
    seq![
        mp.spreading_factor.spec_value(),
        mp.bandwidth.spec_value(),
        mp.coding_rate.spec_value(),
        if mp.low_data_rate_optimize {
            1u8
        } else {
            0u8
        },
    ]
}

/// The parameter bytes of a SetPacketParams frame.
pub open spec fn packet_params_bytes(pp: crate::mod_params::PacketParams) -> Seq<u8> {
    u16_be_bytes(pp.preamble_length) + seq![
        if pp.implicit_header {
            1u8
        } else {
            0u8
        },
        pp.payload_length,
        if pp.crc_on {
            1u8
        } else {
            0u8
        },
        if pp.iq_inverted {
            1u8
        } else {
            0u8
        },
    ]
}

/// Setting the modulation parameters: the packet type is pinned to LoRa
/// first, then one SetModulationParams frame.
pub open spec fn set_modulation_params_steps(
    mode: RadioMode,
    mp: crate::mod_params::ModulationParams,
) -> Seq<BusStep> {
    set_packet_type_steps(mode, PacketType::LoRa) + write_command_steps(
        awake_mode(mode),
        OpCode::SetModulationParams,
        modulation_params_bytes(mp),
    )
}

/// Setting the packet parameters: the packet type is pinned to LoRa first,
/// then one SetPacketParams frame.
pub open spec fn set_packet_params_steps(
    mode: RadioMode,
    pp: crate::mod_params::PacketParams,
) -> Seq<BusStep> {
    set_packet_type_steps(mode, PacketType::LoRa) + write_command_steps(
        awake_mode(mode),
        OpCode::SetPacketParams,
        packet_params_bytes(pp),
    )
}

/// The big-endian PLL-step bytes of a SetRFFrequency frame.
pub open spec fn frequency_bytes(freq: u32) -> Seq<u8> {
    let steps = pll_steps_of(freq as int) as u32;
    seq![
        ((steps >> 24) & 0xFF) as u8,
        ((steps >> 16) & 0xFF) as u8,
        ((steps >> 8) & 0xFF) as u8,
        (steps & 0xFF) as u8,
    ]
}

/// Setting the RF frequency: the image is calibrated first when it has not
/// been since the last reset or cold sleep, then one SetRFFrequency frame.
pub open spec fn set_rf_frequency_steps(mode: RadioMode, calibrated: bool, freq: u32) -> Seq<
    BusStep,
> {
    if calibrated {
        write_command_steps(mode, OpCode::SetRFFrequency, frequency_bytes(freq))
    } else {
        write_command_steps(mode, OpCode::CalibrateImage, cal_band_bytes(freq))
            + write_command_steps(awake_mode(mode), OpCode::SetRFFrequency, frequency_bytes(freq))
    }
}

/// Setting the transmission power and ramp time on an SX1261: a PA
/// configuration for its low-power amplifier (a special one at 15 dBm), then
/// SetTxParams with the power clamped to [-17, 14] dBm.
pub open spec fn set_tx_params_steps_sx1261(mode: RadioMode, power: i8, ramp: RampTime) -> Seq<
    BusStep,
> {
    write_command_steps(
        mode,
        OpCode::SetPAConfig,
        if power == 15 {
            seq![0x06u8, 0x00u8, 0x01u8, 0x01u8]
        } else {
            seq![0x04u8, 0x00u8, 0x01u8, 0x01u8]
        },
    ) + write_command_steps(
        awake_mode(mode),
        OpCode::SetTxParams,
        seq![power_byte(clamp_power(power, -17i8, 14i8)), ramp.spec_value()],
    )
}

/// Setting the transmission power and ramp time on an SX1262: the TX clamp
/// register is widened for resistance to antenna mismatch, a PA
/// configuration for the high-power amplifier, then SetTxParams with the
/// power clamped to [-9, 22] dBm. `clamp_reg` is the byte the chip reported
/// from its TxClampCfg register.
pub open spec fn set_tx_params_steps_sx1262(
    mode: RadioMode,
    power: i8,
    ramp: RampTime,
    clamp_reg: u8,
) -> Seq<BusStep> {
    read_registers_steps(mode, Register::TxClampCfg, seq![clamp_reg]) + write_registers_steps(
        awake_mode(mode),
        Register::TxClampCfg,
        seq![clamp_reg | 0x1E],
    ) + write_command_steps(
        awake_mode(mode),
        OpCode::SetPAConfig,
        seq![0x04u8, 0x07u8, 0x00u8, 0x01u8],
    ) + write_command_steps(
        awake_mode(mode),
        OpCode::SetTxParams,
        seq![power_byte(clamp_power(power, -9i8, 22i8)), ramp.spec_value()],
    )
}

/// Setting the LoRa symbol-number timeout: one SetLoRaSymbTimeout frame, and
/// for a nonzero count the SynchTimeout register rewritten with the exact
/// mantissa and exponent.
pub open spec fn symb_timeout_steps(mode: RadioMode, symb_num: u16, mant: u8, exp: u8) -> Seq<
    BusStep,
> {
    write_command_steps(
        mode,
        OpCode::SetLoRaSymbTimeout,
        seq![
            ((mant as int) * (if exp == 0 {
                2int
            } else {
                8int
            })) as u8,
        ],
    ) + if symb_num == 0 {
        Seq::empty()
    } else {
        write_registers_steps(
            awake_mode(mode),
            Register::SynchTimeout,
            seq![(exp + mant * 8) as u8],
        )
    }
}

/// Law: over the radio band, the computed PLL step count is within half a
/// chip step of the exact ratio `f * 2^25 / 32 MHz`, and so within one step
/// of any rounding of that ratio.
pub proof fn lemma_pll_step_rounds_to_nearest(f: int)
    requires
        150000000 <= f <= 960000000,
    ensures
        -16000000 < 32000000 * pll_steps_of(f) - f * 33554432 <= 16000000,
{
    lemma_fundamental_div_mod(f * 33554432 + 16000000, 32000000);
    lemma_mod_division_less_than_divisor(f * 33554432 + 16000000, 32000000);
}

/// A power level clamped to a range.
fn clamp_i8(v: i8, lo: i8, hi: i8) -> (r: i8)
    requires
        lo <= hi,
    ensures
        r == clamp_power(v, lo, hi),
{
    if v < lo {
        lo
    } else if v > hi {
        hi
    } else {
        v
    }
}

/// The byte carrying a power level: a negative value wraps to its
/// two's-complement byte.
fn power_to_byte(p: i8) -> (r: u8)
    ensures
        r == power_byte(p),
{
    if p >= 0 {
        p as u8
    } else {
        ((p as i16) + 256) as u8
    }
}

impl<B: Board> LoRa<B> {
    /// Sets the number of symbols the radio waits to validate a reception.
    /// The count is encoded as a mantissa and exponent; the chip never waits
    /// fewer symbols than asked.
    pub fn sub_set_lora_symb_num_timeout(&mut self, symb_num: u16) -> (r: Result<(), RadioError>)
        ensures
            r is Ok ==> Self::appended(
                *old(self),
                *final (self),
                symb_timeout_steps(
                    old(self).operating_mode,
                    symb_num,
                    spec_symb_mant(symb_num),
                    spec_symb_exp(symb_num),
                ),
            ) && Self::same_settings(*old(self), *final (self)) && final (self).operating_mode
                == awake_mode(old(self).operating_mode),
            r matches Err(e) ==> (e is DigitalOut || e is BusyWait || e is Spi),
    {
        let ghost pre = *self;
        let (mant, exp) = Self::symb_num_timeout_mant_exp(symb_num);
        let shifted: u8 = mant * (if exp == 0 {
            2
        } else {
            8
        });
        let params = byte_params1(shifted);
        self.brd_write_command(OpCode::SetLoRaSymbTimeout, &params)?;
        let ghost mid = *self;
        let ghost first = write_command_steps(
            pre.operating_mode,
            OpCode::SetLoRaSymbTimeout,
            seq![shifted],
        );
        if symb_num != 0 {
            let reg: u8 = exp + mant * 8;
            let regs = byte_params1(reg);
            self.brd_write_registers(Register::SynchTimeout, &regs)?;
            proof {
                lemma_appended_trans(
                    pre.log(),
                    mid.log(),
                    self.log(),
                    first,
                    write_registers_steps(
                        awake_mode(pre.operating_mode),
                        Register::SynchTimeout,
                        seq![(exp + mant * 8) as u8],
                    ),
                );
                assert(Self::appended(
                    pre,
                    *self,
                    symb_timeout_steps(pre.operating_mode, symb_num, mant, exp),
                ));
            }
        } else {
            proof {
                crate::board::lemma_steps_events_concat(first, Seq::empty());
                assert(steps_events(Seq::<BusStep>::empty()) =~= Seq::<HalEvent>::empty());
                assert(first + Seq::<BusStep>::empty() =~= first);
                assert(self.log() =~= pre.log() + crate::board::steps_events(
                    symb_timeout_steps(pre.operating_mode, symb_num, mant, exp),
                ));
                assert(Self::appended(
                    pre,
                    *self,
                    symb_timeout_steps(pre.operating_mode, symb_num, mant, exp),
                ));
            }
        }
        Ok(())
    }

    /// Sets the transmission power and ramp time. The power-amplifier
    /// configuration and the admitted power range depend on the chip variant;
    /// on the SX1262 the TX clamp register is first widened for better
    /// resistance to antenna mismatch. A negative power is carried as its
    /// two's-complement byte.
    pub fn sub_set_tx_params(&mut self, power: i8, ramp_time: RampTime) -> (r: Result<
        (),
        RadioError,
    >)
        ensures
            r is Ok && old(self).config.radio_type == crate::mod_params::RadioType::SX1261
                ==> Self::appended(
                *old(self),
                *final (self),
                set_tx_params_steps_sx1261(old(self).operating_mode, power, ramp_time),
            ),
            r is Ok && old(self).config.radio_type == crate::mod_params::RadioType::SX1262 ==> (
            exists|clamp_reg: u8|
                Self::appended(
                    *old(self),
                    *final (self),
                    #[trigger] set_tx_params_steps_sx1262(
                        old(self).operating_mode,
                        power,
                        ramp_time,
                        clamp_reg,
                    ),
                )),
            r is Ok ==> Self::same_settings(*old(self), *final (self)) && final (self).operating_mode == awake_mode(old(self).operating_mode),
            r matches Err(e) ==> (e is DigitalOut || e is BusyWait || e is Spi),
    {
        let ghost pre = *self;
        if self.config.radio_type == crate::mod_params::RadioType::SX1261 {
            if power == 15 {
                self.sub_set_pa_config(0x06, 0x00, 0x01, 0x01)?;
            } else {
                self.sub_set_pa_config(0x04, 0x00, 0x01, 0x01)?;
            }
            let ghost mid = *self;
            let clamped = clamp_i8(power, -17, 14);
            let params = byte_params2(power_to_byte(clamped), ramp_time.value());
            self.brd_write_command(OpCode::SetTxParams, &params)?;
            proof {
                lemma_appended_trans(
                    pre.log(),
                    mid.log(),
                    self.log(),
                    write_command_steps(
                        pre.operating_mode,
                        OpCode::SetPAConfig,
                        if power == 15 {
                            seq![0x06u8, 0x00u8, 0x01u8, 0x01u8]
                        } else {
                            seq![0x04u8, 0x00u8, 0x01u8, 0x01u8]
                        },
                    ),
                    write_command_steps(
                        awake_mode(pre.operating_mode),
                        OpCode::SetTxParams,
                        seq![power_byte(clamp_power(power, -17i8, 14i8)), ramp_time.spec_value()],
                    ),
                );
            }
            Ok(())
        } else {
            // Provide better resistance of the SX1262 to antenna mismatch
            // (datasheet DS_SX1261-2_V1.2 chapter 15.2): set bits 1 to 5 of
            // the TX clamp configuration.
            let tx_clamp = self.brd_read_registers(Register::TxClampCfg, 1)?;
            let ghost clamp_reg = tx_clamp@[0];
            let ghost mid1 = *self;
            let widened = byte_params1(tx_clamp[0] | 0x1E);
            self.brd_write_registers(Register::TxClampCfg, &widened)?;
            let ghost mid2 = *self;
            self.sub_set_pa_config(0x04, 0x07, 0x00, 0x01)?;
            let ghost mid3 = *self;
            let clamped = clamp_i8(power, -9, 22);
            let params = byte_params2(power_to_byte(clamped), ramp_time.value());
            self.brd_write_command(OpCode::SetTxParams, &params)?;
            proof {
                assert(tx_clamp@ =~= seq![clamp_reg]);
                let s1 = read_registers_steps(pre.operating_mode, Register::TxClampCfg, seq![clamp_reg]);
                let s2 = write_registers_steps(
                    awake_mode(pre.operating_mode),
                    Register::TxClampCfg,
                    seq![clamp_reg | 0x1E],
                );
                let s3 = write_command_steps(
                    awake_mode(pre.operating_mode),
                    OpCode::SetPAConfig,
                    seq![0x04u8, 0x07u8, 0x00u8, 0x01u8],
                );
                let s4 = write_command_steps(
                    awake_mode(pre.operating_mode),
                    OpCode::SetTxParams,
                    seq![power_byte(clamp_power(power, -9i8, 22i8)), ramp_time.spec_value()],
                );
                lemma_appended_trans(pre.log(), mid1.log(), mid2.log(), s1, s2);
                lemma_appended_trans(pre.log(), mid2.log(), mid3.log(), s1 + s2, s3);
                lemma_appended_trans(pre.log(), mid3.log(), self.log(), s1 + s2 + s3, s4);
                assert(Self::appended(
                    pre,
                    *self,
                    set_tx_params_steps_sx1262(pre.operating_mode, power, ramp_time, clamp_reg),
                ));
            }
            Ok(())
        }
    }

    /// Pushes the stored modulation parameters to the chip, pinning the
    /// packet type to LoRa first; fails fast when none were ever set.
    pub fn sub_set_modulation_params(&mut self) -> (r: Result<(), RadioError>)
        ensures
            old(self).modulation_params is None ==> r == Err::<(), RadioError>(
                RadioError::ModulationParamsMissing,
            ) && *final (self) == *old(self),
            r is Ok ==> (old(self).modulation_params matches Some(mp) && Self::appended(
                *old(self),
                *final (self),
                set_modulation_params_steps(old(self).operating_mode, mp),
            )) && Self::same_radio_params_beyond_selection(*old(self), *final (self)) && final (self).packet_type_selected@ && final (self).image_calibrated == old(self).image_calibrated
                && final (self).packet_type == PacketType::LoRa && final (self).operating_mode
                == awake_mode(old(self).operating_mode),
            r matches Err(e) ==> (e == RadioError::ModulationParamsMissing ==> old(self).modulation_params is None) && (e == RadioError::ModulationParamsMissing
                || e is DigitalOut || e is BusyWait || e is Spi),
    {
        let ghost pre = *self;
        if let Some(mp) = self.modulation_params {
            // This driver only supports LoRa, so pin the packet type to it.
            self.sub_set_packet_type(PacketType::LoRa)?;
            let ghost mid = *self;
            let ldro: u8 = if mp.low_data_rate_optimize {
                1
            } else {
                0
            };
            let params = byte_params4(
                mp.spreading_factor.value(),
                mp.bandwidth.value(),
                mp.coding_rate.value(),
                ldro,
            );
            self.brd_write_command(OpCode::SetModulationParams, &params)?;
            proof {
                assert(params@ =~= modulation_params_bytes(mp));
                lemma_appended_trans(
                    pre.log(),
                    mid.log(),
                    self.log(),
                    set_packet_type_steps(pre.operating_mode, PacketType::LoRa),
                    write_command_steps(
                        awake_mode(pre.operating_mode),
                        OpCode::SetModulationParams,
                        modulation_params_bytes(mp),
                    ),
                );
            }
            Ok(())
        } else {
            Err(RadioError::ModulationParamsMissing)
        }
    }

    /// Pushes the stored packet parameters to the chip, pinning the packet
    /// type to LoRa first; fails fast when none were ever set.
    pub fn sub_set_packet_params(&mut self) -> (r: Result<(), RadioError>)
        ensures
            old(self).packet_params is None ==> r == Err::<(), RadioError>(
                RadioError::PacketParamsMissing,
            ) && *final (self) == *old(self),
            r is Ok ==> (old(self).packet_params matches Some(pp) && Self::appended(
                *old(self),
                *final (self),
                set_packet_params_steps(old(self).operating_mode, pp),
            )) && Self::same_radio_params_beyond_selection(*old(self), *final (self)) && final (self).packet_type_selected@ && final (self).image_calibrated == old(self).image_calibrated
                && final (self).packet_type == PacketType::LoRa && final (self).operating_mode
                == awake_mode(old(self).operating_mode),
            r matches Err(e) ==> (e == RadioError::PacketParamsMissing ==> old(self).packet_params is None) && (e == RadioError::PacketParamsMissing || e is DigitalOut
                || e is BusyWait || e is Spi),
    {
        let ghost pre = *self;
        if let Some(pp) = self.packet_params {
            // This driver only supports LoRa, so pin the packet type to it.
            self.sub_set_packet_type(PacketType::LoRa)?;
            let ghost mid = *self;
            let mut params: Vec<u8> = Vec::new();
            params.push(((pp.preamble_length >> 8) & 0xFF) as u8);
            params.push((pp.preamble_length & 0xFF) as u8);
            params.push(
                if pp.implicit_header {
                    1
                } else {
                    0
                },
            );
            params.push(pp.payload_length);
            params.push(
                if pp.crc_on {
                    1
                } else {
                    0
                },
            );
            params.push(
                if pp.iq_inverted {
                    1
                } else {
                    0
                },
            );
            assert(params@ =~= packet_params_bytes(pp));
            self.brd_write_command(OpCode::SetPacketParams, &params)?;
            proof {
                lemma_appended_trans(
                    pre.log(),
                    mid.log(),
                    self.log(),
                    set_packet_type_steps(pre.operating_mode, PacketType::LoRa),
                    write_command_steps(
                        awake_mode(pre.operating_mode),
                        OpCode::SetPacketParams,
                        packet_params_bytes(pp),
                    ),
                );
            }
            Ok(())
        } else {
            Err(RadioError::PacketParamsMissing)
        }
    }

    /// Sets the channel-activity-detection parameters: symbols to scan,
    /// detection thresholds, what to do when the scan ends, and the packed
    /// timeout for a CAD-then-receive exit.
    pub fn sub_set_cad_params(
        &mut self,
        symbols: CADSymbols,
        det_peak: u8,
        det_min: u8,
        exit_mode: CADExitMode,
        timeout: u32,
    ) -> (r: Result<(), RadioError>)
        ensures
            r is Ok ==> Self::appended(
                *old(self),
                *final (self),
                write_command_steps(
                    old(self).operating_mode,
                    OpCode::SetCADParams,
                    seq![symbols.spec_value(), det_peak, det_min, exit_mode.spec_value()]
                        + timeout_bytes(timeout),
                ),
            ) && Self::same_settings(*old(self), *final (self)) && final (self).operating_mode
                == RadioMode::ChannelActivityDetection,
            r matches Err(e) ==> (e is DigitalOut || e is BusyWait || e is Spi),
    {
        let mut buffer: Vec<u8> = Vec::new();
        buffer.push(symbols.value());
        buffer.push(det_peak);
        buffer.push(det_min);
        buffer.push(exit_mode.value());
        buffer.push(Self::timeout_1(timeout));
        buffer.push(Self::timeout_2(timeout));
        buffer.push(Self::timeout_3(timeout));
        assert(buffer@ =~= seq![symbols.spec_value(), det_peak, det_min, exit_mode.spec_value()]
            + timeout_bytes(timeout));
        self.brd_write_command(OpCode::SetCADParams, &buffer)?;
        self.operating_mode = RadioMode::ChannelActivityDetection;
        Ok(())
    }

    /// Sets the RF frequency in Hz: calibrates the image-rejection band first
    /// when needed, then writes the frequency as a big-endian 32-bit PLL-step
    /// count. The frequency bound keeps the fixed-point conversion exact, and
    /// a packet type must have been selected at least once in this session.
    pub fn sub_set_rf_frequency(&mut self, frequency: u32) -> (r: Result<(), RadioError>)
        requires
            frequency < 4096000000,
            old(self).packet_type_selected@,
        ensures
            r is Ok ==> Self::appended(
                *old(self),
                *final (self),
                set_rf_frequency_steps(
                    old(self).operating_mode,
                    old(self).image_calibrated,
                    frequency,
                ),
            ) && Self::same_radio_params(*old(self), *final (self)) && final (self).packet_type
                == old(self).packet_type && final (self).image_calibrated && final (self).operating_mode == awake_mode(old(self).operating_mode),
            r matches Err(e) ==> (e is DigitalOut || e is BusyWait || e is Spi),
    {
        let ghost pre = *self;
        let ghost was_calibrated = self.image_calibrated;
        if !self.image_calibrated {
            self.sub_calibrate_image(frequency)?;
            self.image_calibrated = true;
        }
        let ghost mid = *self;
        let freq_in_pll_steps = Self::convert_freq_in_hz_to_pll_step(frequency);
        let mut buffer: Vec<u8> = Vec::new();
        buffer.push(((freq_in_pll_steps >> 24) & 0xFF) as u8);
        buffer.push(((freq_in_pll_steps >> 16) & 0xFF) as u8);
        buffer.push(((freq_in_pll_steps >> 8) & 0xFF) as u8);
        buffer.push((freq_in_pll_steps & 0xFF) as u8);
        assert(buffer@ =~= frequency_bytes(frequency));
        self.brd_write_command(OpCode::SetRFFrequency, &buffer)?;
        proof {
            if !was_calibrated {
                lemma_appended_trans(
                    pre.log(),
                    mid.log(),
                    self.log(),
                    write_command_steps(
                        pre.operating_mode,
                        OpCode::CalibrateImage,
                        cal_band_bytes(frequency),
                    ),
                    write_command_steps(
                        awake_mode(pre.operating_mode),
                        OpCode::SetRFFrequency,
                        frequency_bytes(frequency),
                    ),
                );
            }
        }
        Ok(())
    }
}

} // verus!

verus! {

/// The signed value a raw chip byte carries, read as two's complement.
pub open spec fn sbyte(b: u8) -> int {
    if b < 128 {
        b as int
    } else {
        b as int - 256
    }
}

/// RSSI decode per the datasheet status tables: the chip reports the negated
/// dBm value doubled, so the power is `-raw / 2`, here rounded away from
/// zero on odd raw values.
pub open spec fn spec_rssi_decode(raw: u8) -> int {
    -((raw as int + 1) / 2)
}

/// SNR decode per the datasheet status tables: a signed byte in quarter-dB
/// steps, so the ratio is `raw / 4`, here rounded to nearest (half up).
pub open spec fn spec_snr_decode(raw: u8) -> int {
    (sbyte(raw) + 2) / 4
}

/// The 16-bit IRQ status assembled big-endian from its two bytes.
pub open spec fn spec_irq_flags(hi: u8, lo: u8) -> u16 {
    ((hi as u16) << 8) | (lo as u16)
}

/// The chip status byte split into its command-status and chip-mode fields.
pub open spec fn decode_radio_status(st: u8) -> crate::mod_params::RadioStatus {
    crate::mod_params::RadioStatus { cmd_status: (st & 0x0E) >> 1, chip_mode: (st & 0x70) >> 4 }
}

/// The GetErrors report split into its flag bits.
pub open spec fn decode_system_errors(e0: u8, e1: u8) -> crate::mod_params::RadioSystemError {
    crate::mod_params::RadioSystemError {
        rc_64khz_calibration: (e1 & 0x01) != 0,
        rc_13mhz_calibration: (e1 & 0x02) != 0,
        pll_calibration: (e1 & 0x04) != 0,
        adc_calibration: (e1 & 0x08) != 0,
        image_calibration: (e1 & 0x10) != 0,
        xosc_start: (e1 & 0x20) != 0,
        pll_lock: (e1 & 0x40) != 0,
        pa_ramp: (e0 & 0x01) != 0,
    }
}

/// Decodes an RSSI byte into dBm.
pub fn decode_rssi_byte(raw: u8) -> (r: i8)
    ensures
        r as int == spec_rssi_decode(raw),
{
    (-((raw as i32 + 1) / 2)) as i8
}

/// Decodes an SNR byte into dB.
pub fn decode_snr_byte(raw: u8) -> (r: i8)
    ensures
        r as int == spec_snr_decode(raw),
{
    let s: i32 = if raw < 128 {
        raw as i32
    } else {
        (raw as i32) - 256
    };
    let x: i32 = s + 2;
    let q: i32 = if x >= 0 {
        x / 4
    } else {
        let y: i32 = -x;
        proof {
            lemma_fundamental_div_mod(y as int, 4);
            lemma_mod_division_less_than_divisor(y as int, 4);
            let m = (y as int) % 4;
            if m == 0 {
                lemma_fundamental_div_mod_converse_div(y as int + 3, 4, (y as int) / 4, 3);
                lemma_fundamental_div_mod_converse_div(-(y as int), 4, -((y as int) / 4), 0);
            } else {
                lemma_fundamental_div_mod_converse_div(y as int + 3, 4, (y as int) / 4 + 1, m - 1);
                lemma_fundamental_div_mod_converse_div(-(y as int), 4, -((y as int) / 4) - 1, 4 - m);
            }
        }
        -((y + 3) / 4)
    };
    q as i8
}

/// Reading the receive-buffer status: one GetRxBufferStatus read, and in
/// implicit-header LoRa reception one more read of the PayloadLength
/// register (`p0` is ignored otherwise).
pub open spec fn rx_buffer_status_steps(
    mode: RadioMode,
    implicit: bool,
    st: u8,
    s0: u8,
    s1: u8,
    p0: u8,
) -> Seq<BusStep> {
    read_command_steps(mode, OpCode::GetRxBufferStatus, st, seq![s0, s1]) + if implicit {
        read_registers_steps(awake_mode(mode), Register::PayloadLength, seq![p0])
    } else {
        Seq::empty()
    }
}

/// Reading a received payload: the buffer status, then the payload bytes
/// read from the radio data buffer at the reported offset.
pub open spec fn get_payload_steps(
    mode: RadioMode,
    implicit: bool,
    st: u8,
    s0: u8,
    s1: u8,
    p0: u8,
    payload: Seq<u8>,
) -> Seq<BusStep> {
    rx_buffer_status_steps(mode, implicit, st, s0, s1, p0) + read_buffer_steps(
        awake_mode(mode),
        s1,
        payload,
    )
}

/// Harvesting entropy: the LNA and mixer are switched off around a spell of
/// continuous reception, the four random-number bytes are read, the chip is
/// put back into RC standby and the two analog registers are restored.
pub open spec fn get_random_steps(mode: RadioMode, lna: u8, mixer: u8, rnd: Seq<u8>) -> Seq<
    BusStep,
> {
    read_registers_steps(mode, Register::AnaLNA, seq![lna]) + write_registers_steps(
        awake_mode(mode),
        Register::AnaLNA,
        seq![lna & 0xFE],
    ) + read_registers_steps(awake_mode(mode), Register::AnaMixer, seq![mixer])
        + write_registers_steps(awake_mode(mode), Register::AnaMixer, seq![mixer & 0x7F])
        + set_rx_steps(0xFFFFFF) + read_registers_steps(
        RadioMode::Receive,
        Register::GeneratedRandomNumber,
        rnd,
    ) + set_standby_steps(RadioMode::Receive, StandbyMode::RC) + write_registers_steps(
        RadioMode::StandbyRC,
        Register::AnaLNA,
        seq![lna],
    ) + write_registers_steps(RadioMode::StandbyRC, Register::AnaMixer, seq![mixer])
}

/// Initializing the radio: a RESET pulse, the CS wake-up toggle and BUSY
/// wait, standby on the RC oscillator, DIO3 programmed as TCXO supply on a
/// TCXO board, and the RF-switch control choice.
pub open spec fn init_steps(cfg: crate::mod_params::BoardConfig) -> Seq<BusStep> {
    seq![
        BusStep::Plain(HalEvent::ResetLow),
        BusStep::Plain(HalEvent::Delayed(50)),
        BusStep::Plain(HalEvent::ResetHigh),
    ] + crate::lora::check_ready_steps(RadioMode::Sleep) + set_standby_steps(
        RadioMode::StandbyRC,
        StandbyMode::RC,
    ) + (if cfg.oscillator_mode.spec_dio3_as_tcxo_ctrl() {
        write_command_steps(
            RadioMode::StandbyRC,
            OpCode::SetTCXOMode,
            seq![(cfg.tcxo_voltage.spec_value() & 0x07) as u8] + timeout_bytes(320),
        )
    } else {
        Seq::empty()
    }) + write_command_steps(
        RadioMode::StandbyRC,
        OpCode::SetRFSwitchMode,
        seq![
            if cfg.dio2_antenna_control {
                1u8
            } else {
                0u8
            },
        ],
    )
}

impl<B: Board> LoRa<B> {
    /// Whether reception runs with an implicit (fixed-length) LoRa header,
    /// so that the payload length lives in a register instead of the status.
    pub open spec fn implicit_header_active(self) -> bool {
        self.packet_type == PacketType::LoRa && match self.packet_params {
            Some(pp) => pp.implicit_header,
            None => false,
        }
    }

    /// Reads the current chip status byte and splits it into the
    /// command-status and chip-mode fields.
    pub fn sub_get_status(&mut self) -> (r: Result<crate::mod_params::RadioStatus, RadioError>)
        ensures
            r matches Ok(status) ==> (exists|st: u8|
                Self::appended(
                    *old(self),
                    *final (self),
                    #[trigger] read_command_steps(
                        old(self).operating_mode,
                        OpCode::GetStatus,
                        st,
                        Seq::empty(),
                    ),
                ) && status == decode_radio_status(st)) && Self::same_settings(
                *old(self),
                *final (self),
            ) && final (self).operating_mode == awake_mode(old(self).operating_mode),
            r matches Err(e) ==> (e is DigitalOut || e is BusyWait || e is Spi),
    {
        let ghost pre = *self;
        let result = self.brd_read_command(OpCode::GetStatus, 0);
        match result {
            Ok((st, data)) => {
                proof {
                    assert(data@ =~= Seq::<u8>::empty());
                }
                Ok(crate::mod_params::RadioStatus {
                    cmd_status: (st & 0x0E) >> 1,
                    chip_mode: (st & 0x70) >> 4,
                })
            },
            Err(e) => Err(e),
        }
    }

    /// Reads and decodes the 16-bit IRQ status.
    pub fn sub_get_irq_status(&mut self) -> (r: Result<u16, RadioError>)
        ensures
            r matches Ok(flags) ==> (exists|st: u8, d: Seq<u8>|
                Self::appended(
                    *old(self),
                    *final (self),
                    #[trigger] read_command_steps(
                        old(self).operating_mode,
                        OpCode::GetIrqStatus,
                        st,
                        d,
                    ),
                ) && d.len() == 2 && flags == spec_irq_flags(d[0], d[1])) && Self::same_settings(
                *old(self),
                *final (self),
            ) && final (self).operating_mode == awake_mode(old(self).operating_mode),
            r matches Err(e) ==> (e is DigitalOut || e is BusyWait || e is Spi)
                && Self::same_settings(*old(self), *final (self)),
    {
        let (st, data) = self.brd_read_command(OpCode::GetIrqStatus, 2)?;
        let b0 = data[0];
        let b1 = data[1];
        proof {
            assert(data@ =~= seq![b0, b1]);
        }
        Ok(((b0 as u16) << 8) | (b1 as u16))
    }

    /// Reads the instantaneous RSSI during reception, in dBm.
    pub fn sub_get_rssi_inst(&mut self) -> (r: Result<i8, RadioError>)
        ensures
            r matches Ok(rssi) ==> (exists|st: u8, d: Seq<u8>|
                Self::appended(
                    *old(self),
                    *final (self),
                    #[trigger] read_command_steps(
                        old(self).operating_mode,
                        OpCode::GetRSSIInst,
                        st,
                        d,
                    ),
                ) && d.len() == 1 && rssi as int == spec_rssi_decode(d[0])) && Self::same_settings(
                *old(self),
                *final (self),
            ) && final (self).operating_mode == awake_mode(old(self).operating_mode),
            r matches Err(e) ==> (e is DigitalOut || e is BusyWait || e is Spi),
    {
        let (st, data) = self.brd_read_command(OpCode::GetRSSIInst, 1)?;
        let b0 = data[0];
        proof {
            assert(data@ =~= seq![b0]);
        }
        Ok(decode_rssi_byte(b0))
    }

    /// Reads the last received packet's status: RSSI, SNR and signal RSSI
    /// decoded from the chip bytes, and the stored frequency error.
    pub fn sub_get_packet_status(&mut self) -> (r: Result<
        crate::mod_params::PacketStatus,
        RadioError,
    >)
        ensures
            r matches Ok(ps) ==> (exists|st: u8, d: Seq<u8>|
                {
                    &&& Self::appended(
                        *old(self),
                        *final (self),
                        #[trigger] read_command_steps(
                            old(self).operating_mode,
                            OpCode::GetPacketStatus,
                            st,
                            d,
                        ),
                    )
                    &&& d.len() == 3
                    &&& ps.rssi as int == spec_rssi_decode(d[0])
                    &&& ps.snr as int == spec_snr_decode(d[1])
                    &&& ps.signal_rssi as int == spec_rssi_decode(d[2])
                    &&& ps.freq_error == old(self).frequency_error
                }) && Self::same_settings(*old(self), *final (self)) && final (self).operating_mode == awake_mode(old(self).operating_mode),
            r matches Err(e) ==> (e is DigitalOut || e is BusyWait || e is Spi)
                && Self::same_settings(*old(self), *final (self)),
    {
        let (st, data) = self.brd_read_command(OpCode::GetPacketStatus, 3)?;
        let b0 = data[0];
        let b1 = data[1];
        let b2 = data[2];
        proof {
            assert(data@ =~= seq![b0, b1, b2]);
        }
        Ok(
            crate::mod_params::PacketStatus {
                rssi: decode_rssi_byte(b0),
                snr: decode_snr_byte(b1),
                signal_rssi: decode_rssi_byte(b2),
                freq_error: self.frequency_error,
            },
        )
    }

    /// Reads and decodes the device-error report.
    pub fn sub_get_device_errors(&mut self) -> (r: Result<
        crate::mod_params::RadioSystemError,
        RadioError,
    >)
        ensures
            r matches Ok(errors) ==> (exists|st: u8, d: Seq<u8>|
                Self::appended(
                    *old(self),
                    *final (self),
                    #[trigger] read_command_steps(
                        old(self).operating_mode,
                        OpCode::GetErrors,
                        st,
                        d,
                    ),
                ) && d.len() == 2 && errors == decode_system_errors(d[0], d[1])) && Self::same_settings(
                *old(self),
                *final (self),
            ) && final (self).operating_mode == awake_mode(old(self).operating_mode),
            r matches Err(e) ==> (e is DigitalOut || e is BusyWait || e is Spi),
    {
        let (st, data) = self.brd_read_command(OpCode::GetErrors, 2)?;
        let e0 = data[0];
        let e1 = data[1];
        proof {
            assert(data@ =~= seq![e0, e1]);
        }
        Ok(
            crate::mod_params::RadioSystemError {
                rc_64khz_calibration: (e1 & 0x01) != 0,
                rc_13mhz_calibration: (e1 & 0x02) != 0,
                pll_calibration: (e1 & 0x04) != 0,
                adc_calibration: (e1 & 0x08) != 0,
                image_calibration: (e1 & 0x10) != 0,
                xosc_start: (e1 & 0x20) != 0,
                pll_lock: (e1 & 0x40) != 0,
                pa_ramp: (e0 & 0x01) != 0,
            },
        )
    }

    /// Reads the last received packet's buffer status: its payload length
    /// (from the PayloadLength register in implicit-header LoRa reception)
    /// and its offset in the radio data buffer. Fails fast when no packet
    /// parameters were ever set.
    pub fn sub_get_rx_buffer_status(&mut self) -> (r: Result<(u8, u8), RadioError>)
        ensures
            old(self).packet_params is None ==> r == Err::<(u8, u8), RadioError>(
                RadioError::PacketParamsMissing,
            ) && *final (self) == *old(self),
            r matches Ok((payload_length, offset)) ==> (exists|st: u8, s0: u8, s1: u8, p0: u8|
                {
                    &&& Self::appended(
                        *old(self),
                        *final (self),
                        #[trigger] rx_buffer_status_steps(
                            old(self).operating_mode,
                            old(self).implicit_header_active(),
                            st,
                            s0,
                            s1,
                            p0,
                        ),
                    )
                    &&& offset == s1
                    &&& payload_length == (if old(self).implicit_header_active() {
                        p0
                    } else {
                        s0
                    })
                }) && Self::same_settings(*old(self), *final (self)) && final (self).operating_mode == awake_mode(old(self).operating_mode),
            r matches Err(e) ==> Self::same_settings(*old(self), *final (self)) && (e
                == RadioError::PacketParamsMissing ==> old(self).packet_params is None) && (e
                == RadioError::PacketParamsMissing || e is DigitalOut || e is BusyWait
                || e is Spi),
    {
        let ghost pre = *self;
        if self.packet_params.is_none() {
            return Err(RadioError::PacketParamsMissing);
        }
        let implicit = if let Some(pp) = self.packet_params {
            self.packet_type == PacketType::LoRa && pp.implicit_header
        } else {
            false
        };
        let (st, status) = self.brd_read_command(OpCode::GetRxBufferStatus, 2)?;
        let s0 = status[0];
        let s1 = status[1];
        let ghost mid = *self;
        proof {
            assert(status@ =~= seq![s0, s1]);
        }
        if implicit {
            let pl = self.brd_read_registers(Register::PayloadLength, 1)?;
            let p0 = pl[0];
            proof {
                assert(pl@ =~= seq![p0]);
                lemma_appended_trans(
                    pre.log(),
                    mid.log(),
                    self.log(),
                    read_command_steps(
                        pre.operating_mode,
                        OpCode::GetRxBufferStatus,
                        st,
                        seq![s0, s1],
                    ),
                    read_registers_steps(
                        awake_mode(pre.operating_mode),
                        Register::PayloadLength,
                        seq![p0],
                    ),
                );
                assert(pre.implicit_header_active());
                assert(Self::appended(
                    pre,
                    *self,
                    rx_buffer_status_steps(
                        pre.operating_mode,
                        pre.implicit_header_active(),
                        st,
                        s0,
                        s1,
                        p0,
                    ),
                ));
            }
            Ok((p0, s1))
        } else {
            proof {
                let first = read_command_steps(
                    pre.operating_mode,
                    OpCode::GetRxBufferStatus,
                    st,
                    seq![s0, s1],
                );
                crate::board::lemma_steps_events_concat(first, Seq::empty());
                assert(steps_events(Seq::<BusStep>::empty()) =~= Seq::<HalEvent>::empty());
                assert(self.log() =~= pre.log() + steps_events(first + Seq::empty()));
                assert(!pre.implicit_header_active());
                assert(Self::appended(
                    pre,
                    *self,
                    rx_buffer_status_steps(
                        pre.operating_mode,
                        pre.implicit_header_active(),
                        st,
                        s0,
                        s1,
                        0,
                    ),
                ));
            }
            Ok((s0, s1))
        }
    }

    /// Reads a received payload into the front of the caller's buffer,
    /// returning its length; the rest of the buffer is untouched. Fails with
    /// the reported and available sizes when the payload would not fit.
    #[verifier::rlimit(50)]
    #[verifier::spinoff_prover]
    pub fn sub_get_payload(&mut self, buffer: &mut Vec<u8>) -> (r: Result<u8, RadioError>)
        ensures
            old(self).packet_params is None ==> r == Err::<u8, RadioError>(
                RadioError::PacketParamsMissing,
            ) && *final (self) == *old(self) && final (buffer)@ == old(buffer)@,
            r matches Err(e) ==> final (buffer)@ == old(buffer)@ && Self::same_settings(
                *old(self),
                *final (self),
            ) && (e == RadioError::PacketParamsMissing ==> old(self).packet_params is None) && (e
                == RadioError::PacketParamsMissing || (e matches RadioError::PayloadSizeMismatch(
                got,
                cap,
            ) && got > cap && cap == old(buffer)@.len()) || e is DigitalOut || e is BusyWait
                || e is Spi),
            r matches Err(RadioError::PayloadSizeMismatch(got, cap)) ==> (exists|
                st: u8,
                s0: u8,
                s1: u8,
                p0: u8,
            |
                {
                    &&& Self::appended(
                        *old(self),
                        *final (self),
                        #[trigger] rx_buffer_status_steps(
                            old(self).operating_mode,
                            old(self).implicit_header_active(),
                            st,
                            s0,
                            s1,
                            p0,
                        ),
                    )
                    &&& got == (if old(self).implicit_header_active() {
                        p0 as int
                    } else {
                        s0 as int
                    })
                }),
            r matches Ok(size) ==> size as int <= old(buffer)@.len() && final (buffer)@.len()
                == old(buffer)@.len() && final (buffer)@.skip(size as int) == old(buffer)@.skip(
                size as int,
            ),
            r matches Ok(size) ==> (exists|st: u8, s0: u8, s1: u8, p0: u8, payload: Seq<u8>|
                {
                    &&& Self::appended(
                        *old(self),
                        *final (self),
                        #[trigger] get_payload_steps(
                            old(self).operating_mode,
                            old(self).implicit_header_active(),
                            st,
                            s0,
                            s1,
                            p0,
                            payload,
                        ),
                    )
                    &&& payload == final (buffer)@.take(size as int)
                    &&& size == (if old(self).implicit_header_active() {
                        p0
                    } else {
                        s0
                    })
                }),
            r is Ok ==> Self::same_settings(*old(self), *final (self)) && final (self).operating_mode == awake_mode(old(self).operating_mode),
    {
        let ghost pre = *self;
        let (payload_length, offset) = self.sub_get_rx_buffer_status()?;
        let ghost mid = *self;
        let size = payload_length as usize;
        if size > buffer.len() {
            proof {
                let (st, s0, s1, p0): (u8, u8, u8, u8) = choose|st: u8, s0: u8, s1: u8, p0: u8|
                    {
                        &&& Self::appended(
                            pre,
                            mid,
                            #[trigger] rx_buffer_status_steps(
                                pre.operating_mode,
                                pre.implicit_header_active(),
                                st,
                                s0,
                                s1,
                                p0,
                            ),
                        )
                        &&& offset == s1
                        &&& payload_length == (if pre.implicit_header_active() {
                            p0
                        } else {
                            s0
                        })
                    };
                assert(Self::appended(
                    pre,
                    *self,
                    rx_buffer_status_steps(
                        pre.operating_mode,
                        pre.implicit_header_active(),
                        st,
                        s0,
                        s1,
                        p0,
                    ),
                ));
            }
            return Err(RadioError::PayloadSizeMismatch(size, buffer.len()));
        }
        let data = self.brd_read_buffer(offset, size)?;
        let ghost pdata = data@;
        let mut rebuilt = data;
        let mut i: usize = size;
        while i < buffer.len()
            invariant
                size <= i <= buffer.len(),
                pdata.len() == size,
                rebuilt@ == pdata + buffer@.subrange(size as int, i as int),
            decreases buffer.len() - i,
        {
            let b = buffer[i];
            rebuilt.push(b);
            assert(rebuilt@ =~= pdata + buffer@.subrange(size as int, i as int + 1));
            i += 1;
        }
        *buffer = rebuilt;
        proof {
            let (st, s0, s1, p0): (u8, u8, u8, u8) = choose|st: u8, s0: u8, s1: u8, p0: u8|
                {
                    &&& Self::appended(
                        pre,
                        mid,
                        #[trigger] rx_buffer_status_steps(
                            pre.operating_mode,
                            pre.implicit_header_active(),
                            st,
                            s0,
                            s1,
                            p0,
                        ),
                    )
                    &&& offset == s1
                    &&& payload_length == (if pre.implicit_header_active() {
                        p0
                    } else {
                        s0
                    })
                };
            lemma_appended_trans(
                pre.log(),
                mid.log(),
                self.log(),
                rx_buffer_status_steps(
                    pre.operating_mode,
                    pre.implicit_header_active(),
                    st,
                    s0,
                    s1,
                    p0,
                ),
                read_buffer_steps(awake_mode(pre.operating_mode), s1, pdata),
            );
            assert(buffer@.take(payload_length as int) =~= pdata);
            assert(buffer@.skip(size as int) =~= old(buffer)@.skip(size as int));
            assert(Self::appended(
                pre,
                *self,
                get_payload_steps(
                    pre.operating_mode,
                    pre.implicit_header_active(),
                    st,
                    s0,
                    s1,
                    p0,
                    buffer@.take(payload_length as int),
                ),
            ));

        }
        Ok(payload_length)
    }

    /// Gets a 32-bit random value from the radio's wideband RSSI source. A
    /// valid packet type must have been configured first, and the caller is
    /// responsible for keeping radio interrupts from disturbing the spell of
    /// continuous reception this opens. The values are not uniformly
    /// distributed; post-process them when uniformity matters.
    pub fn sub_get_random(&mut self) -> (r: Result<u32, RadioError>)
        ensures
            r matches Ok(v) ==> (exists|lna: u8, mixer: u8, rnd: Seq<u8>|
                Self::appended(
                    *old(self),
                    *final (self),
                    #[trigger] get_random_steps(
                        old(self).operating_mode,
                        lna,
                        mixer,
                        rnd,
                    ),
                ) && rnd.len() == 4 && v == spec_u32_from_be_bytes(rnd[0], rnd[1], rnd[2], rnd[3])) && Self::same_settings(
                *old(self),
                *final (self),
            ) && final (self).operating_mode == RadioMode::StandbyRC,
            r matches Err(e) ==> (e is DigitalOut || e is BusyWait || e is Spi),
    {
        let ghost pre = *self;
        let lna_orig = self.brd_read_registers(Register::AnaLNA, 1)?;
        let lna = lna_orig[0];
        let ghost g1 = *self;
        let masked_lna = byte_params1(lna & 0xFE);
        self.brd_write_registers(Register::AnaLNA, &masked_lna)?;
        let ghost g2 = *self;
        let mixer_orig = self.brd_read_registers(Register::AnaMixer, 1)?;
        let mixer = mixer_orig[0];
        let ghost g3 = *self;
        let masked_mixer = byte_params1(mixer & 0x7F);
        self.brd_write_registers(Register::AnaMixer, &masked_mixer)?;
        let ghost g4 = *self;
        // A spell of continuous reception feeds the random-number registers.
        self.sub_set_rx(0xFFFFFF)?;
        let ghost g5 = *self;
        let number = self.brd_read_registers(Register::GeneratedRandomNumber, 4)?;
        let n0 = number[0];
        let n1 = number[1];
        let n2 = number[2];
        let n3 = number[3];
        let ghost g6 = *self;
        self.sub_set_standby(StandbyMode::RC)?;
        let ghost g7 = *self;
        let restore_lna = byte_params1(lna);
        self.brd_write_registers(Register::AnaLNA, &restore_lna)?;
        let ghost g8 = *self;
        let restore_mixer = byte_params1(mixer);
        self.brd_write_registers(Register::AnaMixer, &restore_mixer)?;
        proof {
            assert(lna_orig@ =~= seq![lna]);
            assert(mixer_orig@ =~= seq![mixer]);
            assert(number@ =~= seq![n0, n1, n2, n3]);
            let m = pre.operating_mode;
            let s1 = read_registers_steps(m, Register::AnaLNA, seq![lna]);
            let s2 = write_registers_steps(awake_mode(m), Register::AnaLNA, seq![lna & 0xFE]);
            let s3 = read_registers_steps(awake_mode(m), Register::AnaMixer, seq![mixer]);
            let s4 = write_registers_steps(awake_mode(m), Register::AnaMixer, seq![mixer & 0x7F]);
            let s5 = set_rx_steps(0xFFFFFF);
            let s6 = read_registers_steps(
                RadioMode::Receive,
                Register::GeneratedRandomNumber,
                number@,
            );
            let s7 = set_standby_steps(RadioMode::Receive, StandbyMode::RC);
            let s8 = write_registers_steps(RadioMode::StandbyRC, Register::AnaLNA, seq![lna]);
            let s9 = write_registers_steps(RadioMode::StandbyRC, Register::AnaMixer, seq![mixer]);
            lemma_appended_trans(pre.log(), g1.log(), g2.log(), s1, s2);
            lemma_appended_trans(pre.log(), g2.log(), g3.log(), s1 + s2, s3);
            lemma_appended_trans(pre.log(), g3.log(), g4.log(), s1 + s2 + s3, s4);
            lemma_appended_trans(pre.log(), g4.log(), g5.log(), s1 + s2 + s3 + s4, s5);
            lemma_appended_trans(pre.log(), g5.log(), g6.log(), s1 + s2 + s3 + s4 + s5, s6);
            lemma_appended_trans(pre.log(), g6.log(), g7.log(), s1 + s2 + s3 + s4 + s5 + s6, s7);
            lemma_appended_trans(
                pre.log(),
                g7.log(),
                g8.log(),
                s1 + s2 + s3 + s4 + s5 + s6 + s7,
                s8,
            );
            lemma_appended_trans(
                pre.log(),
                g8.log(),
                self.log(),
                s1 + s2 + s3 + s4 + s5 + s6 + s7 + s8,
                s9,
            );
            assert(Self::appended(pre, *self, get_random_steps(m, lna, mixer, number@)));
        }
        let arr: [u8; 4] = [n0, n1, n2, n3];
        Ok(Self::convert_u8_buffer_to_u32(&arr))
    }

    /// Initializes the radio: RESET pulse, wake-up and BUSY wait, standby on
    /// the RC oscillator, TCXO supply control on a TCXO board, the RF-switch
    /// control choice, and a cleared image calibration.
    pub fn sub_init(&mut self) -> (r: Result<(), RadioError>)
        ensures
            r is Ok ==> Self::appended(*old(self), *final (self), init_steps(old(self).config))
                && Self::same_radio_params(*old(self), *final (self)) && final (self).packet_type
                == old(self).packet_type && !final (self).image_calibrated && final (self).operating_mode == RadioMode::StandbyRC,
            r matches Err(e) ==> (e is DigitalOut || e is BusyWait || e is Spi),
    {
        let ghost pre = *self;
        self.brd_reset()?;
        let ghost g1 = *self;
        self.sub_check_device_ready()?;
        let ghost g2 = *self;
        self.sub_set_standby(StandbyMode::RC)?;
        let ghost g3 = *self;
        let ghost s1 = seq![
            BusStep::Plain(HalEvent::ResetLow),
            BusStep::Plain(HalEvent::Delayed(50)),
            BusStep::Plain(HalEvent::ResetHigh),
        ];
        let ghost s2 = crate::lora::check_ready_steps(RadioMode::Sleep);
        let ghost s3 = set_standby_steps(RadioMode::StandbyRC, StandbyMode::RC);
        let ghost s4 = if self.config.oscillator_mode.spec_dio3_as_tcxo_ctrl() {
            write_command_steps(
                RadioMode::StandbyRC,
                OpCode::SetTCXOMode,
                seq![(self.config.tcxo_voltage.spec_value() & 0x07) as u8] + timeout_bytes(320),
            )
        } else {
            Seq::<BusStep>::empty()
        };
        if self.config.oscillator_mode.dio3_as_tcxo_ctrl() {
            let voltage = self.config.tcxo_voltage;
            self.sub_set_dio3_as_tcxo_ctrl(voltage, 320)?;
        }
        let ghost g4 = *self;
        proof {
            if !pre.config.oscillator_mode.spec_dio3_as_tcxo_ctrl() {
                crate::board::lemma_steps_events_concat(s1 + s2 + s3, Seq::empty());
                assert(steps_events(Seq::<BusStep>::empty()) =~= Seq::<HalEvent>::empty());
                assert(g4.log() =~= g3.log() + steps_events(s4));
            }
        }
        let dio2_control = self.config.dio2_antenna_control;
        self.sub_set_dio2_as_rf_switch_ctrl(dio2_control)?;
        self.image_calibrated = false;
        proof {
            let s5 = write_command_steps(
                RadioMode::StandbyRC,
                OpCode::SetRFSwitchMode,
                seq![
                    if pre.config.dio2_antenna_control {
                        1u8
                    } else {
                        0u8
                    },
                ],
            );
            lemma_appended_trans(pre.log(), g1.log(), g2.log(), s1, s2);
            lemma_appended_trans(pre.log(), g2.log(), g3.log(), s1 + s2, s3);
            lemma_appended_trans(pre.log(), g3.log(), g4.log(), s1 + s2 + s3, s4);
            lemma_appended_trans(pre.log(), g4.log(), self.log(), s1 + s2 + s3 + s4, s5);
            assert(Self::appended(pre, *self, init_steps(pre.config)));
        }
        Ok(())
    }

    /// Law: selecting a packet type and immediately reading it back returns
    /// the type just selected. [`Self::sub_set_packet_type`] ensures the
    /// stored protocol of the state it leaves equals its argument, and
    /// [`Self::sub_get_packet_type`] ensures its result equals
    /// [`Self::spec_packet_type`] of that state.
    pub proof fn lemma_packet_type_round_trip(s: LoRa<B>, t: PacketType)
        requires
            s.packet_type == t,
        ensures
            s.spec_packet_type() == t,
    {
    }
}

} // verus!

verus! {

/// The chip-protocol laws applied to a whole driver operation: the
/// initialization sequence consists of well-formed bus steps, so its trace
/// has every SPI frame bracketed by CS edges and BUSY polled before each.
pub proof fn lemma_init_trace_obeys_protocol(cfg: crate::mod_params::BoardConfig)
    ensures
        crate::board::cs_brackets_frames(steps_events(init_steps(cfg))),
        crate::board::busy_polled_before_frames(steps_events(init_steps(cfg))),
{
    let reset = seq![
        BusStep::Plain(HalEvent::ResetLow),
        BusStep::Plain(HalEvent::Delayed(50)),
        BusStep::Plain(HalEvent::ResetHigh),
    ];
    assert(crate::board::steps_wf(reset));
    let ready = crate::lora::check_ready_steps(RadioMode::Sleep);
    crate::lora::lemma_check_ready_steps_wf(RadioMode::Sleep);
    crate::lora::lemma_steps_wf_concat(reset, ready);
    let standby = set_standby_steps(RadioMode::StandbyRC, StandbyMode::RC);
    assert(crate::board::steps_wf(standby)) by {
        crate::lora::lemma_write_command_steps_wf(
            RadioMode::StandbyRC,
            OpCode::SetStandby,
            seq![StandbyMode::RC.spec_value()],
        );
        crate::lora::lemma_plain_step_wf(HalEvent::AntennaSleep);
        crate::lora::lemma_steps_wf_concat(
            write_command_steps(
                RadioMode::StandbyRC,
                OpCode::SetStandby,
                seq![StandbyMode::RC.spec_value()],
            ),
            seq![BusStep::Plain(HalEvent::AntennaSleep)],
        );
    }
    crate::lora::lemma_steps_wf_concat(reset + ready, standby);
    let tcxo = if cfg.oscillator_mode.spec_dio3_as_tcxo_ctrl() {
        write_command_steps(
            RadioMode::StandbyRC,
            OpCode::SetTCXOMode,
            seq![(cfg.tcxo_voltage.spec_value() & 0x07) as u8] + timeout_bytes(320),
        )
    } else {
        Seq::<BusStep>::empty()
    };
    assert(crate::board::steps_wf(tcxo)) by {
        crate::lora::lemma_write_command_steps_wf(
            RadioMode::StandbyRC,
            OpCode::SetTCXOMode,
            seq![(cfg.tcxo_voltage.spec_value() & 0x07) as u8] + timeout_bytes(320),
        );
    }
    crate::lora::lemma_steps_wf_concat(reset + ready + standby, tcxo);
    let rf_switch = write_command_steps(
        RadioMode::StandbyRC,
        OpCode::SetRFSwitchMode,
        seq![
            if cfg.dio2_antenna_control {
                1u8
            } else {
                0u8
            },
        ],
    );
    crate::lora::lemma_write_command_steps_wf(
        RadioMode::StandbyRC,
        OpCode::SetRFSwitchMode,
        seq![
            if cfg.dio2_antenna_control {
                1u8
            } else {
                0u8
            },
        ],
    );
    crate::lora::lemma_steps_wf_concat(reset + ready + standby + tcxo, rf_switch);
    crate::board::lemma_cs_brackets_every_frame(init_steps(cfg));
    crate::board::lemma_busy_polled_before_every_frame(init_steps(cfg));
}

} // verus!
