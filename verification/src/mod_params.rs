//! Strongly-typed values for the SX126x command set: opcodes, register
//! addresses, operating modes, modulation and packet parameters, IRQ bits and
//! the error taxonomy. Each chip-facing type carries a `value` accessor that
//! yields its exact chip-encoded byte.

use vstd::prelude::*;

verus! {

/// Radio operating mode, mirroring the last command successfully issued.
#[derive(Clone, Copy, Debug, PartialEq, Eq, Structural)]
pub enum RadioMode {
    Sleep,
    StandbyRC,
    StandbyXOSC,
    FrequencySynthesis,
    Transmit,
    Receive,
    ReceiveDutyCycle,
    ChannelActivityDetection,
}

/// Modulation protocol selected on the chip. The driver admits only LoRa in
/// practice but stores the current value.
#[derive(Clone, Copy, Debug, PartialEq, Eq, Structural)]
pub enum PacketType {
    GFSK,
    LoRa,
}

impl PacketType {
    pub open spec fn spec_value(self) -> u8 {
        match self {
            PacketType::GFSK => 0x00,
            PacketType::LoRa => 0x01,
        }
    }

    #[verifier::when_used_as_spec(spec_value)]
    pub fn value(self) -> (v: u8)
        ensures
            v == self.spec_value(),
    {
        match self {
            PacketType::GFSK => 0x00,
            PacketType::LoRa => 0x01,
        }
    }
}

/// Error taxonomy of the driver. Board-defined failure kinds are carried as
/// their raw kind byte.
#[derive(Clone, Copy, Debug, PartialEq, Eq, Structural)]
pub enum RadioError {
    /// An SPI transfer failed.
    Spi(u8),
    /// A GPIO level change (CS, RESET, antenna switch) failed.
    DigitalOut(u8),
    /// Waiting for a DIO1 rising edge failed at board level.
    Dio1Wait(u8),
    /// Waiting for BUSY to fall failed at board level.
    BusyWait(u8),
    /// An operation needed packet parameters that were never set.
    PacketParamsMissing,
    /// An operation needed modulation parameters that were never set.
    ModulationParamsMissing,
    /// A received payload (first field) is larger than the caller's buffer
    /// (second field).
    PayloadSizeMismatch(usize, usize),
    /// The chip reported a timeout IRQ while receiving.
    ReceiveTimeout,
    /// The chip reported a timeout IRQ while transmitting.
    TransmitTimeout,
    /// RxDone was accompanied by a CRC error.
    ReceiveCrc,
    /// RxDone was accompanied by a header error.
    HeaderInvalid,
    /// A caller-provided bandwidth is not in the allowed set.
    InvalidBandwidth,
    /// A caller-provided spreading factor is not in the allowed set.
    InvalidSpreadingFactor,
    /// A caller-provided coding rate is not in the allowed set.
    InvalidCodingRate,
}

/// SPI opcodes of the SX126x command language.
#[derive(Clone, Copy, Debug, PartialEq, Eq, Structural)]
pub enum OpCode {
    GetStatus,
    WriteRegister,
    ReadRegister,
    WriteBuffer,
    ReadBuffer,
    SetSleep,
    SetStandby,
    SetFS,
    SetTx,
    SetRx,
    SetRxDutyCycle,
    SetCAD,
    SetTxContinuousWave,
    SetTxContinuousPremable,
    SetPacketType,
    SetRFFrequency,
    SetPAConfig,
    SetTxParams,
    SetBufferBaseAddress,
    SetModulationParams,
    SetPacketParams,
    SetCADParams,
    CfgDIOIrq,
    GetIrqStatus,
    ClrIrqStatus,
    Calibrate,
    CalibrateImage,
    SetRegulatorMode,
    SetStopRxTimerOnPreamble,
    SetLoRaSymbTimeout,
    SetTxFallbackMode,
    SetRFSwitchMode,
    SetTCXOMode,
    GetRxBufferStatus,
    GetPacketStatus,
    GetRSSIInst,
    GetErrors,
    ClrErrors,
}

impl OpCode {
    pub open spec fn spec_value(self) -> u8 {
        match self {
            OpCode::GetStatus => 0xC0,
            OpCode::WriteRegister => 0x0D,
            OpCode::ReadRegister => 0x1D,
            OpCode::WriteBuffer => 0x0E,
            OpCode::ReadBuffer => 0x1E,
            OpCode::SetSleep => 0x84,
            OpCode::SetStandby => 0x80,
            OpCode::SetFS => 0xC1,
            OpCode::SetTx => 0x83,
            OpCode::SetRx => 0x82,
            OpCode::SetRxDutyCycle => 0x94,
            OpCode::SetCAD => 0xC5,
            OpCode::SetTxContinuousWave => 0xD1,
            OpCode::SetTxContinuousPremable => 0xD2,
            OpCode::SetPacketType => 0x8A,
            OpCode::SetRFFrequency => 0x86,
            OpCode::SetPAConfig => 0x95,
            OpCode::SetTxParams => 0x8E,
            OpCode::SetBufferBaseAddress => 0x8F,
            OpCode::SetModulationParams => 0x8B,
            OpCode::SetPacketParams => 0x8C,
            OpCode::SetCADParams => 0x88,
            OpCode::CfgDIOIrq => 0x08,
            OpCode::GetIrqStatus => 0x12,
            OpCode::ClrIrqStatus => 0x02,
            OpCode::Calibrate => 0x89,
            OpCode::CalibrateImage => 0x98,
            OpCode::SetRegulatorMode => 0x96,
            OpCode::SetStopRxTimerOnPreamble => 0x9F,
            OpCode::SetLoRaSymbTimeout => 0xA0,
            OpCode::SetTxFallbackMode => 0x93,
            OpCode::SetRFSwitchMode => 0x9D,
            OpCode::SetTCXOMode => 0x97,
            OpCode::GetRxBufferStatus => 0x13,
            OpCode::GetPacketStatus => 0x14,
            OpCode::GetRSSIInst => 0x15,
            OpCode::GetErrors => 0x17,
            OpCode::ClrErrors => 0x07,
        }
    }

    #[verifier::when_used_as_spec(spec_value)]
    pub fn value(self) -> (v: u8)
        ensures
            v == self.spec_value(),
    {
        match self {
            OpCode::GetStatus => 0xC0,
            OpCode::WriteRegister => 0x0D,
            OpCode::ReadRegister => 0x1D,
            OpCode::WriteBuffer => 0x0E,
            OpCode::ReadBuffer => 0x1E,
            OpCode::SetSleep => 0x84,
            OpCode::SetStandby => 0x80,
            OpCode::SetFS => 0xC1,
            OpCode::SetTx => 0x83,
            OpCode::SetRx => 0x82,
            OpCode::SetRxDutyCycle => 0x94,
            OpCode::SetCAD => 0xC5,
            OpCode::SetTxContinuousWave => 0xD1,
            OpCode::SetTxContinuousPremable => 0xD2,
            OpCode::SetPacketType => 0x8A,
            OpCode::SetRFFrequency => 0x86,
            OpCode::SetPAConfig => 0x95,
            OpCode::SetTxParams => 0x8E,
            OpCode::SetBufferBaseAddress => 0x8F,
            OpCode::SetModulationParams => 0x8B,
            OpCode::SetPacketParams => 0x8C,
            OpCode::SetCADParams => 0x88,
            OpCode::CfgDIOIrq => 0x08,
            OpCode::GetIrqStatus => 0x12,
            OpCode::ClrIrqStatus => 0x02,
            OpCode::Calibrate => 0x89,
            OpCode::CalibrateImage => 0x98,
            OpCode::SetRegulatorMode => 0x96,
            OpCode::SetStopRxTimerOnPreamble => 0x9F,
            OpCode::SetLoRaSymbTimeout => 0xA0,
            OpCode::SetTxFallbackMode => 0x93,
            OpCode::SetRFSwitchMode => 0x9D,
            OpCode::SetTCXOMode => 0x97,
            OpCode::GetRxBufferStatus => 0x13,
            OpCode::GetPacketStatus => 0x14,
            OpCode::GetRSSIInst => 0x15,
            OpCode::GetErrors => 0x17,
            OpCode::ClrErrors => 0x07,
        }
    }
}

/// Chip registers reached through the WriteRegister/ReadRegister opcodes.
/// Each carries its 16-bit address, exposed as the two big-endian bytes that
/// stand in the register frames.
#[derive(Clone, Copy, Debug, PartialEq, Eq, Structural)]
pub enum Register {
    /// Payload size in implicit-header reception.
    PayloadLength,
    /// Recalculated number of symbols for the LoRa symbol timeout.
    SynchTimeout,
    /// LoRa sync word distinguishing public and private networks.
    LoRaSynchword,
    /// 32-bit random number generated by the radio.
    GeneratedRandomNumber,
    /// LNA control bits, touched while harvesting entropy.
    AnaLNA,
    /// Mixer control bits, touched while harvesting entropy.
    AnaMixer,
    /// RX gain: 0x94 power saving, 0x96 boosted.
    RxGain,
    /// TX clamping, set for better resistance to antenna mismatch.
    TxClampCfg,
}

impl Register {
    /// High byte of the register's 16-bit address.
    pub open spec fn spec_addr_hi(self) -> u8 {
        match self {
            Register::PayloadLength => 0x07,
            Register::SynchTimeout => 0x07,
            Register::LoRaSynchword => 0x07,
            Register::GeneratedRandomNumber => 0x08,
            Register::AnaLNA => 0x08,
            Register::AnaMixer => 0x08,
            Register::RxGain => 0x08,
            Register::TxClampCfg => 0x08,
        }
    }

    /// Low byte of the register's 16-bit address.
    pub open spec fn spec_addr_lo(self) -> u8 {
        match self {
            Register::PayloadLength => 0x02,
            Register::SynchTimeout => 0x06,
            Register::LoRaSynchword => 0x40,
            Register::GeneratedRandomNumber => 0x19,
            Register::AnaLNA => 0xE2,
            Register::AnaMixer => 0xE5,
            Register::RxGain => 0xAC,
            Register::TxClampCfg => 0xD8,
        }
    }

    #[verifier::when_used_as_spec(spec_addr_hi)]
    pub fn addr_hi(self) -> (v: u8)
        ensures
            v == self.spec_addr_hi(),
    {
        match self {
            Register::PayloadLength => 0x07,
            Register::SynchTimeout => 0x07,
            Register::LoRaSynchword => 0x07,
            Register::GeneratedRandomNumber => 0x08,
            Register::AnaLNA => 0x08,
            Register::AnaMixer => 0x08,
            Register::RxGain => 0x08,
            Register::TxClampCfg => 0x08,
        }
    }

    #[verifier::when_used_as_spec(spec_addr_lo)]
    pub fn addr_lo(self) -> (v: u8)
        ensures
            v == self.spec_addr_lo(),
    {
        match self {
            Register::PayloadLength => 0x02,
            Register::SynchTimeout => 0x06,
            Register::LoRaSynchword => 0x40,
            Register::GeneratedRandomNumber => 0x19,
            Register::AnaLNA => 0xE2,
            Register::AnaMixer => 0xE5,
            Register::RxGain => 0xAC,
            Register::TxClampCfg => 0xD8,
        }
    }
}

/// IRQ status and mask bits, one per interrupt source.
pub const IRQ_TX_DONE: u16 = 0x0001;

pub const IRQ_RX_DONE: u16 = 0x0002;

pub const IRQ_PREAMBLE_DETECTED: u16 = 0x0004;

pub const IRQ_SYNCWORD_VALID: u16 = 0x0008;

pub const IRQ_HEADER_VALID: u16 = 0x0010;

pub const IRQ_HEADER_ERROR: u16 = 0x0020;

pub const IRQ_CRC_ERROR: u16 = 0x0040;

pub const IRQ_CAD_DONE: u16 = 0x0080;

pub const IRQ_CAD_ACTIVITY_DETECTED: u16 = 0x0100;

pub const IRQ_RX_TX_TIMEOUT: u16 = 0x0200;

/// All interrupt sources at once.
pub const IRQ_ALL: u16 = 0x03FF;

/// Standby clocking choice: internal 13 MHz RC oscillator or the crystal.
#[derive(Clone, Copy, Debug, PartialEq, Eq, Structural)]
pub enum StandbyMode {
    RC,
    XOSC,
}

impl StandbyMode {
    pub open spec fn spec_value(self) -> u8 {
        match self {
            StandbyMode::RC => 0x00,
            StandbyMode::XOSC => 0x01,
        }
    }

    #[verifier::when_used_as_spec(spec_value)]
    pub fn value(self) -> (v: u8)
        ensures
            v == self.spec_value(),
    {
        match self {
            StandbyMode::RC => 0x00,
            StandbyMode::XOSC => 0x01,
        }
    }
}

/// Power-regulator operating mode. Using only the LDO doubles the Rx or Tx
/// current.
#[derive(Clone, Copy, Debug, PartialEq, Eq, Structural)]
pub enum RegulatorMode {
    UseLDO,
    UseDCDC,
}

impl RegulatorMode {
    pub open spec fn spec_value(self) -> u8 {
        match self {
            RegulatorMode::UseLDO => 0x00,
            RegulatorMode::UseDCDC => 0x01,
        }
    }

    #[verifier::when_used_as_spec(spec_value)]
    pub fn value(self) -> (v: u8)
        ensures
            v == self.spec_value(),
    {
        match self {
            RegulatorMode::UseLDO => 0x00,
            RegulatorMode::UseDCDC => 0x01,
        }
    }
}

/// Transmission ramp-up time.
#[derive(Clone, Copy, Debug, PartialEq, Eq, Structural)]
pub enum RampTime {
    Ramp10Us,
    Ramp20Us,
    Ramp40Us,
    Ramp80Us,
    Ramp200Us,
    Ramp800Us,
    Ramp1700Us,
    Ramp3400Us,
}

impl RampTime {
    pub open spec fn spec_value(self) -> u8 {
        match self {
            RampTime::Ramp10Us => 0x00,
            RampTime::Ramp20Us => 0x01,
            RampTime::Ramp40Us => 0x02,
            RampTime::Ramp80Us => 0x03,
            RampTime::Ramp200Us => 0x04,
            RampTime::Ramp800Us => 0x05,
            RampTime::Ramp1700Us => 0x06,
            RampTime::Ramp3400Us => 0x07,
        }
    }

    #[verifier::when_used_as_spec(spec_value)]
    pub fn value(self) -> (v: u8)
        ensures
            v == self.spec_value(),
    {
        match self {
            RampTime::Ramp10Us => 0x00,
            RampTime::Ramp20Us => 0x01,
            RampTime::Ramp40Us => 0x02,
            RampTime::Ramp80Us => 0x03,
            RampTime::Ramp200Us => 0x04,
            RampTime::Ramp800Us => 0x05,
            RampTime::Ramp1700Us => 0x06,
            RampTime::Ramp3400Us => 0x07,
        }
    }
}

/// Voltage used to control a TCXO from DIO3.
#[derive(Clone, Copy, Debug, PartialEq, Eq, Structural)]
pub enum TcxoCtrlVoltage {
    Ctrl1V6,
    Ctrl1V7,
    Ctrl1V8,
    Ctrl2V2,
    Ctrl2V4,
    Ctrl2V7,
    Ctrl3V0,
    Ctrl3V3,
}

impl TcxoCtrlVoltage {
    pub open spec fn spec_value(self) -> u8 {
        match self {
            TcxoCtrlVoltage::Ctrl1V6 => 0x00,
            TcxoCtrlVoltage::Ctrl1V7 => 0x01,
            TcxoCtrlVoltage::Ctrl1V8 => 0x02,
            TcxoCtrlVoltage::Ctrl2V2 => 0x03,
            TcxoCtrlVoltage::Ctrl2V4 => 0x04,
            TcxoCtrlVoltage::Ctrl2V7 => 0x05,
            TcxoCtrlVoltage::Ctrl3V0 => 0x06,
            TcxoCtrlVoltage::Ctrl3V3 => 0x07,
        }
    }

    #[verifier::when_used_as_spec(spec_value)]
    pub fn value(self) -> (v: u8)
        ensures
            v == self.spec_value(),
    {
        match self {
            TcxoCtrlVoltage::Ctrl1V6 => 0x00,
            TcxoCtrlVoltage::Ctrl1V7 => 0x01,
            TcxoCtrlVoltage::Ctrl1V8 => 0x02,
            TcxoCtrlVoltage::Ctrl2V2 => 0x03,
            TcxoCtrlVoltage::Ctrl2V4 => 0x04,
            TcxoCtrlVoltage::Ctrl2V7 => 0x05,
            TcxoCtrlVoltage::Ctrl3V0 => 0x06,
            TcxoCtrlVoltage::Ctrl3V3 => 0x07,
        }
    }
}

/// Number of symbols used for a channel-activity-detection scan.
#[derive(Clone, Copy, Debug, PartialEq, Eq, Structural)]
pub enum CADSymbols {
    On1,
    On2,
    On4,
    On8,
    On16,
}

impl CADSymbols {
    pub open spec fn spec_value(self) -> u8 {
        match self {
            CADSymbols::On1 => 0x00,
            CADSymbols::On2 => 0x01,
            CADSymbols::On4 => 0x02,
            CADSymbols::On8 => 0x03,
            CADSymbols::On16 => 0x04,
        }
    }

    #[verifier::when_used_as_spec(spec_value)]
    pub fn value(self) -> (v: u8)
        ensures
            v == self.spec_value(),
    {
        match self {
            CADSymbols::On1 => 0x00,
            CADSymbols::On2 => 0x01,
            CADSymbols::On4 => 0x02,
            CADSymbols::On8 => 0x03,
            CADSymbols::On16 => 0x04,
        }
    }
}

/// Operation performed when a channel-activity-detection scan ends.
#[derive(Clone, Copy, Debug, PartialEq, Eq, Structural)]
pub enum CADExitMode {
    CadOnly,
    CadRx,
}

impl CADExitMode {
    pub open spec fn spec_value(self) -> u8 {
        match self {
            CADExitMode::CadOnly => 0x00,
            CADExitMode::CadRx => 0x01,
        }
    }

    #[verifier::when_used_as_spec(spec_value)]
    pub fn value(self) -> (v: u8)
        ensures
            v == self.spec_value(),
    {
        match self {
            CADExitMode::CadOnly => 0x00,
            CADExitMode::CadRx => 0x01,
        }
    }
}

/// Sleep configuration bitfield.
#[derive(Clone, Copy, Debug, PartialEq, Eq, Structural)]
pub struct SleepParams {
    /// Wake on the internal RTC timeout.
    pub wakeup_rtc: bool,
    /// Reset the chip on wake.
    pub reset: bool,
    /// Keep the configuration over sleep; a cold start loses the image
    /// calibration.
    pub warm_start: bool,
}

impl SleepParams {
    pub open spec fn spec_value(self) -> u8 {
        ((if self.wakeup_rtc {
            1u8
        } else {
            0u8
        }) + (if self.reset {
            2u8
        } else {
            0u8
        }) + (if self.warm_start {
            4u8
        } else {
            0u8
        })) as u8
    }

    #[verifier::when_used_as_spec(spec_value)]
    pub fn value(self) -> (v: u8)
        ensures
            v == self.spec_value(),
    {
        let rtc: u8 = if self.wakeup_rtc {
            1
        } else {
            0
        };
        let rst: u8 = if self.reset {
            2
        } else {
            0
        };
        let warm: u8 = if self.warm_start {
            4
        } else {
            0
        };
        rtc + rst + warm
    }
}

/// Which radio blocks a Calibrate command touches.
#[derive(Clone, Copy, Debug, PartialEq, Eq, Structural)]
pub struct CalibrationParams {
    pub rc64k_enable: bool,
    pub rc13m_enable: bool,
    pub pll_enable: bool,
    pub adc_pulse_enable: bool,
    pub adc_bulkn_enable: bool,
    pub adc_bulkp_enable: bool,
    pub img_enable: bool,
}

impl CalibrationParams {
    pub open spec fn spec_value(self) -> u8 {
        ((if self.rc64k_enable {
            0x01u8
        } else {
            0u8
        }) + (if self.rc13m_enable {
            0x02u8
        } else {
            0u8
        }) + (if self.pll_enable {
            0x04u8
        } else {
            0u8
        }) + (if self.adc_pulse_enable {
            0x08u8
        } else {
            0u8
        }) + (if self.adc_bulkn_enable {
            0x10u8
        } else {
            0u8
        }) + (if self.adc_bulkp_enable {
            0x20u8
        } else {
            0u8
        }) + (if self.img_enable {
            0x40u8
        } else {
            0u8
        })) as u8
    }

    #[verifier::when_used_as_spec(spec_value)]
    pub fn value(self) -> (v: u8)
        ensures
            v == self.spec_value(),
    {
        let b0: u8 = if self.rc64k_enable {
            0x01
        } else {
            0
        };
        let b1: u8 = if self.rc13m_enable {
            0x02
        } else {
            0
        };
        let b2: u8 = if self.pll_enable {
            0x04
        } else {
            0
        };
        let b3: u8 = if self.adc_pulse_enable {
            0x08
        } else {
            0
        };
        let b4: u8 = if self.adc_bulkn_enable {
            0x10
        } else {
            0
        };
        let b5: u8 = if self.adc_bulkp_enable {
            0x20
        } else {
            0
        };
        let b6: u8 = if self.img_enable {
            0x40
        } else {
            0
        };
        b0 + b1 + b2 + b3 + b4 + b5 + b6
    }
}

/// LoRa spreading factor.
#[derive(Clone, Copy, Debug, PartialEq, Eq, Structural)]
pub enum SpreadingFactor {
    SF5,
    SF6,
    SF7,
    SF8,
    SF9,
    SF10,
    SF11,
    SF12,
}

impl SpreadingFactor {
    /// Chip-encoded byte, equal to the factor itself.
    pub open spec fn spec_value(self) -> u8 {
        match self {
            SpreadingFactor::SF5 => 0x05,
            SpreadingFactor::SF6 => 0x06,
            SpreadingFactor::SF7 => 0x07,
            SpreadingFactor::SF8 => 0x08,
            SpreadingFactor::SF9 => 0x09,
            SpreadingFactor::SF10 => 0x0A,
            SpreadingFactor::SF11 => 0x0B,
            SpreadingFactor::SF12 => 0x0C,
        }
    }

    #[verifier::when_used_as_spec(spec_value)]
    pub fn value(self) -> (v: u8)
        ensures
            v == self.spec_value(),
    {
        match self {
            SpreadingFactor::SF5 => 0x05,
            SpreadingFactor::SF6 => 0x06,
            SpreadingFactor::SF7 => 0x07,
            SpreadingFactor::SF8 => 0x08,
            SpreadingFactor::SF9 => 0x09,
            SpreadingFactor::SF10 => 0x0A,
            SpreadingFactor::SF11 => 0x0B,
            SpreadingFactor::SF12 => 0x0C,
        }
    }

    /// Chips per symbol: two to the power of the spreading factor.
    pub open spec fn spec_chips(self) -> u32 {
        match self {
            SpreadingFactor::SF5 => 32,
            SpreadingFactor::SF6 => 64,
            SpreadingFactor::SF7 => 128,
            SpreadingFactor::SF8 => 256,
            SpreadingFactor::SF9 => 512,
            SpreadingFactor::SF10 => 1024,
            SpreadingFactor::SF11 => 2048,
            SpreadingFactor::SF12 => 4096,
        }
    }

    #[verifier::when_used_as_spec(spec_chips)]
    pub fn chips(self) -> (v: u32)
        ensures
            v == self.spec_chips(),
    {
        match self {
            SpreadingFactor::SF5 => 32,
            SpreadingFactor::SF6 => 64,
            SpreadingFactor::SF7 => 128,
            SpreadingFactor::SF8 => 256,
            SpreadingFactor::SF9 => 512,
            SpreadingFactor::SF10 => 1024,
            SpreadingFactor::SF11 => 2048,
            SpreadingFactor::SF12 => 4096,
        }
    }

    /// Admits factors 5 through 12; everything else is rejected.
    pub fn from_factor(factor: u8) -> (r: Result<SpreadingFactor, RadioError>)
        ensures
            5 <= factor <= 12 ==> (r matches Ok(sf) && sf.spec_value() == factor),
            !(5 <= factor <= 12) ==> r == Err::<SpreadingFactor, RadioError>(
                RadioError::InvalidSpreadingFactor,
            ),
    {
        match factor {
            5 => Ok(SpreadingFactor::SF5),
            6 => Ok(SpreadingFactor::SF6),
            7 => Ok(SpreadingFactor::SF7),
            8 => Ok(SpreadingFactor::SF8),
            9 => Ok(SpreadingFactor::SF9),
            10 => Ok(SpreadingFactor::SF10),
            11 => Ok(SpreadingFactor::SF11),
            12 => Ok(SpreadingFactor::SF12),
            _ => Err(RadioError::InvalidSpreadingFactor),
        }
    }
}

/// LoRa channel bandwidth.
#[derive(Clone, Copy, Debug, PartialEq, Eq, Structural)]
pub enum Bandwidth {
    Bw10_4,
    Bw15_6,
    Bw20_8,
    Bw31_25,
    Bw41_7,
    Bw62_5,
    Bw125,
    Bw250,
    Bw500,
}

impl Bandwidth {
    pub open spec fn spec_value(self) -> u8 {
        match self {
            Bandwidth::Bw10_4 => 0x08,
            Bandwidth::Bw15_6 => 0x01,
            Bandwidth::Bw20_8 => 0x09,
            Bandwidth::Bw31_25 => 0x02,
            Bandwidth::Bw41_7 => 0x0A,
            Bandwidth::Bw62_5 => 0x03,
            Bandwidth::Bw125 => 0x04,
            Bandwidth::Bw250 => 0x05,
            Bandwidth::Bw500 => 0x06,
        }
    }

    #[verifier::when_used_as_spec(spec_value)]
    pub fn value(self) -> (v: u8)
        ensures
            v == self.spec_value(),
    {
        match self {
            Bandwidth::Bw10_4 => 0x08,
            Bandwidth::Bw15_6 => 0x01,
            Bandwidth::Bw20_8 => 0x09,
            Bandwidth::Bw31_25 => 0x02,
            Bandwidth::Bw41_7 => 0x0A,
            Bandwidth::Bw62_5 => 0x03,
            Bandwidth::Bw125 => 0x04,
            Bandwidth::Bw250 => 0x05,
            Bandwidth::Bw500 => 0x06,
        }
    }

    /// Bandwidth in Hertz.
    pub open spec fn spec_hz(self) -> u32 {
        match self {
            Bandwidth::Bw10_4 => 10400,
            Bandwidth::Bw15_6 => 15600,
            Bandwidth::Bw20_8 => 20800,
            Bandwidth::Bw31_25 => 31250,
            Bandwidth::Bw41_7 => 41700,
            Bandwidth::Bw62_5 => 62500,
            Bandwidth::Bw125 => 125000,
            Bandwidth::Bw250 => 250000,
            Bandwidth::Bw500 => 500000,
        }
    }

    #[verifier::when_used_as_spec(spec_hz)]
    pub fn hz(self) -> (v: u32)
        ensures
            v == self.spec_hz(),
    {
        match self {
            Bandwidth::Bw10_4 => 10400,
            Bandwidth::Bw15_6 => 15600,
            Bandwidth::Bw20_8 => 20800,
            Bandwidth::Bw31_25 => 31250,
            Bandwidth::Bw41_7 => 41700,
            Bandwidth::Bw62_5 => 62500,
            Bandwidth::Bw125 => 125000,
            Bandwidth::Bw250 => 250000,
            Bandwidth::Bw500 => 500000,
        }
    }

    /// Admits exactly the nine chip-supported bandwidths, by their Hertz
    /// value; everything else is rejected.
    pub fn from_hz(hz: u32) -> (r: Result<Bandwidth, RadioError>)
        ensures
            r matches Ok(bw) ==> bw.spec_hz() == hz,
            r matches Err(e) ==> e == RadioError::InvalidBandwidth && (forall|bw: Bandwidth|
                bw.spec_hz() != hz),
    {
        match hz {
            10400 => Ok(Bandwidth::Bw10_4),
            15600 => Ok(Bandwidth::Bw15_6),
            20800 => Ok(Bandwidth::Bw20_8),
            31250 => Ok(Bandwidth::Bw31_25),
            41700 => Ok(Bandwidth::Bw41_7),
            62500 => Ok(Bandwidth::Bw62_5),
            125000 => Ok(Bandwidth::Bw125),
            250000 => Ok(Bandwidth::Bw250),
            500000 => Ok(Bandwidth::Bw500),
            _ => {
                assert(forall|bw: Bandwidth| bw.spec_hz() != hz) by {
                    assert(Bandwidth::Bw10_4.spec_hz() == 10400);
                };
                Err(RadioError::InvalidBandwidth)
            },
        }
    }
}

/// LoRa coding rate.
#[derive(Clone, Copy, Debug, PartialEq, Eq, Structural)]
pub enum CodingRate {
    Cr4_5,
    Cr4_6,
    Cr4_7,
    Cr4_8,
}

impl CodingRate {
    pub open spec fn spec_value(self) -> u8 {
        match self {
            CodingRate::Cr4_5 => 0x01,
            CodingRate::Cr4_6 => 0x02,
            CodingRate::Cr4_7 => 0x03,
            CodingRate::Cr4_8 => 0x04,
        }
    }

    #[verifier::when_used_as_spec(spec_value)]
    pub fn value(self) -> (v: u8)
        ensures
            v == self.spec_value(),
    {
        match self {
            CodingRate::Cr4_5 => 0x01,
            CodingRate::Cr4_6 => 0x02,
            CodingRate::Cr4_7 => 0x03,
            CodingRate::Cr4_8 => 0x04,
        }
    }

    /// Admits denominators 5 through 8 (rates 4/5 through 4/8); everything
    /// else is rejected.
    pub fn from_denominator(den: u8) -> (r: Result<CodingRate, RadioError>)
        ensures
            5 <= den <= 8 ==> (r matches Ok(cr) && cr.spec_value() == den - 4),
            !(5 <= den <= 8) ==> r == Err::<CodingRate, RadioError>(RadioError::InvalidCodingRate),
    {
        match den {
            5 => Ok(CodingRate::Cr4_5),
            6 => Ok(CodingRate::Cr4_6),
            7 => Ok(CodingRate::Cr4_7),
            8 => Ok(CodingRate::Cr4_8),
            _ => Err(RadioError::InvalidCodingRate),
        }
    }
}

/// LoRa modulation parameters.
///
/// Invariant of a well-formed configuration: `low_data_rate_optimize` is set
/// exactly when a symbol lasts at least 16 ms, that is when
/// `chips(sf) * 1000 >= 16 * bandwidth_hz`.
#[derive(Clone, Copy, Debug, PartialEq, Eq, Structural)]
pub struct ModulationParams {
    pub spreading_factor: SpreadingFactor,
    pub bandwidth: Bandwidth,
    pub coding_rate: CodingRate,
    pub low_data_rate_optimize: bool,
}

/// Whether the low-data-rate optimization is required: the symbol duration,
/// `chips / bandwidth` seconds, reaches 16 ms.
pub open spec fn spec_ldro_required(sf: SpreadingFactor, bw: Bandwidth) -> bool {
    sf.spec_chips() * 1000 >= 16 * bw.spec_hz()
}

/// Computes the low-data-rate-optimize flag for a spreading factor and
/// bandwidth: set exactly when a symbol lasts at least 16 ms.
pub fn ldro_required(sf: SpreadingFactor, bw: Bandwidth) -> (r: bool)
    ensures
        r == spec_ldro_required(sf, bw),
{
    let chips: u32 = sf.chips();
    let hz: u32 = bw.hz();
    chips as u64 * 1000 >= 16 * hz as u64
}

/// LoRa packet framing parameters.
#[derive(Clone, Copy, Debug, PartialEq, Eq, Structural)]
pub struct PacketParams {
    pub preamble_length: u16,
    pub implicit_header: bool,
    pub payload_length: u8,
    pub crc_on: bool,
    pub iq_inverted: bool,
}

/// Link-quality report populated after a successful reception.
#[derive(Clone, Copy, Debug, PartialEq, Eq, Structural)]
pub struct PacketStatus {
    pub rssi: i8,
    pub snr: i8,
    pub signal_rssi: i8,
    pub freq_error: i32,
}

/// Decoded chip status byte.
#[derive(Clone, Copy, Debug, PartialEq, Eq, Structural)]
pub struct RadioStatus {
    pub cmd_status: u8,
    pub chip_mode: u8,
}

/// Decoded GetErrors report.
#[derive(Clone, Copy, Debug, PartialEq, Eq, Structural)]
pub struct RadioSystemError {
    pub rc_64khz_calibration: bool,
    pub rc_13mhz_calibration: bool,
    pub pll_calibration: bool,
    pub adc_calibration: bool,
    pub image_calibration: bool,
    pub xosc_start: bool,
    pub pll_lock: bool,
    pub pa_ramp: bool,
}

/// Which SX126x variant the board carries; the two differ only in the power
/// amplifier configuration.
#[derive(Clone, Copy, Debug, PartialEq, Eq, Structural)]
pub enum RadioType {
    SX1261,
    SX1262,
}

/// The type of oscillator driving the chip. With a TCXO, DIO3 must be
/// programmed as the TCXO supply control at initialization.
#[derive(Clone, Copy, Debug, PartialEq, Eq, Structural)]
pub enum OscillatorMode {
    /// Temperature-compensated crystal oscillator.
    Tcxo,
    /// Plain crystal oscillator.
    Xosc,
}

impl OscillatorMode {
    pub open spec fn spec_dio3_as_tcxo_ctrl(self) -> bool {
        match self {
            OscillatorMode::Tcxo => true,
            OscillatorMode::Xosc => false,
        }
    }

    /// Whether DIO3 must drive the TCXO supply.
    #[verifier::when_used_as_spec(spec_dio3_as_tcxo_ctrl)]
    pub fn dio3_as_tcxo_ctrl(self) -> (r: bool)
        ensures
            r == self.spec_dio3_as_tcxo_ctrl(),
    {
        match self {
            OscillatorMode::Tcxo => true,
            OscillatorMode::Xosc => false,
        }
    }
}

/// Board-level configuration record: the chip variant, the oscillator wiring
/// and whether DIO2 drives the antenna switch.
#[derive(Clone, Copy, Debug, PartialEq, Eq, Structural)]
pub struct BoardConfig {
    pub radio_type: RadioType,
    pub oscillator_mode: OscillatorMode,
    /// Voltage written by SetTCXOMode when the oscillator is a TCXO.
    pub tcxo_voltage: TcxoCtrlVoltage,
    /// When true the chip switches the antenna itself via DIO2, and the
    /// board's antenna methods are expected to be no-ops.
    pub dio2_antenna_control: bool,
}

} // verus!

verus! {

/// Radio-frequency channel settings handed down by the MAC layer.
#[derive(Clone, Copy, Debug, PartialEq, Eq, Structural)]
pub struct RfConfig {
    pub frequency: u32,
    pub spreading_factor: SpreadingFactor,
    pub bandwidth: Bandwidth,
    pub coding_rate: CodingRate,
}

/// Transmission settings handed down by the MAC layer: output power in dBm
/// and the channel.
#[derive(Clone, Copy, Debug, PartialEq, Eq, Structural)]
pub struct TxConfig {
    pub pw: i8,
    pub rf: RfConfig,
}

/// Link quality handed up to the MAC layer after a reception.
#[derive(Clone, Copy, Debug, PartialEq, Eq, Structural)]
pub struct RxQuality {
    pub rssi: i16,
    pub snr: i8,
}

/// What one IRQ status word tells the driver to do.
#[derive(Clone, Copy, Debug, PartialEq, Eq, Structural)]
pub enum IrqDecision {
    /// TxDone: the transmission completed.
    Transmitted,
    /// RxDone with a sound CRC and header: a packet arrived.
    Received,
    /// RxDone spoiled by a CRC error.
    CrcError,
    /// RxDone spoiled by a header error.
    HeaderError,
    /// The chip-side timeout elapsed.
    Timeout,
    /// A channel-activity scan finished; the payload says whether activity
    /// was detected.
    CadFinished(bool),
    /// No recognized source: keep waiting.
    Ignore,
}

/// The decision taken on an IRQ status word: TxDone, then RxDone (checking
/// CRC and header errors first), then the timeout, then CAD completion;
/// anything else is ignored.
pub open spec fn spec_decode_irq(flags: u16) -> IrqDecision {
    if flags & IRQ_TX_DONE != 0 {
        IrqDecision::Transmitted
    } else if flags & IRQ_RX_DONE != 0 {
        if flags & IRQ_CRC_ERROR != 0 {
            IrqDecision::CrcError
        } else if flags & IRQ_HEADER_ERROR != 0 {
            IrqDecision::HeaderError
        } else {
            IrqDecision::Received
        }
    } else if flags & IRQ_RX_TX_TIMEOUT != 0 {
        IrqDecision::Timeout
    } else if flags & IRQ_CAD_DONE != 0 {
        IrqDecision::CadFinished(flags & IRQ_CAD_ACTIVITY_DETECTED != 0)
    } else {
        IrqDecision::Ignore
    }
}

/// Decodes one IRQ status word into the action it calls for.
pub fn decode_irq_flags(flags: u16) -> (r: IrqDecision)
    ensures
        r == spec_decode_irq(flags),
{
    if flags & IRQ_TX_DONE != 0 {
        IrqDecision::Transmitted
    } else if flags & IRQ_RX_DONE != 0 {
        if flags & IRQ_CRC_ERROR != 0 {
            IrqDecision::CrcError
        } else if flags & IRQ_HEADER_ERROR != 0 {
            IrqDecision::HeaderError
        } else {
            IrqDecision::Received
        }
    } else if flags & IRQ_RX_TX_TIMEOUT != 0 {
        IrqDecision::Timeout
    } else if flags & IRQ_CAD_DONE != 0 {
        IrqDecision::CadFinished(flags & IRQ_CAD_ACTIVITY_DETECTED != 0)
    } else {
        IrqDecision::Ignore
    }
}

} // verus!
