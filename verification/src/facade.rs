//! The LoRa façade: higher-level operations that drive the operating-mode
//! state machine — initialization, modem selection, transmit and receive
//! configuration, the transceive path and interrupt processing.

use vstd::prelude::*;

use crate::board::Board;
use crate::board::BusStep;
use crate::board::HalEvent;
use crate::lora::LoRa;
use crate::lora::awake_mode;
use crate::lora::lemma_appended_trans;
use crate::lora::lemma_singleton_steps;
use crate::lora::read_command_steps;
use crate::lora::write_command_steps;
use crate::lora::write_registers_steps;
use crate::mod_params::Bandwidth;
use crate::mod_params::CodingRate;
use crate::mod_params::IRQ_CRC_ERROR;
use crate::mod_params::IRQ_HEADER_ERROR;
use crate::mod_params::IRQ_RX_DONE;
use crate::mod_params::IRQ_RX_TX_TIMEOUT;
use crate::mod_params::IRQ_TX_DONE;
use crate::mod_params::IrqDecision;
use crate::mod_params::ModulationParams;
use crate::mod_params::OpCode;
use crate::mod_params::PacketParams;
use crate::mod_params::PacketStatus;
use crate::mod_params::PacketType;
use crate::mod_params::RadioError;
use crate::mod_params::RadioMode;
use crate::mod_params::RadioType;
use crate::mod_params::RampTime;
use crate::mod_params::Register;
use crate::mod_params::SpreadingFactor;
use crate::mod_params::decode_irq_flags;
use crate::mod_params::ldro_required;
use crate::mod_params::spec_decode_irq;
use crate::mod_params::spec_ldro_required;
use crate::subroutine::get_payload_steps;
use crate::subroutine::spec_irq_flags;
use crate::subroutine::spec_rssi_decode;
use crate::subroutine::spec_snr_decode;
use crate::subroutine::set_modulation_params_steps;
use crate::subroutine::set_packet_params_steps;
use crate::subroutine::set_packet_type_steps;
use crate::subroutine::set_rx_boosted_steps;
use crate::subroutine::set_rx_steps;
use crate::subroutine::set_tx_params_steps_sx1261;
use crate::subroutine::set_tx_params_steps_sx1262;
use crate::subroutine::set_tx_steps;
use crate::subroutine::symb_timeout_steps;
use crate::subroutine::u16_be_bytes;

verus! {

/// Selecting the LoRa modem: the packet type pinned to LoRa, then the LoRa
/// sync word written — the public-network word or the private one.
pub open spec fn set_lora_modem_steps(mode: RadioMode, public: bool) -> Seq<BusStep> {
    set_packet_type_steps(mode, PacketType::LoRa) + write_registers_steps(
        awake_mode(mode),
        Register::LoRaSynchword,
        if public {
            seq![0x34u8, 0x44u8]
        } else {
            seq![0x14u8, 0x24u8]
        },
    )
}

/// The stored modulation parameters a transmit or receive configuration
/// builds: the low-data-rate optimization is derived, on exactly when a
/// symbol lasts at least 16 ms.
pub open spec fn built_modulation_params(
    sf: SpreadingFactor,
    bw: Bandwidth,
    cr: CodingRate,
) -> ModulationParams {
    ModulationParams {
        spreading_factor: sf,
        bandwidth: bw,
        coding_rate: cr,
        low_data_rate_optimize: spec_ldro_required(sf, bw),
    }
}

/// A transmit configuration: modulation and packet parameters pushed, the
/// power amplifier and power set, TxDone and Timeout routed to DIO1, and the
/// buffer base addresses zeroed. `clamp_reg` is the TxClampCfg byte the chip
/// reported (ignored on an SX1261).
pub open spec fn set_tx_config_steps(
    mode: RadioMode,
    radio_type: RadioType,
    power: i8,
    mp: ModulationParams,
    pp: PacketParams,
    ramp: RampTime,
    clamp_reg: u8,
) -> Seq<BusStep> {
    set_modulation_params_steps(mode, mp) + set_packet_params_steps(awake_mode(mode), pp) + (if radio_type == RadioType::SX1261 {
        set_tx_params_steps_sx1261(awake_mode(mode), power, ramp)
    } else {
        set_tx_params_steps_sx1262(awake_mode(mode), power, ramp, clamp_reg)
    }) + write_command_steps(
        awake_mode(mode),
        OpCode::CfgDIOIrq,
        u16_be_bytes(IRQ_TX_DONE | IRQ_RX_TX_TIMEOUT) + u16_be_bytes(
            IRQ_TX_DONE | IRQ_RX_TX_TIMEOUT,
        ) + u16_be_bytes(0x0000) + u16_be_bytes(0x0000),
    ) + write_command_steps(awake_mode(mode), OpCode::SetBufferBaseAddress, seq![0x00u8, 0x00u8])
}

/// A receive configuration: modulation and packet parameters pushed, RxDone,
/// Timeout, CRC and header errors routed to DIO1, and the symbol-number
/// timeout programmed with mantissa `mant` and exponent `exp`.
pub open spec fn set_rx_config_steps(
    mode: RadioMode,
    mp: ModulationParams,
    pp: PacketParams,
    symb_timeout: u16,
    mant: u8,
    exp: u8,
) -> Seq<BusStep> {
    set_modulation_params_steps(mode, mp) + set_packet_params_steps(awake_mode(mode), pp)
        + write_command_steps(
        awake_mode(mode),
        OpCode::CfgDIOIrq,
        u16_be_bytes(IRQ_RX_DONE | IRQ_RX_TX_TIMEOUT | IRQ_CRC_ERROR | IRQ_HEADER_ERROR)
            + u16_be_bytes(IRQ_RX_DONE | IRQ_RX_TX_TIMEOUT | IRQ_CRC_ERROR | IRQ_HEADER_ERROR)
            + u16_be_bytes(0x0000) + u16_be_bytes(0x0000),
    ) + symb_timeout_steps(awake_mode(mode), symb_timeout, mant, exp)
}

/// One completed interrupt poll: the DIO1 wait, the IRQ status read (status
/// byte `st`, flag bytes `b0 b1`), and a ClrIrqStatus frame carrying exactly
/// the flags just read. `mode` is the driver's mode when the poll starts; a
/// sleeping chip is woken for the read and the clear goes out awake.
pub open spec fn irq_poll_steps(mode: RadioMode, st: u8, b0: u8, b1: u8) -> Seq<BusStep> {
    seq![BusStep::Plain(HalEvent::Dio1Waited)] + read_command_steps(
        mode,
        OpCode::GetIrqStatus,
        st,
        seq![b0, b1],
    ) + write_command_steps(
        awake_mode(mode),
        OpCode::ClrIrqStatus,
        u16_be_bytes(spec_irq_flags(b0, b1)),
    )
}

impl<B: Board> LoRa<B> {
    /// Initializes the radio for use: a RESET pulse, wake-up and BUSY wait,
    /// RC standby, the TCXO supply control on a TCXO board, the RF-switch
    /// control choice, and a cleared image calibration.
    pub fn init(&mut self) -> (r: Result<(), RadioError>)
        ensures
            r is Ok ==> Self::appended(
                *old(self),
                *final (self),
                crate::subroutine::init_steps(old(self).config),
            ) && Self::same_radio_params(*old(self), *final (self)) && final (self).packet_type
                == old(self).packet_type && !final (self).image_calibrated && final (self).operating_mode == RadioMode::StandbyRC,
            r matches Err(e) ==> (e is DigitalOut || e is BusyWait || e is Spi),
    {
        self.sub_init()
    }

    /// Selects the LoRa modem and its network: sync word 0x3444 on the
    /// public LoRaWAN network, 0x1424 on a private one.
    pub fn set_lora_modem(&mut self, enable_public_network: bool) -> (r: Result<(), RadioError>)
        ensures
            r is Ok ==> Self::appended(
                *old(self),
                *final (self),
                set_lora_modem_steps(old(self).operating_mode, enable_public_network),
            ) && Self::same_radio_params_beyond_selection(*old(self), *final (self)) && final (self).packet_type_selected@ && final (self).image_calibrated == old(self).image_calibrated
                && final (self).packet_type == PacketType::LoRa && final (self).operating_mode
                == awake_mode(old(self).operating_mode),
            r matches Err(e) ==> (e is DigitalOut || e is BusyWait || e is Spi),
    {
        let ghost pre = *self;
        self.sub_set_packet_type(PacketType::LoRa)?;
        let ghost mid = *self;
        let mut sync_word: Vec<u8> = Vec::new();
        if enable_public_network {
            sync_word.push(0x34);
            sync_word.push(0x44);
            assert(sync_word@ =~= seq![0x34u8, 0x44u8]);
        } else {
            sync_word.push(0x14);
            sync_word.push(0x24);
            assert(sync_word@ =~= seq![0x14u8, 0x24u8]);
        }
        self.brd_write_registers(Register::LoRaSynchword, &sync_word)?;
        proof {
            lemma_appended_trans(
                pre.log(),
                mid.log(),
                self.log(),
                set_packet_type_steps(pre.operating_mode, PacketType::LoRa),
                write_registers_steps(
                    awake_mode(pre.operating_mode),
                    Register::LoRaSynchword,
                    if enable_public_network {
                        seq![0x34u8, 0x44u8]
                    } else {
                        seq![0x14u8, 0x24u8]
                    },
                ),
            );
        }
        Ok(())
    }

    /// Tunes the radio to a channel frequency in Hz, calibrating the image
    /// band first when needed. A packet type must have been selected at
    /// least once in this session.
    pub fn set_channel(&mut self, frequency: u32) -> (r: Result<(), RadioError>)
        requires
            frequency < 4096000000,
            old(self).packet_type_selected@,
        ensures
            r is Ok ==> Self::appended(
                *old(self),
                *final (self),
                crate::subroutine::set_rf_frequency_steps(
                    old(self).operating_mode,
                    old(self).image_calibrated,
                    frequency,
                ),
            ) && Self::same_radio_params(*old(self), *final (self)) && final (self).packet_type
                == old(self).packet_type && final (self).image_calibrated && final (self).operating_mode == awake_mode(old(self).operating_mode),
            r matches Err(e) ==> (e is DigitalOut || e is BusyWait || e is Spi),
    {
        self.sub_set_rf_frequency(frequency)
    }

    /// Caps the payload length the chip accepts, rewriting the stored packet
    /// parameters; fails fast when none were ever set.
    pub fn set_max_payload_length(&mut self, length: u8) -> (r: Result<(), RadioError>)
        ensures
            old(self).packet_params is None ==> r == Err::<(), RadioError>(
                RadioError::PacketParamsMissing,
            ) && *final (self) == *old(self),
            r is Ok ==> (old(self).packet_params matches Some(pp) && final (self).packet_params
                == Some(PacketParams { payload_length: length, ..pp }) && Self::appended(
                *old(self),
                *final (self),
                set_packet_params_steps(
                    old(self).operating_mode,
                    PacketParams { payload_length: length, ..pp },
                ),
            )) && final (self).config == old(self).config && final (self).modulation_params == old(self).modulation_params && final (self).frequency_error == old(self).frequency_error
                && final (self).packet_status == old(self).packet_status && final (self).rx_continuous == old(self).rx_continuous && final (self).rx_boosted == old(self).rx_boosted && final (self).image_calibrated == old(self).image_calibrated && final (self).packet_type == PacketType::LoRa && final (self).packet_type_selected@
                && final (self).operating_mode == awake_mode(old(self).operating_mode),
            r matches Err(e) ==> (e == RadioError::PacketParamsMissing ==> old(self).packet_params is None) && (e == RadioError::PacketParamsMissing || e is DigitalOut
                || e is BusyWait || e is Spi),
    {
        if let Some(pp) = self.packet_params {
            self.packet_params = Some(
                PacketParams {
                    preamble_length: pp.preamble_length,
                    implicit_header: pp.implicit_header,
                    payload_length: length,
                    crc_on: pp.crc_on,
                    iq_inverted: pp.iq_inverted,
                },
            );
            self.sub_set_packet_params()
        } else {
            Err(RadioError::PacketParamsMissing)
        }
    }

    /// Configures a transmission: stores and pushes the modulation and packet
    /// parameters (the payload length capped later), sets the power amplifier
    /// and power, routes TxDone and Timeout to DIO1, and zeroes the buffer
    /// base addresses. The chip-side transmit timeout is given to
    /// [`Self::send`] instead, so `_timeout` only mirrors the configuration
    /// surface.
    pub fn set_tx_config(
        &mut self,
        power: i8,
        spreading_factor: SpreadingFactor,
        bandwidth: Bandwidth,
        coding_rate: CodingRate,
        preamble_length: u16,
        fixed_len: bool,
        crc_on: bool,
        iq_inverted: bool,
        _timeout: u32,
        ramp_time: RampTime,
    ) -> (r: Result<(), RadioError>)
        ensures
            r is Ok ==> ({
                let mp = built_modulation_params(spreading_factor, bandwidth, coding_rate);
                let pp = PacketParams {
                    preamble_length,
                    implicit_header: fixed_len,
                    payload_length: 0xFF,
                    crc_on,
                    iq_inverted,
                };
                &&& final (self).modulation_params == Some(mp)
                &&& final (self).packet_params == Some(pp)
                &&& (exists|clamp_reg: u8|
                    Self::appended(
                        *old(self),
                        *final (self),
                        #[trigger] set_tx_config_steps(
                            old(self).operating_mode,
                            old(self).config.radio_type,
                            power,
                            mp,
                            pp,
                            ramp_time,
                            clamp_reg,
                        ),
                    ))
                &&& final (self).config == old(self).config
                &&& final (self).frequency_error == old(self).frequency_error
                &&& final (self).packet_status == old(self).packet_status
                &&& final (self).rx_continuous == old(self).rx_continuous
                &&& final (self).rx_boosted == old(self).rx_boosted
                &&& final (self).image_calibrated == old(self).image_calibrated
                &&& final (self).packet_type == PacketType::LoRa
                &&& final (self).packet_type_selected@
                &&& final (self).operating_mode == awake_mode(old(self).operating_mode)
            }),
            r matches Err(e) ==> (e is DigitalOut || e is BusyWait || e is Spi),
    {
        let ghost pre = *self;
        let low_data_rate_optimize = ldro_required(spreading_factor, bandwidth);
        let mp = ModulationParams {
            spreading_factor,
            bandwidth,
            coding_rate,
            low_data_rate_optimize,
        };
        let pp = PacketParams {
            preamble_length,
            implicit_header: fixed_len,
            payload_length: 0xFF,
            crc_on,
            iq_inverted,
        };
        self.modulation_params = Some(mp);
        self.packet_params = Some(pp);
        self.sub_set_modulation_params()?;
        let ghost g1 = *self;
        self.sub_set_packet_params()?;
        let ghost g2 = *self;
        self.sub_set_tx_params(power, ramp_time)?;
        let ghost g3 = *self;
        self.sub_set_dio_irq_params(
            IRQ_TX_DONE | IRQ_RX_TX_TIMEOUT,
            IRQ_TX_DONE | IRQ_RX_TX_TIMEOUT,
            0x0000,
            0x0000,
        )?;
        let ghost g4 = *self;
        self.sub_set_buffer_base_address(0x00, 0x00)?;
        proof {
            let m = pre.operating_mode;
            let s1 = set_modulation_params_steps(m, mp);
            let s2 = set_packet_params_steps(awake_mode(m), pp);
            let s3a = set_tx_params_steps_sx1261(awake_mode(m), power, ramp_time);
            let s4 = write_command_steps(
                awake_mode(m),
                OpCode::CfgDIOIrq,
                u16_be_bytes(IRQ_TX_DONE | IRQ_RX_TX_TIMEOUT) + u16_be_bytes(
                    IRQ_TX_DONE | IRQ_RX_TX_TIMEOUT,
                ) + u16_be_bytes(0x0000) + u16_be_bytes(0x0000),
            );
            let s5 = write_command_steps(
                awake_mode(m),
                OpCode::SetBufferBaseAddress,
                seq![0x00u8, 0x00u8],
            );
            if pre.config.radio_type == RadioType::SX1261 {
                lemma_appended_trans(pre.log(), g1.log(), g2.log(), s1, s2);
                lemma_appended_trans(pre.log(), g2.log(), g3.log(), s1 + s2, s3a);
                lemma_appended_trans(pre.log(), g3.log(), g4.log(), s1 + s2 + s3a, s4);
                lemma_appended_trans(pre.log(), g4.log(), self.log(), s1 + s2 + s3a + s4, s5);
                assert(Self::appended(
                    pre,
                    *self,
                    set_tx_config_steps(m, pre.config.radio_type, power, mp, pp, ramp_time, 0),
                ));
            } else {
                let clamp_reg = choose|clamp_reg: u8|
                    Self::appended(
                        g2,
                        g3,
                        #[trigger] set_tx_params_steps_sx1262(
                            awake_mode(m),
                            power,
                            ramp_time,
                            clamp_reg,
                        ),
                    );
                let s3b = set_tx_params_steps_sx1262(awake_mode(m), power, ramp_time, clamp_reg);
                lemma_appended_trans(pre.log(), g1.log(), g2.log(), s1, s2);
                lemma_appended_trans(pre.log(), g2.log(), g3.log(), s1 + s2, s3b);
                lemma_appended_trans(pre.log(), g3.log(), g4.log(), s1 + s2 + s3b, s4);
                lemma_appended_trans(pre.log(), g4.log(), self.log(), s1 + s2 + s3b + s4, s5);
                assert(Self::appended(
                    pre,
                    *self,
                    set_tx_config_steps(
                        m,
                        pre.config.radio_type,
                        power,
                        mp,
                        pp,
                        ramp_time,
                        clamp_reg,
                    ),
                ));
            }
        }
        Ok(())
    }

    /// Configures a reception: stores and pushes the modulation and packet
    /// parameters, routes RxDone, Timeout, CRC and header errors to DIO1, and
    /// programs the symbol-number timeout. The continuous and boosted-gain
    /// choices are remembered for [`Self::rx`]. The SX126x hops no
    /// frequencies itself, so the hopping arguments only mirror the
    /// configuration surface.
    pub fn set_rx_config(
        &mut self,
        spreading_factor: SpreadingFactor,
        bandwidth: Bandwidth,
        coding_rate: CodingRate,
        preamble_length: u16,
        symb_timeout: u16,
        fixed_len: bool,
        payload_len: u8,
        crc_on: bool,
        iq_inverted: bool,
        _freq_hopping_on: bool,
        _hop_period: u8,
        rx_continuous: bool,
        boosted_gain: bool,
    ) -> (r: Result<(), RadioError>)
        ensures
            r is Ok ==> ({
                let mp = built_modulation_params(spreading_factor, bandwidth, coding_rate);
                let pp = PacketParams {
                    preamble_length,
                    implicit_header: fixed_len,
                    payload_length: payload_len,
                    crc_on,
                    iq_inverted,
                };
                &&& final (self).modulation_params == Some(mp)
                &&& final (self).packet_params == Some(pp)
                &&& final (self).rx_continuous == rx_continuous
                &&& final (self).rx_boosted == boosted_gain
                &&& Self::appended(
                    *old(self),
                    *final (self),
                    set_rx_config_steps(
                        old(self).operating_mode,
                        mp,
                        pp,
                        symb_timeout,
                        crate::subroutine::spec_symb_mant(symb_timeout),
                        crate::subroutine::spec_symb_exp(symb_timeout),
                    ),
                )
                &&& final (self).config == old(self).config
                &&& final (self).frequency_error == old(self).frequency_error
                &&& final (self).packet_status == old(self).packet_status
                &&& final (self).image_calibrated == old(self).image_calibrated
                &&& final (self).packet_type == PacketType::LoRa
                &&& final (self).packet_type_selected@
                &&& final (self).operating_mode == awake_mode(old(self).operating_mode)
            }),
            r matches Err(e) ==> (e is DigitalOut || e is BusyWait || e is Spi),
    {
        let ghost pre = *self;
        self.rx_continuous = rx_continuous;
        self.rx_boosted = boosted_gain;
        let low_data_rate_optimize = ldro_required(spreading_factor, bandwidth);
        let mp = ModulationParams {
            spreading_factor,
            bandwidth,
            coding_rate,
            low_data_rate_optimize,
        };
        let pp = PacketParams {
            preamble_length,
            implicit_header: fixed_len,
            payload_length: payload_len,
            crc_on,
            iq_inverted,
        };
        self.modulation_params = Some(mp);
        self.packet_params = Some(pp);
        self.sub_set_modulation_params()?;
        let ghost g1 = *self;
        self.sub_set_packet_params()?;
        let ghost g2 = *self;
        self.sub_set_dio_irq_params(
            IRQ_RX_DONE | IRQ_RX_TX_TIMEOUT | IRQ_CRC_ERROR | IRQ_HEADER_ERROR,
            IRQ_RX_DONE | IRQ_RX_TX_TIMEOUT | IRQ_CRC_ERROR | IRQ_HEADER_ERROR,
            0x0000,
            0x0000,
        )?;
        let ghost g3 = *self;
        self.sub_set_lora_symb_num_timeout(symb_timeout)?;
        proof {
            let m = pre.operating_mode;
            let s1 = set_modulation_params_steps(m, mp);
            let s2 = set_packet_params_steps(awake_mode(m), pp);
            let s3 = write_command_steps(
                awake_mode(m),
                OpCode::CfgDIOIrq,
                u16_be_bytes(IRQ_RX_DONE | IRQ_RX_TX_TIMEOUT | IRQ_CRC_ERROR | IRQ_HEADER_ERROR)
                    + u16_be_bytes(
                    IRQ_RX_DONE | IRQ_RX_TX_TIMEOUT | IRQ_CRC_ERROR | IRQ_HEADER_ERROR,
                ) + u16_be_bytes(0x0000) + u16_be_bytes(0x0000),
            );
            let s4 = symb_timeout_steps(
                awake_mode(m),
                symb_timeout,
                crate::subroutine::spec_symb_mant(symb_timeout),
                crate::subroutine::spec_symb_exp(symb_timeout),
            );
            lemma_appended_trans(pre.log(), g1.log(), g2.log(), s1, s2);
            lemma_appended_trans(pre.log(), g2.log(), g3.log(), s1 + s2, s3);
            lemma_appended_trans(pre.log(), g3.log(), self.log(), s1 + s2 + s3, s4);
            assert(Self::appended(
                pre,
                *self,
                set_rx_config_steps(
                    m,
                    mp,
                    pp,
                    symb_timeout,
                    crate::subroutine::spec_symb_mant(symb_timeout),
                    crate::subroutine::spec_symb_exp(symb_timeout),
                ),
            ));
        }
        Ok(())
    }

    /// Sends a payload: writes it into the radio buffer and enters transmit
    /// mode with the packed 24-bit timeout.
    pub fn send(&mut self, buffer: &Vec<u8>, timeout: u32) -> (r: Result<(), RadioError>)
        ensures
            r is Ok ==> Self::appended(
                *old(self),
                *final (self),
                crate::lora::write_buffer_steps(old(self).operating_mode, 0x00, buffer@)
                    + set_tx_steps(timeout),
            ) && Self::same_settings(*old(self), *final (self)) && final (self).operating_mode
                == RadioMode::Transmit,
            r matches Err(e) ==> (e is DigitalOut || e is BusyWait || e is Spi),
    {
        self.sub_send_payload(buffer, timeout)
    }

    /// Enters receive mode with the packed 24-bit timeout, with boosted LNA
    /// gain when the receive configuration asked for it.
    pub fn rx(&mut self, timeout: u32) -> (r: Result<(), RadioError>)
        ensures
            r is Ok ==> Self::appended(
                *old(self),
                *final (self),
                if old(self).rx_boosted {
                    set_rx_boosted_steps(timeout)
                } else {
                    set_rx_steps(timeout)
                },
            ) && Self::same_settings(*old(self), *final (self)) && final (self).operating_mode
                == RadioMode::Receive,
            r matches Err(e) ==> (e is DigitalOut || e is BusyWait || e is Spi),
    {
        if self.rx_boosted {
            self.sub_set_rx_boosted(timeout)
        } else {
            self.sub_set_rx(timeout)
        }
    }

    /// The link quality of the last successful reception, if any.
    pub fn get_latest_packet_status(&self) -> (r: Option<PacketStatus>)
        ensures
            r == self.packet_status,
    {
        self.packet_status
    }

    /// Gets a 32-bit random value from the radio's wideband RSSI source.
    pub fn get_random_value(&mut self) -> (r: Result<u32, RadioError>)
        ensures
            r matches Ok(v) ==> (exists|lna: u8, mixer: u8, rnd: Seq<u8>|
                Self::appended(
                    *old(self),
                    *final (self),
                    #[trigger] crate::subroutine::get_random_steps(
                        old(self).operating_mode,
                        lna,
                        mixer,
                        rnd,
                    ),
                ) && rnd.len() == 4 && v == crate::subroutine::spec_u32_from_be_bytes(
                    rnd[0],
                    rnd[1],
                    rnd[2],
                    rnd[3],
                )) && Self::same_settings(*old(self), *final (self)) && final (self).operating_mode == RadioMode::StandbyRC,
            r matches Err(e) ==> (e is DigitalOut || e is BusyWait || e is Spi),
    {
        self.sub_get_random()
    }

    /// Waits on DIO1 and decodes interrupt events until one ends the
    /// transaction: TxDone and a finished channel-activity scan return
    /// success; RxDone reads the payload into the front of the caller's
    /// buffer, its length into `received_len` and the link quality into the
    /// stored packet status, unless a CRC or header error spoils it; a
    /// chip-side timeout fails with the timeout error of the current mode;
    /// any unrecognized interrupt source keeps waiting. Every completed poll
    /// clears exactly the flags it read. If an implausible number of spurious
    /// events arrive, it gives up with the same timeout error.
    #[verifier::rlimit(100)]
    #[verifier::spinoff_prover]
    pub fn process_irq(
        &mut self,
        rx_buffer: &mut Vec<u8>,
        received_len: &mut u8,
        cad_activity_detected: &mut bool,
    ) -> (r: Result<(), RadioError>)
        ensures
            final (self).config == old(self).config && final (self).packet_type == old(self).packet_type && final (self).image_calibrated == old(self).image_calibrated && final (self).modulation_params == old(self).modulation_params && final (self).packet_params == old(self).packet_params && final (self).frequency_error == old(self).frequency_error && final (self).rx_continuous == old(self).rx_continuous && final (self).rx_boosted == old(self).rx_boosted,
            final (rx_buffer)@.len() == old(rx_buffer)@.len(),
            r is Ok ==> final (self).operating_mode == awake_mode(old(self).operating_mode),
            r == Err::<(), RadioError>(RadioError::TransmitTimeout) ==> awake_mode(
                old(self).operating_mode,
            ) == RadioMode::Transmit,
            r == Err::<(), RadioError>(RadioError::ReceiveTimeout) ==> awake_mode(
                old(self).operating_mode,
            ) != RadioMode::Transmit,
            r matches Err(e) ==> (e is Dio1Wait || e is DigitalOut || e is BusyWait || e is Spi
                || e is ReceiveCrc || e is HeaderInvalid || e is ReceiveTimeout
                || e is TransmitTimeout || (e matches RadioError::PayloadSizeMismatch(got, cap)
                && got > cap) || (e == RadioError::PacketParamsMissing && old(self).packet_params is None)),
            r matches Err(e) && !(e is Spi || e is DigitalOut || e is BusyWait) ==> final (rx_buffer)@ == old(rx_buffer)@ && *final (received_len) == *old(received_len) && final (self).packet_status == old(self).packet_status,
            r is Ok ==> final (rx_buffer)@.skip(*final (received_len) as int) == old(rx_buffer)@.skip(*final (received_len) as int) && (*final (received_len) as int <= old(rx_buffer)@.len() || *final (received_len) == *old(received_len)),
            r is Ok ==> (exists|session: Seq<BusStep>|
                #[trigger] Self::appended(*old(self), *final (self), session)),
            r is Ok ==> (final (self).packet_status == old(self).packet_status || (exists|
                q: Seq<u8>,
            |
                q.len() == 3 && (final (self).packet_status matches Some(ps) && ps.rssi as int
                    == #[trigger] spec_rssi_decode(q[0]) && ps.snr as int == spec_snr_decode(q[1])
                    && ps.signal_rssi as int == spec_rssi_decode(q[2]) && ps.freq_error == old(self).frequency_error))),
            r == Ok::<(), RadioError>(()) ==> (exists|prefix: Seq<BusStep>, m: RadioMode, st: u8, b0: u8, b1: u8|
                {
                    &&& (m == old(self).operating_mode || m == awake_mode(
                        old(self).operating_mode,
                    ))
                    &&& match spec_decode_irq(spec_irq_flags(b0, b1)) {
                        IrqDecision::Transmitted => {
                            &&& #[trigger] Self::appended(
                                *old(self),
                                *final (self),
                                prefix + irq_poll_steps(m, st, b0, b1),
                            )
                            &&& final (self).packet_status == old(self).packet_status
                            &&& final (rx_buffer)@ == old(rx_buffer)@
                            &&& *final (received_len) == *old(received_len)
                        },
                        IrqDecision::CadFinished(detected) => {
                            &&& Self::appended(
                                *old(self),
                                *final (self),
                                prefix + irq_poll_steps(m, st, b0, b1),
                            )
                            &&& *final (cad_activity_detected) == detected
                            &&& final (self).packet_status == old(self).packet_status
                            &&& final (rx_buffer)@ == old(rx_buffer)@
                            &&& *final (received_len) == *old(received_len)
                        },
                        IrqDecision::Received => (exists|
                            st2: u8,
                            s0: u8,
                            s1: u8,
                            p0: u8,
                            payload: Seq<u8>,
                            st3: u8,
                            q: Seq<u8>,
                        |
                            {
                                &&& #[trigger] Self::appended(
                                    *old(self),
                                    *final (self),
                                    prefix + irq_poll_steps(m, st, b0, b1) + get_payload_steps(
                                        awake_mode(old(self).operating_mode),
                                        old(self).implicit_header_active(),
                                        st2,
                                        s0,
                                        s1,
                                        p0,
                                        payload,
                                    ) + read_command_steps(
                                        awake_mode(old(self).operating_mode),
                                        OpCode::GetPacketStatus,
                                        st3,
                                        q,
                                    ),
                                )
                                &&& q.len() == 3
                                &&& payload == final (rx_buffer)@.take(
                                    *final (received_len) as int,
                                )
                                &&& *final (received_len) == (if old(self).implicit_header_active() {
                                    p0
                                } else {
                                    s0
                                })
                                &&& *final (received_len) as int <= old(rx_buffer)@.len()
                                &&& final (rx_buffer)@.skip(*final (received_len) as int) == old(rx_buffer)@.skip(*final (received_len) as int)
                                &&& (final (self).packet_status matches Some(ps) && ps.rssi as int
                                    == spec_rssi_decode(q[0]) && ps.snr as int == spec_snr_decode(
                                    q[1],
                                ) && ps.signal_rssi as int == spec_rssi_decode(q[2])
                                    && ps.freq_error == old(self).frequency_error)
                            }),
                        _ => false,
                    }
                }),
            r == Err::<(), RadioError>(RadioError::ReceiveCrc) ==> (exists|
                prefix: Seq<BusStep>,
                m: RadioMode,
                st: u8,
                b0: u8,
                b1: u8,
            |
                {
                    &&& (m == old(self).operating_mode || m == awake_mode(
                        old(self).operating_mode,
                    ))
                    &&& #[trigger] Self::appended(
                        *old(self),
                        *final (self),
                        prefix + irq_poll_steps(m, st, b0, b1),
                    )
                    &&& spec_decode_irq(spec_irq_flags(b0, b1)) == IrqDecision::CrcError
                }),
            r == Err::<(), RadioError>(RadioError::HeaderInvalid) ==> (exists|
                prefix: Seq<BusStep>,
                m: RadioMode,
                st: u8,
                b0: u8,
                b1: u8,
            |
                {
                    &&& (m == old(self).operating_mode || m == awake_mode(
                        old(self).operating_mode,
                    ))
                    &&& #[trigger] Self::appended(
                        *old(self),
                        *final (self),
                        prefix + irq_poll_steps(m, st, b0, b1),
                    )
                    &&& spec_decode_irq(spec_irq_flags(b0, b1)) == IrqDecision::HeaderError
                }),
            (r == Err::<(), RadioError>(RadioError::ReceiveTimeout) || r == Err::<
                (),
                RadioError,
            >(RadioError::TransmitTimeout)) ==> (exists|
                prefix: Seq<BusStep>,
                m: RadioMode,
                st: u8,
                b0: u8,
                b1: u8,
            |
                {
                    &&& (m == old(self).operating_mode || m == awake_mode(
                        old(self).operating_mode,
                    ))
                    &&& #[trigger] Self::appended(
                        *old(self),
                        *final (self),
                        prefix + irq_poll_steps(m, st, b0, b1),
                    )
                    &&& (spec_decode_irq(spec_irq_flags(b0, b1)) == IrqDecision::Timeout
                        || spec_decode_irq(spec_irq_flags(b0, b1)) == IrqDecision::Ignore)
                }),
    {
        let ghost pre = *self;
        let ghost mut polled: Seq<BusStep> = Seq::empty();
        proof {
            assert(self.log() =~= pre.log() + crate::board::steps_events(polled));
        }
        let mut budget: u32 = 0xFFFFFFFF;
        while budget > 0
            invariant
                self.config == old(self).config,
                self.packet_type == old(self).packet_type,
                self.image_calibrated == old(self).image_calibrated,
                self.modulation_params == old(self).modulation_params,
                self.packet_params == old(self).packet_params,
                self.frequency_error == old(self).frequency_error,
                self.packet_status == old(self).packet_status,
                self.rx_continuous == old(self).rx_continuous,
                self.rx_boosted == old(self).rx_boosted,
                self.operating_mode == old(self).operating_mode || self.operating_mode
                    == awake_mode(old(self).operating_mode),
                rx_buffer@ == old(rx_buffer)@,
                *received_len == *old(received_len),
                *cad_activity_detected == *old(cad_activity_detected),
                pre == *old(self),
                Self::appended(*old(self), *self, polled),
                budget < 0xFFFFFFFF ==> (exists|
                    prior: Seq<BusStep>,
                    m: RadioMode,
                    st: u8,
                    b0: u8,
                    b1: u8,
                |
                    {
                        &&& (m == old(self).operating_mode || m == awake_mode(
                            old(self).operating_mode,
                        ))
                        &&& polled == #[trigger] (prior + irq_poll_steps(m, st, b0, b1))
                        &&& spec_decode_irq(spec_irq_flags(b0, b1)) == IrqDecision::Ignore
                    }),
            decreases budget,
        {
            budget = budget - 1;
            let ghost head = *self;
            if let Err(k) = self.board.wait_for_dio1_high() {
                return Err(RadioError::Dio1Wait(k));
            }
            let ghost g1 = *self;
            proof {
                lemma_singleton_steps(BusStep::Plain(HalEvent::Dio1Waited));
                assert(g1.log() =~= head.log() + crate::board::steps_events(
                    seq![BusStep::Plain(HalEvent::Dio1Waited)],
                ));
            }
            let irq_flags = self.sub_get_irq_status()?;
            let ghost g2 = *self;
            self.sub_clear_irq_status(irq_flags)?;
            let ghost g3 = *self;
            let ghost m = head.operating_mode;
            let ghost choice: (u8, Seq<u8>) = choose|st: u8, d: Seq<u8>|
                Self::appended(
                    g1,
                    g2,
                    #[trigger] read_command_steps(m, OpCode::GetIrqStatus, st, d),
                ) && d.len() == 2 && irq_flags == spec_irq_flags(d[0], d[1]);
            let ghost poll_st = choice.0;
            let ghost poll_d = choice.1;
            proof {
                assert(poll_d =~= seq![poll_d[0], poll_d[1]]);
                lemma_appended_trans(
                    head.log(),
                    g1.log(),
                    g2.log(),
                    seq![BusStep::Plain(HalEvent::Dio1Waited)],
                    read_command_steps(m, OpCode::GetIrqStatus, poll_st, poll_d),
                );
                lemma_appended_trans(
                    head.log(),
                    g2.log(),
                    g3.log(),
                    seq![BusStep::Plain(HalEvent::Dio1Waited)] + read_command_steps(
                        m,
                        OpCode::GetIrqStatus,
                        poll_st,
                        poll_d,
                    ),
                    write_command_steps(
                        awake_mode(m),
                        OpCode::ClrIrqStatus,
                        u16_be_bytes(irq_flags),
                    ),
                );
                assert(Self::appended(head, g3, irq_poll_steps(m, poll_st, poll_d[0], poll_d[1])));
                lemma_appended_trans(
                    pre.log(),
                    head.log(),
                    g3.log(),
                    polled,
                    irq_poll_steps(m, poll_st, poll_d[0], poll_d[1]),
                );
                assert(Self::appended(
                    pre,
                    g3,
                    polled + irq_poll_steps(m, poll_st, poll_d[0], poll_d[1]),
                ));
            }
            match decode_irq_flags(irq_flags) {
                IrqDecision::Transmitted => {
                    return Ok(());
                },
                IrqDecision::Received => {
                    let len = self.sub_get_payload(rx_buffer)?;
                    let ghost g4 = *self;
                    *received_len = len;
                    let packet_status = self.sub_get_packet_status()?;
                    self.packet_status = Some(packet_status);
                    proof {
                        let implicit = g3.implicit_header_active();
                        let (st2, s0, s1, p0, payload): (u8, u8, u8, u8, Seq<u8>) = choose|
                            st2: u8,
                            s0: u8,
                            s1: u8,
                            p0: u8,
                            payload: Seq<u8>,
                        |
                            {
                                &&& Self::appended(
                                    g3,
                                    g4,
                                    #[trigger] get_payload_steps(
                                        g3.operating_mode,
                                        implicit,
                                        st2,
                                        s0,
                                        s1,
                                        p0,
                                        payload,
                                    ),
                                )
                                &&& payload == rx_buffer@.take(len as int)
                                &&& len == (if implicit {
                                    p0
                                } else {
                                    s0
                                })
                            };
                        let (st3, q): (u8, Seq<u8>) = choose|st3: u8, q: Seq<u8>|
                            {
                                &&& Self::appended(
                                    g4,
                                    *self,
                                    #[trigger] read_command_steps(
                                        g4.operating_mode,
                                        OpCode::GetPacketStatus,
                                        st3,
                                        q,
                                    ),
                                )
                                &&& q.len() == 3
                                &&& packet_status.rssi as int == spec_rssi_decode(q[0])
                                &&& packet_status.snr as int == spec_snr_decode(q[1])
                                &&& packet_status.signal_rssi as int == spec_rssi_decode(q[2])
                                &&& packet_status.freq_error == g4.frequency_error
                            };
                        lemma_appended_trans(
                            pre.log(),
                            g3.log(),
                            g4.log(),
                            polled + irq_poll_steps(m, poll_st, poll_d[0], poll_d[1]),
                            get_payload_steps(g3.operating_mode, implicit, st2, s0, s1, p0, payload),
                        );
                        lemma_appended_trans(
                            pre.log(),
                            g4.log(),
                            self.log(),
                            polled + irq_poll_steps(m, poll_st, poll_d[0], poll_d[1])
                                + get_payload_steps(
                                g3.operating_mode,
                                implicit,
                                st2,
                                s0,
                                s1,
                                p0,
                                payload,
                            ),
                            read_command_steps(
                                g4.operating_mode,
                                OpCode::GetPacketStatus,
                                st3,
                                q,
                            ),
                        );
                        let ghost _witness = Self::appended(
                            pre,
                            *self,
                            polled + irq_poll_steps(m, poll_st, poll_d[0], poll_d[1]),
                        );
                        assert(Self::appended(
                            pre,
                            *self,
                            polled + irq_poll_steps(m, poll_st, poll_d[0], poll_d[1])
                                + get_payload_steps(
                                awake_mode(pre.operating_mode),
                                pre.implicit_header_active(),
                                st2,
                                s0,
                                s1,
                                p0,
                                payload,
                            ) + read_command_steps(
                                awake_mode(pre.operating_mode),
                                OpCode::GetPacketStatus,
                                st3,
                                q,
                            ),
                        ));
                    }
                    return Ok(());
                },
                IrqDecision::CrcError => {
                    return Err(RadioError::ReceiveCrc);
                },
                IrqDecision::HeaderError => {
                    return Err(RadioError::HeaderInvalid);
                },
                IrqDecision::Timeout => {
                    if self.operating_mode == RadioMode::Transmit {
                        return Err(RadioError::TransmitTimeout);
                    } else {
                        return Err(RadioError::ReceiveTimeout);
                    }
                },
                IrqDecision::CadFinished(detected) => {
                    *cad_activity_detected = detected;
                    return Ok(());
                },
                IrqDecision::Ignore => {
                    // an unexpected interrupt source: keep waiting
                    proof {
                        polled = polled + irq_poll_steps(m, poll_st, poll_d[0], poll_d[1]);
                    }
                },
            }
        }
        if self.operating_mode == RadioMode::Transmit {
            Err(RadioError::TransmitTimeout)
        } else {
            Err(RadioError::ReceiveTimeout)
        }
    }
}

} // verus!
