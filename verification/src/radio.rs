//! The Semtech SX126x radio peripheral as the MAC layer sees it: a
//! constructor that initializes the chip and selects the LoRa modem, the
//! transmit and receive operations, and the fixed receive-window timings.

use vstd::prelude::*;

use crate::board::Board;
use crate::board::BusStep;
use crate::board::steps_events;
use crate::facade::built_modulation_params;
use crate::facade::set_lora_modem_steps;
use crate::facade::set_rx_config_steps;
use crate::facade::set_tx_config_steps;
use crate::lora::LoRa;
use crate::lora::awake_mode;
use crate::lora::lemma_appended_trans;
use crate::lora::write_buffer_steps;
use crate::mod_params::BoardConfig;
use crate::mod_params::PacketParams;
use crate::mod_params::PacketType;
use crate::mod_params::RadioError;
use crate::mod_params::RadioMode;
use crate::mod_params::RadioType;
use crate::mod_params::RampTime;
use crate::mod_params::RfConfig;
use crate::mod_params::RxQuality;
use crate::mod_params::TxConfig;
use crate::subroutine::init_steps;
use crate::subroutine::set_packet_params_steps;
use crate::subroutine::set_rf_frequency_steps;
use crate::subroutine::set_rx_boosted_steps;
use crate::subroutine::set_tx_steps;
use crate::subroutine::spec_symb_exp;
use crate::subroutine::spec_symb_mant;

verus! {

/// The stored packet parameters a transmission starts from: preamble of
/// eight symbols, explicit header, the payload length still uncapped, CRC
/// on, normal IQ.
pub open spec fn tx_packet_params() -> PacketParams {
    PacketParams {
        preamble_length: 8,
        implicit_header: false,
        payload_length: 0xFF,
        crc_on: true,
        iq_inverted: false,
    }
}

/// The stored packet parameters a reception starts from: preamble of eight
/// symbols, explicit header, the payload length still uncapped, CRC on,
/// inverted IQ as LoRaWAN downlinks use.
pub open spec fn rx_packet_params() -> PacketParams {
    PacketParams {
        preamble_length: 8,
        implicit_header: false,
        payload_length: 0x00,
        crc_on: true,
        iq_inverted: true,
    }
}

/// The configuration and launch frames of one transmission, before the
/// interrupt session: the transmit configuration, the payload-length cap,
/// the channel tune, the payload write and the SetTx command with the
/// unbounded 24-bit timeout. `clamp_reg` is the TxClampCfg byte the chip
/// reported (ignored on an SX1261).
pub open spec fn tx_flow_steps(
    mode: RadioMode,
    radio_type: RadioType,
    calibrated: bool,
    config: TxConfig,
    payload: Seq<u8>,
    clamp_reg: u8,
) -> Seq<BusStep> {
    let mp = built_modulation_params(
        config.rf.spreading_factor,
        config.rf.bandwidth,
        config.rf.coding_rate,
    );
    set_tx_config_steps(
        mode,
        radio_type,
        config.pw,
        mp,
        tx_packet_params(),
        RampTime::Ramp200Us,
        clamp_reg,
    ) + set_packet_params_steps(
        awake_mode(mode),
        PacketParams { payload_length: payload.len() as u8, ..tx_packet_params() },
    ) + set_rf_frequency_steps(awake_mode(mode), calibrated, config.rf.frequency)
        + write_buffer_steps(awake_mode(mode), 0x00, payload) + set_tx_steps(0xFFFFFF)
}

/// The configuration and launch frames of one reception, before the
/// interrupt session: the receive configuration with a four-symbol timeout,
/// the payload cap at the buffer size, the channel tune, and boosted-gain
/// reception with the fixed 90-second chip timeout.
pub open spec fn rx_flow_steps(
    mode: RadioMode,
    calibrated: bool,
    config: RfConfig,
    cap: u8,
) -> Seq<BusStep> {
    let mp = built_modulation_params(
        config.spreading_factor,
        config.bandwidth,
        config.coding_rate,
    );
    set_rx_config_steps(mode, mp, rx_packet_params(), 4, spec_symb_mant(4), spec_symb_exp(4))
        + set_packet_params_steps(
        awake_mode(mode),
        PacketParams { payload_length: cap, ..rx_packet_params() },
    ) + set_rf_frequency_steps(awake_mode(mode), calibrated, config.frequency)
        + set_rx_boosted_steps(90000)
}

/// A Semtech SX126x LoRa peripheral, ready to serve a LoRaWAN MAC.
pub struct Sx126xRadio<B: Board> {
    pub lora: LoRa<B>,
}

impl<B: Board> Sx126xRadio<B> {
    /// Takes ownership of a board, initializes the radio and selects the
    /// LoRa modem on the public or a private network.
    pub fn new(board: B, config: BoardConfig, enable_public_network: bool) -> (r: Result<
        Sx126xRadio<B>,
        RadioError,
    >)
        ensures
            r matches Ok(radio) ==> {
                &&& radio.lora.config == config
                &&& radio.lora.operating_mode == RadioMode::StandbyRC
                &&& radio.lora.packet_type == PacketType::LoRa
                &&& !radio.lora.image_calibrated
                &&& radio.lora.modulation_params is None
                &&& radio.lora.packet_params is None
                &&& radio.lora.packet_status is None
                &&& radio.lora.log() == board.log() + steps_events(
                    init_steps(config) + set_lora_modem_steps(
                        RadioMode::StandbyRC,
                        enable_public_network,
                    ),
                )
            },
            r matches Err(e) ==> (e is DigitalOut || e is BusyWait || e is Spi),
    {
        let mut lora = LoRa::new(board, config);
        let ghost pre = lora;
        lora.init()?;
        let ghost mid = lora;
        lora.set_lora_modem(enable_public_network)?;
        proof {
            lemma_appended_trans(
                pre.log(),
                mid.log(),
                lora.log(),
                init_steps(config),
                set_lora_modem_steps(RadioMode::StandbyRC, enable_public_network),
            );
        }
        Ok(Sx126xRadio { lora })
    }

    /// How many milliseconds before the MAC-computed window the receiver
    /// should open.
    pub fn get_rx_window_offset_ms(&self) -> (r: i32)
        ensures
            r == -50,
    {
        -50
    }

    /// How long a receive window stays open, in milliseconds.
    pub fn get_rx_window_duration_ms(&self) -> (r: u32)
        ensures
            r == 1050,
    {
        1050
    }

    /// Transmits a payload on the given channel: configures modulation,
    /// power and IRQ routing, caps the payload length, tunes the channel,
    /// sends, and waits for TxDone. The bus observes exactly the
    /// [`tx_flow_steps`] frames followed by the interrupt session that
    /// [`LoRa::process_irq`] describes. Returns the transmit time the MAC
    /// should account, which is zero: the MAC derives its timing from its
    /// own clock.
    pub fn tx(&mut self, config: TxConfig, buffer: &Vec<u8>) -> (r: Result<u32, RadioError>)
        requires
            config.rf.frequency < 4096000000,
            buffer@.len() <= 255,
        ensures
            r matches Ok(v) ==> v == 0 && final (self).lora.operating_mode == RadioMode::Transmit
                && final (self).lora.modulation_params == Some(
                built_modulation_params(
                    config.rf.spreading_factor,
                    config.rf.bandwidth,
                    config.rf.coding_rate,
                ),
            ) && final (self).lora.packet_params == Some(
                PacketParams { payload_length: buffer@.len() as u8, ..tx_packet_params() },
            ) && final (self).lora.image_calibrated,
            r is Ok ==> (exists|clamp_reg: u8, session: Seq<BusStep>|
                #[trigger] LoRa::<B>::appended(
                    old(self).lora,
                    final (self).lora,
                    tx_flow_steps(
                        old(self).lora.operating_mode,
                        old(self).lora.config.radio_type,
                        old(self).lora.image_calibrated,
                        config,
                        buffer@,
                        clamp_reg,
                    ) + session,
                )),
            r matches Err(e) ==> (e is DigitalOut || e is BusyWait || e is Spi || e is Dio1Wait
                || e is TransmitTimeout || e is ReceiveCrc || e is HeaderInvalid || (e
                matches RadioError::PayloadSizeMismatch(got, cap) && got > cap)),
    {
        let ghost pre = self.lora;
        self.lora.set_tx_config(
            config.pw,
            config.rf.spreading_factor,
            config.rf.bandwidth,
            config.rf.coding_rate,
            8,
            false,
            true,
            false,
            0,
            RampTime::Ramp200Us,
        )?;
        let ghost g1 = self.lora;
        self.lora.set_max_payload_length(buffer.len() as u8)?;
        let ghost g2 = self.lora;
        self.lora.set_channel(config.rf.frequency)?;
        let ghost g3 = self.lora;
        self.lora.send(buffer, 0xFFFFFF)?;
        let ghost g4 = self.lora;
        let mut scratch: Vec<u8> = Vec::new();
        let mut received_len: u8 = 0;
        let mut cad_activity: bool = false;
        self.lora.process_irq(&mut scratch, &mut received_len, &mut cad_activity)?;
        proof {
            let m0 = pre.operating_mode;
            let mp = built_modulation_params(
                config.rf.spreading_factor,
                config.rf.bandwidth,
                config.rf.coding_rate,
            );
            let pp_cap = PacketParams {
                payload_length: buffer@.len() as u8,
                ..tx_packet_params()
            };
            let clamp_reg: u8 = choose|clamp_reg: u8|
                LoRa::<B>::appended(
                    pre,
                    g1,
                    #[trigger] set_tx_config_steps(
                        m0,
                        pre.config.radio_type,
                        config.pw,
                        mp,
                        tx_packet_params(),
                        RampTime::Ramp200Us,
                        clamp_reg,
                    ),
                );
            let s1 = set_tx_config_steps(
                m0,
                pre.config.radio_type,
                config.pw,
                mp,
                tx_packet_params(),
                RampTime::Ramp200Us,
                clamp_reg,
            );
            let s2 = set_packet_params_steps(awake_mode(m0), pp_cap);
            let s3 = set_rf_frequency_steps(awake_mode(m0), pre.image_calibrated, config.rf.frequency);
            let s4a = write_buffer_steps(awake_mode(m0), 0x00, buffer@);
            let s4b = set_tx_steps(0xFFFFFF);
            let session: Seq<BusStep> = choose|session: Seq<BusStep>|
                #[trigger] LoRa::<B>::appended(g4, final (self).lora, session);
            lemma_appended_trans(pre.log(), g1.log(), g2.log(), s1, s2);
            lemma_appended_trans(pre.log(), g2.log(), g3.log(), s1 + s2, s3);
            lemma_appended_trans(pre.log(), g3.log(), g4.log(), s1 + s2 + s3, s4a + s4b);
            lemma_appended_trans(
                pre.log(),
                g4.log(),
                self.lora.log(),
                s1 + s2 + s3 + (s4a + s4b),
                session,
            );
            assert(tx_flow_steps(
                m0,
                pre.config.radio_type,
                pre.image_calibrated,
                config,
                buffer@,
                clamp_reg,
            ) + session =~= s1 + s2 + s3 + (s4a + s4b) + session);
            assert(LoRa::<B>::appended(
                pre,
                self.lora,
                tx_flow_steps(
                    m0,
                    pre.config.radio_type,
                    pre.image_calibrated,
                    config,
                    buffer@,
                    clamp_reg,
                ) + session,
            ));
        }
        Ok(0)
    }

    /// Receives one packet on the given channel: configures modulation and
    /// IRQ routing with a four-symbol timeout and boosted gain, caps the
    /// payload at the buffer size, tunes the channel, listens with the fixed
    /// 90-second chip timeout, and waits for RxDone. The bus observes
    /// exactly the [`rx_flow_steps`] frames followed by the interrupt
    /// session that [`LoRa::process_irq`] describes. Returns the payload
    /// length written into the front of the buffer and the link quality of
    /// the reception; the rest of the buffer is untouched, and on any error
    /// other than a board failure the whole buffer is untouched.
    pub fn rx(&mut self, config: RfConfig, receiving_buffer: &mut Vec<u8>) -> (r: Result<
        (u8, RxQuality),
        RadioError,
    >)
        requires
            config.frequency < 4096000000,
            old(receiving_buffer)@.len() <= 255,
        ensures
            final (receiving_buffer)@.len() == old(receiving_buffer)@.len(),
            r matches Ok((len, quality)) ==> {
                &&& len as int <= old(receiving_buffer)@.len()
                &&& final (receiving_buffer)@.skip(len as int) == old(receiving_buffer)@.skip(
                    len as int,
                )
                &&& (final (self).lora.packet_status matches Some(ps) ==> quality.rssi
                    == ps.rssi as i16 && quality.snr == ps.snr)
                &&& (final (self).lora.packet_status is None ==> quality.rssi == 0 && quality.snr
                    == 0)
                &&& (final (self).lora.packet_status == old(self).lora.packet_status || (exists|
                    q: Seq<u8>,
                |
                    q.len() == 3 && quality.rssi as int == #[trigger] crate::subroutine::spec_rssi_decode(
                        q[0],
                    ) && quality.snr as int == crate::subroutine::spec_snr_decode(q[1])))
            },
            r is Ok ==> (exists|session: Seq<BusStep>|
                #[trigger] LoRa::<B>::appended(
                    old(self).lora,
                    final (self).lora,
                    rx_flow_steps(
                        old(self).lora.operating_mode,
                        old(self).lora.image_calibrated,
                        config,
                        old(receiving_buffer)@.len() as u8,
                    ) + session,
                )),
            r matches Err(e) ==> (e is DigitalOut || e is BusyWait || e is Spi || e is Dio1Wait
                || e is ReceiveTimeout || e is ReceiveCrc || e is HeaderInvalid || (e
                matches RadioError::PayloadSizeMismatch(got, cap) && got > cap)),
            r matches Err(e) && !(e is Spi || e is DigitalOut || e is BusyWait) ==> final (receiving_buffer)@ == old(receiving_buffer)@,
    {
        let ghost pre = self.lora;
        let cap = receiving_buffer.len() as u8;
        self.lora.set_rx_config(
            config.spreading_factor,
            config.bandwidth,
            config.coding_rate,
            8,
            4,
            false,
            0,
            true,
            true,
            false,
            0,
            true,
            true,
        )?;
        let ghost g1 = self.lora;
        self.lora.set_max_payload_length(cap)?;
        let ghost g2 = self.lora;
        self.lora.set_channel(config.frequency)?;
        let ghost g3 = self.lora;
        self.lora.rx(90 * 1000)?;
        let ghost g4 = self.lora;
        let mut received_len: u8 = 0;
        let mut cad_activity: bool = false;
        self.lora.process_irq(receiving_buffer, &mut received_len, &mut cad_activity)?;
        proof {
            let m0 = pre.operating_mode;
            let mp = built_modulation_params(
                config.spreading_factor,
                config.bandwidth,
                config.coding_rate,
            );
            let s1 = set_rx_config_steps(
                m0,
                mp,
                rx_packet_params(),
                4,
                spec_symb_mant(4),
                spec_symb_exp(4),
            );
            let s2 = set_packet_params_steps(
                awake_mode(m0),
                PacketParams { payload_length: cap, ..rx_packet_params() },
            );
            let s3 = set_rf_frequency_steps(awake_mode(m0), pre.image_calibrated, config.frequency);
            let s4 = set_rx_boosted_steps(90000);
            let session: Seq<BusStep> = choose|session: Seq<BusStep>|
                #[trigger] LoRa::<B>::appended(g4, final (self).lora, session);
            lemma_appended_trans(pre.log(), g1.log(), g2.log(), s1, s2);
            lemma_appended_trans(pre.log(), g2.log(), g3.log(), s1 + s2, s3);
            lemma_appended_trans(pre.log(), g3.log(), g4.log(), s1 + s2 + s3, s4);
            lemma_appended_trans(pre.log(), g4.log(), self.lora.log(), s1 + s2 + s3 + s4, session);
            assert(rx_flow_steps(m0, pre.image_calibrated, config, old(receiving_buffer)@.len() as u8)
                + session =~= s1 + s2 + s3 + s4 + session);
            assert(LoRa::<B>::appended(
                pre,
                self.lora,
                rx_flow_steps(m0, pre.image_calibrated, config, old(receiving_buffer)@.len() as u8)
                    + session,
            ));
        }
        let packet_status = self.lora.get_latest_packet_status();
        let mut rssi: i16 = 0;
        let mut snr: i8 = 0;
        if let Some(s) = packet_status {
            rssi = s.rssi as i16;
            snr = s.snr;
        }
        proof {
            if self.lora.packet_status != pre.packet_status {
                let q: Seq<u8> = choose|q: Seq<u8>|
                    q.len() == 3 && (self.lora.packet_status matches Some(ps) && ps.rssi as int
                        == #[trigger] crate::subroutine::spec_rssi_decode(q[0]) && ps.snr as int
                        == crate::subroutine::spec_snr_decode(q[1]) && ps.signal_rssi as int
                        == crate::subroutine::spec_rssi_decode(q[2]) && ps.freq_error
                        == g4.frequency_error);
                assert(q.len() == 3 && rssi as int == crate::subroutine::spec_rssi_decode(q[0])
                    && snr as int == crate::subroutine::spec_snr_decode(q[1]));
            }
        }
        Ok((received_len, RxQuality { rssi, snr }))
    }
}

} // verus!
