//! End-to-end scenarios against the fake board and its scripted fake chip:
//! the init sequence, a full transmission, receptions ending in success,
//! timeout and CRC error, entropy harvesting, the chip-protocol invariants
//! over every recorded trace, and the driver's error paths.

use sx126x_lora::fake::FakeBoard;
use sx126x_lora::fake::FakeEvent;
use sx126x_lora::lora::LoRa;
use sx126x_lora::mod_params::Bandwidth;
use sx126x_lora::mod_params::BoardConfig;
use sx126x_lora::mod_params::CodingRate;
use sx126x_lora::mod_params::OscillatorMode;
use sx126x_lora::mod_params::PacketType;
use sx126x_lora::mod_params::RadioError;
use sx126x_lora::mod_params::RadioMode;
use sx126x_lora::mod_params::RadioType;
use sx126x_lora::mod_params::RfConfig;
use sx126x_lora::mod_params::SleepParams;
use sx126x_lora::mod_params::SpreadingFactor;
use sx126x_lora::mod_params::StandbyMode;
use sx126x_lora::mod_params::TcxoCtrlVoltage;
use sx126x_lora::mod_params::TxConfig;
use sx126x_lora::radio::Sx126xRadio;

fn tcxo_board_config() -> BoardConfig {
    BoardConfig {
        radio_type: RadioType::SX1262,
        oscillator_mode: OscillatorMode::Tcxo,
        tcxo_voltage: TcxoCtrlVoltage::Ctrl1V7,
        dio2_antenna_control: true,
    }
}

fn is_transfer(e: &FakeEvent) -> bool {
    matches!(e, FakeEvent::Wrote(_) | FakeEvent::ReadBytes(_))
}

/// The two chip-protocol invariants, checked over a recorded trace: every
/// SPI frame sits immediately between CS-low and CS-high, and BUSY was
/// polled right before the CS-low edge that opens it.
fn check_chip_protocol(events: &[FakeEvent]) {
    for i in 0..events.len() {
        if is_transfer(&events[i]) {
            assert!(i > 0, "transfer at trace start");
            assert!(
                is_transfer(&events[i - 1]) || matches!(events[i - 1], FakeEvent::CsLow),
                "no CS-low before transfer at {}",
                i
            );
            assert!(i + 1 < events.len(), "trace ends inside a frame");
            assert!(
                is_transfer(&events[i + 1]) || matches!(events[i + 1], FakeEvent::CsHigh),
                "no CS-high after transfer at {}",
                i
            );
            if matches!(events[i - 1], FakeEvent::CsLow) {
                assert!(
                    i >= 2 && matches!(events[i - 2], FakeEvent::BusyPolled),
                    "no BUSY poll before the frame at {}",
                    i
                );
            }
        }
    }
}

/// Position of the first written frame equal to `frame`.
fn frame_position(events: &[FakeEvent], frame: &[u8]) -> Option<usize> {
    events.iter().position(|e| match e {
        FakeEvent::Wrote(v) => v.as_slice() == frame,
        _ => false,
    })
}

fn assert_contains_frame(events: &[FakeEvent], frame: &[u8]) -> usize {
    match frame_position(events, frame) {
        Some(i) => i,
        None => panic!("frame {:02X?} not observed", frame),
    }
}

/// The PLL-step count a frequency should map to, computed in wide
/// arithmetic: `f * 2^25 / 32 MHz` rounded half up.
fn reference_pll_frame(f: u64) -> [u8; 5] {
    let steps = ((((f as u128) << 25) + 16_000_000) / 32_000_000) as u32;
    [
        0x86,
        (steps >> 24) as u8,
        (steps >> 16) as u8,
        (steps >> 8) as u8,
        steps as u8,
    ]
}

#[test]
fn init_sequence_on_a_tcxo_board() {
    let mut lora = LoRa::new(FakeBoard::new(), tcxo_board_config());
    lora.init().unwrap();
    let events = &lora.board.events;
    check_chip_protocol(events);
    // RESET low pulse, release
    let reset_low = events
        .iter()
        .position(|e| matches!(e, FakeEvent::ResetLow))
        .unwrap();
    assert!(matches!(events[reset_low + 1], FakeEvent::Delayed(50)));
    assert!(matches!(events[reset_low + 2], FakeEvent::ResetHigh));
    // a BUSY poll before the first command
    let busy = events
        .iter()
        .position(|e| matches!(e, FakeEvent::BusyPolled))
        .unwrap();
    assert!(reset_low < busy);
    // SetStandby(0x00), then SetTCXOMode with the voltage byte and the
    // 24-bit timeout of 320 ticks, then the RF-switch choice
    let standby = assert_contains_frame(events, &[0x80, 0x00]);
    let tcxo = assert_contains_frame(events, &[0x97, 0x01, 0x00, 0x01, 0x40]);
    let rf_switch = assert_contains_frame(events, &[0x9D, 0x01]);
    assert!(busy < standby && standby < tcxo && tcxo < rf_switch);
    assert_eq!(lora.operating_mode, RadioMode::StandbyRC);
    assert!(!lora.image_calibrated);
}

#[test]
fn init_sequence_on_an_xosc_board_skips_the_tcxo_command() {
    let config = BoardConfig {
        oscillator_mode: OscillatorMode::Xosc,
        ..tcxo_board_config()
    };
    let mut lora = LoRa::new(FakeBoard::new(), config);
    lora.init().unwrap();
    let events = &lora.board.events;
    check_chip_protocol(events);
    assert!(events
        .iter()
        .all(|e| !matches!(e, FakeEvent::Wrote(v) if v.first() == Some(&0x97))));
}

#[test]
fn transmission_at_868_1_mhz_sf7_bw125_13_dbm() {
    let mut board = FakeBoard::new();
    board.push_response(vec![0x00]); // TxClampCfg register content
    board.push_response(vec![0x00]); // status byte of GetIrqStatus
    board.push_response(vec![0x00, 0x01]); // IRQ flags: TxDone
    let mut radio = Sx126xRadio::new(board, tcxo_board_config(), true).unwrap();
    let payload: Vec<u8> = vec![0xDE, 0xAD, 0xBE, 0xEF, 0x01, 0x02, 0x03, 0x04];
    let config = TxConfig {
        pw: 13,
        rf: RfConfig {
            frequency: 868_100_000,
            spreading_factor: SpreadingFactor::SF7,
            bandwidth: Bandwidth::Bw125,
            coding_rate: CodingRate::Cr4_5,
        },
    };
    let tx_time = radio.tx(config, &payload).unwrap();
    assert_eq!(tx_time, 0);
    let events = &radio.lora.board.events;
    check_chip_protocol(events);
    // the LoRa modem on the public network, from the constructor
    assert_contains_frame(events, &[0x8A, 0x01]);
    assert_contains_frame(events, &[0x0D, 0x07, 0x40, 0x34, 0x44]);
    // modulation: SF7, BW125, CR 4/5, no low-data-rate optimization
    assert_contains_frame(events, &[0x8B, 0x07, 0x04, 0x01, 0x00]);
    // packet: preamble 8, explicit header, 8-byte payload, CRC on, normal IQ
    assert_contains_frame(events, &[0x8C, 0x00, 0x08, 0x00, 0x08, 0x01, 0x00]);
    // the SX1262 power amplifier and 13 dBm with the 200 us ramp
    assert_contains_frame(events, &[0x95, 0x04, 0x07, 0x00, 0x01]);
    assert_contains_frame(events, &[0x8E, 0x0D, 0x04]);
    // the payload written at offset zero
    let mut write_buffer_frame: Vec<u8> = vec![0x0E, 0x00];
    write_buffer_frame.extend_from_slice(&payload);
    let wrote = assert_contains_frame(events, &write_buffer_frame);
    // the channel in PLL steps, computed rather than taken on faith
    assert_contains_frame(events, &reference_pll_frame(868_100_000));
    // and the transmission itself, with the packed 24-bit timeout
    let set_tx = assert_contains_frame(events, &[0x83, 0xFF, 0xFF, 0xFF]);
    assert!(wrote < set_tx);
    assert_eq!(radio.lora.operating_mode, RadioMode::Transmit);
}

#[test]
fn reception_timeout_leaves_the_buffer_unchanged() {
    let mut board = FakeBoard::new();
    board.push_response(vec![0x00]); // status byte of GetIrqStatus
    board.push_response(vec![0x02, 0x00]); // IRQ flags: Timeout
    let mut radio = Sx126xRadio::new(board, tcxo_board_config(), true).unwrap();
    let config = RfConfig {
        frequency: 868_100_000,
        spreading_factor: SpreadingFactor::SF7,
        bandwidth: Bandwidth::Bw125,
        coding_rate: CodingRate::Cr4_5,
    };
    let mut buffer: Vec<u8> = vec![0x55; 32];
    let r = radio.rx(config, &mut buffer);
    assert_eq!(r, Err(RadioError::ReceiveTimeout));
    assert_eq!(buffer, vec![0x55; 32]);
    check_chip_protocol(&radio.lora.board.events);
}

#[test]
fn reception_success_reports_payload_and_quality() {
    let payload: Vec<u8> = vec![1, 2, 3, 4, 5, 6, 7, 8, 9, 10];
    let mut board = FakeBoard::new();
    board.push_response(vec![0x00]); // status byte of GetIrqStatus
    board.push_response(vec![0x00, 0x02]); // IRQ flags: RxDone
    board.push_response(vec![0x00]); // status byte of GetRxBufferStatus
    board.push_response(vec![10, 0]); // payload length 10 at offset 0
    board.push_response(payload.clone()); // the payload bytes
    board.push_response(vec![0x00]); // status byte of GetPacketStatus
    board.push_response(vec![110, 9, 110]); // raw RSSI, SNR, signal RSSI
    let mut radio = Sx126xRadio::new(board, tcxo_board_config(), true).unwrap();
    let config = RfConfig {
        frequency: 868_100_000,
        spreading_factor: SpreadingFactor::SF7,
        bandwidth: Bandwidth::Bw125,
        coding_rate: CodingRate::Cr4_5,
    };
    let mut buffer: Vec<u8> = vec![0; 32];
    let (len, quality) = radio.rx(config, &mut buffer).unwrap();
    assert_eq!(len, 10);
    assert_eq!(quality.rssi, -55);
    assert_eq!(quality.snr, 2);
    assert_eq!(&buffer[..10], &payload[..]);
    assert_eq!(&buffer[10..], &[0u8; 22][..]);
    let status = radio.lora.get_latest_packet_status().unwrap();
    assert_eq!(status.rssi, -55);
    assert_eq!(status.snr, 2);
    assert_eq!(status.signal_rssi, -55);
    check_chip_protocol(&radio.lora.board.events);
}

#[test]
fn reception_with_a_crc_error_clears_the_irqs() {
    let mut board = FakeBoard::new();
    board.push_response(vec![0x00]); // status byte of GetIrqStatus
    board.push_response(vec![0x00, 0x42]); // IRQ flags: RxDone | CrcErr
    let mut radio = Sx126xRadio::new(board, tcxo_board_config(), true).unwrap();
    let config = RfConfig {
        frequency: 868_100_000,
        spreading_factor: SpreadingFactor::SF7,
        bandwidth: Bandwidth::Bw125,
        coding_rate: CodingRate::Cr4_5,
    };
    let mut buffer: Vec<u8> = vec![0; 16];
    let r = radio.rx(config, &mut buffer);
    assert_eq!(r, Err(RadioError::ReceiveCrc));
    // the reported flags were cleared before the error came back
    assert_contains_frame(&radio.lora.board.events, &[0x02, 0x00, 0x42]);
    check_chip_protocol(&radio.lora.board.events);
}

#[test]
fn reception_with_a_header_error() {
    let mut board = FakeBoard::new();
    board.push_response(vec![0x00]);
    board.push_response(vec![0x00, 0x22]); // IRQ flags: RxDone | HeaderErr
    let mut radio = Sx126xRadio::new(board, tcxo_board_config(), true).unwrap();
    let config = RfConfig {
        frequency: 868_100_000,
        spreading_factor: SpreadingFactor::SF7,
        bandwidth: Bandwidth::Bw125,
        coding_rate: CodingRate::Cr4_5,
    };
    let mut buffer: Vec<u8> = vec![0; 16];
    assert_eq!(radio.rx(config, &mut buffer), Err(RadioError::HeaderInvalid));
}

#[test]
fn get_random_masks_and_restores_the_analog_registers() {
    let mut board = FakeBoard::new();
    board.push_response(vec![0xAB]); // AnaLNA original content
    board.push_response(vec![0xCD]); // AnaMixer original content
    board.push_response(vec![0x12, 0x34, 0x56, 0x78]); // the random bytes
    let mut lora = LoRa::new(board, tcxo_board_config());
    lora.operating_mode = RadioMode::StandbyRC;
    let value = lora.get_random_value().unwrap();
    assert_eq!(value, 0x12345678);
    let events = &lora.board.events;
    check_chip_protocol(events);
    // bit 0 of AnaLNA and bit 7 of AnaMixer cleared, originals preserved
    let mask_lna = assert_contains_frame(events, &[0x0D, 0x08, 0xE2, 0xAA]);
    let mask_mixer = assert_contains_frame(events, &[0x0D, 0x08, 0xE5, 0x4D]);
    // continuous reception, then the random-number register read
    let set_rx = assert_contains_frame(events, &[0x82, 0xFF, 0xFF, 0xFF]);
    let rnd_read = assert_contains_frame(events, &[0x1D, 0x08, 0x19, 0x00]);
    // back to RC standby, then the originals restored
    let standby = assert_contains_frame(events, &[0x80, 0x00]);
    let restore_lna = assert_contains_frame(events, &[0x0D, 0x08, 0xE2, 0xAB]);
    let restore_mixer = assert_contains_frame(events, &[0x0D, 0x08, 0xE5, 0xCD]);
    assert!(mask_lna < set_rx && mask_mixer < set_rx);
    assert!(set_rx < rnd_read && rnd_read < standby);
    assert!(standby < restore_lna && restore_lna < restore_mixer);
    assert_eq!(lora.operating_mode, RadioMode::StandbyRC);
}

#[test]
fn packet_type_round_trips_through_the_driver() {
    let mut lora = LoRa::new(FakeBoard::new(), tcxo_board_config());
    lora.operating_mode = RadioMode::StandbyRC;
    lora.sub_set_packet_type(PacketType::GFSK).unwrap();
    assert_eq!(lora.sub_get_packet_type(), PacketType::GFSK);
    assert_contains_frame(&lora.board.events, &[0x8A, 0x00]);
    lora.sub_set_packet_type(PacketType::LoRa).unwrap();
    assert_eq!(lora.sub_get_packet_type(), PacketType::LoRa);
    assert_contains_frame(&lora.board.events, &[0x8A, 0x01]);
}

#[test]
fn operating_mode_mirrors_every_mode_entering_command() {
    let mut lora = LoRa::new(FakeBoard::new(), tcxo_board_config());
    lora.sub_set_standby(StandbyMode::RC).unwrap();
    assert_eq!(lora.operating_mode, RadioMode::StandbyRC);
    lora.sub_set_standby(StandbyMode::XOSC).unwrap();
    assert_eq!(lora.operating_mode, RadioMode::StandbyXOSC);
    lora.sub_set_fs().unwrap();
    assert_eq!(lora.operating_mode, RadioMode::FrequencySynthesis);
    lora.sub_set_tx(0x1234).unwrap();
    assert_eq!(lora.operating_mode, RadioMode::Transmit);
    lora.sub_set_rx(0x1234).unwrap();
    assert_eq!(lora.operating_mode, RadioMode::Receive);
    lora.sub_set_rx_boosted(0x1234).unwrap();
    assert_eq!(lora.operating_mode, RadioMode::Receive);
    lora.sub_set_rx_duty_cycle(100, 200).unwrap();
    assert_eq!(lora.operating_mode, RadioMode::ReceiveDutyCycle);
    lora.sub_set_cad().unwrap();
    assert_eq!(lora.operating_mode, RadioMode::ChannelActivityDetection);
    lora.sub_set_sleep(SleepParams {
        wakeup_rtc: false,
        reset: false,
        warm_start: true,
    })
    .unwrap();
    assert_eq!(lora.operating_mode, RadioMode::Sleep);
    check_chip_protocol(&lora.board.events);
}

#[test]
fn waking_a_sleeping_chip_toggles_cs_before_the_frame() {
    let mut lora = LoRa::new(FakeBoard::new(), tcxo_board_config());
    assert_eq!(lora.operating_mode, RadioMode::Sleep);
    lora.sub_set_standby(StandbyMode::RC).unwrap();
    let events = &lora.board.events;
    assert!(matches!(events[0], FakeEvent::CsLow));
    assert!(matches!(events[1], FakeEvent::CsHigh));
    assert!(matches!(events[2], FakeEvent::BusyPolled));
    check_chip_protocol(events);
}

#[test]
fn cold_sleep_loses_the_image_calibration_and_warm_sleep_keeps_it() {
    let mut lora = LoRa::new(FakeBoard::new(), tcxo_board_config());
    lora.operating_mode = RadioMode::StandbyRC;
    lora.set_channel(868_100_000).unwrap();
    assert!(lora.image_calibrated);
    // the first tune programs the calibration band, a second does not
    assert_contains_frame(&lora.board.events, &[0x98, 0xD7, 0xDB]);
    lora.sub_set_sleep(SleepParams {
        wakeup_rtc: false,
        reset: false,
        warm_start: true,
    })
    .unwrap();
    assert!(lora.image_calibrated);
    lora.sub_set_sleep(SleepParams {
        wakeup_rtc: false,
        reset: false,
        warm_start: false,
    })
    .unwrap();
    assert!(!lora.image_calibrated);
}

#[test]
fn calibration_bands_follow_the_frequency_thresholds() {
    for (freq, band) in [
        (915_000_000u32, [0xE1u8, 0xE9u8]),
        (868_100_000, [0xD7, 0xDB]),
        (790_000_000, [0xC1, 0xC5]),
        (470_300_000, [0x75, 0x81]),
        (433_050_000, [0x6B, 0x6F]),
        (169_000_000, [0x00, 0x00]),
    ] {
        let mut lora = LoRa::new(FakeBoard::new(), tcxo_board_config());
        lora.operating_mode = RadioMode::StandbyRC;
        lora.sub_calibrate_image(freq).unwrap();
        assert_contains_frame(&lora.board.events, &[0x98, band[0], band[1]]);
    }
}

#[test]
fn symbol_timeout_writes_the_opcode_and_the_exact_register() {
    let mut lora = LoRa::new(FakeBoard::new(), tcxo_board_config());
    lora.operating_mode = RadioMode::StandbyRC;
    lora.sub_set_lora_symb_num_timeout(4).unwrap();
    // mantissa 2, exponent 0: opcode byte 2 << 1, register 0 | (2 << 3)
    assert_contains_frame(&lora.board.events, &[0xA0, 0x04]);
    assert_contains_frame(&lora.board.events, &[0x0D, 0x07, 0x06, 0x10]);
    // a zero count skips the register write
    let mut quiet = LoRa::new(FakeBoard::new(), tcxo_board_config());
    quiet.operating_mode = RadioMode::StandbyRC;
    quiet.sub_set_lora_symb_num_timeout(0).unwrap();
    assert_contains_frame(&quiet.board.events, &[0xA0, 0x00]);
    assert!(frame_position(&quiet.board.events, &[0x0D, 0x07, 0x06, 0x00]).is_none());
}

#[test]
fn sx1261_power_amplifier_configuration() {
    let config = BoardConfig {
        radio_type: RadioType::SX1261,
        ..tcxo_board_config()
    };
    let mut lora = LoRa::new(FakeBoard::new(), config);
    lora.operating_mode = RadioMode::StandbyRC;
    lora.sub_set_tx_params(14, sx126x_lora::mod_params::RampTime::Ramp200Us)
        .unwrap();
    assert_contains_frame(&lora.board.events, &[0x95, 0x04, 0x00, 0x01, 0x01]);
    assert_contains_frame(&lora.board.events, &[0x8E, 0x0E, 0x04]);
    // the 15 dBm special case selects the other duty cycle and clamps to 14
    let mut hot = LoRa::new(FakeBoard::new(), config);
    hot.operating_mode = RadioMode::StandbyRC;
    hot.sub_set_tx_params(15, sx126x_lora::mod_params::RampTime::Ramp200Us)
        .unwrap();
    assert_contains_frame(&hot.board.events, &[0x95, 0x06, 0x00, 0x01, 0x01]);
    assert_contains_frame(&hot.board.events, &[0x8E, 0x0E, 0x04]);
}

#[test]
fn negative_power_wraps_to_its_twos_complement_byte() {
    let mut board = FakeBoard::new();
    board.push_response(vec![0x00]); // TxClampCfg content
    let mut lora = LoRa::new(board, tcxo_board_config());
    lora.operating_mode = RadioMode::StandbyRC;
    lora.sub_set_tx_params(-5, sx126x_lora::mod_params::RampTime::Ramp10Us)
        .unwrap();
    // -5 dBm as 0xFB, and the clamp register widened to 0x1E
    assert_contains_frame(&lora.board.events, &[0x8E, 0xFB, 0x00]);
    assert_contains_frame(&lora.board.events, &[0x0D, 0x08, 0xD8, 0x1E]);
}

#[test]
fn payload_larger_than_the_buffer_is_refused() {
    let mut board = FakeBoard::new();
    board.push_response(vec![0x00]); // status byte of GetIrqStatus
    board.push_response(vec![0x00, 0x02]); // IRQ flags: RxDone
    board.push_response(vec![0x00]); // status byte of GetRxBufferStatus
    board.push_response(vec![10, 0]); // ten bytes waiting
    let mut radio = Sx126xRadio::new(board, tcxo_board_config(), true).unwrap();
    let config = RfConfig {
        frequency: 868_100_000,
        spreading_factor: SpreadingFactor::SF7,
        bandwidth: Bandwidth::Bw125,
        coding_rate: CodingRate::Cr4_5,
    };
    let mut buffer: Vec<u8> = vec![0; 4];
    assert_eq!(
        radio.rx(config, &mut buffer),
        Err(RadioError::PayloadSizeMismatch(10, 4))
    );
    assert_eq!(buffer, vec![0; 4]);
}

#[test]
fn operations_fail_fast_without_stored_parameters() {
    let mut lora = LoRa::new(FakeBoard::new(), tcxo_board_config());
    assert_eq!(
        lora.sub_set_modulation_params(),
        Err(RadioError::ModulationParamsMissing)
    );
    assert_eq!(
        lora.sub_set_packet_params(),
        Err(RadioError::PacketParamsMissing)
    );
    assert_eq!(
        lora.set_max_payload_length(12),
        Err(RadioError::PacketParamsMissing)
    );
    assert_eq!(
        lora.sub_get_rx_buffer_status(),
        Err(RadioError::PacketParamsMissing)
    );
    assert!(lora.board.events.is_empty());
}

#[test]
fn board_failures_surface_with_their_kind() {
    let mut board = FakeBoard::new();
    board.fail_pins = true;
    board.fail_kind = 7;
    let mut lora = LoRa::new(board, tcxo_board_config());
    assert_eq!(lora.brd_reset(), Err(RadioError::DigitalOut(7)));

    let mut board = FakeBoard::new();
    board.fail_spi = true;
    board.fail_kind = 9;
    let mut lora = LoRa::new(board, tcxo_board_config());
    lora.operating_mode = RadioMode::StandbyRC;
    assert_eq!(
        lora.sub_set_standby(StandbyMode::RC),
        Err(RadioError::Spi(9))
    );

    let mut board = FakeBoard::new();
    board.fail_busy_wait = true;
    board.fail_kind = 3;
    let mut lora = LoRa::new(board, tcxo_board_config());
    lora.operating_mode = RadioMode::StandbyRC;
    assert_eq!(
        lora.sub_set_standby(StandbyMode::RC),
        Err(RadioError::BusyWait(3))
    );

    let mut board = FakeBoard::new();
    board.fail_dio1_wait = true;
    board.fail_kind = 5;
    let mut lora = LoRa::new(board, tcxo_board_config());
    lora.operating_mode = RadioMode::Receive;
    let mut buffer: Vec<u8> = vec![0; 4];
    let mut len: u8 = 0;
    let mut cad = false;
    assert_eq!(
        lora.process_irq(&mut buffer, &mut len, &mut cad),
        Err(RadioError::Dio1Wait(5))
    );
}

#[test]
fn spurious_interrupt_sources_keep_the_wait_alive() {
    let mut board = FakeBoard::new();
    // first a preamble detection alone, then the real TxDone
    board.push_response(vec![0x00]);
    board.push_response(vec![0x00, 0x04]);
    board.push_response(vec![0x00]);
    board.push_response(vec![0x00, 0x01]);
    let mut lora = LoRa::new(board, tcxo_board_config());
    lora.operating_mode = RadioMode::Transmit;
    let mut buffer: Vec<u8> = vec![0; 4];
    let mut len: u8 = 0;
    let mut cad = false;
    assert_eq!(lora.process_irq(&mut buffer, &mut len, &mut cad), Ok(()));
    // both IRQ reads were answered and cleared
    assert_contains_frame(&lora.board.events, &[0x02, 0x00, 0x04]);
    assert_contains_frame(&lora.board.events, &[0x02, 0x00, 0x01]);
}

#[test]
fn transmit_timeouts_and_receive_timeouts_follow_the_mode() {
    let mut board = FakeBoard::new();
    board.push_response(vec![0x00]);
    board.push_response(vec![0x02, 0x00]); // Timeout flag
    let mut lora = LoRa::new(board, tcxo_board_config());
    lora.operating_mode = RadioMode::Transmit;
    let mut buffer: Vec<u8> = vec![0; 4];
    let mut len: u8 = 0;
    let mut cad = false;
    assert_eq!(
        lora.process_irq(&mut buffer, &mut len, &mut cad),
        Err(RadioError::TransmitTimeout)
    );
}

#[test]
fn cad_completion_reports_the_detection_outcome() {
    let mut board = FakeBoard::new();
    board.push_response(vec![0x00]);
    board.push_response(vec![0x01, 0x80]); // CadDone | CadActivityDetected
    let mut lora = LoRa::new(board, tcxo_board_config());
    lora.operating_mode = RadioMode::ChannelActivityDetection;
    let mut buffer: Vec<u8> = vec![0; 4];
    let mut len: u8 = 0;
    let mut cad = false;
    assert_eq!(lora.process_irq(&mut buffer, &mut len, &mut cad), Ok(()));
    assert!(cad);
}
