//! Checks for the status-reading subroutines and the remaining frame
//! packers: chip status and device errors decode, instantaneous RSSI,
//! implicit-header payload reads, IRQ routing masks, and the fixed
//! receive-window timings.

use sx126x_lora::fake::FakeBoard;
use sx126x_lora::fake::FakeEvent;
use sx126x_lora::lora::LoRa;
use sx126x_lora::mod_params::BoardConfig;
use sx126x_lora::mod_params::OscillatorMode;
use sx126x_lora::mod_params::PacketParams;
use sx126x_lora::mod_params::PacketType;
use sx126x_lora::mod_params::RadioMode;
use sx126x_lora::mod_params::RadioType;
use sx126x_lora::mod_params::TcxoCtrlVoltage;
use sx126x_lora::radio::Sx126xRadio;

fn board_config() -> BoardConfig {
    BoardConfig {
        radio_type: RadioType::SX1262,
        oscillator_mode: OscillatorMode::Tcxo,
        tcxo_voltage: TcxoCtrlVoltage::Ctrl1V7,
        dio2_antenna_control: true,
    }
}

fn standby_driver(board: FakeBoard) -> LoRa<FakeBoard> {
    let mut lora = LoRa::new(board, board_config());
    lora.operating_mode = RadioMode::StandbyRC;
    lora
}

fn has_frame(events: &[FakeEvent], frame: &[u8]) -> bool {
    events.iter().any(|e| match e {
        FakeEvent::Wrote(v) => v.as_slice() == frame,
        _ => false,
    })
}

#[test]
fn chip_status_byte_splits_into_its_fields() {
    let mut board = FakeBoard::new();
    board.push_response(vec![0x34]); // the status byte clocked out on the NOP
    board.push_response(vec![]); // the empty response body
    let mut lora = standby_driver(board);
    let status = lora.sub_get_status().unwrap();
    assert_eq!(status.cmd_status, 2);
    assert_eq!(status.chip_mode, 3);
}

#[test]
fn device_errors_decode_bit_by_bit() {
    let mut board = FakeBoard::new();
    board.push_response(vec![0x00]);
    board.push_response(vec![0x01, 0x51]);
    let mut lora = standby_driver(board);
    let errors = lora.sub_get_device_errors().unwrap();
    assert!(errors.rc_64khz_calibration);
    assert!(!errors.rc_13mhz_calibration);
    assert!(!errors.pll_calibration);
    assert!(!errors.adc_calibration);
    assert!(errors.image_calibration);
    assert!(!errors.xosc_start);
    assert!(errors.pll_lock);
    assert!(errors.pa_ramp);
    // clearing writes the two zero bytes
    lora.sub_clear_device_errors().unwrap();
    assert!(has_frame(&lora.board.events, &[0x07, 0x00, 0x00]));
}

#[test]
fn instantaneous_rssi_decodes_the_raw_byte() {
    let mut board = FakeBoard::new();
    board.push_response(vec![0x00]);
    board.push_response(vec![110]);
    let mut lora = standby_driver(board);
    assert_eq!(lora.sub_get_rssi_inst().unwrap(), -55);
}

#[test]
fn irq_status_assembles_big_endian() {
    let mut board = FakeBoard::new();
    board.push_response(vec![0x00]);
    board.push_response(vec![0x02, 0x43]);
    let mut lora = standby_driver(board);
    assert_eq!(lora.sub_get_irq_status().unwrap(), 0x0243);
}

#[test]
fn implicit_header_reception_reads_the_payload_length_register() {
    let mut board = FakeBoard::new();
    board.push_response(vec![0x00]); // status byte of GetRxBufferStatus
    board.push_response(vec![99, 2]); // bogus status length, offset 2
    board.push_response(vec![5]); // the PayloadLength register
    board.push_response(vec![1, 2, 3, 4, 5]); // the payload at offset 2
    let mut lora = standby_driver(board);
    lora.packet_type = PacketType::LoRa;
    lora.packet_params = Some(PacketParams {
        preamble_length: 8,
        implicit_header: true,
        payload_length: 5,
        crc_on: true,
        iq_inverted: false,
    });
    let mut buffer: Vec<u8> = vec![0; 8];
    let len = lora.sub_get_payload(&mut buffer).unwrap();
    assert_eq!(len, 5);
    assert_eq!(&buffer[..5], &[1, 2, 3, 4, 5]);
    assert_eq!(&buffer[5..], &[0, 0, 0]);
    // the register read header and the buffer read at the reported offset
    assert!(has_frame(&lora.board.events, &[0x1D, 0x07, 0x02, 0x00]));
    assert!(has_frame(&lora.board.events, &[0x1E, 0x02, 0x00]));
}

#[test]
fn dio_irq_masks_pack_as_four_big_endian_words() {
    let mut lora = standby_driver(FakeBoard::new());
    lora.sub_set_dio_irq_params(0x0203, 0x0201, 0x0000, 0x0000).unwrap();
    assert!(has_frame(
        &lora.board.events,
        &[0x08, 0x02, 0x03, 0x02, 0x01, 0x00, 0x00, 0x00, 0x00]
    ));
}

#[test]
fn remaining_command_frames_carry_their_chip_bytes() {
    let mut lora = standby_driver(FakeBoard::new());
    lora.sub_set_fs().unwrap();
    assert!(has_frame(&lora.board.events, &[0xC1]));
    lora.sub_set_rx_duty_cycle(0x010203, 0x040506).unwrap();
    assert!(has_frame(
        &lora.board.events,
        &[0x94, 0x01, 0x02, 0x03, 0x04, 0x05, 0x06]
    ));
    lora.sub_set_stop_rx_timer_on_preamble_detect(true).unwrap();
    assert!(has_frame(&lora.board.events, &[0x9F, 0x01]));
    lora.sub_set_regulator_mode(sx126x_lora::mod_params::RegulatorMode::UseDCDC)
        .unwrap();
    assert!(has_frame(&lora.board.events, &[0x96, 0x01]));
    lora.sub_set_buffer_base_address(0x12, 0x34).unwrap();
    assert!(has_frame(&lora.board.events, &[0x8F, 0x12, 0x34]));
    lora.sub_set_rx_tx_fallback_mode(0x40).unwrap();
    assert!(has_frame(&lora.board.events, &[0x93, 0x40]));
    lora.sub_clear_irq_status(0x03FF).unwrap();
    assert!(has_frame(&lora.board.events, &[0x02, 0x03, 0xFF]));
    lora.sub_set_cad_params(
        sx126x_lora::mod_params::CADSymbols::On4,
        22,
        10,
        sx126x_lora::mod_params::CADExitMode::CadOnly,
        0x000102,
    )
    .unwrap();
    assert!(has_frame(
        &lora.board.events,
        &[0x88, 0x02, 22, 10, 0x00, 0x00, 0x01, 0x02]
    ));
    assert_eq!(
        lora.operating_mode,
        RadioMode::ChannelActivityDetection
    );
}

#[test]
fn receive_window_timings_are_fixed() {
    let radio = Sx126xRadio::new(FakeBoard::new(), board_config(), true).unwrap();
    assert_eq!(radio.get_rx_window_offset_ms(), -50);
    assert_eq!(radio.get_rx_window_duration_ms(), 1050);
}
