//! Unit checks for the pure conversions: timeout packing, big-endian
//! assembly, the PLL-step fixed point, the symbol-timeout encoder, the
//! low-data-rate rule, the status decoders and the parameter constructors.

use sx126x_lora::fake::FakeBoard;
use sx126x_lora::lora::LoRa;
use sx126x_lora::mod_params::Bandwidth;
use sx126x_lora::mod_params::CodingRate;
use sx126x_lora::mod_params::RadioError;
use sx126x_lora::mod_params::SpreadingFactor;
use sx126x_lora::mod_params::ldro_required;
use sx126x_lora::subroutine::decode_rssi_byte;
use sx126x_lora::subroutine::decode_snr_byte;

type Driver = LoRa<FakeBoard>;

/// The PLL-step count a frequency should map to: `f * 2^25 / 32 MHz`
/// rounded half up, computed in wide arithmetic.
fn reference_pll_steps(f: u64) -> u64 {
    (((f as u128) << 25) + 16_000_000) as u64 / 32_000_000
}

#[test]
fn timeout_bytes_pack_big_endian() {
    assert_eq!(Driver::timeout_1(0x00012345), 0x01);
    assert_eq!(Driver::timeout_2(0x00012345), 0x23);
    assert_eq!(Driver::timeout_3(0x00012345), 0x45);
    assert_eq!(Driver::timeout_1(320), 0x00);
    assert_eq!(Driver::timeout_2(320), 0x01);
    assert_eq!(Driver::timeout_3(320), 0x40);
    assert_eq!(Driver::timeout_1(0xFFFFFF), 0xFF);
}

#[test]
fn u32_assembles_big_endian() {
    assert_eq!(
        Driver::convert_u8_buffer_to_u32(&[0x12, 0x34, 0x56, 0x78]),
        0x12345678
    );
    assert_eq!(Driver::convert_u8_buffer_to_u32(&[0, 0, 0, 0]), 0);
    assert_eq!(
        Driver::convert_u8_buffer_to_u32(&[0xFF, 0xFF, 0xFF, 0xFF]),
        0xFFFFFFFF
    );
}

#[test]
fn pll_step_conversion_is_exact_for_868_1_mhz() {
    let steps = Driver::convert_freq_in_hz_to_pll_step(868_100_000);
    assert_eq!(steps as u64, reference_pll_steps(868_100_000));
}

#[test]
fn pll_step_conversion_rounds_to_nearest_over_the_band() {
    // the whole radio band in coarse strides, plus the band edges and a few
    // regional channel frequencies
    let mut freqs: Vec<u32> = vec![
        150_000_000,
        433_050_000,
        470_300_000,
        868_100_000,
        868_300_000,
        915_000_000,
        923_300_000,
        960_000_000,
    ];
    let mut f: u64 = 150_000_000;
    while f <= 960_000_000 {
        freqs.push(f as u32);
        f += 7_777_777;
    }
    for f in freqs {
        let steps = Driver::convert_freq_in_hz_to_pll_step(f) as u64;
        assert_eq!(steps, reference_pll_steps(f as u64), "frequency {}", f);
        // within half a step of the exact ratio, so within one of any rounding
        let diff = 32_000_000i128 * steps as i128 - ((f as i128) << 25);
        assert!(-16_000_000 < diff && diff <= 16_000_000, "frequency {}", f);
    }
}

#[test]
fn symb_num_timeout_encoder_covers_every_count() {
    for n in 0u16..=248 {
        let (mant, exp) = Driver::symb_num_timeout_mant_exp(n);
        assert!(mant <= 31, "count {}", n);
        assert!(exp <= 1, "count {}", n);
        let waited = (mant as u32) << (2 * exp as u32 + 1);
        assert!(waited >= n as u32, "count {}", n);
    }
    // the clamp: anything above the maximum encodes like the maximum
    assert_eq!(
        Driver::symb_num_timeout_mant_exp(249),
        Driver::symb_num_timeout_mant_exp(248)
    );
    assert_eq!(
        Driver::symb_num_timeout_mant_exp(65535),
        Driver::symb_num_timeout_mant_exp(248)
    );
    // two exact points
    assert_eq!(Driver::symb_num_timeout_mant_exp(4), (2, 0));
    assert_eq!(Driver::symb_num_timeout_mant_exp(248), (31, 1));
}

#[test]
fn low_data_rate_optimization_follows_symbol_duration() {
    // 16 ms boundary: 2048 / 125000 s = 16.38 ms on, 1024 / 125000 s off
    assert!(ldro_required(SpreadingFactor::SF11, Bandwidth::Bw125));
    assert!(ldro_required(SpreadingFactor::SF12, Bandwidth::Bw125));
    assert!(ldro_required(SpreadingFactor::SF12, Bandwidth::Bw250));
    assert!(!ldro_required(SpreadingFactor::SF10, Bandwidth::Bw125));
    assert!(!ldro_required(SpreadingFactor::SF11, Bandwidth::Bw250));
    assert!(!ldro_required(SpreadingFactor::SF12, Bandwidth::Bw500));
    assert!(!ldro_required(SpreadingFactor::SF7, Bandwidth::Bw125));
    // narrow bandwidths reach it much earlier
    assert!(ldro_required(SpreadingFactor::SF8, Bandwidth::Bw10_4));
    assert!(!ldro_required(SpreadingFactor::SF7, Bandwidth::Bw10_4));
}

#[test]
fn rssi_and_snr_bytes_decode_per_datasheet() {
    // the values the reception-success scenario injects
    assert_eq!(decode_rssi_byte(110), -55);
    assert_eq!(decode_snr_byte(9), 2);
    // odd raw values round away from zero
    assert_eq!(decode_rssi_byte(111), -56);
    assert_eq!(decode_rssi_byte(0), 0);
    assert_eq!(decode_rssi_byte(255), -128);
    // negative SNR bytes are two's complement quarters, rounded half up
    assert_eq!(decode_snr_byte(0xFC), -1); // -4 quarters, -1 dB rounds to -1
    assert_eq!(decode_snr_byte(0xF8), -2); // -8 quarters, -2 dB
    assert_eq!(decode_snr_byte(0xFE), 0); // -2 quarters rounds up to 0
    assert_eq!(decode_snr_byte(0x04), 1);
    assert_eq!(decode_snr_byte(0x00), 0);
}

#[test]
fn spreading_factor_constructor_rejects_out_of_range() {
    assert!(matches!(
        SpreadingFactor::from_factor(7),
        Ok(SpreadingFactor::SF7)
    ));
    assert!(matches!(
        SpreadingFactor::from_factor(5),
        Ok(SpreadingFactor::SF5)
    ));
    assert!(matches!(
        SpreadingFactor::from_factor(12),
        Ok(SpreadingFactor::SF12)
    ));
    assert_eq!(
        SpreadingFactor::from_factor(4),
        Err(RadioError::InvalidSpreadingFactor)
    );
    assert_eq!(
        SpreadingFactor::from_factor(13),
        Err(RadioError::InvalidSpreadingFactor)
    );
}

#[test]
fn bandwidth_constructor_rejects_out_of_range() {
    assert!(matches!(Bandwidth::from_hz(125_000), Ok(Bandwidth::Bw125)));
    assert!(matches!(Bandwidth::from_hz(10_400), Ok(Bandwidth::Bw10_4)));
    assert!(matches!(Bandwidth::from_hz(500_000), Ok(Bandwidth::Bw500)));
    assert_eq!(Bandwidth::from_hz(123_456), Err(RadioError::InvalidBandwidth));
    assert_eq!(Bandwidth::from_hz(0), Err(RadioError::InvalidBandwidth));
}

#[test]
fn coding_rate_constructor_rejects_out_of_range() {
    assert!(matches!(CodingRate::from_denominator(5), Ok(CodingRate::Cr4_5)));
    assert!(matches!(CodingRate::from_denominator(8), Ok(CodingRate::Cr4_8)));
    assert_eq!(
        CodingRate::from_denominator(4),
        Err(RadioError::InvalidCodingRate)
    );
    assert_eq!(
        CodingRate::from_denominator(9),
        Err(RadioError::InvalidCodingRate)
    );
}

#[test]
fn chip_encoded_bytes_match_the_datasheet() {
    assert_eq!(SpreadingFactor::SF7.value(), 0x07);
    assert_eq!(Bandwidth::Bw125.value(), 0x04);
    assert_eq!(Bandwidth::Bw250.value(), 0x05);
    assert_eq!(Bandwidth::Bw500.value(), 0x06);
    assert_eq!(Bandwidth::Bw10_4.value(), 0x08);
    assert_eq!(CodingRate::Cr4_5.value(), 0x01);
    assert_eq!(CodingRate::Cr4_8.value(), 0x04);
}
