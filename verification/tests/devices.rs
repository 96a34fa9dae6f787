use mini_alpha::i2c_sensor::{I2CSensor, SensorResult, OUTPUT_VALUES_ADDR, OUTPUT_VALUES_LEN};
use mini_alpha::klapan::{Klapan, KlapanState, PinLevel};

#[test]
fn valve_pin_is_low_for_atmosphere_and_high_for_vacuum() {
    let mut klapan = Klapan::new(12u8);
    assert_eq!(klapan.set_state(KlapanState::Atmosphere), PinLevel::Low);
    assert_eq!(klapan.set_state(KlapanState::Vacuum), PinLevel::High);
    assert_eq!(klapan.set_state(KlapanState::Vacuum), PinLevel::High);
    assert_eq!(klapan.set_state(KlapanState::Atmosphere), PinLevel::Low);
}

#[test]
fn valve_keeps_its_pin() {
    let mut klapan = Klapan::new("gpio12".to_string());
    klapan.set_state(KlapanState::Vacuum);
    assert_eq!(klapan.pin, "gpio12");
}

#[test]
fn i2c_sensor_keeps_its_address() {
    assert_eq!(I2CSensor::new(15).address(), 15);
    assert_eq!(I2CSensor::new(12).address(), 12);
    assert_eq!(I2CSensor::new(0).address(), 0);
    assert_eq!(I2CSensor::new(255).address(), 255);
}

#[test]
fn i2c_block_layout() {
    assert_eq!(OUTPUT_VALUES_ADDR, 0);
    assert_eq!(OUTPUT_VALUES_LEN, 16);
}

#[test]
fn i2c_block_splits_into_four_words_least_significant_byte_first() {
    let sensor = I2CSensor::new(15);
    let mut block = [0u8; 16];
    block[0..4].copy_from_slice(&1.5f32.to_le_bytes());
    block[4..8].copy_from_slice(&(-20.25f32).to_le_bytes());
    block[8..12].copy_from_slice(&32768.0f32.to_le_bytes());
    block[12..16].copy_from_slice(&0x1234_5678u32.to_le_bytes());
    let res = sensor.read(&block);
    assert_eq!(
        res,
        SensorResult {
            pressure: 1.5f32.to_bits(),
            temperature: (-20.25f32).to_bits(),
            f_p: 32768.0f32.to_bits(),
            f_t: 0x1234_5678,
        }
    );
    assert_eq!(f32::from_bits(res.pressure), 1.5);
    assert_eq!(f32::from_bits(res.temperature), -20.25);
}

#[test]
fn i2c_block_of_all_ones() {
    let res = I2CSensor::new(1).read(&[0xff; 16]);
    assert_eq!(res.pressure, u32::MAX);
    assert_eq!(res.temperature, u32::MAX);
    assert_eq!(res.f_p, u32::MAX);
    assert_eq!(res.f_t, u32::MAX);
    let res = I2CSensor::new(1).read(&[1, 0, 0, 0, 0, 1, 0, 0, 0, 0, 1, 0, 0, 0, 0, 1]);
    assert_eq!(res.pressure, 1);
    assert_eq!(res.temperature, 0x100);
    assert_eq!(res.f_p, 0x1_0000);
    assert_eq!(res.f_t, 0x100_0000);
}
