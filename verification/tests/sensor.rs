use reflow_oven::sensor::{decode_max31855, word_from_bits, SensorError, SimulatedSensor, TemperatureSensor};

#[test]
fn max31855_decodes_positive_temperature() {
    // +1600.00°C: 0x1900 quarters in bits 31..18
    assert_eq!(decode_max31855(0x6400_0000), Ok(1_600_000));
    // +25.25°C
    assert_eq!(decode_max31855(101 << 18), Ok(25_250));
}

#[test]
fn max31855_decodes_negative_temperature() {
    // -250.00°C: 0x3C18 in bits 31..18
    assert_eq!(decode_max31855(0xF060_0000), Ok(-250_000));
    // -0.25°C
    assert_eq!(decode_max31855(0xFFFC_0000), Ok(-250));
}

#[test]
fn max31855_reports_fault() {
    assert_eq!(decode_max31855(0x0001_0001), Err(SensorError::Fault(1)));
    assert_eq!(decode_max31855(0x6401_0007), Err(SensorError::Fault(7)));
}

#[test]
fn word_assembled_msb_first() {
    let mut bits = [false; 32];
    bits[0] = true;
    bits[31] = true;
    assert_eq!(word_from_bits(&bits), 0x8000_0001);
    let bits = [true; 32];
    assert_eq!(word_from_bits(&bits), u32::MAX);
    let mut bits = [false; 32];
    bits[15] = true; // bit 16: the fault flag
    assert_eq!(word_from_bits(&bits), 0x0001_0000);
}

#[test]
fn simulated_oven_heats_and_cools() {
    let mut sim = SimulatedSensor::new();
    assert_eq!(sim.read_celsius(), Ok(25_000));
    sim.set_duty(100_000);
    sim.tick(1_000); // full heat: +3°C/s
    assert_eq!(sim.read_celsius(), Ok(28_000));
    sim.set_duty(0);
    sim.temperature = 125_000_000_000;
    sim.tick(1_000); // 100°C above ambient loses 0.5°C/s
    assert_eq!(sim.temperature, 124_500_000_000);
    assert_eq!(sim.read_celsius(), Ok(124_500));
    sim.temperature = 25_001_000_000;
    sim.tick(250); // 1 m°C above ambient still loses 1.25 µ°C
    assert_eq!(sim.temperature, 25_000_998_750);
}

#[test]
fn simulated_oven_keeps_converging_to_ambient() {
    let mut sim = SimulatedSensor::new();
    sim.temperature = 26_000_000_000;
    for _ in 0..8_000 {
        sim.tick(250);
    }
    // after 2000 s: 1°C · e^-10 ≈ 45 µ°C above ambient
    assert!(sim.temperature > 25_000_000_000);
    assert!(sim.temperature < 25_000_100_000);
    assert_eq!(sim.read_celsius(), Ok(25_000));
}

#[test]
fn simulated_reading_rounds_down() {
    let mut sim = SimulatedSensor::new();
    sim.temperature = -1;
    assert_eq!(sim.read_celsius(), Ok(-1));
    sim.temperature = -1_000_000;
    assert_eq!(sim.read_celsius(), Ok(-1));
    sim.temperature = 999_999;
    assert_eq!(sim.read_celsius(), Ok(0));
    sim.temperature = i64::MAX;
    assert_eq!(sim.read_celsius(), Ok(i32::MAX));
}
