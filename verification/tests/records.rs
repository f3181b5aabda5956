use finder_7m24::measurement::assemble_counter;
use finder_7m24::measurement::decode_measurement;
use finder_7m24::measurement::Counter;
use finder_7m24::measurement::CounterWords;
use finder_7m24::measurement::MeasurementWords;
use finder_7m24::modbus_datatypes::DecodeError;

/// Evaluates the coarse value of a counter as the meter tooling does:
/// both the mantissa and the exponent cast to `f32`, combined by
/// floating-point exponentiation.
fn counter_val_f32(c: &Counter) -> f32 {
    (c.mantissa as f32) * 10.0_f32.powf(c.exp as f32)
}

fn sample_counter_words() -> CounterWords {
    CounterWords {
        exp: vec![0xFFFD],
        mantissa: vec![0x0001, 0xE240],
        x10: vec![0x0000, 0x04D2],
        float: vec![0x42F6, 0xE666],
    }
}

#[test]
fn test_assemble_counter_fields() {
    let c = assemble_counter(&sample_counter_words()).unwrap();
    assert_eq!(c.exp, -3);
    assert_eq!(c.mantissa, 123456);
    assert_eq!(c.x10_tenths, 1234);
    assert_eq!(c.ieee_bits, 0x42F6_E666);
    assert_eq!((c.x10_tenths as f32) / 10.0, 123.4_f32);
    assert_eq!(f32::from_bits(c.ieee_bits), 123.45_f32);
}

#[test]
fn test_counter_val_formula() {
    // The coarse value is mantissa * 10^exp, evaluated in floating
    // point with the exponent cast to a float, for positive and
    // negative exponents and mantissas alike.
    let plain = assemble_counter(&CounterWords {
        exp: vec![0x0002],
        mantissa: vec![0x0000, 0x0005],
        x10: vec![0x0000, 0x0000],
        float: vec![0x0000, 0x0000],
    })
    .unwrap();
    assert_eq!(plain.exp, 2);
    assert_eq!(plain.mantissa, 5);
    assert_eq!(counter_val_f32(&plain), 500.0_f32);

    let negative_mantissa = assemble_counter(&CounterWords {
        exp: vec![0x0002],
        mantissa: vec![0xFFFF, 0xFFFB],
        x10: vec![0x0000, 0x0000],
        float: vec![0x0000, 0x0000],
    })
    .unwrap();
    assert_eq!(negative_mantissa.mantissa, -5);
    assert_eq!(counter_val_f32(&negative_mantissa), -500.0_f32);

    let negative_exp = assemble_counter(&sample_counter_words()).unwrap();
    assert_eq!(negative_exp.exp, -3);
    assert_eq!(negative_exp.mantissa, 123456);
    assert_eq!(counter_val_f32(&negative_exp), 123.45601_f32);

    // The same pair always evaluates to the same bits.
    let again = assemble_counter(&sample_counter_words()).unwrap();
    assert_eq!(counter_val_f32(&negative_exp).to_bits(), counter_val_f32(&again).to_bits());
}

#[test]
fn test_assemble_counter_length_mismatch() {
    let mut words = sample_counter_words();
    words.mantissa = vec![0x0001];
    assert_eq!(assemble_counter(&words), Err(DecodeError::InvalidInputLength));
    let mut words2 = sample_counter_words();
    words2.exp = vec![0xFFFD, 0x0000];
    assert_eq!(assemble_counter(&words2), Err(DecodeError::InvalidInputLength));
}

fn sample_measurement_words() -> MeasurementWords {
    MeasurementWords {
        runtime: vec![0x075B, 0xCD15],
        frequency: vec![0xFD01, 0xE240],
        u1: vec![0x0000, 0x00E6],
        i1: vec![0xFE00, 0x03DB],
        pt: vec![0xFDFE, 0x1DC0],
        qt: vec![0x0000, 0x0000],
        st: vec![0xFD01, 0xE240],
        pft: vec![0xFF00, 0x1234],
        temp: vec![0xCFC7],
        u1_thd: vec![0x0102],
        i1_thd: vec![0x0201],
        c1: sample_counter_words(),
        c4: sample_counter_words(),
        x3: sample_counter_words(),
    }
}

#[test]
fn test_decode_measurement_fields() {
    let m = decode_measurement(7, &sample_measurement_words()).unwrap();
    assert_eq!(m.device_id, 7);
    assert_eq!(m.device_timestamp, 123456789);
    assert_eq!(m.frequency.mantissa, 123456);
    assert_eq!(m.frequency.exp, -3);
    assert_eq!(m.u1.mantissa, 0xE6);
    assert_eq!(m.u1.exp, 0);
    assert_eq!(m.i1.mantissa, 0x03DB);
    assert_eq!(m.i1.exp, -2);
    assert_eq!(m.pt.mantissa, -123456);
    assert_eq!(m.pt.exp, -3);
    assert_eq!(m.qt.mantissa, 0);
    assert_eq!(m.qt.exp, 0);
    assert_eq!(m.st.mantissa, 123456);
    assert_eq!(m.st.exp, -3);
    assert_eq!(m.pft, -0x1234);
    assert_eq!(m.temp.mantissa, -12345);
    assert_eq!(m.temp.exp, -2);
    assert_eq!(m.u1_thd.mantissa, 0x0102);
    assert_eq!(m.i1_thd.mantissa, 0x0201);
    assert_eq!(m.c1.mantissa, 123456);
    assert_eq!(m.c4.x10_tenths, 1234);
    assert_eq!(m.x3.ieee_bits, 0x42F6_E666);
}

#[test]
fn test_decode_measurement_length_mismatch() {
    let mut words = sample_measurement_words();
    words.temp = vec![0xCFC7, 0x0000];
    assert_eq!(decode_measurement(7, &words), Err(DecodeError::InvalidInputLength));
    let mut words2 = sample_measurement_words();
    words2.x3.float = vec![0x42F6];
    assert_eq!(decode_measurement(7, &words2), Err(DecodeError::InvalidInputLength));
}

#[test]
fn test_decode_measurement_idempotent() {
    let words = sample_measurement_words();
    assert_eq!(decode_measurement(3, &words).unwrap(), decode_measurement(3, &words).unwrap());
}
