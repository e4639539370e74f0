//! Tests for the numeric and temporal codecs.

use exirs::datetime::DateTime;
use exirs::datetime::ExiDateTime;
use exirs::datetime::FractionalSecs;
use exirs::datetime::FRACT_PRESENCE;
use exirs::error::TemporalError;
use exirs::float::ExiFloat;

fn float_roundtrip(v: f64) -> f64 {
    f64::from_bits(ExiFloat::from_bits(v.to_bits()).to_bits())
}

#[test]
fn exip_floats() {
    assert_eq!(float_roundtrip(f64::INFINITY), f64::INFINITY);
    assert_eq!(float_roundtrip(f64::MAX), f64::MAX);
    assert_eq!(float_roundtrip(0.3), 0.3);
    assert_eq!(float_roundtrip(std::f64::consts::E), std::f64::consts::E);
    assert_eq!(float_roundtrip(std::f64::consts::PI), std::f64::consts::PI);
    assert_eq!(float_roundtrip(std::f64::consts::TAU), std::f64::consts::TAU);
    // The wire pair carries no sign, so negative extremes come back positive.
    assert_eq!(float_roundtrip(f64::NEG_INFINITY), f64::INFINITY);
    assert_eq!(float_roundtrip(f64::MIN), f64::MAX);
}

#[test]
fn float_split_fields() {
    // 1.0 is exponent 1023 with a zero mantissa.
    let f = ExiFloat::from_bits(1.0f64.to_bits());
    assert_eq!(f.mantissa, 0);
    assert_eq!(f.exponent, 1023);
    // A NaN pattern with a clear sign bit round-trips bit-exactly.
    let nan_bits = f64::NAN.to_bits() & 0x7FFF_FFFF_FFFF_FFFF;
    assert_eq!(ExiFloat::from_bits(nan_bits).to_bits(), nan_bits);
}

#[test]
fn time_conversion() {
    // 2012-07-31 13:33:55.000839, the 839 microseconds as nanoseconds.
    let dt = DateTime::new(2012, 7, 31, 13, 33, 55, 839_000).unwrap();
    assert_eq!(dt, DateTime::from_wire(&ExiDateTime::from_calendar(&dt)).unwrap());
}

#[test]
fn datetime_wire_fields() {
    let dt = DateTime::new(2012, 7, 31, 13, 33, 55, 839_000).unwrap();
    let w = ExiDateTime::from_calendar(&dt);
    assert_eq!(w.year_offset, 112);
    assert_eq!(w.month0, 6);
    assert_eq!(w.day, 31);
    assert_eq!(w.hour, 13);
    assert_eq!(w.minute, 33);
    assert_eq!(w.second, 55);
    assert_eq!(w.fractional, FractionalSecs { offset: 8, value: 839_000 });
    assert_eq!(w.presence_mask, FRACT_PRESENCE);
    assert_eq!(w.time_zone, 0);
}

#[test]
fn datetime_fraction_scaling() {
    // Offset 5 means the value counts 10-microsecond ticks; decoding
    // scales it up by 10^(8-5).
    let w = ExiDateTime {
        year_offset: 100,
        month0: 0,
        day: 1,
        hour: 0,
        minute: 0,
        second: 0,
        fractional: FractionalSecs { offset: 5, value: 839 },
        time_zone: 0,
        presence_mask: FRACT_PRESENCE,
    };
    assert_eq!(DateTime::from_wire(&w).unwrap().nanosecond, 839_000);
}

#[test]
fn datetime_fraction_absent() {
    // Without the presence bit the stored fraction is ignored; an offset
    // beyond 8 likewise yields zero.
    let mut w = ExiDateTime {
        year_offset: 100,
        month0: 0,
        day: 1,
        hour: 0,
        minute: 0,
        second: 0,
        fractional: FractionalSecs { offset: 8, value: 777 },
        time_zone: 0,
        presence_mask: 0,
    };
    assert_eq!(DateTime::from_wire(&w).unwrap().nanosecond, 0);
    w.presence_mask = FRACT_PRESENCE;
    w.fractional.offset = 9;
    assert_eq!(DateTime::from_wire(&w).unwrap().nanosecond, 0);
}

#[test]
fn datetime_invalid_fields() {
    // Out-of-range month, day, and hour are refused, not panicked on.
    assert_eq!(
        DateTime::new(2021, 13, 1, 0, 0, 0, 0),
        Err(TemporalError::InvalidTemporal)
    );
    assert_eq!(
        DateTime::new(2021, 2, 29, 0, 0, 0, 0),
        Err(TemporalError::InvalidTemporal)
    );
    assert!(DateTime::new(2020, 2, 29, 0, 0, 0, 0).is_ok());
    assert_eq!(
        DateTime::new(2021, 6, 31, 0, 0, 0, 0),
        Err(TemporalError::InvalidTemporal)
    );
    assert_eq!(
        DateTime::new(2021, 6, 30, 24, 0, 0, 0),
        Err(TemporalError::InvalidTemporal)
    );
    let bad = ExiDateTime {
        year_offset: 100,
        month0: 12,
        day: 1,
        hour: 0,
        minute: 0,
        second: 0,
        fractional: FractionalSecs { offset: 8, value: 0 },
        time_zone: 0,
        presence_mask: FRACT_PRESENCE,
    };
    assert_eq!(DateTime::from_wire(&bad), Err(TemporalError::InvalidTemporal));
}

#[test]
fn datetime_default_is_blank() {
    let w = ExiDateTime::default();
    assert_eq!(w.presence_mask, 0);
    assert_eq!(w.year_offset, 0);
    assert_eq!(w.fractional, FractionalSecs { offset: 0, value: 0 });
}
