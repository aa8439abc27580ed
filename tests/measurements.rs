use attestation::{
    FullMeasurements, FullMeasurementsHex, HexBytes, Measurements, MeasurementsError,
    MeasurementsHex, ReportBody, Td10Registers,
};
use std::cmp::Ordering;

fn filled(seed: u8) -> [u8; 48] {
    let mut b = [0u8; 48];
    for (i, x) in b.iter_mut().enumerate() {
        *x = seed.wrapping_add((i as u8).wrapping_mul(3));
    }
    b
}

fn sample() -> Measurements {
    Measurements { mrtd: filled(1), rtmr0: filled(2), rtmr1: filled(3), rtmr2: filled(4) }
}

fn same(a: &Measurements, b: &Measurements) -> bool {
    a.mrtd == b.mrtd && a.rtmr0 == b.rtmr0 && a.rtmr1 == b.rtmr1 && a.rtmr2 == b.rtmr2
}

#[test]
fn zeroed_is_all_zero() {
    let m = Measurements::zeroed();
    assert_eq!(m.mrtd, [0; 48]);
    assert_eq!(m.rtmr0, [0; 48]);
    assert_eq!(m.rtmr1, [0; 48]);
    assert_eq!(m.rtmr2, [0; 48]);
    assert!(same(&m, &Measurements::default()));
}

#[test]
fn full_zeroed_is_all_zero() {
    let m = FullMeasurements::zeroed();
    assert!(same(&m.rtmrs, &Measurements::zeroed()));
    assert_eq!(m.key_provider_event_digest, [0; 48]);
    assert_eq!(m.app_compose_hash_payload, [0; 32]);
}

#[test]
fn hex_defaults_are_zero() {
    let h = MeasurementsHex::default();
    assert_eq!(h, MeasurementsHex::from(Measurements::zeroed()));
    let f = FullMeasurementsHex::default();
    assert_eq!(f, FullMeasurementsHex::from(FullMeasurements::zeroed()));
}

#[test]
fn extraction_copies_td10_registers() {
    let td = Td10Registers { mr_td: filled(9), rt_mr0: filled(10), rt_mr1: filled(11), rt_mr2: filled(12) };
    let m = Measurements::from_report_body(ReportBody::Td10(td)).unwrap();
    assert_eq!(m.mrtd, filled(9));
    assert_eq!(m.rtmr0, filled(10));
    assert_eq!(m.rtmr1, filled(11));
    assert_eq!(m.rtmr2, filled(12));
}

#[test]
fn extraction_rejects_other_formats() {
    let r = Measurements::from_report_body(ReportBody::Unsupported);
    assert!(matches!(r, Err(MeasurementsError::NoTd10Report)));
}

#[test]
fn binary_hex_round_trip() {
    let m = sample();
    let h = MeasurementsHex::from(m);
    assert_eq!(h.mrtd.bytes, m.mrtd);
    let back = Measurements::from(h.clone());
    assert!(same(&back, &m));
    assert_eq!(MeasurementsHex::from(back), h);
}

#[test]
fn full_binary_hex_round_trip() {
    let m = FullMeasurements {
        rtmrs: sample(),
        key_provider_event_digest: filled(77),
        app_compose_hash_payload: [0xc3; 32],
    };
    let h = FullMeasurementsHex::from(m);
    let back = FullMeasurements::from(h.clone());
    assert!(same(&back.rtmrs, &m.rtmrs));
    assert_eq!(back.key_provider_event_digest, m.key_provider_event_digest);
    assert_eq!(back.app_compose_hash_payload, m.app_compose_hash_payload);
    assert_eq!(FullMeasurementsHex::from(back), h);
}

#[test]
fn decode_from_strings() {
    let m = sample();
    let h = MeasurementsHex::from(m);
    let d = MeasurementsHex::decode(
        &h.mrtd.encode(),
        &h.rtmr0.encode().to_uppercase(),
        &h.rtmr1.encode(),
        &h.rtmr2.encode(),
    )
    .unwrap();
    assert_eq!(d, h);
}

#[test]
fn decode_reports_first_bad_field() {
    let good = "ab".repeat(48);
    let r = MeasurementsHex::decode(&good, &good, "xyz", "q");
    assert_eq!(r, Err(MeasurementsError::InvalidLength("rtmr1".to_string(), 3)));
    let bad = "zz".repeat(48);
    let r = MeasurementsHex::decode(&bad, "", &good, &good);
    assert_eq!(r, Err(MeasurementsError::InvalidHexValue("mrtd".to_string(), bad.clone())));
    let r = MeasurementsHex::decode(&good, &good, &good, &bad);
    assert_eq!(r, Err(MeasurementsError::InvalidHexValue("rtmr2".to_string(), bad.clone())));
}

#[test]
fn order_goes_by_field_order() {
    let mut a = sample();
    let mut b = sample();
    a.mrtd[0] = 1;
    b.mrtd[0] = 2;
    a.rtmr2[0] = 9;
    b.rtmr2[0] = 0;
    let ha = MeasurementsHex::from(a);
    let hb = MeasurementsHex::from(b);
    assert!(ha < hb);
    assert!(hb > ha);
    assert_ne!(ha, hb);
    assert_eq!(ha.partial_cmp(&hb), Some(Ordering::Less));
    assert_eq!(ha.cmp(&hb), Ordering::Less);
}

#[test]
fn order_is_total_on_distinct_values() {
    let values: Vec<MeasurementsHex> = (0u8..4)
        .map(|k| {
            let mut m = sample();
            m.rtmr1[47] = k;
            m.rtmr0[0] = 3 - k / 2;
            MeasurementsHex::from(m)
        })
        .collect();
    for a in &values {
        for b in &values {
            let n = [a < b, a == b, a > b].iter().filter(|x| **x).count();
            assert_eq!(n, 1);
            assert_eq!(a.partial_cmp(b), Some(a.cmp(b)));
        }
    }
}

#[test]
fn full_order_uses_rtmrs_first() {
    let base = FullMeasurements {
        rtmrs: sample(),
        key_provider_event_digest: filled(5),
        app_compose_hash_payload: [1; 32],
    };
    let mut other = base;
    other.app_compose_hash_payload = [0; 32];
    let a = FullMeasurementsHex::from(base);
    let b = FullMeasurementsHex::from(other);
    assert!(b < a);
    other.rtmrs.mrtd[0] = base.rtmrs.mrtd[0].wrapping_add(1);
    let c = FullMeasurementsHex::from(other);
    assert!(a < c);
    assert_eq!(a.partial_cmp(&a), Some(Ordering::Equal));
}

#[test]
fn hex_bytes_from_array_keeps_bytes() {
    let h = HexBytes::<48>::from(filled(200));
    assert_eq!(h.bytes, filled(200));
}

#[test]
fn measurements_equality_is_bytewise() {
    let a = sample();
    let mut b = a;
    assert_eq!(a, b);
    b.rtmr2[47] ^= 1;
    assert_ne!(a, b);
    let fa = FullMeasurements { rtmrs: a, key_provider_event_digest: filled(1), app_compose_hash_payload: [7; 32] };
    let mut fb = fa;
    assert_eq!(fa, fb);
    fb.app_compose_hash_payload[0] = 8;
    assert_ne!(fa, fb);
}

#[test]
fn full_decode_from_strings() {
    let rtmrs = MeasurementsHex::from(sample());
    let key = HexBytes::<48>::from(filled(60));
    let app = HexBytes::<32>::from([0x3c; 32]);
    let f = FullMeasurementsHex::decode(rtmrs.clone(), &key.encode().to_uppercase(), &app.encode())
        .unwrap();
    assert_eq!(f.rtmrs, rtmrs);
    assert_eq!(f.key_provider_event_digest, key);
    assert_eq!(f.app_compose_hash_payload, app);
}

#[test]
fn full_decode_reports_first_bad_digest() {
    let rtmrs = MeasurementsHex::from(sample());
    let key = "ab".repeat(48);
    let r = FullMeasurementsHex::decode(rtmrs.clone(), "abc", "zz");
    assert_eq!(
        r,
        Err(MeasurementsError::InvalidLength("key_provider_event_digest".to_string(), 3))
    );
    let r = FullMeasurementsHex::decode(rtmrs.clone(), &key, &"ab".repeat(48));
    assert_eq!(
        r,
        Err(MeasurementsError::InvalidLength("app_compose_hash_payload".to_string(), 96))
    );
    let bad = format!("{}g", "0".repeat(63));
    let r = FullMeasurementsHex::decode(rtmrs, &key, &bad);
    assert_eq!(
        r,
        Err(MeasurementsError::InvalidHexValue("app_compose_hash_payload".to_string(), bad.clone()))
    );
}
