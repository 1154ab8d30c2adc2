//! The TSPLAT loader on concrete streams: well-formed payloads parse into
//! exactly the declared records, and every malformed or short stream fails
//! with the format error and no partial result.

use splatview::load::{
    expected_payload_bytes, parse_tsplat, progress_permille, should_report_progress, LoadError,
};

fn header() -> Vec<u8> {
    let mut v = b"TSPLAT\n".to_vec();
    v.extend_from_slice(&1u32.to_le_bytes());
    v
}

fn one_triangle_payload() -> Vec<u8> {
    let mut v = header();
    let coords: [f32; 9] = [0.0, 0.0, 0.0, 1.0, 0.0, 0.0, 0.0, 1.0, 0.0];
    for c in coords {
        v.extend_from_slice(&c.to_le_bytes());
    }
    let alpha = half::f16::from_f32(0.75);
    let spread = half::f16::from_f32(2.0);
    v.extend_from_slice(&alpha.to_bits().to_le_bytes());
    v.extend_from_slice(&spread.to_bits().to_le_bytes());
    for c in [0.5f32, 0.25, 1.0] {
        v.extend_from_slice(&half::f16::from_f32(c).to_bits().to_le_bytes());
    }
    v
}

#[test]
fn one_triangle_parses() {
    let data = one_triangle_payload();
    let t = parse_tsplat(&data).expect("valid one-triangle stream");
    assert_eq!(t.num_tris(), 1);
    assert_eq!(t.points.len(), 1);
    assert_eq!(t.alpha_sigma.len(), 1);
    assert_eq!(t.sh.len(), 1);

    let tri = t.points[0];
    assert_eq!(tri.p0.x, 0.0f32.to_bits());
    assert_eq!(tri.p1.x, 1.0f32.to_bits());
    assert_eq!(tri.p2.y, 1.0f32.to_bits());

    let rec = t.alpha_sigma[0];
    assert_eq!(rec.alpha, half::f16::from_f32(0.75).to_bits());
    assert_eq!(rec.spread, half::f16::from_f32(2.0).to_bits());

    let color = t.sh[0];
    assert_eq!(color.c0, half::f16::from_f32(0.5).to_bits());
    assert_eq!(color.c1, half::f16::from_f32(0.25).to_bits());
    assert_eq!(color.c2, half::f16::from_f32(1.0).to_bits());
    assert_eq!(color.c3, 0, "the reserved component is zero-padded");
}

#[test]
fn two_triangles_split_the_regions_correctly() {
    // All triangle records come first, then all alpha/spread records, then
    // all color records: values landing in the right struct proves the
    // region offsets.
    let mut data = header_with_count(2);
    for i in 0..18 {
        data.extend_from_slice(&(i as f32).to_le_bytes());
    }
    for i in 0..4u16 {
        data.extend_from_slice(&half::f16::from_f32(100.0 + i as f32).to_bits().to_le_bytes());
    }
    for i in 0..6u16 {
        data.extend_from_slice(&half::f16::from_f32(200.0 + i as f32).to_bits().to_le_bytes());
    }
    let t = parse_tsplat(&data).expect("two well-formed triangles");
    assert_eq!(t.num_tris(), 2);
    assert_eq!(t.points[0].p0.x, 0.0f32.to_bits());
    assert_eq!(t.points[0].p2.z, 8.0f32.to_bits());
    assert_eq!(t.points[1].p0.x, 9.0f32.to_bits());
    assert_eq!(t.points[1].p2.z, 17.0f32.to_bits());
    assert_eq!(t.alpha_sigma[0].alpha, half::f16::from_f32(100.0).to_bits());
    assert_eq!(t.alpha_sigma[1].alpha, half::f16::from_f32(102.0).to_bits());
    assert_eq!(t.alpha_sigma[1].spread, half::f16::from_f32(103.0).to_bits());
    assert_eq!(t.sh[0].c0, half::f16::from_f32(200.0).to_bits());
    assert_eq!(t.sh[1].c0, half::f16::from_f32(203.0).to_bits());
    assert_eq!(t.sh[1].c2, half::f16::from_f32(205.0).to_bits());
    assert_eq!(t.sh[1].c3, 0);
}

#[test]
fn every_truncation_fails() {
    let data = one_triangle_payload();
    for cut in 0..data.len() {
        let short = data[..cut].to_vec();
        assert_eq!(
            parse_tsplat(&short),
            Err(LoadError::InvalidFormat),
            "a stream cut to {} bytes must be rejected",
            cut
        );
    }
}

#[test]
fn trailing_bytes_are_ignored() {
    let mut data = one_triangle_payload();
    data.extend_from_slice(&[1, 2, 3, 4]);
    let t = parse_tsplat(&data).expect("declared size is all that counts");
    assert_eq!(t.num_tris(), 1);
}

#[test]
fn zero_triangles_is_valid() {
    let data = header_with_count(0);
    let t = parse_tsplat(&data).expect("an empty splat set is well-formed");
    assert_eq!(t.num_tris(), 0);
    assert!(t.points.is_empty());
    assert!(t.alpha_sigma.is_empty());
    assert!(t.sh.is_empty());
}

fn header_with_count(n: u32) -> Vec<u8> {
    let mut v = b"TSPLAT\n".to_vec();
    v.extend_from_slice(&n.to_le_bytes());
    v
}

#[test]
fn wrong_magic_fails() {
    for bad in [&b"TSPLAT"[..], b"XSPLAT\n\0\0\0\0", b"TSPLATT\n\0\0\0\0", b"tsplat\n\0\0\0\0"] {
        let data = bad.to_vec();
        assert_eq!(parse_tsplat(&data), Err(LoadError::InvalidFormat));
    }
    let empty: Vec<u8> = Vec::new();
    assert_eq!(parse_tsplat(&empty), Err(LoadError::InvalidFormat));
}

#[test]
fn header_whitespace_is_trimmed() {
    let mut data = b"  TSPLAT \r\n".to_vec();
    data.extend_from_slice(&0u32.to_le_bytes());
    let t = parse_tsplat(&data).expect("surrounding whitespace is trimmed away");
    assert_eq!(t.num_tris(), 0);
}

#[test]
fn declared_size_formula() {
    assert_eq!(expected_payload_bytes(0), 0);
    assert_eq!(expected_payload_bytes(1), 46);
    assert_eq!(expected_payload_bytes(3), 138);
}

#[test]
fn error_message_text() {
    assert_eq!(LoadError::InvalidFormat.message(), "invalid model file");
}

#[test]
fn progress_reporting_helpers() {
    assert_eq!(progress_permille(0, 46), 0);
    assert_eq!(progress_permille(23, 46), 500);
    assert_eq!(progress_permille(46, 46), 1000);
    assert!(!should_report_progress(120, 100));
    assert!(should_report_progress(121, 100));
}
