//! Byte-level tests of the hemisphere geometry codec.

use gridlesslib::codec::DecodeError;
use gridlesslib::sphere::Hemisphere;

fn le32(x: u32) -> [u8; 4] {
    x.to_le_bytes()
}

fn le64(x: u64) -> [u8; 8] {
    x.to_le_bytes()
}

/// A handcrafted stream for nside 1 with two pixels.
fn sample_bytes() -> Vec<u8> {
    let mut b: Vec<u8> = Vec::new();
    b.extend_from_slice(&le32(1)); // nside
    b.extend_from_slice(&le64(2)); // npix
    b.extend_from_slice(&le64(0)); // visible indices
    b.extend_from_slice(&le64(1));
    b.extend_from_slice(&le32(0.25f32.to_bits())); // l
    b.extend_from_slice(&le32(0.5f32.to_bits()));
    b.extend_from_slice(&le32(0.75f32.to_bits())); // m
    b.extend_from_slice(&le32(1.0f32.to_bits()));
    b.extend_from_slice(&le32(0.1f32.to_bits())); // n
    b.extend_from_slice(&le32(0.2f32.to_bits()));
    b.extend_from_slice(&le32(0.3f32.to_bits())); // elevation
    b.extend_from_slice(&le32(0.4f32.to_bits()));
    b.extend_from_slice(&le32(0.6f32.to_bits())); // azimuth
    b.extend_from_slice(&le32(0.7f32.to_bits()));
    b
}

#[test]
fn test_from_binary_reads_fields() {
    let bytes = sample_bytes();
    let h = Hemisphere::from_binary(&bytes).expect("well-formed stream");

    assert_eq!(h.nside, 1);
    assert_eq!(h.npix, 2);
    assert_eq!(h.visible_indices, vec![0, 1]);
    assert_eq!(f32::from_bits(h.l[0].bits), 0.25);
    assert_eq!(f32::from_bits(h.l[1].bits), 0.5);
    assert_eq!(f32::from_bits(h.m[0].bits), 0.75);
    assert_eq!(f32::from_bits(h.m[1].bits), 1.0);
    assert_eq!(f32::from_bits(h.n[0].bits), 0.1);
    assert_eq!(f32::from_bits(h.n[1].bits), 0.2);
    assert_eq!(f32::from_bits(h.elaz[0].el.bits), 0.3);
    assert_eq!(f32::from_bits(h.elaz[1].el.bits), 0.4);
    assert_eq!(f32::from_bits(h.elaz[0].az.bits), 0.6);
    assert_eq!(f32::from_bits(h.elaz[1].az.bits), 0.7);

    // Brightness starts zeroed.
    assert_eq!(h.visible_pix.len(), 2);
    assert_eq!(f32::from_bits(h.visible_pix[0].bits), 0.0);
    assert_eq!(f32::from_bits(h.visible_pix[1].bits), 0.0);
}

#[test]
fn test_to_binary_reproduces_stream() {
    let bytes = sample_bytes();
    let h = Hemisphere::from_binary(&bytes).expect("well-formed stream");
    let reencoded = h.to_binary();
    assert_eq!(reencoded, bytes);
}

#[test]
fn test_from_binary_truncated() {
    let bytes = vec![1u8, 2, 3, 4, 5];
    assert!(matches!(Hemisphere::from_binary(&bytes), Err(DecodeError::Truncated)));
}

#[test]
fn test_from_binary_length_mismatch() {
    // A header declaring one pixel but carrying no payload.
    let mut bytes: Vec<u8> = Vec::new();
    bytes.extend_from_slice(&le32(4));
    bytes.extend_from_slice(&le64(1));
    assert!(matches!(Hemisphere::from_binary(&bytes), Err(DecodeError::LengthMismatch)));

    // A huge declared pixel count cannot match the stream length either.
    let mut big: Vec<u8> = Vec::new();
    big.extend_from_slice(&le32(4));
    big.extend_from_slice(&le64(u64::MAX));
    big.extend_from_slice(&[0u8; 28]);
    assert!(matches!(Hemisphere::from_binary(&big), Err(DecodeError::LengthMismatch)));
}
