use ark_bls12_381::{Fr, G1Affine};
use ark_ec::{AffineRepr, CurveGroup};
use ark_scale::{
    iter_ark_to_ark_bytes_g1, iter_ark_to_scale_bytes_g1, ArkScale, G1Element, ScaleError, WIRE,
};

fn four_points() -> Vec<G1Affine> {
    let g = G1Affine::generator();
    vec![
        g,
        (g * Fr::from(2u64)).into_affine(),
        (g * Fr::from(3u64)).into_affine(),
        (g * Fr::from(4u64)).into_affine(),
    ]
}

#[test]
fn four_point_wire_encoding_has_count_then_fixed_size_points() {
    let points = four_points();
    let elems: Vec<G1Element> = points.iter().map(|p| G1Element(*p)).collect();
    let bytes = iter_ark_to_ark_bytes_g1(&elems, WIRE).unwrap();

    // 8-byte little-endian count of 4, then 4 compressed 48-byte points
    assert_eq!(bytes.len(), 8 + 4 * 48);
    assert_eq!(&bytes[..8], &[4, 0, 0, 0, 0, 0, 0, 0]);
    for (i, p) in points.iter().enumerate() {
        let one = ArkScale::<G1Element, { WIRE }>(G1Element(*p)).encode();
        assert_eq!(&bytes[8 + 48 * i..8 + 48 * (i + 1)], &one[..]);
    }

    // decoding the buffer back yields the same four points
    let back = ArkScale::<Vec<G1Element>, { WIRE }>::decode(&bytes).unwrap();
    let recovered: Vec<G1Affine> = back.0.iter().map(|e| e.0).collect();
    assert_eq!(recovered, points);

    // re-encoding the decoded sequence through the ordinary sequence
    // path is byte-identical
    let again = back.0;
    let v: ArkScale<Vec<G1Element>, { WIRE }> = ArkScale(again);
    assert_eq!(v.encode(), bytes);
}

#[test]
fn streaming_and_wrapper_sequence_paths_agree() {
    let points = four_points();
    let elems: Vec<G1Element> = points.iter().map(|p| G1Element(*p)).collect();
    let streamed = iter_ark_to_scale_bytes_g1(&elems, WIRE).unwrap();
    let wrapped = ArkScale::<Vec<G1Element>, { WIRE }>(elems).encode();
    assert_eq!(streamed, wrapped);
}

#[test]
fn empty_sequence_encodes_as_a_zero_count() {
    let elems: Vec<G1Element> = Vec::new();
    let bytes = iter_ark_to_ark_bytes_g1(&elems, WIRE).unwrap();
    assert_eq!(bytes, vec![0u8; 8]);
}

#[test]
fn truncated_sequence_fails_cleanly() {
    let points = four_points();
    let elems: Vec<G1Element> = points.iter().map(|p| G1Element(*p)).collect();
    let mut bytes = iter_ark_to_ark_bytes_g1(&elems, WIRE).unwrap();
    // keep the valid count prefix of 4 but only two whole points
    bytes.truncate(8 + 2 * 48);
    let r = ArkScale::<Vec<G1Element>, { WIRE }>::decode(&bytes);
    assert!(r.is_err());
}

#[test]
fn sequence_with_short_count_prefix_fails_cleanly() {
    let r = ArkScale::<Vec<G1Element>, { WIRE }>::decode(&[4, 0, 0]);
    assert!(r.is_err());
}

#[test]
fn sequence_of_invalid_points_is_rejected_under_wire() {
    // a count of one followed by 48 bytes that name no valid compressed
    // point
    let mut bytes = vec![1u8, 0, 0, 0, 0, 0, 0, 0];
    bytes.extend_from_slice(&[0xffu8; 48]);
    let r = ArkScale::<Vec<G1Element>, { WIRE }>::decode(&bytes);
    assert!(matches!(
        r,
        Err(ScaleError::InvalidData) | Err(ScaleError::UnexpectedFlags)
    ));
}
