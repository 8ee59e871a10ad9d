use ark_bls12_381::{Fr, G1Affine};
use ark_ec::{AffineRepr, CurveGroup};
use ark_ed25519::EdwardsAffine;
use ark_scale::{
    is_compressed, is_validated, iter_ark_to_scale_bytes_ed, iter_ark_to_scale_bytes_g1, ArkScale,
    ArkScaleRef, Compress, EdElement, G1Element, Validate,
};
use ark_serialize::{CanonicalDeserialize, CanonicalSerialize};

fn ark_compress(u: u8) -> ark_serialize::Compress {
    match is_compressed(u) {
        Compress::Yes => ark_serialize::Compress::Yes,
        Compress::No => ark_serialize::Compress::No,
    }
}

fn ark_validate(u: u8) -> ark_serialize::Validate {
    match is_validated(u) {
        Validate::Yes => ark_serialize::Validate::Yes,
        Validate::No => ark_serialize::Validate::No,
    }
}

fn sample_points() -> [G1Affine; 4] {
    let g = G1Affine::generator();
    [
        G1Affine::identity(),
        g,
        (g * Fr::from(2u64)).into_affine(),
        (g * Fr::from(123456789u64)).into_affine(),
    ]
}

fn run_g1_test<const U: u8>() {
    let array = sample_points();

    for a in &array {
        let mut x = Vec::new();
        a.serialize_with_mode(&mut x, ark_compress(U)).unwrap();
        let z = G1Affine::deserialize_with_mode(&mut x.as_slice(), ark_compress(U), ark_validate(U))
            .unwrap();
        assert_eq!(a, &z);

        let elem = G1Element(*a);
        let b_ref: ArkScaleRef<G1Element, U> = ArkScaleRef(&elem);
        let c_ref = b_ref.encode();
        let b: ArkScale<G1Element, U> = ArkScale(G1Element(*a));
        let c = b.encode();
        assert_eq!(c, c_ref);
        assert_eq!(c.len(), x.len());
        assert_eq!(c, x);
        assert_eq!(b.encoded_size(), c.len());
        assert_eq!(b.size_hint(), c.len());
        assert_eq!(b_ref.size_hint(), c.len());

        let mut appended = Vec::new();
        b_ref.encode_to(&mut appended);
        assert_eq!(appended, c);

        let e = ArkScale::<G1Element, U>::decode(&c).unwrap();
        assert_eq!(a, &e.0 .0);
    }

    let elems: Vec<G1Element> = array.iter().map(|a| G1Element(*a)).collect();
    let u = iter_ark_to_scale_bytes_g1(&elems, U).unwrap();
    let v: ArkScale<Vec<G1Element>, U> = ArkScale(array.iter().map(|a| G1Element(*a)).collect());
    let w = v.encode();
    assert_eq!(u.len(), w.len());
    assert_eq!(u, w);
    assert_eq!(v.encoded_size(), w.len());

    let borrowed: ArkScaleRef<Vec<G1Element>, U> = ArkScaleRef(&elems);
    assert_eq!(borrowed.encode(), w);
    assert_eq!(borrowed.encoded_size(), w.len());

    // the canonical framework's own encoding of the equivalent container
    // is byte-identical
    let mut direct = Vec::new();
    array
        .to_vec()
        .serialize_with_mode(&mut direct, ark_compress(U))
        .unwrap();
    assert_eq!(u, direct);

    let w0 =
        Vec::<G1Affine>::deserialize_with_mode(&mut u.as_slice(), ark_compress(U), ark_validate(U))
            .unwrap();
    assert_eq!(array.as_slice(), w0.as_slice());

    let back = ArkScale::<Vec<G1Element>, U>::decode(&u).unwrap();
    let recovered: Vec<G1Affine> = back.0.iter().map(|e| e.0).collect();
    assert_eq!(array.as_slice(), recovered.as_slice());
}

fn sample_ed_points() -> [EdwardsAffine; 4] {
    let g = EdwardsAffine::generator();
    [
        EdwardsAffine::zero(),
        g,
        (g * ark_ed25519::Fr::from(2u64)).into_affine(),
        (g * ark_ed25519::Fr::from(123456789u64)).into_affine(),
    ]
}

fn run_ed_test<const U: u8>() {
    for a in &sample_ed_points() {
        let mut x = Vec::new();
        a.serialize_with_mode(&mut x, ark_compress(U)).unwrap();
        let z = EdwardsAffine::deserialize_with_mode(
            &mut x.as_slice(),
            ark_compress(U),
            ark_validate(U),
        )
        .unwrap();
        assert_eq!(a, &z);

        let elem = EdElement(*a);
        let b_ref: ArkScaleRef<EdElement, U> = ArkScaleRef(&elem);
        let c_ref = b_ref.encode();
        let b: ArkScale<EdElement, U> = ArkScale(EdElement(*a));
        let c = b.encode();
        assert_eq!(c, c_ref);
        assert_eq!(c.len(), x.len());
        assert_eq!(c, x);
        assert_eq!(b.encoded_size(), c.len());
        assert_eq!(b.size_hint(), c.len());
        assert_eq!(b_ref.encoded_size(), c.len());

        let e = ArkScale::<EdElement, U>::decode(&c).unwrap();
        assert_eq!(a, &e.0 .0);
    }

    let array = sample_ed_points();
    let elems: Vec<EdElement> = array.iter().map(|a| EdElement(*a)).collect();
    let u = iter_ark_to_scale_bytes_ed(&elems, U).unwrap();
    let v: ArkScale<Vec<EdElement>, U> = ArkScale(array.iter().map(|a| EdElement(*a)).collect());
    let w = v.encode();
    assert_eq!(u, w);
    assert_eq!(v.encoded_size(), w.len());

    let borrowed: ArkScaleRef<Vec<EdElement>, U> = ArkScaleRef(&elems);
    assert_eq!(borrowed.encode(), w);
    assert_eq!(borrowed.encoded_size(), w.len());

    // the canonical framework's own encoding of the equivalent container
    // is byte-identical
    let mut direct = Vec::new();
    array
        .to_vec()
        .serialize_with_mode(&mut direct, ark_compress(U))
        .unwrap();
    assert_eq!(u, direct);

    let back = ArkScale::<Vec<EdElement>, U>::decode(&u).unwrap();
    let recovered: Vec<EdwardsAffine> = back.0.iter().map(|e| e.0).collect();
    assert_eq!(array.as_slice(), recovered.as_slice());
}

#[test]
fn curves() {
    run_g1_test::<0>();
    run_g1_test::<2>();
    run_g1_test::<3>();
    run_ed_test::<0>();
    run_ed_test::<2>();
    run_ed_test::<3>();
}
