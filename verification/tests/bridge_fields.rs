use ark_bls12_381::Fr;
use ark_scale::{
    is_compressed, is_validated, iter_ark_to_scale_bytes_fr, ArkScale, ArkScaleRef, Compress,
    FrElement, Validate,
};
use ark_serialize::{CanonicalDeserialize, CanonicalSerialize};

fn ark_compress(u: u8) -> ark_serialize::Compress {
    match is_compressed(u) {
        Compress::Yes => ark_serialize::Compress::Yes,
        Compress::No => ark_serialize::Compress::No,
    }
}

fn ark_validate(u: u8) -> ark_serialize::Validate {
    match is_validated(u) {
        Validate::Yes => ark_serialize::Validate::Yes,
        Validate::No => ark_serialize::Validate::No,
    }
}

fn sample_scalars() -> [Fr; 4] {
    [
        Fr::from(0u64),
        Fr::from(1u64),
        Fr::from(123456789u64),
        -Fr::from(987654321u64),
    ]
}

fn run_fr_test<const U: u8>() {
    let array = sample_scalars();

    for a in &array {
        let mut x = Vec::new();
        a.serialize_with_mode(&mut x, ark_compress(U)).unwrap();
        let z = Fr::deserialize_with_mode(&mut x.as_slice(), ark_compress(U), ark_validate(U))
            .unwrap();
        assert_eq!(a, &z);

        let elem = FrElement(*a);
        let b_ref: ArkScaleRef<FrElement, U> = ArkScaleRef(&elem);
        let c_ref = b_ref.encode();
        let b: ArkScale<FrElement, U> = ArkScale(FrElement(*a));
        let c = b.encode();
        assert_eq!(c, c_ref);
        assert_eq!(c.len(), x.len());
        assert_eq!(c, x);
        assert_eq!(b.encoded_size(), c.len());
        assert_eq!(b.size_hint(), c.len());
        assert_eq!(b_ref.encoded_size(), c.len());

        let mut appended = vec![0xaau8, 0xbb];
        b.encode_to(&mut appended);
        assert_eq!(&appended[..2], &[0xaau8, 0xbb]);
        assert_eq!(&appended[2..], &c[..]);

        let e0 =
            Fr::deserialize_with_mode(&mut c.as_slice(), ark_compress(U), ark_validate(U)).unwrap();
        assert_eq!(a, &e0);
        let e = ArkScale::<FrElement, U>::decode(&c).unwrap();
        assert_eq!(a, &e.0 .0);
    }

    let elems: Vec<FrElement> = array.iter().map(|a| FrElement(*a)).collect();
    let u = iter_ark_to_scale_bytes_fr(&elems, U).unwrap();
    let v: ArkScale<Vec<FrElement>, U> = ArkScale(array.iter().map(|a| FrElement(*a)).collect());
    let w = v.encode();
    assert_eq!(u.len(), w.len());
    assert_eq!(u, w);
    assert_eq!(v.encoded_size(), w.len());

    let borrowed: ArkScaleRef<Vec<FrElement>, U> = ArkScaleRef(&elems);
    assert_eq!(borrowed.encode(), w);
    assert_eq!(borrowed.encoded_size(), w.len());
    let mut streamed_to = Vec::new();
    borrowed.encode_to(&mut streamed_to);
    assert_eq!(streamed_to, w);

    // the canonical framework's own encoding of the equivalent container
    // is byte-identical
    let mut direct = Vec::new();
    array
        .to_vec()
        .serialize_with_mode(&mut direct, ark_compress(U))
        .unwrap();
    assert_eq!(u, direct);

    let w0 =
        Vec::<Fr>::deserialize_with_mode(&mut u.as_slice(), ark_compress(U), ark_validate(U))
            .unwrap();
    assert_eq!(array.as_slice(), w0.as_slice());

    let back = ArkScale::<Vec<FrElement>, U>::decode(&u).unwrap();
    let recovered: Vec<Fr> = back.0.iter().map(|e| e.0).collect();
    assert_eq!(array.as_slice(), recovered.as_slice());
}

#[test]
fn fields() {
    run_fr_test::<0>();
    run_fr_test::<2>();
    run_fr_test::<3>();
}
