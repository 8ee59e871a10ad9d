use ark_scale::{
    is_compressed, is_validated, make_usage, Compress, Usage, Validate, HOST_CALL, WIRE,
};

#[test]
fn usage_constants_match_their_policies() {
    assert_eq!(WIRE, make_usage(Compress::Yes, Validate::Yes));
    assert_eq!(HOST_CALL, make_usage(Compress::No, Validate::No));
    assert_eq!(WIRE, 0);
    assert_eq!(HOST_CALL, 3);
}

#[test]
fn usage_packing_covers_all_four_pairs() {
    assert_eq!(make_usage(Compress::Yes, Validate::Yes), 0);
    assert_eq!(make_usage(Compress::No, Validate::Yes), 1);
    assert_eq!(make_usage(Compress::Yes, Validate::No), 2);
    assert_eq!(make_usage(Compress::No, Validate::No), 3);
}

#[test]
fn usage_pack_unpack_is_a_bijection() {
    for u in 0..4u8 {
        let c = is_compressed(u);
        let v = is_validated(u);
        assert_eq!(make_usage(c, v), u);
    }
}

#[test]
fn usage_unpack_reads_each_axis_independently() {
    let u: Usage = make_usage(Compress::No, Validate::Yes);
    assert_eq!(is_compressed(u), Compress::No);
    assert_eq!(is_validated(u), Validate::Yes);
    let w: Usage = make_usage(Compress::Yes, Validate::No);
    assert_eq!(is_compressed(w), Compress::Yes);
    assert_eq!(is_validated(w), Validate::No);
}
