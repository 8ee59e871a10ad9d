use ark_scale::{
    ark_error_to_scale_error, scale_error_to_ark_error, ArkError, ArkScale, FrElement, IoCause,
    ScaleError, WIRE,
};

#[test]
fn classified_errors_cross_the_bridge_unchanged() {
    for e in [
        ArkError::NotEnoughSpace,
        ArkError::InvalidData,
        ArkError::UnexpectedFlags,
    ] {
        let scale = ark_error_to_scale_error(e.clone());
        let back = scale_error_to_ark_error(scale.clone());
        assert_eq!(back, ArkError::Io(IoCause::Bridged(scale.clone())));
        // a second crossing recovers the first codec error exactly,
        // instead of wrapping it again
        assert_eq!(ark_error_to_scale_error(back), scale);
    }
}

#[test]
fn invalid_data_is_still_invalid_data_after_a_round_trip() {
    let scale = ark_error_to_scale_error(ArkError::InvalidData);
    assert_eq!(scale, ScaleError::InvalidData);
    let round = ark_error_to_scale_error(scale_error_to_ark_error(scale));
    assert_eq!(round, ScaleError::InvalidData);
}

#[test]
fn bridged_codec_errors_are_recovered_losslessly() {
    for e in [
        ScaleError::NotEnoughSpace,
        ScaleError::InvalidData,
        ScaleError::UnexpectedFlags,
        ScaleError::Io(String::from("stream closed")),
        ScaleError::Other(String::from("Not enough data to fill buffer")),
    ] {
        assert_eq!(ark_error_to_scale_error(scale_error_to_ark_error(e.clone())), e);
    }
}

#[test]
fn unclassified_io_failures_keep_their_rendering() {
    let e = ArkError::Io(IoCause::Other(String::from("unexpected end of file")));
    assert_eq!(
        ark_error_to_scale_error(e),
        ScaleError::Io(String::from("unexpected end of file"))
    );
}

#[test]
fn out_of_range_field_bytes_decode_as_invalid_data() {
    // 32 bytes of 0xff name an integer at least the scalar field's
    // modulus, which the canonical format rejects as invalid data
    let bytes = [0xffu8; 32];
    let r = ArkScale::<FrElement, { WIRE }>::decode(&bytes);
    assert_eq!(r.err(), Some(ScaleError::InvalidData));
}

#[test]
fn decoding_an_empty_buffer_fails_cleanly() {
    let r = ArkScale::<FrElement, { WIRE }>::decode(&[]);
    assert!(r.is_err());
}
