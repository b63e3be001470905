use nihav_core::codecs::{
    DecoderError, DecoderInfo, EncodeParameters, EncoderError, EncoderInfo, FrameSkipMode,
    NACodecTypeInfo, NADecoderSupport, RegisteredDecoders, RegisteredEncoders, ENC_MODE_CBR,
    ENC_MODE_CFR, FRAME_SKIP_OPTION_VAL_INTRA, FRAME_SKIP_OPTION_VAL_KEYFRAME,
    FRAME_SKIP_OPTION_VAL_NONE,
};
use nihav_core::frame::AllocatorError;
use nihav_core::io::{BitReaderError, ByteIOError, CodebookError};

#[test]
fn find_decoder_returns_first_match() {
    let mut regs = RegisteredDecoders::new();
    regs.add_decoder(DecoderInfo { name: "indeo2" });
    regs.add_decoder(DecoderInfo { name: "truemotion1" });
    regs.add_decoder(DecoderInfo { name: "indeo2" });
    let found = regs.find_decoder("truemotion1").unwrap();
    assert_eq!(found.name, "truemotion1");
    let first = regs.find_decoder("indeo2").unwrap();
    assert_eq!(first.name, "indeo2");
}

#[test]
fn find_decoder_misses_unknown_name() {
    let mut regs = RegisteredDecoders::new();
    assert!(regs.find_decoder("indeo2").is_none());
    regs.add_decoder(DecoderInfo { name: "indeo2" });
    assert!(regs.find_decoder("indeo3").is_none());
    assert!(regs.find_decoder("").is_none());
}

#[test]
fn decoder_iter_sees_registration_order() {
    let mut regs = RegisteredDecoders::default();
    regs.add_decoder(DecoderInfo { name: "a" });
    regs.add_decoder(DecoderInfo { name: "b" });
    let names: Vec<&str> = regs.iter().iter().map(|d| d.name).collect();
    assert_eq!(names, vec!["a", "b"]);
}

#[test]
fn find_encoder_returns_match() {
    let mut regs = RegisteredEncoders::new();
    regs.add_encoder(EncoderInfo { name: "cinepakenc" });
    assert_eq!(regs.find_encoder("cinepakenc").unwrap().name, "cinepakenc");
    assert!(regs.find_encoder("rawvideo").is_none());
}

#[test]
fn encoder_iter_sees_registration_order() {
    let mut regs = RegisteredEncoders::default();
    regs.add_encoder(EncoderInfo { name: "x" });
    regs.add_encoder(EncoderInfo { name: "y" });
    let names: Vec<&str> = regs.iter().iter().map(|e| e.name).collect();
    assert_eq!(names, vec!["x", "y"]);
}

#[test]
fn frame_skip_mode_parses_known_values() {
    assert_eq!(
        FrameSkipMode::from_str(FRAME_SKIP_OPTION_VAL_NONE),
        Ok(FrameSkipMode::NoSkip)
    );
    assert_eq!(
        FrameSkipMode::from_str(FRAME_SKIP_OPTION_VAL_KEYFRAME),
        Ok(FrameSkipMode::KeyframesOnly)
    );
    assert_eq!(
        FrameSkipMode::from_str(FRAME_SKIP_OPTION_VAL_INTRA),
        Ok(FrameSkipMode::IntraOnly)
    );
}

#[test]
fn frame_skip_mode_parses_through_str_parse() {
    assert_eq!("intra".parse::<FrameSkipMode>(), Ok(FrameSkipMode::IntraOnly));
    assert_eq!(
        "other".parse::<FrameSkipMode>(),
        Err(DecoderError::InvalidData)
    );
}

#[test]
fn frame_skip_mode_rejects_unknown_values() {
    assert_eq!(
        FrameSkipMode::from_str("all"),
        Err(DecoderError::InvalidData)
    );
    assert_eq!(FrameSkipMode::from_str(""), Err(DecoderError::InvalidData));
}

#[test]
fn frame_skip_mode_names_round_trip() {
    for mode in [
        FrameSkipMode::NoSkip,
        FrameSkipMode::KeyframesOnly,
        FrameSkipMode::IntraOnly,
    ] {
        let name = mode.to_string();
        assert_eq!(FrameSkipMode::from_str(&name), Ok(mode));
    }
    assert_eq!(FrameSkipMode::NoSkip.to_string(), "none");
    assert_eq!(FrameSkipMode::default(), FrameSkipMode::NoSkip);
}

#[test]
fn decoder_error_conversions() {
    assert_eq!(DecoderError::from(ByteIOError::EOF), DecoderError::ShortData);
    assert_eq!(
        DecoderError::from(BitReaderError::BitstreamEnd),
        DecoderError::ShortData
    );
    assert_eq!(
        DecoderError::from(BitReaderError::TooManyBitsRequested),
        DecoderError::InvalidData
    );
    assert_eq!(
        DecoderError::from(BitReaderError::InvalidValue),
        DecoderError::InvalidData
    );
    assert_eq!(
        DecoderError::from(CodebookError::InvalidCode),
        DecoderError::InvalidData
    );
    assert_eq!(
        DecoderError::from(AllocatorError::MemoryError),
        DecoderError::AllocError
    );
}

#[test]
fn encoder_error_conversions() {
    assert_eq!(EncoderError::from(ByteIOError::WriteError), EncoderError::Bug);
    assert_eq!(
        EncoderError::from(AllocatorError::TooLargeDimensions),
        EncoderError::AllocError
    );
}

#[test]
fn encode_parameters_default_is_all_zero() {
    let p = EncodeParameters::default();
    assert_eq!(p.format, NACodecTypeInfo::Unset);
    assert_eq!(p.tb_num, 0);
    assert_eq!(p.tb_den, 0);
    assert_eq!(p.bitrate, 0);
    assert_eq!(p.flags, 0);
    assert_eq!(p.quality, 0);
}

#[test]
fn enc_mode_flags_are_distinct_bits() {
    assert_eq!(ENC_MODE_CBR, 1);
    assert_eq!(ENC_MODE_CFR, 2);
    assert_eq!(ENC_MODE_CBR & ENC_MODE_CFR, 0);
}

#[test]
fn decoder_support_construction() {
    let _supp = NADecoderSupport::new();
    let _other = NADecoderSupport::default();
}
