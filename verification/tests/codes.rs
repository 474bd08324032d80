use taglib::{
    setUnicode, setidv3v2DefaultEncoding, Call, EncodingConfig, ID3V2_Encoding, Type,
};

#[test]
fn container_formats_have_their_native_codes() {
    assert_eq!(Type::MPEG.code(), 0);
    assert_eq!(Type::OggVorbis.code(), 1);
    assert_eq!(Type::FLAC.code(), 2);
    assert_eq!(Type::MPC.code(), 3);
    assert_eq!(Type::OggFlac.code(), 4);
    assert_eq!(Type::WavPack.code(), 5);
    assert_eq!(Type::Speex.code(), 6);
    assert_eq!(Type::TrueAudio.code(), 7);
    assert_eq!(Type::MP4.code(), 8);
    assert_eq!(Type::ASF.code(), 9);
}

#[test]
fn text_encodings_have_their_native_codes() {
    assert_eq!(ID3V2_Encoding::Latin1.code(), 0);
    assert_eq!(ID3V2_Encoding::UTF16.code(), 1);
    assert_eq!(ID3V2_Encoding::UTF16BE.code(), 2);
    assert_eq!(ID3V2_Encoding::UTF8.code(), 3);
}

#[test]
fn codes_are_distinct() {
    let formats = [
        Type::MPEG,
        Type::OggVorbis,
        Type::FLAC,
        Type::MPC,
        Type::OggFlac,
        Type::WavPack,
        Type::Speex,
        Type::TrueAudio,
        Type::MP4,
        Type::ASF,
    ];
    for (i, a) in formats.iter().enumerate() {
        for (j, b) in formats.iter().enumerate() {
            assert_eq!(a.code() == b.code(), i == j);
        }
    }
}

#[test]
fn a_fresh_config_is_unicode_with_no_encoding_set() {
    let config = EncodingConfig::new();
    assert!(config.unicode());
    assert_eq!(config.default_encoding(), None);
}

#[test]
fn set_unicode_records_the_choice_and_tells_the_native_layer() {
    let mut config = EncodingConfig::new();
    assert_eq!(setUnicode(&mut config, false), Call::SetStringsUnicode(0));
    assert!(!config.unicode());
    assert_eq!(config.default_encoding(), None);
    assert_eq!(setUnicode(&mut config, true), Call::SetStringsUnicode(1));
    assert!(config.unicode());
    assert_eq!(setUnicode(&mut config, true), Call::SetStringsUnicode(1));
    assert!(config.unicode());
}

#[test]
fn set_default_encoding_records_the_choice_and_tells_the_native_layer() {
    let mut config = EncodingConfig::new();
    assert_eq!(
        setidv3v2DefaultEncoding(&mut config, ID3V2_Encoding::UTF16),
        Call::SetDefaultTextEncoding(1)
    );
    assert_eq!(config.default_encoding(), Some(ID3V2_Encoding::UTF16));
    assert!(config.unicode());
    assert_eq!(
        setidv3v2DefaultEncoding(&mut config, ID3V2_Encoding::UTF8),
        Call::SetDefaultTextEncoding(3)
    );
    assert_eq!(config.default_encoding(), Some(ID3V2_Encoding::UTF8));
    assert_eq!(
        setidv3v2DefaultEncoding(&mut config, ID3V2_Encoding::Latin1),
        Call::SetDefaultTextEncoding(0)
    );
    assert_eq!(
        setidv3v2DefaultEncoding(&mut config, ID3V2_Encoding::UTF16BE),
        Call::SetDefaultTextEncoding(2)
    );
}

#[test]
fn the_two_settings_do_not_touch_each_other() {
    let mut config = EncodingConfig::new();
    setidv3v2DefaultEncoding(&mut config, ID3V2_Encoding::UTF16BE);
    setUnicode(&mut config, false);
    assert_eq!(config.default_encoding(), Some(ID3V2_Encoding::UTF16BE));
    setidv3v2DefaultEncoding(&mut config, ID3V2_Encoding::Latin1);
    assert!(!config.unicode());
}
