use taglib::{marshal, setUnicode, unmarshal, EncodingConfig};

fn utf8() -> EncodingConfig {
    EncodingConfig::new()
}

fn latin1() -> EncodingConfig {
    let mut config = EncodingConfig::new();
    setUnicode(&mut config, false);
    config
}

#[test]
fn ascii_text_is_its_bytes_and_a_terminator() {
    assert_eq!(marshal(&utf8(), "Test Title"), b"Test Title\0".to_vec());
    assert_eq!(marshal(&latin1(), "Test Title"), b"Test Title\0".to_vec());
}

#[test]
fn empty_text_is_a_lone_terminator() {
    assert_eq!(marshal(&utf8(), ""), vec![0u8]);
    assert_eq!(marshal(&latin1(), ""), vec![0u8]);
}

#[test]
fn utf8_encodes_every_character() {
    // U+00E9, U+20AC, U+1F3B5: two, three and four bytes.
    assert_eq!(
        marshal(&utf8(), "\u{e9}\u{20ac}\u{1f3b5}"),
        vec![0xC3, 0xA9, 0xE2, 0x82, 0xAC, 0xF0, 0x9F, 0x8E, 0xB5, 0x00]
    );
}

#[test]
fn latin1_encodes_one_byte_for_each_character() {
    assert_eq!(marshal(&latin1(), "caf\u{e9}"), vec![0x63, 0x61, 0x66, 0xE9, 0x00]);
    assert_eq!(marshal(&latin1(), "\u{ff}"), vec![0xFF, 0x00]);
    assert_eq!(marshal(&latin1(), "\u{80}"), vec![0x80, 0x00]);
}

#[test]
fn latin1_substitutes_a_question_mark_above_u00ff() {
    assert_eq!(marshal(&latin1(), "\u{100}"), vec![0x3F, 0x00]);
    assert_eq!(marshal(&latin1(), "5 \u{20ac}"), vec![0x35, 0x20, 0x3F, 0x00]);
    assert_eq!(marshal(&latin1(), "\u{1f3b5}!"), vec![0x3F, 0x21, 0x00]);
}

#[test]
fn text_is_cut_at_its_first_nul() {
    assert_eq!(marshal(&utf8(), "ab\0cd"), b"ab\0".to_vec());
    assert_eq!(marshal(&latin1(), "ab\0cd\0"), b"ab\0".to_vec());
    assert_eq!(marshal(&utf8(), "\0"), vec![0u8]);
}

#[test]
fn every_buffer_ends_in_its_only_zero_byte() {
    for config in [utf8(), latin1()] {
        for text in ["", "a", "\0", "a\0b", "caf\u{e9}", "\u{20ac}", "x\u{1f3b5}\0y"] {
            let buffer = marshal(&config, text);
            assert_eq!(buffer.last(), Some(&0u8));
            assert!(!buffer[..buffer.len() - 1].contains(&0u8));
        }
    }
}

#[test]
fn a_buffer_is_read_up_to_its_terminator() {
    assert_eq!(unmarshal(&utf8(), b"Test Artist\0"), "Test Artist");
    assert_eq!(unmarshal(&utf8(), b"ab\0cd\0"), "ab");
    assert_eq!(unmarshal(&latin1(), b"ab\0cd\0"), "ab");
    assert_eq!(unmarshal(&utf8(), b"\0"), "");
}

#[test]
fn a_buffer_without_terminator_is_read_whole() {
    assert_eq!(unmarshal(&utf8(), b"abc"), "abc");
    assert_eq!(unmarshal(&latin1(), b"abc"), "abc");
    assert_eq!(unmarshal(&utf8(), b""), "");
}

#[test]
fn utf8_buffers_decode_as_utf8() {
    let buffer = [0xC3, 0xA9, 0xE2, 0x82, 0xAC, 0xF0, 0x9F, 0x8E, 0xB5, 0x00];
    assert_eq!(unmarshal(&utf8(), &buffer), "\u{e9}\u{20ac}\u{1f3b5}");
}

#[test]
fn latin1_buffers_decode_byte_by_byte() {
    assert_eq!(unmarshal(&latin1(), &[0x63, 0x61, 0x66, 0xE9, 0x00]), "caf\u{e9}");
    assert_eq!(unmarshal(&latin1(), &[0xC3, 0xA9, 0x00]), "\u{c3}\u{a9}");
    assert_eq!(unmarshal(&latin1(), &[0xFF, 0x80, 0x7F, 0x00]), "\u{ff}\u{80}\u{7f}");
}

#[test]
fn malformed_utf8_is_read_as_latin1() {
    // A lone continuation byte, a truncated sequence, an overlong encoding
    // and an encoded surrogate.
    assert_eq!(unmarshal(&utf8(), &[0x61, 0x80, 0x00]), "a\u{80}");
    assert_eq!(unmarshal(&utf8(), &[0xE2, 0x82, 0x00]), "\u{e2}\u{82}");
    assert_eq!(unmarshal(&utf8(), &[0xC0, 0xAF, 0x00]), "\u{c0}\u{af}");
    assert_eq!(unmarshal(&utf8(), &[0xED, 0xA0, 0x80, 0x00]), "\u{ed}\u{a0}\u{80}");
    assert_eq!(unmarshal(&utf8(), &[0x63, 0x61, 0x66, 0xE9, 0x00]), "caf\u{e9}");
}

#[test]
fn representable_text_comes_back_unchanged() {
    for text in ["", "New Title", "caf\u{e9}", "\u{ff}\u{a0}~", "na\u{ef}ve \u{fc}ber"] {
        assert_eq!(unmarshal(&latin1(), &marshal(&latin1(), text)), text);
        assert_eq!(unmarshal(&utf8(), &marshal(&utf8(), text)), text);
    }
}

#[test]
fn utf8_preserves_what_latin1_substitutes() {
    let text = "\u{141}\u{f3}d\u{17a} \u{2014} \u{1f3b5}";
    assert_eq!(unmarshal(&utf8(), &marshal(&utf8(), text)), text);
    assert_eq!(unmarshal(&latin1(), &marshal(&latin1(), text)), "?\u{f3}d? ? ?");
    // The substitution is the same each time.
    assert_eq!(marshal(&latin1(), text), marshal(&latin1(), text));
}

#[test]
fn text_with_a_nul_comes_back_cut() {
    assert_eq!(unmarshal(&utf8(), &marshal(&utf8(), "ab\0cd")), "ab");
    assert_eq!(unmarshal(&latin1(), &marshal(&latin1(), "\u{20ac}\0cd")), "?");
}

#[test]
fn long_text_round_trips() {
    let text: String = "\u{e9}t\u{e9} ".repeat(5000);
    let buffer = marshal(&utf8(), &text);
    assert_eq!(buffer.len(), 5000 * 6 + 1);
    assert_eq!(unmarshal(&utf8(), &buffer), text);
    let buffer = marshal(&latin1(), &text);
    assert_eq!(buffer.len(), 5000 * 4 + 1);
    assert_eq!(unmarshal(&latin1(), &buffer), text);
}
