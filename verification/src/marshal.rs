//! Text across the native boundary.
//!
//! The native layer takes and returns text as C strings: bytes up to a zero
//! byte, in UTF-8 or in Latin-1 as the encoding settings say. [`marshal`] makes
//! such a buffer from owned text and [`unmarshal`] makes owned text from one.

use vstd::prelude::*;
use vstd::string::StrSliceExecFns;
use vstd::utf8::*;
use crate::config::EncodingConfig;

verus! {

/// The longest prefix of `s` in which `stop` does not occur.
pub open spec fn until<T>(s: Seq<T>, stop: T) -> Seq<T>
    decreases s.len(),
{
    if s.len() == 0 || s[0] == stop {
        Seq::empty()
    } else {
        seq![s[0]] + until(s.drop_first(), stop)
    }
}

/// What a reader of C strings finds in `buffer`: the bytes before its first
/// zero byte, or all of them where it has none.
pub open spec fn contents(buffer: Seq<u8>) -> Seq<u8> {
    until(buffer, 0u8)
}

/// A buffer that ends in its only zero byte.
pub open spec fn is_c_string(buffer: Seq<u8>) -> bool {
    &&& buffer.len() > 0
    &&& buffer.last() == 0u8
    &&& !buffer.drop_last().contains(0u8)
}

/// The Latin-1 byte that stands for `c`: its code point where that is at most
/// U+00FF, a question mark for every other character.
pub open spec fn latin1_byte(c: char) -> u8 {
    if c as u32 <= 0xFF {
        c as u8
    } else {
        0x3Fu8
    }
}

/// Text as Latin-1 bytes, one byte for each character.
pub open spec fn latin1_encode(text: Seq<char>) -> Seq<u8> {
    Seq::new(text.len(), |i: int| latin1_byte(text[i]))
}

/// Latin-1 bytes as text, one character for each byte.
pub open spec fn latin1_decode(bytes: Seq<u8>) -> Seq<char> {
    Seq::new(bytes.len(), |i: int| bytes[i] as char)
}

/// Text as bytes: UTF-8 where `unicode` is set, Latin-1 where it is not.
pub open spec fn encode(unicode: bool, text: Seq<char>) -> Seq<u8> {
    if unicode {
        encode_utf8(text)
    } else {
        latin1_encode(text)
    }
}

/// Bytes as text. Where `unicode` is set and the bytes are well-formed UTF-8
/// they are read as UTF-8; all other bytes are read as Latin-1.
pub open spec fn decode(unicode: bool, bytes: Seq<u8>) -> Seq<char> {
    if unicode && valid_utf8(bytes) {
        decode_utf8(bytes)
    } else {
        latin1_decode(bytes)
    }
}

/// The buffer that carries `text` to the native layer: its encoding up to the
/// first zero byte, and a zero byte to end it.
pub open spec fn boundary(unicode: bool, text: Seq<char>) -> Seq<u8> {
    contents(encode(unicode, text)).push(0u8)
}

/// The text that a buffer from the native layer carries.
pub open spec fn text_of(unicode: bool, buffer: Seq<u8>) -> Seq<char> {
    decode(unicode, contents(buffer))
}

/// `text` with a question mark in place of each character that Latin-1 lacks.
pub open spec fn substituted(text: Seq<char>) -> Seq<char> {
    Seq::new(text.len(), |i: int| if text[i] as u32 <= 0xFF { text[i] } else { '?' })
}

/// The text that arrives on the far side when `text` is sent: `text` up to
/// its first NUL character, with substitutes where the encoding is Latin-1.
pub open spec fn received(unicode: bool, text: Seq<char>) -> Seq<char> {
    if unicode {
        until(text, '\0')
    } else {
        substituted(until(text, '\0'))
    }
}

/// Text that the encoding can carry unchanged: it holds no NUL character and,
/// where the encoding is Latin-1, no character above U+00FF.
pub open spec fn representable(unicode: bool, text: Seq<char>) -> bool {
    &&& !text.contains('\0')
    &&& !unicode ==> forall|i: int| 0 <= i < text.len() ==> #[trigger] text[i] as u32 <= 0xFF
}

/// `String::push` of the standard library: the string afterwards is the string
/// before with `c` added at its end.
pub assume_specification[ String::push ](s: &mut String, c: char)
    ensures
        final(s)@ == old(s)@.push(c),
;

/// `String::from_utf8` of the standard library, with its error dropped: it
/// accepts exactly the byte vectors that are well-formed UTF-8, and the string
/// it then returns has those bytes as its UTF-8 encoding.
#[verifier::external_body]
fn string_from_utf8(bytes: Vec<u8>) -> (text: Option<String>)
    ensures
        text is Some <==> valid_utf8(bytes@),
        text is Some ==> encode_utf8(text.unwrap()@) == bytes@,
{
    String::from_utf8(bytes).ok()
}

/// The length of the C string in `buffer`: the index of its first zero byte,
/// or its length where it has none.
pub(crate) fn c_strlen(buffer: &[u8]) -> (n: usize)
    ensures
        n <= buffer@.len(),
        buffer@.take(n as int) == contents(buffer@),
        n < buffer@.len() <==> buffer@.contains(0u8),
{
    let mut n: usize = 0;
    while n < buffer.len() && buffer[n] != 0
        invariant
            n <= buffer.len(),
            forall|i: int| 0 <= i < n ==> buffer@[i] != 0u8,
        decreases buffer.len() - n,
    {
        n += 1;
    }
    proof {
        lemma_until_is_prefix(buffer@, 0u8, n as int);
        if buffer@.contains(0u8) && n == buffer@.len() {
            let i = choose|i: int| 0 <= i < buffer@.len() && buffer@[i] == 0u8;
            assert(buffer@[i] != 0u8);
        }
    }
    n
}

/// Text as Latin-1 bytes, with a question mark for each character above
/// U+00FF.
fn latin1_bytes(text: &str) -> (bytes: Vec<u8>)
    ensures
        bytes@ == latin1_encode(text@),
{
    let mut bytes: Vec<u8> = Vec::new();
    for c in it: text.chars()
        invariant
            it.seq() == text@,
            bytes@ == latin1_encode(text@.take(it.index() as int)),
    {
        assert(c == text@[it.index() as int]);
        let b: u8 = if c as u32 <= 0xFF {
            c as u8
        } else {
            0x3F
        };
        bytes.push(b);
        assert(bytes@ =~= latin1_encode(text@.take(it.index() + 1)));
    }
    assert(text@.take(text@.len() as int) =~= text@);
    bytes
}

/// The first `n` bytes of `buffer` as Latin-1 text.
fn latin1_text(buffer: &[u8], n: usize) -> (text: String)
    requires
        n <= buffer@.len(),
    ensures
        text@ == latin1_decode(buffer@.take(n as int)),
{
    let mut text = String::new();
    let mut i: usize = 0;
    while i < n
        invariant
            i <= n <= buffer@.len(),
            text@ == latin1_decode(buffer@.take(i as int)),
        decreases n - i,
    {
        text.push(buffer[i] as char);
        i += 1;
        assert(text@ =~= latin1_decode(buffer@.take(i as int)));
    }
    text
}

/// Encodes `text` into a buffer for one native call: UTF-8 or Latin-1 as
/// `config` says, cut at its first zero byte and ended by one.
pub fn marshal(config: &EncodingConfig, text: &str) -> (buffer: Vec<u8>)
    ensures
        buffer@ == boundary(config.spec_unicode(), text@),
        is_c_string(buffer@),
{
    let mut buffer = if config.unicode() {
        text.as_bytes_vec()
    } else {
        latin1_bytes(text)
    };
    let n = c_strlen(buffer.as_slice());
    buffer.truncate(n);
    buffer.push(0);
    proof {
        lemma_boundary_is_c_string(config.spec_unicode(), text@);
    }
    buffer
}

/// Decodes the C string in a buffer that the native layer returned into owned
/// text. Nothing of `buffer` is kept: it can be freed once this returns.
pub fn unmarshal(config: &EncodingConfig, buffer: &[u8]) -> (text: String)
    ensures
        text@ == text_of(config.spec_unicode(), buffer@),
{
    let n = c_strlen(buffer);
    if config.unicode() {
        let mut bytes: Vec<u8> = Vec::new();
        let mut i: usize = 0;
        while i < n
            invariant
                i <= n <= buffer@.len(),
                bytes@ == buffer@.take(i as int),
            decreases n - i,
        {
            bytes.push(buffer[i]);
            i += 1;
            assert(bytes@ =~= buffer@.take(i as int));
        }
        match string_from_utf8(bytes) {
            Some(text) => {
                proof {
                    encode_utf8_decode_utf8(text@);
                }
                text
            },
            None => latin1_text(buffer, n),
        }
    } else {
        latin1_text(buffer, n)
    }
}

/// `until` yields a prefix, and which one: the first `n` items, where `stop`
/// is not among them and either follows them or `s` ends there.
pub proof fn lemma_until_is_prefix<T>(s: Seq<T>, stop: T, n: int)
    requires
        0 <= n <= s.len(),
        forall|i: int| 0 <= i < n ==> s[i] != stop,
        n < s.len() ==> s[n] == stop,
    ensures
        until(s, stop) == s.take(n),
    decreases n,
{
    if n == 0 {
        assert(s.take(0) =~= Seq::<T>::empty());
    } else {
        let rest = s.drop_first();
        assert forall|i: int| 0 <= i < n - 1 implies rest[i] != stop by {
            assert(rest[i] == s[i + 1]);
        }
        lemma_until_is_prefix(rest, stop, n - 1);
        assert(s.take(n) =~= seq![s[0]] + rest.take(n - 1));
    }
}

/// `until` yields a prefix of `s` without `stop`, and `stop` follows it unless
/// it is all of `s`.
pub proof fn lemma_until_properties<T>(s: Seq<T>, stop: T)
    ensures
        until(s, stop).len() <= s.len(),
        until(s, stop) == s.take(until(s, stop).len() as int),
        !until(s, stop).contains(stop),
        until(s, stop).len() < s.len() ==> s[until(s, stop).len() as int] == stop,
        !s.contains(stop) <==> until(s, stop) == s,
    decreases s.len(),
{
    let u = until(s, stop);
    if s.len() == 0 || s[0] == stop {
        assert(s.take(0) =~= Seq::<T>::empty());
        if s.len() == 0 {
            assert(u =~= s);
        } else {
            assert(s.contains(stop));
        }
    } else {
        let rest = s.drop_first();
        let v = until(rest, stop);
        lemma_until_properties(rest, stop);
        assert(u =~= seq![s[0]] + v);
        assert(s.take(u.len() as int) =~= seq![s[0]] + rest.take(v.len() as int));
        if u.contains(stop) {
            let i = choose|i: int| 0 <= i < u.len() && u[i] == stop;
            assert(v[i - 1] == stop);
        }
        if v.len() < rest.len() {
            assert(s[u.len() as int] == rest[v.len() as int]);
        }
        if s.contains(stop) {
            let i = choose|i: int| 0 <= i < s.len() && s[i] == stop;
            assert(rest[i - 1] == stop);
        }
        if rest.contains(stop) {
            let i = choose|i: int| 0 <= i < rest.len() && rest[i] == stop;
            assert(s[i + 1] == stop);
        }
        if v == rest {
            assert(u =~= s);
        }
    }
}

/// Past a front part without `stop`, `until` goes on into what follows.
pub proof fn lemma_until_concat<T>(front: Seq<T>, back: Seq<T>, stop: T)
    requires
        !front.contains(stop),
    ensures
        until(front + back, stop) == front + until(back, stop),
    decreases front.len(),
{
    if front.len() == 0 {
        assert(front + back =~= back);
        assert(front + until(back, stop) =~= until(back, stop));
    } else {
        let rest = front.drop_first();
        assert(front[0] != stop);
        assert((front + back)[0] == front[0]);
        assert((front + back).drop_first() =~= rest + back);
        if rest.contains(stop) {
            let i = choose|i: int| 0 <= i < rest.len() && rest[i] == stop;
            assert(front[i + 1] == stop);
        }
        lemma_until_concat(rest, back, stop);
        assert(seq![front[0]] + (rest + until(back, stop)) =~= front + until(back, stop));
    }
}

/// The buffer that `boundary` names is a C string, and a reader of C strings
/// finds in it the encoded text up to its first zero byte.
pub proof fn lemma_boundary_is_c_string(unicode: bool, text: Seq<char>)
    ensures
        is_c_string(boundary(unicode, text)),
        contents(boundary(unicode, text)) == contents(encode(unicode, text)),
{
    let body = contents(encode(unicode, text));
    let buffer = boundary(unicode, text);
    lemma_until_properties(encode(unicode, text), 0u8);
    assert(buffer.drop_last() =~= body);
    assert forall|i: int| 0 <= i < body.len() implies buffer[i] != 0u8 by {
        assert(body[i] == buffer[i]);
        assert(body.contains(body[i]));
    }
    lemma_until_is_prefix(buffer, 0u8, body.len() as int);
    assert(buffer.take(body.len() as int) =~= body);
}

/// The UTF-8 encoding of a character holds a zero byte only where the
/// character is NUL, whose encoding is that one byte.
proof fn lemma_encode_scalar_zero(c: char)
    ensures
        c == '\0' ==> encode_scalar(c as u32) == seq![0u8],
        c != '\0' ==> !encode_scalar(c as u32).contains(0u8),
        encode_scalar(c as u32).len() > 0,
{
    let v = c as u32;
    char_is_scalar(c);
    if c == '\0' {
        assert(v == 0);
        assert(leading_byte_width_1(0u32) == 0u8) by (bit_vector);
    } else {
        assert(v != 0);
        let enc = encode_scalar(v);
        assert(has_width_1_encoding(v) ==> leading_byte_width_1(v) != 0u8) by (bit_vector)
            requires
                v != 0,
        ;
        assert(leading_byte_width_2(v) != 0u8) by (bit_vector);
        assert(leading_byte_width_3(v) != 0u8) by (bit_vector);
        assert(leading_byte_width_4(v) != 0u8) by (bit_vector);
        assert(last_continuation_byte(v) != 0u8) by (bit_vector);
        assert(second_last_continuation_byte(v) != 0u8) by (bit_vector);
        assert(third_last_continuation_byte(v) != 0u8) by (bit_vector);
        if enc.contains(0u8) {
            let i = choose|i: int| 0 <= i < enc.len() && enc[i] == 0u8;
            assert(enc[i] != 0u8);
        }
    }
}

/// Cutting UTF-8 at its first zero byte is encoding the text up to its first
/// NUL character.
pub proof fn lemma_contents_of_utf8(text: Seq<char>)
    ensures
        contents(encode_utf8(text)) == encode_utf8(until(text, '\0')),
    decreases text.len(),
{
    if text.len() == 0 {
        assert(encode_utf8(text) =~= Seq::<u8>::empty());
    } else {
        let head = encode_scalar(text[0] as u32);
        let rest = text.drop_first();
        lemma_encode_scalar_zero(text[0]);
        if text[0] == '\0' {
            assert((head + encode_utf8(rest))[0] == 0u8);
            assert(encode_utf8(Seq::<char>::empty()) =~= Seq::<u8>::empty());
        } else {
            lemma_until_concat(head, encode_utf8(rest), 0u8);
            lemma_contents_of_utf8(rest);
            let cut = until(text, '\0');
            assert(cut[0] == text[0]);
            assert(cut.drop_first() =~= until(rest, '\0'));
        }
    }
}

/// UTF-8 holds a zero byte exactly where the text holds a NUL character.
pub proof fn lemma_utf8_zero_byte(text: Seq<char>)
    ensures
        encode_utf8(text).contains(0u8) <==> text.contains('\0'),
{
    let cut = until(text, '\0');
    lemma_contents_of_utf8(text);
    lemma_until_properties(text, '\0');
    lemma_until_properties(encode_utf8(text), 0u8);
    encode_utf8_decode_utf8(text);
    encode_utf8_decode_utf8(cut);
}

/// Cutting Latin-1 at its first zero byte is encoding the text up to its
/// first NUL character.
pub proof fn lemma_contents_of_latin1(text: Seq<char>)
    ensures
        contents(latin1_encode(text)) == latin1_encode(until(text, '\0')),
{
    let cut = until(text, '\0');
    let bytes = latin1_encode(text);
    lemma_until_properties(text, '\0');
    let n = cut.len() as int;
    assert forall|i: int| 0 <= i < n implies bytes[i] != 0u8 by {
        assert(cut[i] == text[i]);
        assert(cut.contains(text[i]));
        lemma_latin1_byte_zero(text[i]);
    }
    if n < text.len() {
        lemma_latin1_byte_zero(text[n]);
    }
    lemma_until_is_prefix(bytes, 0u8, n);
    assert(bytes.take(n) =~= latin1_encode(cut));
}

/// The Latin-1 byte of a character is zero only for NUL.
proof fn lemma_latin1_byte_zero(c: char)
    ensures
        latin1_byte(c) == 0u8 <==> c == '\0',
{
    let v = c as u32;
    if v <= 0xFF {
        assert((v as u8 == 0u8) <==> v == 0) by (bit_vector)
            requires
                v <= 0xFF,
        ;
    }
}

/// A character within Latin-1 comes back from its byte.
proof fn lemma_latin1_char_round_trip(c: char)
    requires
        c as u32 <= 0xFF,
    ensures
        latin1_byte(c) as char == c,
{
    let v = c as u32;
    assert(v as u8 as u32 == v) by (bit_vector)
        requires
            v <= 0xFF,
    ;
    char_u32_cast(c, v);
}

/// Reading Latin-1 bytes that were written from `text` gives `text` with its
/// substitutes.
pub proof fn lemma_latin1_decode_encode(text: Seq<char>)
    ensures
        latin1_decode(latin1_encode(text)) == substituted(text),
{
    assert forall|i: int| 0 <= i < text.len() implies latin1_decode(latin1_encode(text))[i]
        == substituted(text)[i] by {
        if text[i] as u32 <= 0xFF {
            lemma_latin1_char_round_trip(text[i]);
        } else {
            lemma_latin1_char_round_trip('?');
        }
    }
    assert(latin1_decode(latin1_encode(text)) =~= substituted(text));
}

/// Text that goes out in one buffer and comes back in an equal one arrives as
/// [`received`] says: cut at its first NUL character, and under Latin-1 with a
/// question mark for each character above U+00FF.
pub proof fn lemma_marshal_unmarshal(unicode: bool, text: Seq<char>)
    ensures
        text_of(unicode, boundary(unicode, text)) == received(unicode, text),
{
    lemma_boundary_is_c_string(unicode, text);
    let cut = until(text, '\0');
    if unicode {
        lemma_contents_of_utf8(text);
        encode_utf8_valid_utf8(cut);
        encode_utf8_decode_utf8(cut);
    } else {
        lemma_contents_of_latin1(text);
        lemma_latin1_decode_encode(cut);
    }
}

/// Round trip: text that the encoding can carry comes back as it went out.
pub proof fn lemma_round_trip(unicode: bool, text: Seq<char>)
    requires
        representable(unicode, text),
    ensures
        text_of(unicode, boundary(unicode, text)) == text,
{
    lemma_marshal_unmarshal(unicode, text);
    lemma_until_properties(text, '\0');
    if !unicode {
        assert(substituted(text) =~= text);
    }
}

/// Under UTF-8 every text without a NUL character comes back as it went out,
/// whatever characters it holds.
pub proof fn lemma_unicode_preserves(text: Seq<char>)
    requires
        !text.contains('\0'),
    ensures
        text_of(true, boundary(true, text)) == text,
{
    lemma_round_trip(true, text);
}

/// Under Latin-1 a text without a NUL character comes back with a question
/// mark for each character above U+00FF and is otherwise unchanged; so it
/// comes back changed exactly if it holds such a character.
pub proof fn lemma_latin1_substitutes(text: Seq<char>)
    requires
        !text.contains('\0'),
    ensures
        text_of(false, boundary(false, text)) == substituted(text),
        substituted(text) == text <==> representable(false, text),
{
    lemma_marshal_unmarshal(false, text);
    lemma_until_properties(text, '\0');
    if representable(false, text) {
        assert(substituted(text) =~= text);
    }
    if substituted(text) == text {
        assert forall|i: int| 0 <= i < text.len() implies #[trigger] text[i] as u32 <= 0xFF by {
            assert(substituted(text)[i] == text[i]);
        }
    }
}

} // verus!
