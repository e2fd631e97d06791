//! Percent-encoding of URL path segments and query strings, the escaping of
//! a query value's own `+`, `&`, `=` and `%`, and the decoding of both: the
//! byte-level rules, and the facts that tie the client's encoding to the
//! server's decoding.

use vstd::prelude::*;
use vstd::utf8::*;
use vstd::string::*;

verus! {

/// The two sets of bytes that are escaped when a text is put in a URL.
#[derive(Debug, Clone, Copy, PartialEq, Eq)]
pub enum EscapeSet {
    /// One `/`-separated segment of a path.
    PathSegment,
    /// A query string.
    Query,
}

/// Controls, DEL and every non-ASCII byte.
pub open spec fn is_simple_escaped(b: u8) -> bool {
    b < 0x20 || b > 0x7e
}

/// Whether the byte `b` is escaped in the given part of a URL.
pub open spec fn in_escape_set(b: u8, set: EscapeSet) -> bool {
    let query = is_simple_escaped(b) || b == 0x20 || b == 0x22 || b == 0x23 || b == 0x3c
        || b == 0x3e;
    match set {
        EscapeSet::Query => query,
        EscapeSet::PathSegment => query || b == 0x60 || b == 0x3f || b == 0x7b || b == 0x7d
            || b == 0x25 || b == 0x2f,
    }
}

/// The upper-case hexadecimal digit of `d`, for `0 <= d < 16`.
pub open spec fn hex_upper(d: int) -> u8 {
    if d < 10 {
        (48 + d) as u8
    } else {
        (55 + d) as u8
    }
}

/// `%` followed by the two upper-case hexadecimal digits of `b`.
pub open spec fn escape_byte(b: u8) -> Seq<u8> {
    seq![0x25u8, hex_upper(b as int / 16), hex_upper(b as int % 16)]
}

/// The bytes of `bytes` with each byte of the set replaced by its escape.
pub open spec fn escaped_bytes(bytes: Seq<u8>, set: EscapeSet) -> Seq<u8>
    decreases bytes.len(),
{
    if bytes.len() == 0 {
        Seq::empty()
    } else {
        let b = bytes[0];
        (if in_escape_set(b, set) {
            escape_byte(b)
        } else {
            seq![b]
        }) + escaped_bytes(bytes.skip(1), set)
    }
}

/// The characters whose codes are the given (ASCII) bytes.
pub open spec fn ascii_text(bytes: Seq<u8>) -> Seq<char> {
    Seq::new(bytes.len(), |i: int| bytes[i] as char)
}

/// The percent-encoding of the UTF-8 encoding of `s`.
pub open spec fn percent_encoded(s: Seq<char>, set: EscapeSet) -> Seq<char> {
    ascii_text(escaped_bytes(encode_utf8(s), set))
}

/// The value of a hexadecimal digit, in either case.
pub open spec fn hex_value(b: u8) -> Option<int> {
    if 0x30 <= b && b <= 0x39 {
        Some(b - 0x30)
    } else if 0x41 <= b && b <= 0x46 {
        Some(b - 0x37)
    } else if 0x61 <= b && b <= 0x66 {
        Some(b - 0x57)
    } else {
        None
    }
}

/// Percent-decoding of bytes: `%` followed by two hexadecimal digits stands
/// for the byte they spell; every other byte, a `%` without two digits after
/// it among them, stands for itself.
pub open spec fn percent_decoded_bytes(bytes: Seq<u8>) -> Seq<u8>
    decreases bytes.len(),
{
    if bytes.len() == 0 {
        Seq::empty()
    } else if bytes[0] == 0x25 && bytes.len() >= 3 && hex_value(bytes[1]) is Some && hex_value(
        bytes[2],
    ) is Some {
        seq![(hex_value(bytes[1])->0 * 16 + hex_value(bytes[2])->0) as u8]
            + percent_decoded_bytes(bytes.skip(3))
    } else {
        seq![bytes[0]] + percent_decoded_bytes(bytes.skip(1))
    }
}

/// The text that the percent-decoded UTF-8 bytes of `s` spell, if they are valid UTF-8.
pub open spec fn percent_decoded_text(s: Seq<char>) -> Option<Seq<char>> {
    let d = percent_decoded_bytes(encode_utf8(s));
    if valid_utf8(d) {
        Some(decode_utf8(d))
    } else {
        None
    }
}

/// `url::percent_encoding::utf8_percent_encode` with the path-segment or the
/// query encode set, collected into a `String`. Claimed: the result is the
/// UTF-8 bytes of `input` with every byte of the set replaced by `%` and two
/// upper-case hexadecimal digits, read as ASCII text (the crate's encode sets
/// and its table of escapes, as its source shows them).
#[verifier::external_body]
pub(crate) fn utf8_percent_encode(input: &str, set: EscapeSet) -> (r: String)
    ensures
        r@ == percent_encoded(input@, set),
{
    match set {
        EscapeSet::PathSegment => url::percent_encoding::utf8_percent_encode(
            input,
            url::percent_encoding::PATH_SEGMENT_ENCODE_SET,
        ).to_string(),
        EscapeSet::Query => url::percent_encoding::utf8_percent_encode(
            input,
            url::percent_encoding::QUERY_ENCODE_SET,
        ).to_string(),
    }
}

/// `url::percent_encoding::percent_decode` of the bytes of `input`, followed
/// by its `decode_utf8`. Claimed: the result is present exactly when the
/// percent-decoded bytes are valid UTF-8, and then it is the text they encode.
#[verifier::external_body]
pub(crate) fn percent_decode_utf8(input: &str) -> (r: Option<String>)
    ensures
        r matches Some(t) ==> percent_decoded_text(input@) == Some(t@),
        r is None ==> percent_decoded_text(input@) is None,
{
    url::percent_encoding::percent_decode(input.as_bytes()).decode_utf8().ok().map(
        |t| t.into_owned(),
    )
}

/// The bytes with every `+` read as a space.
pub open spec fn plus_as_space(bytes: Seq<u8>) -> Seq<u8> {
    Seq::new(bytes.len(), |i: int| if bytes[i] == 0x2b { 0x20u8 } else { bytes[i] })
}

/// A form-encoded name or value decoded to bytes: every `+` read as a space,
/// then percent-decoded.
pub open spec fn form_decoded_bytes(bytes: Seq<u8>) -> Seq<u8> {
    percent_decoded_bytes(plus_as_space(bytes))
}

/// The characters of a query value that the value escapes itself before
/// the query string is percent-encoded: `+`, `&`, `=` and `%`, which the
/// query set leaves as they are and which a form decoding reads otherwise.
pub open spec fn is_value_special(c: char) -> bool {
    c == '+' || c == '&' || c == '=' || c == '%'
}

/// A character of a query value: one of the four written as `%` and two
/// upper-case hexadecimal digits, any other as it is.
pub open spec fn value_char_escaped(c: char) -> Seq<char> {
    if is_value_special(c) {
        ascii_text(escape_byte(c as u8))
    } else {
        seq![c]
    }
}

/// A query value with its `+`, `&`, `=` and `%` escaped.
pub open spec fn value_escaped(s: Seq<char>) -> Seq<char>
    decreases s.len(),
{
    if s.len() == 0 {
        Seq::empty()
    } else {
        value_char_escaped(s[0]) + value_escaped(s.drop_first())
    }
}

proof fn lemma_value_escaped_concat(a: Seq<char>, b: Seq<char>)
    ensures
        value_escaped(a + b) == value_escaped(a) + value_escaped(b),
    decreases a.len(),
{
    if a.len() == 0 {
        assert(a + b =~= b);
        assert(value_escaped(a) =~= Seq::<char>::empty());
        assert(value_escaped(a) + value_escaped(b) =~= value_escaped(b));
    } else {
        lemma_value_escaped_concat(a.drop_first(), b);
        assert((a + b).drop_first() =~= a.drop_first() + b);
        assert((a + b)[0] == a[0]);
        assert(value_escaped(a + b) =~= value_escaped(a) + value_escaped(b));
    }
}

/// Escapes the `+`, `&`, `=` and `%` of a query value, so that they reach
/// the server as they are.
pub(crate) fn escape_query_value(v: &str) -> (r: String)
    ensures
        r@ == value_escaped(v@),
{
    let n = v.unicode_len();
    let mut out = String::new();
    let mut i: usize = 0;
    proof {
        assert(v@.take(0) =~= Seq::<char>::empty());
    }
    while i < n
        invariant
            n == v@.len(),
            i <= n,
            out@ == value_escaped(v@.take(i as int)),
        decreases n - i,
    {
        let c = v.get_char(i);
        proof {
            lemma_value_escaped_concat(v@.take(i as int), seq![c]);
            assert(v@.take(i + 1) =~= v@.take(i as int) + seq![c]);
            assert(seq![c].drop_first() =~= Seq::<char>::empty());
            assert(value_escaped(seq![c].drop_first()) =~= Seq::<char>::empty());
            assert(value_escaped(seq![c]) =~= value_char_escaped(c));
        }
        if c == '+' {
            proof {
                reveal_strlit("%2B");
                assert(ascii_text(escape_byte(c as u8)) =~= "%2B"@);
            }
            out.append("%2B");
        } else if c == '&' {
            proof {
                reveal_strlit("%26");
                assert(ascii_text(escape_byte(c as u8)) =~= "%26"@);
            }
            out.append("%26");
        } else if c == '=' {
            proof {
                reveal_strlit("%3D");
                assert(ascii_text(escape_byte(c as u8)) =~= "%3D"@);
            }
            out.append("%3D");
        } else if c == '%' {
            proof {
                reveal_strlit("%25");
                assert(ascii_text(escape_byte(c as u8)) =~= "%25"@);
            }
            out.append("%25");
        } else {
            let one = v.substring_char(i, i + 1);
            assert(one@ =~= seq![c]);
            out.append(one);
        }
        i = i + 1;
    }
    assert(v@.take(n as int) =~= v@);
    out
}

/// A byte that can stand inside one path segment: ASCII, and none of `/`, `?`, `#`.
pub open spec fn is_segment_byte(b: u8) -> bool {
    b < 0x80 && b != 0x2f && b != 0x3f && b != 0x23
}

proof fn lemma_hex_upper(d: int)
    requires
        0 <= d < 16,
    ensures
        hex_value(hex_upper(d)) == Some(d),
        is_segment_byte(hex_upper(d)),
        hex_upper(d) != 0x25,
{
}

proof fn lemma_escaped_segment_bytes(bytes: Seq<u8>)
    ensures
        forall|i: int|
            0 <= i < escaped_bytes(bytes, EscapeSet::PathSegment).len() ==> is_segment_byte(
                #[trigger] escaped_bytes(bytes, EscapeSet::PathSegment)[i],
            ),
    decreases bytes.len(),
{
    if bytes.len() > 0 {
        let b = bytes[0];
        lemma_escaped_segment_bytes(bytes.skip(1));
        lemma_hex_upper(b as int / 16);
        lemma_hex_upper(b as int % 16);
        let head = if in_escape_set(b, EscapeSet::PathSegment) {
            escape_byte(b)
        } else {
            seq![b]
        };
        let tail = escaped_bytes(bytes.skip(1), EscapeSet::PathSegment);
        let e = escaped_bytes(bytes, EscapeSet::PathSegment);
        assert(e == head + tail);
        assert forall|i: int| 0 <= i < e.len() implies is_segment_byte(#[trigger] e[i]) by {
            if i < head.len() {
                assert(e[i] == head[i]);
            } else {
                assert(e[i] == tail[i - head.len()]);
            }
        }
    }
}

proof fn lemma_escaped_ascii(bytes: Seq<u8>, set: EscapeSet)
    ensures
        forall|i: int|
            0 <= i < escaped_bytes(bytes, set).len() ==> #[trigger] escaped_bytes(bytes, set)[i]
                < 0x80,
    decreases bytes.len(),
{
    if bytes.len() > 0 {
        let b = bytes[0];
        lemma_escaped_ascii(bytes.skip(1), set);
        lemma_hex_upper(b as int / 16);
        lemma_hex_upper(b as int % 16);
        let head = if in_escape_set(b, set) {
            escape_byte(b)
        } else {
            seq![b]
        };
        let tail = escaped_bytes(bytes.skip(1), set);
        let e = escaped_bytes(bytes, set);
        assert(e == head + tail);
        assert forall|i: int| 0 <= i < e.len() implies #[trigger] e[i] < 0x80 by {
            if i < head.len() {
                assert(e[i] == head[i]);
            } else {
                assert(e[i] == tail[i - head.len()]);
            }
        }
    }
}

/// The UTF-8 encoding of ASCII text is its bytes.
pub(crate) proof fn lemma_ascii_text_bytes(bytes: Seq<u8>)
    requires
        forall|i: int| 0 <= i < bytes.len() ==> #[trigger] bytes[i] < 0x80,
    ensures
        encode_utf8(ascii_text(bytes)) == bytes,
{
    let t = ascii_text(bytes);
    assert(is_ascii_chars(t)) by {
        assert forall|i: int| 0 <= i < t.len() implies '\0' <= #[trigger] t[i] <= '\u{7f}' by {
            assert(t[i] == bytes[i] as char);
        }
    }
    is_ascii_chars_encode_utf8(t);
    let e = encode_utf8(t);
    assert forall|i: int| 0 <= i < bytes.len() implies e[i] == bytes[i] by {
        assert(t[i] as u8 == e[i]);
        assert(t[i] == bytes[i] as char);
    }
    assert(e =~= bytes);
}

/// Percent-decoding undoes the path-segment escaping of any bytes.
proof fn lemma_decode_escaped_segment(bytes: Seq<u8>)
    ensures
        percent_decoded_bytes(escaped_bytes(bytes, EscapeSet::PathSegment)) == bytes,
{
    let e = escaped_bytes(bytes, EscapeSet::PathSegment);
    lemma_decode_escaped_prefix(bytes, Seq::<u8>::empty(), EscapeSet::PathSegment);
    assert(e + Seq::<u8>::empty() =~= e);
    assert(bytes + percent_decoded_bytes(Seq::<u8>::empty()) =~= bytes);
}

/// A path segment that the client percent-encodes is decoded by the server
/// to the very text it started from, whatever the text.
pub proof fn lemma_path_segment_round_trip(s: Seq<char>)
    ensures
        percent_decoded_text(percent_encoded(s, EscapeSet::PathSegment)) == Some(s),
{
    let bytes = encode_utf8(s);
    let e = escaped_bytes(bytes, EscapeSet::PathSegment);
    lemma_escaped_ascii(bytes, EscapeSet::PathSegment);
    lemma_ascii_text_bytes(e);
    lemma_decode_escaped_segment(bytes);
    encode_utf8_valid_utf8(s);
    encode_utf8_decode_utf8(s);
}

/// A percent-encoded path segment is ASCII and holds no `/`, `?` or `#`, so
/// it stays one segment of the path it is put in.
pub proof fn lemma_path_segment_is_one_segment(s: Seq<char>)
    ensures
        forall|i: int|
            0 <= i < percent_encoded(s, EscapeSet::PathSegment).len() ==> {
                let c = #[trigger] percent_encoded(s, EscapeSet::PathSegment)[i];
                c != '/' && c != '?' && c != '#' && (c as u32) < 0x80
            },
{
    let e = escaped_bytes(encode_utf8(s), EscapeSet::PathSegment);
    lemma_escaped_segment_bytes(encode_utf8(s));
    let t = percent_encoded(s, EscapeSet::PathSegment);
    assert forall|i: int| 0 <= i < t.len() implies {
        let c = #[trigger] t[i];
        c != '/' && c != '?' && c != '#' && (c as u32) < 0x80
    } by {
        assert(t[i] == e[i] as char);
        assert(is_segment_byte(e[i]));
    }
}

/// A text without `%` is percent-decoded to itself: plain identifiers reach
/// the server unchanged.
pub proof fn lemma_decode_without_percent(s: Seq<char>)
    requires
        !s.contains('%'),
    ensures
        percent_decoded_text(s) == Some(s),
{
    let bytes = encode_utf8(s);
    lemma_no_percent_bytes(s);
    lemma_decode_plain_bytes(bytes);
    encode_utf8_valid_utf8(s);
    encode_utf8_decode_utf8(s);
}

proof fn lemma_decode_plain_bytes(bytes: Seq<u8>)
    requires
        !bytes.contains(0x25u8),
    ensures
        percent_decoded_bytes(bytes) == bytes,
    decreases bytes.len(),
{
    if bytes.len() > 0 {
        let rest = bytes.skip(1);
        assert(!rest.contains(0x25u8)) by {
            if rest.contains(0x25u8) {
                let j = choose|j: int| 0 <= j < rest.len() && rest[j] == 0x25u8;
                assert(bytes[j + 1] == 0x25u8);
            }
        }
        assert(bytes[0] != 0x25u8) by {
            if bytes[0] == 0x25u8 {
                assert(bytes.contains(0x25u8));
            }
        }
        lemma_decode_plain_bytes(rest);
        assert(bytes =~= seq![bytes[0]] + rest);
    }
}

/// The byte `%` only occurs in the UTF-8 encoding of a text that holds `%`.
proof fn lemma_no_percent_bytes(s: Seq<char>)
    requires
        !s.contains('%'),
    ensures
        !encode_utf8(s).contains(0x25u8),
    decreases s.len(),
{
    if s.len() > 0 {
        let rest = s.drop_first();
        assert(!rest.contains('%')) by {
            if rest.contains('%') {
                let j = choose|j: int| 0 <= j < rest.len() && rest[j] == '%';
                assert(s[j + 1] == '%');
            }
        }
        assert(s[0] != '%') by {
            if s[0] == '%' {
                assert(s.contains('%'));
            }
        }
        lemma_no_percent_bytes(rest);
        encode_utf8_first_scalar(s);
        let first = encode_scalar(s[0] as u32);
        assert(encode_utf8(s) =~= first + encode_utf8(rest));
        lemma_scalar_bytes_not_percent(s[0]);
        if encode_utf8(s).contains(0x25u8) {
            let j = choose|j: int| 0 <= j < encode_utf8(s).len() && encode_utf8(s)[j] == 0x25u8;
            if j < first.len() {
                assert(first[j] == 0x25u8);
            } else {
                assert(encode_utf8(rest)[j - first.len()] == 0x25u8);
            }
        }
    }
}

proof fn lemma_scalar_bytes_not_percent(c: char)
    requires
        c != '%',
    ensures
        forall|i: int|
            0 <= i < encode_scalar(c as u32).len() ==> #[trigger] encode_scalar(c as u32)[i]
                != 0x25u8,
{
    let v = c as u32;
    char_is_scalar(c);
    if has_width_1_encoding(v) {
        assert(v != 0x25);
        assert(leading_byte_width_1(v) != 0x25) by (bit_vector)
            requires
                v <= 0x7f,
                v != 0x25,
        ;
    } else if has_width_2_encoding(v) {
        assert(leading_byte_width_2(v) >= 0xc0 && last_continuation_byte(v) >= 0x80) by (
        bit_vector);
    } else if has_width_3_encoding(v) {
        assert(leading_byte_width_3(v) >= 0xc0 && last_continuation_byte(v) >= 0x80
            && second_last_continuation_byte(v) >= 0x80) by (bit_vector);
    } else {
        assert(leading_byte_width_4(v) >= 0xc0 && last_continuation_byte(v) >= 0x80
            && second_last_continuation_byte(v) >= 0x80 && third_last_continuation_byte(v)
            >= 0x80) by (bit_vector);
    }
}


proof fn lemma_encode_utf8_concat(a: Seq<char>, b: Seq<char>)
    ensures
        encode_utf8(a + b) == encode_utf8(a) + encode_utf8(b),
    decreases a.len(),
{
    if a.len() == 0 {
        assert(a + b =~= b);
        assert(encode_utf8(a) + encode_utf8(b) =~= encode_utf8(b));
    } else {
        lemma_encode_utf8_concat(a.drop_first(), b);
        assert((a + b).drop_first() =~= a.drop_first() + b);
        assert((a + b)[0] == a[0]);
        assert(encode_utf8(a + b) =~= encode_utf8(a) + encode_utf8(b));
    }
}

proof fn lemma_escaped_concat(x: Seq<u8>, y: Seq<u8>, set: EscapeSet)
    ensures
        escaped_bytes(x + y, set) == escaped_bytes(x, set) + escaped_bytes(y, set),
    decreases x.len(),
{
    if x.len() == 0 {
        assert(x + y =~= y);
        assert(escaped_bytes(x, set) + escaped_bytes(y, set) =~= escaped_bytes(y, set));
    } else {
        lemma_escaped_concat(x.skip(1), y, set);
        assert((x + y).skip(1) =~= x.skip(1) + y);
        assert((x + y)[0] == x[0]);
        assert(escaped_bytes(x + y, set) =~= escaped_bytes(x, set) + escaped_bytes(y, set));
    }
}

proof fn lemma_escaped_unchanged(x: Seq<u8>, set: EscapeSet)
    requires
        forall|i: int| 0 <= i < x.len() ==> !in_escape_set(#[trigger] x[i], set),
    ensures
        escaped_bytes(x, set) == x,
    decreases x.len(),
{
    if x.len() > 0 {
        lemma_escaped_unchanged(x.skip(1), set);
        assert(x =~= seq![x[0]] + x.skip(1));
    }
}

/// The UTF-8 encoding of one character: the character itself when it is
/// ASCII, else bytes that are all non-ASCII.
proof fn lemma_char_bytes(c: char)
    ensures
        encode_utf8(seq![c]) == encode_scalar(c as u32),
        (c as u32) < 0x80 ==> encode_scalar(c as u32) == seq![c as u8],
        (c as u32) >= 0x80 ==> forall|i: int|
            0 <= i < encode_scalar(c as u32).len() ==> #[trigger] encode_scalar(c as u32)[i]
                >= 0x80,
{
    let v = c as u32;
    char_is_scalar(c);
    assert(seq![c].drop_first() =~= Seq::<char>::empty());
    assert(encode_utf8(seq![c].drop_first()) =~= Seq::<u8>::empty());
    assert(seq![c][0] == c);
    assert(encode_utf8(seq![c]) =~= encode_scalar(v) + Seq::<u8>::empty());
    assert(encode_utf8(seq![c]) =~= encode_scalar(v));
    if has_width_1_encoding(v) {
        assert(leading_byte_width_1(v) == v as u8) by (bit_vector)
            requires
                v <= 0x7f,
        ;
    } else if has_width_2_encoding(v) {
        assert(leading_byte_width_2(v) >= 0xc0 && last_continuation_byte(v) >= 0x80) by (
        bit_vector);
    } else if has_width_3_encoding(v) {
        assert(leading_byte_width_3(v) >= 0xc0 && last_continuation_byte(v) >= 0x80
            && second_last_continuation_byte(v) >= 0x80) by (bit_vector);
    } else {
        assert(leading_byte_width_4(v) >= 0xc0 && last_continuation_byte(v) >= 0x80
            && second_last_continuation_byte(v) >= 0x80 && third_last_continuation_byte(v)
            >= 0x80) by (bit_vector);
    }
}

/// Escaped bytes are decoded back to themselves, so long as no byte left as
/// it is is a `%`.
proof fn lemma_decode_escaped_prefix(x: Seq<u8>, t: Seq<u8>, set: EscapeSet)
    requires
        forall|i: int| 0 <= i < x.len() ==> in_escape_set(#[trigger] x[i], set) || x[i] != 0x25,
    ensures
        percent_decoded_bytes(escaped_bytes(x, set) + t) == x + percent_decoded_bytes(t),
    decreases x.len(),
{
    if x.len() == 0 {
        assert(escaped_bytes(x, set) + t =~= t);
        assert(x + percent_decoded_bytes(t) =~= percent_decoded_bytes(t));
    } else {
        let b = x[0];
        let rest = x.skip(1);
        lemma_decode_escaped_prefix(rest, t, set);
        let tail = escaped_bytes(rest, set) + t;
        let e = escaped_bytes(x, set) + t;
        if in_escape_set(b, set) {
            lemma_hex_upper(b as int / 16);
            lemma_hex_upper(b as int % 16);
            assert(e =~= escape_byte(b) + tail);
            assert(e[0] == 0x25u8);
            assert(e[1] == hex_upper(b as int / 16));
            assert(e[2] == hex_upper(b as int % 16));
            assert(e.skip(3) =~= tail);
            assert(((b as int / 16) * 16 + b as int % 16) as u8 == b);
        } else {
            assert(e =~= seq![b] + tail);
            assert(e.skip(1) =~= tail);
        }
        assert(x + percent_decoded_bytes(t) =~= seq![b] + (rest + percent_decoded_bytes(t)));
    }
}


proof fn lemma_escaped_plain_bytes(x: Seq<u8>, set: EscapeSet)
    requires
        forall|i: int|
            0 <= i < x.len() ==> in_escape_set(#[trigger] x[i], set) || (x[i] < 0x80 && x[i]
                != 0x26 && x[i] != 0x3d && x[i] != 0x2b),
    ensures
        forall|i: int|
            0 <= i < escaped_bytes(x, set).len() ==> {
                let e = #[trigger] escaped_bytes(x, set)[i];
                e < 0x80 && e != 0x26 && e != 0x3d && e != 0x2b
            },
    decreases x.len(),
{
    if x.len() > 0 {
        let b = x[0];
        lemma_escaped_plain_bytes(x.skip(1), set);
        lemma_hex_upper(b as int / 16);
        lemma_hex_upper(b as int % 16);
        let head = if in_escape_set(b, set) {
            escape_byte(b)
        } else {
            seq![b]
        };
        let tail = escaped_bytes(x.skip(1), set);
        let e = escaped_bytes(x, set);
        assert(e == head + tail);
        assert forall|i: int| 0 <= i < e.len() implies {
            let c = #[trigger] e[i];
            c < 0x80 && c != 0x26 && c != 0x3d && c != 0x2b
        } by {
            if i < head.len() {
                assert(e[i] == head[i]);
            } else {
                assert(e[i] == tail[i - head.len()]);
            }
        }
    }
}

proof fn lemma_ascii_char_byte(c: char)
    requires
        (c as u32) < 0x80,
    ensures
        (c as u8) as u32 == c as u32,
        c != '%' ==> c as u8 != 0x25u8,
        c != '&' ==> c as u8 != 0x26u8,
        c != '=' ==> c as u8 != 0x3du8,
        c != '+' ==> c as u8 != 0x2bu8,
{
    let u = c as u32;
    char_u32_cast(c, u);
    assert((c as u8) as u32 == u);
    assert(('%' as u32) == 0x25);
}

/// The bytes that a query value stands as in the query string: its special
/// characters escaped, then the whole percent-encoded with the query set.
pub open spec fn query_value_bytes(v: Seq<char>) -> Seq<u8> {
    escaped_bytes(encode_utf8(value_escaped(v)), EscapeSet::Query)
}

/// A query value stands in the query string as ASCII bytes without `&`, `=`
/// or `+`, and percent-decoding them gives back the UTF-8 bytes of the value.
pub proof fn lemma_query_value_bytes(v: Seq<char>)
    ensures
        forall|i: int|
            0 <= i < query_value_bytes(v).len() ==> {
                let b = #[trigger] query_value_bytes(v)[i];
                b < 0x80 && b != 0x26 && b != 0x3d && b != 0x2b
            },
        percent_decoded_bytes(query_value_bytes(v)) == encode_utf8(v),
    decreases v.len(),
{
    let r = query_value_bytes(v);
    if v.len() == 0 {
        assert(value_escaped(v) =~= Seq::<char>::empty());
        assert(encode_utf8(value_escaped(v)) =~= Seq::<u8>::empty());
        assert(r =~= Seq::<u8>::empty());
    } else {
        let c = v[0];
        let rest = v.drop_first();
        lemma_query_value_bytes(rest);
        let r_rest = query_value_bytes(rest);
        let head_chars = value_char_escaped(c);
        assert(value_escaped(v) == head_chars + value_escaped(rest));
        lemma_encode_utf8_concat(head_chars, value_escaped(rest));
        lemma_escaped_concat(encode_utf8(head_chars), encode_utf8(value_escaped(rest)), EscapeSet::Query);
        let head = escaped_bytes(encode_utf8(head_chars), EscapeSet::Query);
        assert(r == head + r_rest);
        assert(v =~= seq![c] + rest);
        lemma_encode_utf8_concat(seq![c], rest);
        lemma_char_bytes(c);
        if is_value_special(c) {
            let b = c as u8;
            let eb = escape_byte(b);
            lemma_hex_upper(b as int / 16);
            lemma_hex_upper(b as int % 16);
            lemma_ascii_text_bytes(eb);
            lemma_escaped_unchanged(eb, EscapeSet::Query);
            assert(head == eb);
            assert(r[0] == 0x25u8);
            assert(r[1] == hex_upper(b as int / 16));
            assert(r[2] == hex_upper(b as int % 16));
            assert(r.skip(3) =~= r_rest);
            assert(((b as int / 16) * 16 + b as int % 16) as u8 == b);
            assert(encode_utf8(seq![c]) == seq![b]);
            assert(percent_decoded_bytes(r) =~= seq![b] + percent_decoded_bytes(r_rest));
        } else {
            let sb = encode_utf8(seq![c]);
            assert(head_chars == seq![c]);
            if (c as u32) < 0x80 {
                lemma_ascii_char_byte(c);
            }
            assert forall|i: int| 0 <= i < sb.len() implies in_escape_set(
                #[trigger] sb[i],
                EscapeSet::Query,
            ) || sb[i] != 0x25 by {
                if (c as u32) < 0x80 {
                    assert(sb[i] == c as u8);
                }
            }
            assert forall|i: int| 0 <= i < sb.len() implies in_escape_set(
                #[trigger] sb[i],
                EscapeSet::Query,
            ) || (sb[i] < 0x80 && sb[i] != 0x26 && sb[i] != 0x3d && sb[i] != 0x2b) by {
                if (c as u32) < 0x80 {
                    assert(sb[i] == c as u8);
                }
            }
            lemma_decode_escaped_prefix(sb, r_rest, EscapeSet::Query);
            lemma_escaped_plain_bytes(sb, EscapeSet::Query);
        }
        assert forall|i: int| 0 <= i < r.len() implies {
            let b = #[trigger] r[i];
            b < 0x80 && b != 0x26 && b != 0x3d && b != 0x2b
        } by {
            if i < head.len() {
                assert(r[i] == head[i]);
            } else {
                assert(r[i] == r_rest[i - head.len()]);
            }
        }
    }
}


/// A parameter name that every encoding and decoding of a query leaves as
/// it is: ASCII letters, digits, `-`, `.` and `_`.
pub open spec fn is_plain_name(n: Seq<char>) -> bool {
    forall|i: int|
        0 <= i < n.len() ==> {
            let c = #[trigger] n[i];
            ('a' <= c && c <= 'z') || ('A' <= c && c <= 'Z') || ('0' <= c && c <= '9') || c
                == '-' || c == '.' || c == '_'
        }
}

/// The query text `name=value&` as a client writes one parameter: the
/// value's special characters escaped, then the whole percent-encoded with
/// the query set.
pub open spec fn value_query(name: Seq<char>, value: Seq<char>) -> Seq<char> {
    percent_encoded(name + "="@ + value_escaped(value) + "&"@, EscapeSet::Query)
}

/// The bytes of a plain name are its characters, ASCII, none of them
/// escaped in a query, and none of `%`, `&`, `=`, `+`.
pub proof fn lemma_plain_name_bytes(n: Seq<char>)
    requires
        is_plain_name(n),
    ensures
        forall|i: int|
            0 <= i < encode_utf8(n).len() ==> {
                let b = #[trigger] encode_utf8(n)[i];
                &&& b < 0x80
                &&& !in_escape_set(b, EscapeSet::Query)
                &&& b != 0x25 && b != 0x26 && b != 0x3d && b != 0x2b
            },
        escaped_bytes(encode_utf8(n), EscapeSet::Query) == encode_utf8(n),
        plus_as_space(encode_utf8(n)) == encode_utf8(n),
        percent_decoded_bytes(encode_utf8(n)) == encode_utf8(n),
        valid_utf8(encode_utf8(n)),
        decode_utf8(encode_utf8(n)) == n,
{
    assert(is_ascii_chars(n)) by {
        assert forall|i: int| 0 <= i < n.len() implies '\0' <= #[trigger] n[i] <= '\u{7f}' by {
            assert(is_plain_name(n));
        }
    }
    is_ascii_chars_encode_utf8(n);
    let bn = encode_utf8(n);
    assert forall|i: int| 0 <= i < bn.len() implies {
        let b = #[trigger] bn[i];
        &&& b < 0x80
        &&& !in_escape_set(b, EscapeSet::Query)
        &&& b != 0x25 && b != 0x26 && b != 0x3d && b != 0x2b
    } by {
        assert(n[i] as u8 == bn[i]);
        let c = n[i];
        assert(('a' <= c && c <= 'z') || ('A' <= c && c <= 'Z') || ('0' <= c && c <= '9') || c
            == '-' || c == '.' || c == '_');
        lemma_ascii_char_byte(c);
    }
    lemma_escaped_unchanged(bn, EscapeSet::Query);
    assert(plus_as_space(bn) =~= bn);
    assert(!bn.contains(0x25u8));
    lemma_decode_plain_bytes(bn);
    encode_utf8_valid_utf8(n);
    encode_utf8_decode_utf8(n);
}

/// The bytes of the query text a client writes for one parameter with a
/// plain name: the name, `=`, the value's bytes, `&`.
pub proof fn lemma_value_query_bytes(name: Seq<char>, value: Seq<char>)
    requires
        is_plain_name(name),
    ensures
        encode_utf8(value_query(name, value)) == encode_utf8(name) + seq![0x3du8]
            + query_value_bytes(value) + seq![0x26u8],
{
    reveal_strlit("=");
    reveal_strlit("&");
    let bn = encode_utf8(name);
    let e = value_escaped(value);
    lemma_plain_name_bytes(name);
    lemma_char_bytes('=');
    lemma_char_bytes('&');
    assert("="@ =~= seq!['=']);
    assert("&"@ =~= seq!['&']);
    lemma_encode_utf8_concat(name, "="@);
    lemma_encode_utf8_concat(name + "="@, e);
    lemma_encode_utf8_concat(name + "="@ + e, "&"@);
    let pe = encode_utf8(e);
    let whole = encode_utf8(name + "="@ + e + "&"@);
    assert(whole == bn + seq![0x3du8] + pe + seq![0x26u8]);
    lemma_escaped_concat(bn + seq![0x3du8] + pe, seq![0x26u8], EscapeSet::Query);
    lemma_escaped_concat(bn + seq![0x3du8], pe, EscapeSet::Query);
    lemma_escaped_concat(bn, seq![0x3du8], EscapeSet::Query);
    lemma_escaped_unchanged(seq![0x3du8], EscapeSet::Query);
    lemma_escaped_unchanged(seq![0x26u8], EscapeSet::Query);
    let esc = escaped_bytes(whole, EscapeSet::Query);
    assert(esc == bn + seq![0x3du8] + query_value_bytes(value) + seq![0x26u8]);
    lemma_escaped_ascii(whole, EscapeSet::Query);
    lemma_ascii_text_bytes(esc);
}

} // verus!
