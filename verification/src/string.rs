//! The payload codec: text to and from little-endian UTF-16 bytes.

use vstd::prelude::*;

verus! {

/// A code unit in the high (leading) surrogate range.
pub open spec fn is_high_surrogate(u: u16) -> bool {
    0xD800 <= u <= 0xDBFF
}

/// A code unit in the low (trailing) surrogate range.
pub open spec fn is_low_surrogate(u: u16) -> bool {
    0xDC00 <= u <= 0xDFFF
}

/// A code unit that cannot stand for a character by itself.
pub open spec fn is_surrogate(u: u16) -> bool {
    0xD800 <= u <= 0xDFFF
}

/// The code units of one character: itself below U+10000, a surrogate pair above.
pub open spec fn char_units(c: char) -> Seq<u16> {
    let v = c as u32;
    if v < 0x10000 {
        seq![v as u16]
    } else {
        seq![(0xD800 + (v - 0x10000) / 0x400) as u16, (0xDC00 + (v - 0x10000) % 0x400) as u16]
    }
}

/// The code units of a text: those of its characters, in order.
pub open spec fn text_units(s: Seq<char>) -> Seq<u16>
    decreases s.len(),
{
    if s.len() == 0 {
        Seq::empty()
    } else {
        text_units(s.drop_last()) + char_units(s.last())
    }
}

/// Each code unit as two bytes, low byte first.
pub open spec fn units_to_bytes(u: Seq<u16>) -> Seq<u8> {
    Seq::new(
        2 * u.len(),
        |i: int|
            if i % 2 == 0 {
                (u[i / 2] % 256) as u8
            } else {
                (u[i / 2] / 256) as u8
            },
    )
}

/// The payload bytes of a text.
pub open spec fn utf16le_bytes(s: Seq<char>) -> Seq<u8> {
    units_to_bytes(text_units(s))
}

/// The bytes of a run of code units are the bytes of its parts, in order.
pub proof fn lemma_units_to_bytes_concat(a: Seq<u16>, b: Seq<u16>)
    ensures
        units_to_bytes(a + b) == units_to_bytes(a) + units_to_bytes(b),
{
    let whole = units_to_bytes(a + b);
    let parts = units_to_bytes(a) + units_to_bytes(b);
    assert(whole.len() == parts.len());
    assert forall|i: int| 0 <= i < whole.len() implies whole[i] == parts[i] by {
        if i < 2 * a.len() {
            assert((a + b)[i / 2] == a[i / 2]);
        } else {
            assert((a + b)[i / 2] == b[i / 2 - a.len()]);
            assert((i - 2 * a.len()) / 2 == i / 2 - a.len());
            assert((i - 2 * a.len()) % 2 == i % 2);
        }
    }
    assert(whole =~= parts);
}

/// The code units of a text that ends in `c` are those of the rest, then those of `c`.
pub proof fn lemma_text_units_push(s: Seq<char>, c: char)
    ensures
        text_units(s.push(c)) == text_units(s) + char_units(c),
{
    assert(s.push(c).drop_last() =~= s);
    assert(s.push(c).last() == c);
}

/// Appends the two bytes of one code unit, low byte first.
fn push_unit(bytes: &mut Vec<u8>, unit: u16)
    ensures
        final(bytes)@ == old(bytes)@ + units_to_bytes(seq![unit]),
{
    let low: u8 = (unit % 256) as u8;
    let high: u8 = (unit / 256) as u8;
    bytes.push(low);
    bytes.push(high);
    proof {
        let two = units_to_bytes(seq![unit]);
        assert(two.len() == 2);
        assert(two[0] == low);
        assert(two[1] == high);
        assert(bytes@ =~= old(bytes)@ + two);
    }
}

/// Encodes a text as little-endian UTF-16 bytes, two per code unit; a character above U+FFFF
/// becomes a surrogate pair.
pub fn encode_utf16le(s: &str) -> (bytes: Vec<u8>)
    ensures
        bytes@ == utf16le_bytes(s@),
{
    let mut bytes: Vec<u8> = Vec::new();
    proof {
        assert(s@.take(0) =~= Seq::<char>::empty());
        assert(utf16le_bytes(Seq::<char>::empty()) =~= Seq::<u8>::empty());
    }
    for c in it: s.chars()
        invariant
            it.seq() == s@,
            bytes@ == utf16le_bytes(s@.take(it.index() as int)),
    {
        let ghost done = s@.take(it.index() as int);
        let ghost before = bytes@;
        proof {
            assert(s@.take(it.index() + 1) =~= done.push(c));
            lemma_text_units_push(done, c);
            lemma_units_to_bytes_concat(text_units(done), char_units(c));
        }
        let v: u32 = c as u32;
        if v < 0x10000 {
            push_unit(&mut bytes, v as u16);
        } else {
            let w: u32 = v - 0x10000;
            let high: u16 = (0xD800 + w / 0x400) as u16;
            let low: u16 = (0xDC00 + w % 0x400) as u16;
            push_unit(&mut bytes, high);
            push_unit(&mut bytes, low);
            proof {
                lemma_units_to_bytes_concat(seq![high], seq![low]);
                assert(seq![high] + seq![low] =~= char_units(c));
                assert(bytes@ =~= before + units_to_bytes(char_units(c)));
            }
        }
    }
    proof {
        assert(s@.take(s@.len() as int) =~= s@);
    }
    bytes
}

/// The code units that a byte sequence holds, two bytes each, low byte first. A last odd byte
/// belongs to no unit.
pub open spec fn bytes_to_units(b: Seq<u8>) -> Seq<u16> {
    Seq::new(b.len() / 2, |i: int| (b[2 * i] + 256 * b[2 * i + 1]) as u16)
}

/// The character that a surrogate pair stands for.
pub open spec fn pair_char(high: u16, low: u16) -> char {
    (0x10000 + (high - 0xD800) * 0x400 + (low - 0xDC00)) as char
}

/// The code unit at `i` is a surrogate without its partner: a high one that no low one
/// follows, or a low one that no high one precedes.
pub open spec fn lone_surrogate_at(u: Seq<u16>, i: int) -> bool {
    ||| is_high_surrogate(u[i]) && !(i + 1 < u.len() && is_low_surrogate(u[i + 1]))
    ||| is_low_surrogate(u[i]) && !(0 < i && is_high_surrogate(u[i - 1]))
}

/// Some code unit is an unpaired surrogate.
pub open spec fn has_lone_surrogate(u: Seq<u16>) -> bool {
    exists|i: int| 0 <= i < u.len() && lone_surrogate_at(u, i)
}

/// `text` with one more character, where there is a text.
pub open spec fn text_push(text: Option<Seq<char>>, c: char) -> Option<Seq<char>> {
    match text {
        Some(s) => Some(s.push(c)),
        None => None,
    }
}

/// The text that a run of code units stands for, read off its last character as
/// `text_units` builds it; `None` where a surrogate has no partner.
pub open spec fn units_text(u: Seq<u16>) -> Option<Seq<char>>
    decreases u.len(),
{
    let n = u.len() as int;
    if n == 0 {
        Some(Seq::empty())
    } else if !is_surrogate(u[n - 1]) {
        text_push(units_text(u.take(n - 1)), u[n - 1] as char)
    } else if is_low_surrogate(u[n - 1]) && n >= 2 && is_high_surrogate(u[n - 2]) {
        text_push(units_text(u.take(n - 2)), pair_char(u[n - 2], u[n - 1]))
    } else {
        None
    }
}

/// The text of a payload; `None` where the length is odd or a surrogate has no partner.
pub open spec fn utf16le_text(b: Seq<u8>) -> Option<Seq<char>> {
    if b.len() % 2 != 0 {
        None
    } else {
        units_text(bytes_to_units(b))
    }
}

/// A run of code units has no text exactly where one of them is an unpaired surrogate.
pub proof fn lemma_units_text_none(u: Seq<u16>)
    ensures
        units_text(u) is None <==> has_lone_surrogate(u),
    decreases u.len(),
{
    let n = u.len() as int;
    if n == 0 {
    } else if !is_surrogate(u[n - 1]) {
        let p = u.take(n - 1);
        lemma_units_text_none(p);
        if has_lone_surrogate(p) {
            let j = choose|j: int| 0 <= j < p.len() && lone_surrogate_at(p, j);
            assert(lone_surrogate_at(u, j));
        }
        if has_lone_surrogate(u) {
            let j = choose|j: int| 0 <= j < u.len() && lone_surrogate_at(u, j);
            assert(lone_surrogate_at(p, j));
        }
    } else if is_low_surrogate(u[n - 1]) && n >= 2 && is_high_surrogate(u[n - 2]) {
        let p = u.take(n - 2);
        lemma_units_text_none(p);
        if has_lone_surrogate(p) {
            let j = choose|j: int| 0 <= j < p.len() && lone_surrogate_at(p, j);
            assert(lone_surrogate_at(u, j));
        }
        if has_lone_surrogate(u) {
            let j = choose|j: int| 0 <= j < u.len() && lone_surrogate_at(u, j);
            assert(lone_surrogate_at(p, j));
        }
    } else {
        assert(lone_surrogate_at(u, n - 1));
    }
}

/// One character's code units stand for that character: a single unit that is no surrogate,
/// or a high surrogate followed by a low one.
pub proof fn lemma_char_units(c: char)
    ensures
        char_units(c).len() == 1 ==> !is_surrogate(char_units(c)[0]) && char_units(c)[0] as char
            == c,
        char_units(c).len() != 1 ==> char_units(c).len() == 2 && is_high_surrogate(
            char_units(c)[0],
        ) && is_low_surrogate(char_units(c)[1]) && pair_char(char_units(c)[0], char_units(c)[1])
            == c,
{
    let v = c as u32;
    if v >= 0x10000 {
        let w = (v - 0x10000) as int;
        assert(char_units(c)[0] == 0xD800 + w / 0x400);
        assert(char_units(c)[1] == 0xDC00 + w % 0x400);
        assert(0x10000 + (char_units(c)[0] - 0xD800) * 0x400 + (char_units(c)[1] - 0xDC00) == v);
    }
}

/// The code units of a text stand for that text.
pub proof fn lemma_units_round_trip(s: Seq<char>)
    ensures
        units_text(text_units(s)) == Some(s),
    decreases s.len(),
{
    if s.len() > 0 {
        let t = s.drop_last();
        let c = s.last();
        lemma_units_round_trip(t);
        let u = text_units(s);
        let n = u.len() as int;
        assert(t.push(c) =~= s);
        assert(u == text_units(t) + char_units(c));
        lemma_char_units(c);
        if char_units(c).len() == 1 {
            assert(u.take(n - 1) =~= text_units(t));
            assert(u[n - 1] == char_units(c)[0]);
        } else {
            assert(u.take(n - 2) =~= text_units(t));
            assert(u[n - 2] == char_units(c)[0]);
            assert(u[n - 1] == char_units(c)[1]);
        }
    }
}

/// Code units that stand for a text are the code units of that text.
pub proof fn lemma_units_text_inverse(u: Seq<u16>)
    requires
        units_text(u) is Some,
    ensures
        text_units(units_text(u)->0) == u,
    decreases u.len(),
{
    let n = u.len() as int;
    if n == 0 {
    } else if !is_surrogate(u[n - 1]) {
        let p = u.take(n - 1);
        let c = u[n - 1] as char;
        lemma_units_text_inverse(p);
        lemma_text_units_push(units_text(p)->0, c);
        assert(char_units(c) =~= seq![u[n - 1]]);
        assert(p + seq![u[n - 1]] =~= u);
    } else {
        let p = u.take(n - 2);
        let c = pair_char(u[n - 2], u[n - 1]);
        lemma_units_text_inverse(p);
        lemma_text_units_push(units_text(p)->0, c);
        assert(char_units(c) =~= seq![u[n - 2], u[n - 1]]);
        assert(p + seq![u[n - 2], u[n - 1]] =~= u);
    }
}

/// Splitting code units into bytes and joining the bytes again gives the code units back.
pub proof fn lemma_bytes_of_units(u: Seq<u16>)
    ensures
        units_to_bytes(u).len() == 2 * u.len(),
        bytes_to_units(units_to_bytes(u)) == u,
{
    let b = units_to_bytes(u);
    assert(bytes_to_units(b) =~= u);
}

/// Joining the bytes of a payload of even length into code units and splitting them again
/// gives the payload back.
pub proof fn lemma_units_of_bytes(b: Seq<u8>)
    requires
        b.len() % 2 == 0,
    ensures
        units_to_bytes(bytes_to_units(b)) == b,
{
    let u = bytes_to_units(b);
    assert(units_to_bytes(u) =~= b);
}

/// The payload was not UTF-16: its length is odd, or a surrogate has no partner.
#[derive(Debug, Clone, Copy, PartialEq, Eq)]
pub struct FromUtf16Error;

impl FromUtf16Error {
    /// What to tell the user.
    pub fn message(&self) -> (text: String)
        ensures
            text@ == "invalid utf-16: lone surrogate found"@,
    {
        "invalid utf-16: lone surrogate found".to_owned()
    }
}

/// A value that a character can have: at most U+10FFFF and no surrogate.
pub open spec fn is_scalar_value(v: u32) -> bool {
    v <= 0x10FFFF && !(0xD800 <= v <= 0xDFFF)
}

/// `char::from_u32` of std: the character with the given scalar value; none for a surrogate
/// and for a value above U+10FFFF.
#[verifier::external_body]
fn char_from_u32(v: u32) -> (c: Option<char>)
    ensures
        is_scalar_value(v) ==> c == Some(v as char),
        !is_scalar_value(v) ==> c is None,
{
    char::from_u32(v)
}

/// `String::push` of std: the text with `c` appended at its end.
#[verifier::external_body]
fn push_char(text: &mut String, c: char)
    ensures
        final(text)@ == old(text)@.push(c),
{
    text.push(c)
}

/// The code unit that the bytes at `2 * i` and `2 * i + 1` hold.
fn unit_at(v: &[u8], i: usize) -> (unit: u16)
    requires
        2 * i + 1 < v@.len(),
    ensures
        unit == bytes_to_units(v@)[i as int],
{
    let len: usize = v.len();
    assert(2 * i + 1 < len);
    let low: u16 = v[2 * i] as u16;
    let high: u16 = v[2 * i + 1] as u16;
    low + 256 * high
}

/// Decodes a payload of little-endian UTF-16 bytes.
///
/// Fails where the length is odd or a surrogate code unit has no partner; nothing is
/// replaced or skipped. What succeeds encodes back to the same bytes.
pub fn from_utf16le(v: &[u8]) -> (r: Result<String, FromUtf16Error>)
    ensures
        match r {
            Ok(s) => utf16le_text(v@) == Some(s@),
            Err(_) => utf16le_text(v@) is None,
        },
        r is Err <==> v@.len() % 2 != 0 || has_lone_surrogate(bytes_to_units(v@)),
        r matches Ok(s) ==> utf16le_bytes(s@) == v@,
{
    let len: usize = v.len();
    if len % 2 != 0 {
        return Err(FromUtf16Error);
    }
    let ghost u = bytes_to_units(v@);
    let n: usize = len / 2;
    let mut text = String::new();
    let mut i: usize = 0;
    proof {
        lemma_units_text_none(u);
        assert(u.take(0) =~= Seq::<u16>::empty());
    }
    while i < n
        invariant
            len == v@.len(),
            len % 2 == 0,
            n == len / 2,
            u == bytes_to_units(v@),
            units_text(u) is None <==> has_lone_surrogate(u),
            i <= n,
            units_text(u.take(i as int)) == Some(text@),
            i == 0 || !is_high_surrogate(u[i - 1]),
        decreases n - i,
    {
        let unit: u16 = unit_at(v, i);
        if unit < 0xD800 || unit > 0xDFFF {
            match char_from_u32(unit as u32) {
                Some(c) => {
                    push_char(&mut text, c);
                },
                // Not reached: the unit is no surrogate.
                None => {
                    return Err(FromUtf16Error);
                },
            }
            proof {
                assert(u.take(i + 1).take(i as int) =~= u.take(i as int));
            }
            i = i + 1;
        } else if unit <= 0xDBFF && i + 1 < n {
            let low: u16 = unit_at(v, i + 1);
            if low < 0xDC00 || low > 0xDFFF {
                proof {
                    assert(lone_surrogate_at(u, i as int));
                }
                return Err(FromUtf16Error);
            }
            let high_bits: u32 = (unit - 0xD800) as u32;
            let low_bits: u32 = (low - 0xDC00) as u32;
            match char_from_u32(0x10000 + high_bits * 0x400 + low_bits) {
                Some(c) => {
                    push_char(&mut text, c);
                },
                // Not reached: a pair stands for a value from U+10000 to U+10FFFF.
                None => {
                    return Err(FromUtf16Error);
                },
            }
            proof {
                assert(u.take(i + 2).take(i as int) =~= u.take(i as int));
            }
            i = i + 2;
        } else {
            proof {
                assert(lone_surrogate_at(u, i as int));
            }
            return Err(FromUtf16Error);
        }
    }
    proof {
        assert(u.take(n as int) =~= u);
        lemma_units_text_inverse(u);
        lemma_units_of_bytes(v@);
    }
    Ok(text)
}

/// Encoding a text and decoding the bytes gives the text back.
pub proof fn lemma_round_trip(s: Seq<char>)
    ensures
        utf16le_text(utf16le_bytes(s)) == Some(s),
{
    lemma_bytes_of_units(text_units(s));
    lemma_units_round_trip(s);
}

/// A payload that decodes to a text is the encoding of that text, byte for byte.
pub proof fn lemma_text_encodes_back(b: Seq<u8>)
    requires
        utf16le_text(b) is Some,
    ensures
        utf16le_bytes(utf16le_text(b)->0) == b,
{
    lemma_units_text_inverse(bytes_to_units(b));
    lemma_units_of_bytes(b);
}

/// A payload has no text exactly where its length is odd or one of its code units is an
/// unpaired surrogate.
pub proof fn lemma_text_none(b: Seq<u8>)
    ensures
        utf16le_text(b) is None <==> b.len() % 2 != 0 || has_lone_surrogate(bytes_to_units(b)),
{
    lemma_units_text_none(bytes_to_units(b));
}

/// Two texts with the same payload are the same text.
pub proof fn lemma_bytes_injective(a: Seq<char>, b: Seq<char>)
    requires
        utf16le_bytes(a) == utf16le_bytes(b),
    ensures
        a == b,
{
    lemma_round_trip(a);
    lemma_round_trip(b);
}

} // verus!
