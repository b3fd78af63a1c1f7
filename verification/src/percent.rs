//! Percent-encoding of text for the heartbeat query parameter, through the `percent_encoding` crate.

use percent_encoding::{utf8_percent_encode, AsciiSet, CONTROLS};
use vstd::prelude::*;
use vstd::utf8::encode_utf8;

verus! {

#[verifier::external_type_specification]
#[verifier::external_body]
pub struct ExAsciiSet(AsciiSet);

/// The ASCII bytes that an `AsciiSet` marks for percent-encoding.
pub uninterp spec fn ascii_set_bytes(set: AsciiSet) -> Set<u8>;

/// C0 control bytes and DEL, the members of `percent_encoding::CONTROLS`.
pub open spec fn is_control_byte(b: u8) -> bool {
    b < 0x20 || b == 0x7f
}

/// The bytes of `percent_encoding::CONTROLS`.
pub open spec fn control_bytes() -> Set<u8> {
    Set::new(|b: u8| is_control_byte(b))
}

/// The set used for the heartbeat text: the controls, space, `"`, `{`, `}`, `:` and `,`.
pub open spec fn fragment_bytes() -> Set<u8> {
    control_bytes().insert(0x20).insert(0x22).insert(0x7b).insert(0x7d).insert(0x3a).insert(0x2c)
}

/// Upper-case hexadecimal digit.
pub open spec fn hex_digit_upper(d: nat) -> char {
    if d < 10 {
        (48 + d) as char
    } else {
        (55 + d) as char
    }
}

/// `%` followed by the two upper-case hexadecimal digits of `b`.
pub open spec fn percent_encoded_byte(b: u8) -> Seq<char> {
    seq!['%', hex_digit_upper((b / 16) as nat), hex_digit_upper((b % 16) as nat)]
}

/// Whether a byte is replaced: every non-ASCII byte, and the ASCII bytes of the set.
pub open spec fn should_percent_encode(b: u8, set: Set<u8>) -> bool {
    b >= 128 || set.contains(b)
}

/// Byte-by-byte percent-encoding: a byte that should be encoded becomes `%XX`, any other
/// (an ASCII byte) stays as its character.
pub open spec fn percent_encode_bytes(bytes: Seq<u8>, set: Set<u8>) -> Seq<char>
    decreases bytes.len(),
{
    if bytes.len() == 0 {
        seq![]
    } else {
        (if should_percent_encode(bytes[0], set) {
            percent_encoded_byte(bytes[0])
        } else {
            seq![bytes[0] as char]
        }) + percent_encode_bytes(bytes.drop_first(), set)
    }
}

/// A character that stays as it is inside a URL query written with `set`: ASCII, and not
/// one of the bytes of the set.
pub open spec fn passes_through(c: char, set: Set<u8>) -> bool {
    (c as u32) < 128 && !set.contains(c as u32 as u8)
}

/// Percent-encoding leaves none of the set's bytes and no non-ASCII character in its output,
/// as long as the set keeps `%` and the upper-case hexadecimal digits unencoded.
pub proof fn lemma_percent_encoded_passes_through(bytes: Seq<u8>, set: Set<u8>)
    requires
        !set.contains(0x25u8),
        forall|d: u8| 0x30 <= d <= 0x39 ==> !set.contains(d),
        forall|d: u8| 0x41 <= d <= 0x46 ==> !set.contains(d),
    ensures
        forall|i: int| 0 <= i < percent_encode_bytes(bytes, set).len()
            ==> passes_through(#[trigger] percent_encode_bytes(bytes, set)[i], set),
    decreases bytes.len(),
{
    if bytes.len() > 0 {
        lemma_percent_encoded_passes_through(bytes.drop_first(), set);
        let b = bytes[0];
        let head = if should_percent_encode(b, set) { percent_encoded_byte(b) } else { seq![b as char] };
        let tail = percent_encode_bytes(bytes.drop_first(), set);
        assert(percent_encode_bytes(bytes, set) == head + tail);
        if should_percent_encode(b, set) {
            assert(passes_through(head[0], set));
            assert(passes_through(head[1], set));
            assert(passes_through(head[2], set));
        } else {
            assert(b < 128);
            assert((b as char) as u32 as u8 == b);
        }
        assert forall|i: int| 0 <= i < (head + tail).len() implies passes_through(#[trigger] (head + tail)[i], set) by {
            if i >= head.len() {
                assert((head + tail)[i] == tail[i - head.len()]);
            }
        }
    }
}

/// `CONTROLS.add(byte)`: the crate's `add` returns the set with the bit of `byte` set,
/// and `CONTROLS` holds exactly 0x00..=0x1F and 0x7F.
#[verifier::external_body]
fn controls_with(byte: u8) -> (set: AsciiSet)
    requires
        byte < 128,
    ensures
        ascii_set_bytes(set) == control_bytes().insert(byte),
{
    CONTROLS.add(byte)
}

/// `AsciiSet::add`: the set with the bit of `byte` set, the others unchanged.
#[verifier::external_body]
fn ascii_set_add(set: &AsciiSet, byte: u8) -> (r: AsciiSet)
    requires
        byte < 128,
    ensures
        ascii_set_bytes(r) == ascii_set_bytes(*set).insert(byte),
{
    set.add(byte)
}

/// `Box::leak` of a boxed set: the crate's encoders take a set by `&'static` reference.
#[verifier::external_body]
fn leak_ascii_set(set: AsciiSet) -> (r: &'static AsciiSet)
    ensures
        *r == set,
{
    Box::leak(Box::new(set))
}

/// `utf8_percent_encode(input, set).to_string()`: the UTF-8 bytes of `input`, each byte that
/// is not ASCII or is in `set` written as `%XX` with upper-case hexadecimal digits, the other
/// bytes unchanged.
#[verifier::external_body]
pub(crate) fn utf8_percent_encode_string(input: &str, set: &'static AsciiSet) -> (r: String)
    ensures
        r@ == percent_encode_bytes(encode_utf8(input@), ascii_set_bytes(*set)),
{
    utf8_percent_encode(input, set).to_string()
}

/// The set of bytes that the heartbeat text is encoded with. Each call leaks one set, which
/// the encoder needs for the life of the program; a client builds it once.
pub(crate) fn fragment_set() -> (set: &'static AsciiSet)
    ensures
        ascii_set_bytes(*set) == fragment_bytes(),
{
    let s = controls_with(0x20);
    let s = ascii_set_add(&s, 0x22);
    let s = ascii_set_add(&s, 0x7b);
    let s = ascii_set_add(&s, 0x7d);
    let s = ascii_set_add(&s, 0x3a);
    let s = ascii_set_add(&s, 0x2c);
    leak_ascii_set(s)
}

} // verus!
