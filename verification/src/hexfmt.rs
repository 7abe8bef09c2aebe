//! Hex text of frames: what a hex digit is, what a hex string decodes to,
//! how bytes are written in hex, and how the panel groups hex digits in pairs.

use vstd::prelude::*;

verus! {

/// `c` is one of `0-9`, `a-f`, `A-F`.
pub open spec fn is_hex_digit(c: char) -> bool {
    ||| ('0' <= c && c <= '9')
    ||| ('a' <= c && c <= 'f')
    ||| ('A' <= c && c <= 'F')
}

/// The value of a hex digit.
pub open spec fn hex_digit_value(c: char) -> int {
    if '0' <= c && c <= '9' {
        c as int - '0' as int
    } else if 'a' <= c && c <= 'f' {
        c as int - 'a' as int + 10
    } else {
        c as int - 'A' as int + 10
    }
}

/// Every character of `s` is a hex digit.
pub open spec fn is_hex_text(s: Seq<char>) -> bool {
    forall|i: int| 0 <= i < s.len() ==> #[trigger] is_hex_digit(s[i])
}

/// `s` is a whole number of hex digit pairs.
pub open spec fn hex_decodes(s: Seq<char>) -> bool {
    s.len() % 2 == 0 && is_hex_text(s)
}

/// The bytes that a string of hex digit pairs stands for, high digit first.
pub open spec fn hex_decode(s: Seq<char>) -> Seq<u8> {
    Seq::new(
        s.len() / 2,
        |i: int| (hex_digit_value(s[2 * i]) * 16 + hex_digit_value(s[2 * i + 1])) as u8,
    )
}

/// The lower-case hex digit of a value below 16.
pub open spec fn lower_hex_digit(v: int) -> char {
    if v < 10 {
        ('0' as int + v) as char
    } else {
        ('a' as int + v - 10) as char
    }
}

/// The lower-case hex text of `data`: two digits per byte, high digit first.
pub open spec fn hex_encode(data: Seq<u8>) -> Seq<char> {
    Seq::new(
        data.len() * 2,
        |i: int|
            if i % 2 == 0 {
                lower_hex_digit(data[i / 2] as int / 16)
            } else {
                lower_hex_digit(data[i / 2] as int % 16)
            },
    )
}

/// `FromHexError` of the `hex` crate, carried through from `decode_hex`.
#[verifier::external_type_specification]
#[verifier::external_body]
pub struct ExFromHexError(hex::FromHexError);

/// Calls `hex::decode` on the bytes of `text`. The contract claims what its
/// source shows: it succeeds exactly when the text is an even number of
/// characters, all of `0-9a-fA-F` (any other character, multi-byte ones
/// included, is refused), and then yields one byte per digit pair, high digit
/// first.
#[verifier::external_body]
pub(crate) fn decode_hex(text: &str) -> (r: Result<Vec<u8>, hex::FromHexError>)
    ensures
        r is Ok <==> hex_decodes(text@),
        r matches Ok(bytes) ==> bytes@ == hex_decode(text@),
{
    hex::decode(text)
}

/// Calls `hex::encode`. The contract claims what its source shows: two
/// lower-case digits per byte, high digit first.
#[verifier::external_body]
pub(crate) fn encode_hex(data: &[u8]) -> (r: String)
    ensures
        r@ == hex_encode(data@),
{
    hex::encode(data)
}

proof fn lemma_lower_hex_digit(v: int)
    requires
        0 <= v < 16,
    ensures
        is_hex_digit(lower_hex_digit(v)),
        hex_digit_value(lower_hex_digit(v)) == v,
{
}

/// Decoding the hex text of some bytes gives those bytes back.
pub proof fn lemma_hex_round_trip(data: Seq<u8>)
    ensures
        hex_decodes(hex_encode(data)),
        hex_decode(hex_encode(data)) == data,
{
    let s = hex_encode(data);
    assert forall|i: int| 0 <= i < s.len() implies #[trigger] is_hex_digit(s[i]) by {
        let b = data[i / 2] as int;
        lemma_lower_hex_digit(b / 16);
        lemma_lower_hex_digit(b % 16);
    }
    assert forall|i: int| 0 <= i < data.len() implies #[trigger] hex_decode(s)[i] == data[i] by {
        let b = data[i] as int;
        assert((2 * i) / 2 == i);
        assert((2 * i + 1) / 2 == i);
        assert((2 * i) % 2 == 0);
        assert((2 * i + 1) % 2 == 1);
        lemma_lower_hex_digit(b / 16);
        lemma_lower_hex_digit(b % 16);
        assert(b / 16 * 16 + b % 16 == b);
    }
    assert(hex_decode(s) =~= data);
}

/// `s` written in pairs of characters separated by single spaces.
pub open spec fn spaced_pairs(s: Seq<char>) -> Seq<char>
    decreases s.len(),
{
    if s.len() <= 2 {
        s
    } else {
        s.take(2) + seq![' '] + spaced_pairs(s.skip(2))
    }
}

/// `s` with its spaces taken out.
pub open spec fn without_spaces(s: Seq<char>) -> Seq<char>
    decreases s.len(),
{
    if s.len() == 0 {
        s
    } else if s.last() == ' ' {
        without_spaces(s.drop_last())
    } else {
        without_spaces(s.drop_last()).push(s.last())
    }
}

/// Appending a character to the text appends it, after a space when it
/// starts a new pair, to the spaced text.
pub proof fn lemma_spaced_pairs_push(t: Seq<char>, c: char)
    ensures
        spaced_pairs(t.push(c)) == spaced_pairs(t) + (if t.len() >= 2 && t.len() % 2 == 0 {
            seq![' ', c]
        } else {
            seq![c]
        }),
    decreases t.len(),
{
    let tc = t.push(c);
    if t.len() <= 1 {
        assert(spaced_pairs(tc) == tc);
        assert(tc =~= t + seq![c]);
    } else if t.len() == 2 {
        assert(tc.take(2) =~= t);
        assert(tc.skip(2) =~= seq![c]);
        assert(spaced_pairs(tc.skip(2)) == seq![c]);
        assert(spaced_pairs(tc) =~= t + seq![' ', c]);
    } else {
        assert(tc.take(2) =~= t.take(2));
        assert(tc.skip(2) =~= t.skip(2).push(c));
        lemma_spaced_pairs_push(t.skip(2), c);
        assert(spaced_pairs(tc) =~= spaced_pairs(t) + (if t.len() >= 2 && t.len() % 2 == 0 {
            seq![' ', c]
        } else {
            seq![c]
        }));
    }
}

/// Taking the spaces out of two texts one after the other is taking them
/// out of each.
pub proof fn lemma_without_spaces_concat(a: Seq<char>, b: Seq<char>)
    ensures
        without_spaces(a + b) == without_spaces(a) + without_spaces(b),
    decreases b.len(),
{
    if b.len() == 0 {
        assert(a + b =~= a);
        assert(without_spaces(a) + without_spaces(b) =~= without_spaces(a));
    } else {
        assert((a + b).drop_last() =~= a + b.drop_last());
        lemma_without_spaces_concat(a, b.drop_last());
        if b.last() == ' ' {
        } else {
            assert((without_spaces(a) + without_spaces(b.drop_last())).push(b.last()) =~= without_spaces(a)
                + without_spaces(b.drop_last()).push(b.last()));
        }
    }
}

/// A text without spaces is its own space-free form.
pub proof fn lemma_without_spaces_no_space(s: Seq<char>)
    requires
        !s.contains(' '),
    ensures
        without_spaces(s) == s,
    decreases s.len(),
{
    if s.len() > 0 {
        assert(s.last() == s[s.len() - 1]);
        assert(!s.drop_last().contains(' ')) by {
            if s.drop_last().contains(' ') {
                let k = choose|k: int| 0 <= k < s.drop_last().len() && s.drop_last()[k] == ' ';
                assert(s[k] == ' ');
            }
        }
        lemma_without_spaces_no_space(s.drop_last());
        assert(s.drop_last().push(s.last()) =~= s);
    }
}

/// Spacing a text in pairs and then taking the spaces out gives the text's
/// own space-free form; for a text without spaces, the text itself.
pub proof fn lemma_spacing_round_trip(s: Seq<char>)
    ensures
        without_spaces(spaced_pairs(s)) == without_spaces(s),
        !s.contains(' ') ==> without_spaces(spaced_pairs(s)) == s,
    decreases s.len(),
{
    if s.len() > 2 {
        lemma_spacing_round_trip(s.skip(2));
        lemma_without_spaces_concat(s.take(2) + seq![' '], spaced_pairs(s.skip(2)));
        lemma_without_spaces_concat(s.take(2), seq![' ']);
        assert(without_spaces(seq![' ']) == Seq::<char>::empty()) by {
            let sp = seq![' '];
            assert(sp.last() == ' ');
            assert(sp.drop_last() =~= Seq::<char>::empty());
            assert(without_spaces(sp.drop_last()) == sp.drop_last());
        }
        lemma_without_spaces_concat(s.take(2), s.skip(2));
        assert(s.take(2) + s.skip(2) =~= s);
        assert(without_spaces(s.take(2)) + Seq::<char>::empty() =~= without_spaces(s.take(2)));
    }
    if !s.contains(' ') {
        lemma_without_spaces_no_space(s);
    }
}

} // verus!
