use vstd::prelude::*;

verus! {

/// A 128-bit identifier (of a record, a test, an attempt, a user, an
/// assignment), held as its sixteen bytes in big-endian order.
#[derive(Clone, Copy, Debug, PartialEq, Eq, Hash)]
pub struct Uid {
    pub bytes: [u8; 16],
}

/// The lower-case hexadecimal digit of `v` (below sixteen).
pub open spec fn hex_digit(v: int) -> char {
    seq!['0', '1', '2', '3', '4', '5', '6', '7', '8', '9', 'a', 'b', 'c', 'd', 'e', 'f'][v]
}

/// Two hexadecimal digits per byte, high nibble first.
pub open spec fn hex_of(b: Seq<u8>) -> Seq<char>
    decreases b.len(),
{
    if b.len() == 0 {
        seq![]
    } else {
        seq![hex_digit(b[0] as int / 16), hex_digit(b[0] as int % 16)] + hex_of(b.drop_first())
    }
}

/// The hyphenated text of an identifier: groups of 4, 2, 2, 2 and 6 bytes
/// in hexadecimal, joined by `-`.
pub open spec fn uid_text(b: Seq<u8>) -> Seq<char> {
    hex_of(b.subrange(0, 4)) + seq!['-'] + hex_of(b.subrange(4, 6)) + seq!['-'] + hex_of(
        b.subrange(6, 8),
    ) + seq!['-'] + hex_of(b.subrange(8, 10)) + seq!['-'] + hex_of(b.subrange(10, 16))
}

/// Relies on uuid's `Uuid::new_v4`: sixteen random bytes, of which the
/// version nibble is 4 and the two variant bits are `10`.
#[verifier::external_body]
pub(crate) fn fresh_uid() -> (r: Uid)
    ensures
        r.bytes@[6] / 16 == 4,
        r.bytes@[8] / 64 == 2,
{
    Uid { bytes: uuid::Uuid::new_v4().into_bytes() }
}

/// Relies on uuid's `Display` for `Uuid` (through `LowerHex` and
/// `format_hyphenated`): the hyphenated text in lower-case hexadecimal.
#[verifier::external_body]
pub(crate) fn uid_to_text(id: &Uid) -> (r: String)
    ensures
        r@ == uid_text(id.bytes@),
{
    uuid::Uuid::from_bytes(id.bytes).to_string()
}

spec fn hex_value(c: char) -> int {
    if c == '0' { 0 } else if c == '1' { 1 } else if c == '2' { 2 } else if c == '3' { 3 }
    else if c == '4' { 4 } else if c == '5' { 5 } else if c == '6' { 6 } else if c == '7' { 7 }
    else if c == '8' { 8 } else if c == '9' { 9 } else if c == 'a' { 10 } else if c == 'b' { 11 }
    else if c == 'c' { 12 } else if c == 'd' { 13 } else if c == 'e' { 14 } else { 15 }
}

proof fn lemma_hex_digit_value(v: int)
    requires
        0 <= v < 16,
    ensures
        hex_value(hex_digit(v)) == v,
{
}

pub proof fn lemma_hex_of_len(b: Seq<u8>)
    ensures
        hex_of(b).len() == 2 * b.len(),
    decreases b.len(),
{
    if b.len() > 0 {
        lemma_hex_of_len(b.drop_first());
    }
}

proof fn lemma_hex_of_injective(a: Seq<u8>, b: Seq<u8>)
    requires
        a.len() == b.len(),
        hex_of(a) == hex_of(b),
    ensures
        a == b,
    decreases a.len(),
{
    if a.len() > 0 {
        let ha = hex_of(a);
        let hb = hex_of(b);
        assert(ha[0] == hex_digit(a[0] as int / 16));
        assert(hb[0] == hex_digit(b[0] as int / 16));
        assert(ha[1] == hex_digit(a[0] as int % 16));
        assert(hb[1] == hex_digit(b[0] as int % 16));
        lemma_hex_digit_value(a[0] as int / 16);
        lemma_hex_digit_value(b[0] as int / 16);
        lemma_hex_digit_value(a[0] as int % 16);
        lemma_hex_digit_value(b[0] as int % 16);
        assert(a[0] == b[0]);
        assert(hex_of(a.drop_first()) =~= ha.subrange(2, ha.len() as int));
        assert(hex_of(b.drop_first()) =~= hb.subrange(2, hb.len() as int));
        lemma_hex_of_injective(a.drop_first(), b.drop_first());
        assert forall|i: int| 0 <= i < a.len() implies a[i] == b[i] by {
            if i > 0 {
                assert(a[i] == a.drop_first()[i - 1]);
                assert(b[i] == b.drop_first()[i - 1]);
            }
        }
        assert(a =~= b);
    }
}

/// The hyphenated text is 36 characters long.
pub proof fn lemma_uid_text_len(b: Seq<u8>)
    requires
        b.len() == 16,
    ensures
        uid_text(b).len() == 36,
{
    lemma_hex_of_len(b.subrange(0, 4));
    lemma_hex_of_len(b.subrange(4, 6));
    lemma_hex_of_len(b.subrange(6, 8));
    lemma_hex_of_len(b.subrange(8, 10));
    lemma_hex_of_len(b.subrange(10, 16));
}

/// Different identifiers have different texts.
pub proof fn lemma_uid_text_injective(a: Seq<u8>, b: Seq<u8>)
    requires
        a.len() == 16,
        b.len() == 16,
        uid_text(a) == uid_text(b),
    ensures
        a == b,
{
    let ta = uid_text(a);
    let tb = uid_text(b);
    lemma_hex_of_len(a.subrange(0, 4));
    lemma_hex_of_len(a.subrange(4, 6));
    lemma_hex_of_len(a.subrange(6, 8));
    lemma_hex_of_len(a.subrange(8, 10));
    lemma_hex_of_len(a.subrange(10, 16));
    lemma_hex_of_len(b.subrange(0, 4));
    lemma_hex_of_len(b.subrange(4, 6));
    lemma_hex_of_len(b.subrange(6, 8));
    lemma_hex_of_len(b.subrange(8, 10));
    lemma_hex_of_len(b.subrange(10, 16));
    assert(hex_of(a.subrange(0, 4)) =~= ta.subrange(0, 8));
    assert(hex_of(b.subrange(0, 4)) =~= tb.subrange(0, 8));
    assert(hex_of(a.subrange(4, 6)) =~= ta.subrange(9, 13));
    assert(hex_of(b.subrange(4, 6)) =~= tb.subrange(9, 13));
    assert(hex_of(a.subrange(6, 8)) =~= ta.subrange(14, 18));
    assert(hex_of(b.subrange(6, 8)) =~= tb.subrange(14, 18));
    assert(hex_of(a.subrange(8, 10)) =~= ta.subrange(19, 23));
    assert(hex_of(b.subrange(8, 10)) =~= tb.subrange(19, 23));
    assert(hex_of(a.subrange(10, 16)) =~= ta.subrange(24, 36));
    assert(hex_of(b.subrange(10, 16)) =~= tb.subrange(24, 36));
    lemma_hex_of_injective(a.subrange(0, 4), b.subrange(0, 4));
    lemma_hex_of_injective(a.subrange(4, 6), b.subrange(4, 6));
    lemma_hex_of_injective(a.subrange(6, 8), b.subrange(6, 8));
    lemma_hex_of_injective(a.subrange(8, 10), b.subrange(8, 10));
    lemma_hex_of_injective(a.subrange(10, 16), b.subrange(10, 16));
    assert forall|i: int| 0 <= i < 16 implies a[i] == b[i] by {
        if i < 4 {
            assert(a[i] == a.subrange(0, 4)[i]);
            assert(b[i] == b.subrange(0, 4)[i]);
        } else if i < 6 {
            assert(a[i] == a.subrange(4, 6)[i - 4]);
            assert(b[i] == b.subrange(4, 6)[i - 4]);
        } else if i < 8 {
            assert(a[i] == a.subrange(6, 8)[i - 6]);
            assert(b[i] == b.subrange(6, 8)[i - 6]);
        } else if i < 10 {
            assert(a[i] == a.subrange(8, 10)[i - 8]);
            assert(b[i] == b.subrange(8, 10)[i - 8]);
        } else {
            assert(a[i] == a.subrange(10, 16)[i - 10]);
            assert(b[i] == b.subrange(10, 16)[i - 10]);
        }
    }
    assert(a =~= b);
}

} // verus!
