use vstd::prelude::*;

verus! {

/// The lowercase hex digit of a nibble (`n < 16`).
pub open spec fn hex_char(n: nat) -> char {
    seq!['0', '1', '2', '3', '4', '5', '6', '7', '8', '9', 'a', 'b', 'c', 'd', 'e', 'f'][n as int]
}

/// Two lowercase hex digits per byte, high nibble first, bytes in order.
pub open spec fn hex_of(bytes: Seq<u8>) -> Seq<char>
    decreases bytes.len(),
{
    if bytes.len() == 0 {
        Seq::empty()
    } else {
        let last = bytes.last();
        hex_of(bytes.drop_last()) + seq![hex_char((last / 16) as nat), hex_char((last % 16) as nat)]
    }
}

/// Every character is one of `0-9` or `a-f`.
pub open spec fn is_lower_hex(s: Seq<char>) -> bool {
    forall|i: int| 0 <= i < s.len() ==> (('0' <= #[trigger] s[i] && s[i] <= '9') || ('a' <= s[i] && s[i] <= 'f'))
}

/// The hex text of `n` bytes is `2 * n` lowercase hex digits.
pub proof fn lemma_hex_of_shape(bytes: Seq<u8>)
    ensures
        hex_of(bytes).len() == 2 * bytes.len(),
        is_lower_hex(hex_of(bytes)),
    decreases bytes.len(),
{
    if bytes.len() > 0 {
        lemma_hex_of_shape(bytes.drop_last());
        let last = bytes.last();
        let tail = seq![hex_char((last / 16) as nat), hex_char((last % 16) as nat)];
        assert(is_lower_hex(tail));
    }
}

/// One lowercase hex digit as text.
pub(crate) fn digit_text(n: u8) -> (r: &'static str)
    requires
        n < 16,
    ensures
        r@ == seq![hex_char(n as nat)],
{
    proof {
        reveal_strlit("0");
        reveal_strlit("1");
        reveal_strlit("2");
        reveal_strlit("3");
        reveal_strlit("4");
        reveal_strlit("5");
        reveal_strlit("6");
        reveal_strlit("7");
        reveal_strlit("8");
        reveal_strlit("9");
        reveal_strlit("a");
        reveal_strlit("b");
        reveal_strlit("c");
        reveal_strlit("d");
        reveal_strlit("e");
        reveal_strlit("f");
    }
    let r = match n {
        0 => "0",
        1 => "1",
        2 => "2",
        3 => "3",
        4 => "4",
        5 => "5",
        6 => "6",
        7 => "7",
        8 => "8",
        9 => "9",
        10 => "a",
        11 => "b",
        12 => "c",
        13 => "d",
        14 => "e",
        _ => "f",
    };
    assert(r@ =~= seq![hex_char(n as nat)]);
    r
}

/// Encodes `slice` as lowercase hex, two digits per byte.
///
/// `expected_string_size` is the length the caller expects (twice the number
/// of bytes); it is a sizing hint and does not change the result.
pub fn to_hex_string(slice: &[u8], expected_string_size: usize) -> (r: String)
    ensures
        r@ == hex_of(slice@),
{
    let _ = expected_string_size;
    let mut r = String::new();
    let mut i: usize = 0;
    while i < slice.len()
        invariant
            i <= slice@.len(),
            r@ == hex_of(slice@.subrange(0, i as int)),
        decreases slice@.len() - i,
    {
        let b = slice[i];
        r.append(digit_text(b / 16));
        r.append(digit_text(b % 16));
        assert(slice@.subrange(0, i + 1).drop_last() =~= slice@.subrange(0, i as int));
        i += 1;
        assert(r@ =~= hex_of(slice@.subrange(0, i as int)));
    }
    assert(slice@.subrange(0, slice@.len() as int) =~= slice@);
    r
}

} // verus!
