//! Rendering of numbers as text: decimal integers and uppercase hexadecimal.
use vstd::prelude::*;
use vstd::string::*;

verus! {

/// The sixteen digits, in order of value.
pub open spec fn digit_chars() -> Seq<char> {
    seq!['0', '1', '2', '3', '4', '5', '6', '7', '8', '9', 'A', 'B', 'C', 'D', 'E', 'F']
}

/// Decimal digits of `n`, most significant first, without leading zeros.
pub open spec fn decimal(n: nat) -> Seq<char>
    decreases n,
{
    if n < 10 {
        seq![digit_chars()[n as int]]
    } else {
        decimal(n / 10).push(digit_chars()[(n % 10) as int])
    }
}

/// Two uppercase hexadecimal digits of one byte.
pub open spec fn byte_hex(b: u8) -> Seq<char> {
    seq![digit_chars()[(b / 16) as int], digit_chars()[(b % 16) as int]]
}

/// Two uppercase hexadecimal digits per byte, in order.
pub open spec fn bytes_hex(b: Seq<u8>) -> Seq<char>
    decreases b.len(),
{
    if b.len() == 0 {
        Seq::empty()
    } else {
        bytes_hex(b.drop_last()) + byte_hex(b.last())
    }
}

/// `s` without its leading `'0'` characters.
pub open spec fn strip_leading_zeros(s: Seq<char>) -> Seq<char>
    decreases s.len(),
{
    if s.len() > 0 && s[0] == '0' {
        strip_leading_zeros(s.drop_first())
    } else {
        s
    }
}

/// The big-endian unsigned number held in `b`, in uppercase hexadecimal with
/// no prefix, no separator and no leading zeros; zero is written `"0"`.
pub open spec fn upper_hex(b: Seq<u8>) -> Seq<char> {
    let t = strip_leading_zeros(bytes_hex(b));
    if t.len() == 0 {
        seq!['0']
    } else {
        t
    }
}

/// The one-character text of digit `d`.
pub fn digit_text(d: u8) -> (r: &'static str)
    requires
        d < 16,
    ensures
        r@ == seq![digit_chars()[d as int]],
{
    let all = "0123456789ABCDEF";
    proof {
        reveal_strlit("0123456789ABCDEF");
        assert(all@ =~= digit_chars());
    }
    let r = all.substring_char(d as usize, d as usize + 1);
    assert(r@ =~= seq![digit_chars()[d as int]]);
    r
}

/// `n` written in decimal.
pub fn decimal_text(n: u64) -> (r: String)
    ensures
        r@ == decimal(n as nat),
    decreases n,
{
    if n < 10 {
        String::from_str(digit_text(n as u8))
    } else {
        let mut s = decimal_text(n / 10);
        s.append(digit_text((n % 10) as u8));
        s
    }
}

proof fn lemma_strip_from(s: Seq<char>, i: int)
    requires
        0 <= i <= s.len(),
        forall|j: int| 0 <= j < i ==> s[j] == '0',
    ensures
        strip_leading_zeros(s) == strip_leading_zeros(s.subrange(i, s.len() as int)),
    decreases i,
{
    if i > 0 {
        assert(s.drop_first().subrange(i - 1, s.drop_first().len() as int) =~= s.subrange(
            i,
            s.len() as int,
        ));
        lemma_strip_from(s.drop_first(), i - 1);
    } else {
        assert(s.subrange(0, s.len() as int) =~= s);
    }
}

/// The number held big-endian in `bytes`, in uppercase hexadecimal.
pub fn upper_hex_text(bytes: &[u8]) -> (r: String)
    ensures
        r@ == upper_hex(bytes@),
{
    let mut full = String::new();
    let mut i: usize = 0;
    while i < bytes.len()
        invariant
            i <= bytes@.len(),
            full@ == bytes_hex(bytes@.subrange(0, i as int)),
        decreases bytes.len() - i,
    {
        let b = bytes[i];
        full.append(digit_text(b / 16));
        full.append(digit_text(b % 16));
        proof {
            let s = bytes@.subrange(0, i + 1);
            assert(s.drop_last() =~= bytes@.subrange(0, i as int));
            assert(full@ =~= bytes_hex(s));
        }
        i = i + 1;
    }
    assert(bytes@.subrange(0, bytes@.len() as int) =~= bytes@);
    let len = full.as_str().unicode_len();
    let mut k: usize = 0;
    while k < len && full.as_str().get_char(k) == '0'
        invariant
            k <= len,
            len == full@.len(),
            forall|j: int| 0 <= j < k ==> full@[j] == '0',
        decreases len - k,
    {
        k = k + 1;
    }
    proof {
        lemma_strip_from(full@, k as int);
    }
    if k == len {
        assert(full@.subrange(k as int, len as int) =~= Seq::<char>::empty());
        String::from_str(digit_text(0))
    } else {
        String::from_str(full.as_str().substring_char(k, len))
    }
}

} // verus!
