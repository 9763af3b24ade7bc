//! Text helpers shared by the rules: trimming, upper-casing and the
//! canonical text form of identifiers.

use vstd::prelude::*;
use vstd::arithmetic::div_mod::{lemma_basic_div, lemma_div_denominator, lemma_fundamental_div_mod};
use vstd::arithmetic::power2::{lemma2_to64, lemma_pow2_adds, lemma_pow2_pos, pow2};

verus! {

/// Unicode `White_Space`, the property that `str::trim` removes.
pub open spec fn is_white_space(c: char) -> bool {
    ||| ('\u{9}' <= c && c <= '\u{d}')
    ||| c == ' '
    ||| c == '\u{85}'
    ||| c == '\u{a0}'
    ||| c == '\u{1680}'
    ||| ('\u{2000}' <= c && c <= '\u{200a}')
    ||| c == '\u{2028}'
    ||| c == '\u{2029}'
    ||| c == '\u{202f}'
    ||| c == '\u{205f}'
    ||| c == '\u{3000}'
}

/// `s` without its leading white space.
pub open spec fn trim_start_chars(s: Seq<char>) -> Seq<char>
    decreases s.len(),
{
    if s.len() > 0 && is_white_space(s[0]) {
        trim_start_chars(s.drop_first())
    } else {
        s
    }
}

/// `s` without its trailing white space.
pub open spec fn trim_end_chars(s: Seq<char>) -> Seq<char>
    decreases s.len(),
{
    if s.len() > 0 && is_white_space(s.last()) {
        trim_end_chars(s.drop_last())
    } else {
        s
    }
}

/// `s` without leading and trailing white space.
pub open spec fn trim_chars(s: Seq<char>) -> Seq<char> {
    trim_end_chars(trim_start_chars(s))
}

/// A text is blank when nothing is left of it after trimming.
pub open spec fn is_blank(s: Seq<char>) -> bool {
    trim_chars(s).len() == 0
}

/// What `str::to_uppercase` gives for a text: its Unicode upper-case form.
pub uninterp spec fn uppercase_chars(s: Seq<char>) -> Seq<char>;

/// `str::trim`: the text without leading and trailing Unicode white space.
#[verifier::external_body]
pub(crate) fn trim_text(s: &str) -> (r: &str)
    ensures
        r@ == trim_chars(s@),
{
    s.trim()
}

/// `str::to_uppercase`: the upper-case form of the text, named by
/// `uppercase_chars` (the Unicode mapping is not written out here).
#[verifier::external_body]
pub(crate) fn uppercase_text(s: &str) -> (r: String)
    ensures
        r@ == uppercase_chars(s@),
{
    s.to_uppercase()
}

/// The lower-case hexadecimal digit for `n` in `0..16`.
pub open spec fn hex_digit(n: int) -> char {
    if n == 0 {
        '0'
    } else if n == 1 {
        '1'
    } else if n == 2 {
        '2'
    } else if n == 3 {
        '3'
    } else if n == 4 {
        '4'
    } else if n == 5 {
        '5'
    } else if n == 6 {
        '6'
    } else if n == 7 {
        '7'
    } else if n == 8 {
        '8'
    } else if n == 9 {
        '9'
    } else if n == 10 {
        'a'
    } else if n == 11 {
        'b'
    } else if n == 12 {
        'c'
    } else if n == 13 {
        'd'
    } else if n == 14 {
        'e'
    } else {
        'f'
    }
}

/// The `k`-th of the 32 hexadecimal digits of `id`, most significant first.
pub open spec fn id_nibble(id: u128, k: int) -> int {
    (id as int / pow2((4 * (31 - k)) as nat) as int) % 16
}

/// How many hyphens the hyphenated form holds before position `i`.
pub open spec fn hyphens_before(i: int) -> int {
    if i < 8 {
        0
    } else if i < 13 {
        1
    } else if i < 18 {
        2
    } else if i < 23 {
        3
    } else {
        4
    }
}

/// The hyphenated lower-case form of a 128-bit identifier:
/// 8-4-4-4-12 hexadecimal digits, most significant first.
pub open spec fn id_chars(id: u128) -> Seq<char> {
    Seq::new(
        36,
        |i: int|
            if i == 8 || i == 13 || i == 18 || i == 23 {
                '-'
            } else {
                hex_digit(id_nibble(id, i - hyphens_before(i)))
            },
    )
}

/// `uuid::Uuid`'s `Display` (hyphenated, lower case) of the identifier
/// whose big-endian value is `id`.
#[verifier::external_body]
pub(crate) fn id_text(id: u128) -> (r: String)
    ensures
        r@ == id_chars(id),
{
    uuid::Uuid::from_u128(id).to_string()
}

/// Distinct digits have distinct characters.
proof fn lemma_hex_digit_injective(n: int, m: int)
    requires
        0 <= n < 16,
        0 <= m < 16,
        hex_digit(n) == hex_digit(m),
    ensures
        n == m,
{
}

/// Two identifiers whose 32 digits all agree also agree once their lowest
/// `m` digits are dropped.
proof fn lemma_high_digits_agree(a: u128, b: u128, m: nat)
    requires
        m <= 32,
        forall|k: int| 0 <= k < 32 ==> #[trigger] id_nibble(a, k) == id_nibble(b, k),
    ensures
        a as int / pow2(4 * m) as int == b as int / pow2(4 * m) as int,
    decreases 32 - m,
{
    if m == 32 {
        lemma2_to64();
        lemma_pow2_adds(64, 64);
        assert(pow2(128) == 0x1_0000_0000_0000_0000_0000_0000_0000_0000nat);
        lemma_basic_div(a as int, pow2(128) as int);
        lemma_basic_div(b as int, pow2(128) as int);
    } else {
        lemma_high_digits_agree(a, b, m + 1);
        lemma2_to64();
        lemma_pow2_adds(4 * m, 4);
        lemma_pow2_pos(4 * m);
        let c = pow2(4 * m) as int;
        assert(pow2(4 * (m + 1)) as int == c * 16) by {
            assert(4 * (m + 1) == 4 * m + 4);
        }
        lemma_div_denominator(a as int, c, 16);
        lemma_div_denominator(b as int, c, 16);
        lemma_fundamental_div_mod(a as int / c, 16);
        lemma_fundamental_div_mod(b as int / c, 16);
        let k = 31 - m;
        assert(((4 * (31 - k)) as nat) == 4 * m);
        assert(id_nibble(a, k) == id_nibble(b, k));
    }
}

/// Distinct identifiers have distinct texts.
pub proof fn lemma_id_chars_injective(a: u128, b: u128)
    requires
        id_chars(a) == id_chars(b),
    ensures
        a == b,
{
    assert forall|k: int| 0 <= k < 32 implies #[trigger] id_nibble(a, k) == id_nibble(b, k) by {
        let i = if k < 8 {
            k
        } else if k < 12 {
            k + 1
        } else if k < 16 {
            k + 2
        } else if k < 20 {
            k + 3
        } else {
            k + 4
        };
        assert(0 <= i < 36 && i != 8 && i != 13 && i != 18 && i != 23);
        assert(i - hyphens_before(i) == k);
        assert(id_chars(a)[i] == hex_digit(id_nibble(a, k)));
        assert(id_chars(b)[i] == hex_digit(id_nibble(b, k)));
        assert(id_chars(a)[i] == id_chars(b)[i]);
        lemma_hex_digit_injective(id_nibble(a, k), id_nibble(b, k));
    }
    lemma_high_digits_agree(a, b, 0);
    assert(pow2(4 * 0nat) == 1) by {
        lemma2_to64();
    }
    assert(a as int / 1 == a as int);
    assert(b as int / 1 == b as int);
}

proof fn lemma_trim_start_first(s: Seq<char>)
    ensures
        trim_start_chars(s).len() == 0 || !is_white_space(trim_start_chars(s)[0]),
    decreases s.len(),
{
    if s.len() > 0 && is_white_space(s[0]) {
        lemma_trim_start_first(s.drop_first());
    }
}

proof fn lemma_trim_end_prefix(u: Seq<char>)
    ensures
        trim_end_chars(u).len() <= u.len(),
        trim_end_chars(u) == u.subrange(0, trim_end_chars(u).len() as int),
        trim_end_chars(u).len() == 0 || !is_white_space(trim_end_chars(u).last()),
    decreases u.len(),
{
    if u.len() > 0 && is_white_space(u.last()) {
        lemma_trim_end_prefix(u.drop_last());
        let n = trim_end_chars(u.drop_last()).len() as int;
        assert(u.drop_last().subrange(0, n) =~= u.subrange(0, n));
    } else {
        assert(u.subrange(0, u.len() as int) =~= u);
    }
}

/// Trimming a trimmed text leaves it as it is.
pub proof fn lemma_trim_idempotent(s: Seq<char>)
    ensures
        trim_chars(trim_chars(s)) == trim_chars(s),
{
    let u = trim_start_chars(s);
    let v = trim_end_chars(u);
    lemma_trim_start_first(s);
    lemma_trim_end_prefix(u);
    if v.len() > 0 {
        assert(v[0] == u[0]);
        assert(trim_start_chars(v) == v);
        assert(trim_end_chars(v) == v);
    } else {
        assert(trim_start_chars(v) == v);
        assert(trim_end_chars(v) == v);
    }
}

} // verus!
