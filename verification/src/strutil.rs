//! Small verified helpers on strings: joining, decimal rendering and
//! decimal parsing. All contracts are stated over `Seq<char>` views.

use vstd::prelude::*;
use vstd::string::*;

verus! {

broadcast use vstd::string::group_string_axioms;

/// The characters of `parts` laid end to end, with `sep` between
/// consecutive elements; empty when `parts` is empty.
pub open spec fn spec_joined(parts: Seq<Seq<char>>, sep: Seq<char>) -> Seq<char>
    decreases parts.len(),
{
    if parts.len() == 0 {
        Seq::empty()
    } else if parts.len() == 1 {
        parts[0]
    } else {
        spec_joined(parts.drop_last(), sep) + sep + parts.last()
    }
}

/// Join the strings of `parts` with the separator `sep`.
pub fn join_all(parts: &Vec<String>, sep: &str) -> (r: String)
    ensures
        r@ == spec_joined(parts.deep_view(), sep@),
{
    let mut out = String::new();
    let mut i: usize = 0;
    while i < parts.len()
        invariant
            i <= parts.len(),
            parts.deep_view().len() == parts.len(),
            out@ == spec_joined(parts.deep_view().take(i as int), sep@),
        decreases parts.len() - i,
    {
        if i > 0 {
            out.append(sep);
        }
        out.append(parts[i].as_str());
        proof {
            let dv = parts.deep_view();
            assert(dv.take(i + 1).drop_last() =~= dv.take(i as int));
            assert(dv.take(i + 1).last() == dv[i as int]);
        }
        i = i + 1;
    }
    proof {
        assert(parts.deep_view().take(parts.len() as int) =~= parts.deep_view());
    }
    out
}

/// The decimal digit `d` as a character; meaningful for `0 <= d <= 9`.
pub open spec fn spec_digit_char(d: int) -> char {
    if d == 0 {
        '0'
    } else if d == 1 {
        '1'
    } else if d == 2 {
        '2'
    } else if d == 3 {
        '3'
    } else if d == 4 {
        '4'
    } else if d == 5 {
        '5'
    } else if d == 6 {
        '6'
    } else if d == 7 {
        '7'
    } else if d == 8 {
        '8'
    } else {
        '9'
    }
}

/// The usual decimal rendering of `n`, without leading zeroes (except for
/// `n == 0` itself); meaningful for `n >= 0`.
pub open spec fn spec_dec_digits(n: int) -> Seq<char>
    decreases n,
{
    if n < 10 {
        seq![spec_digit_char(n)]
    } else {
        spec_dec_digits(n / 10).push(spec_digit_char(n % 10))
    }
}

fn digit_str(d: u64) -> (r: &'static str)
    requires
        d < 10,
    ensures
        r@ =~= seq![spec_digit_char(d as int)],
{
    if d == 0 {
        proof {
            reveal_strlit("0");
        }
        "0"
    } else if d == 1 {
        proof {
            reveal_strlit("1");
        }
        "1"
    } else if d == 2 {
        proof {
            reveal_strlit("2");
        }
        "2"
    } else if d == 3 {
        proof {
            reveal_strlit("3");
        }
        "3"
    } else if d == 4 {
        proof {
            reveal_strlit("4");
        }
        "4"
    } else if d == 5 {
        proof {
            reveal_strlit("5");
        }
        "5"
    } else if d == 6 {
        proof {
            reveal_strlit("6");
        }
        "6"
    } else if d == 7 {
        proof {
            reveal_strlit("7");
        }
        "7"
    } else if d == 8 {
        proof {
            reveal_strlit("8");
        }
        "8"
    } else {
        proof {
            reveal_strlit("9");
        }
        "9"
    }
}

/// Render `n` in decimal.
pub fn u64_to_dec(n: u64) -> (r: String)
    ensures
        r@ == spec_dec_digits(n as int),
    decreases n,
{
    if n < 10 {
        digit_str(n).to_owned()
    } else {
        let mut s = u64_to_dec(n / 10);
        s.append(digit_str(n % 10));
        proof {
            assert(spec_dec_digits((n / 10) as int).push(spec_digit_char(n as int % 10))
                =~= spec_dec_digits((n / 10) as int) + seq![spec_digit_char(n as int % 10)]);
        }
        s
    }
}

/// Whether `c` is an ASCII decimal digit.
pub open spec fn spec_is_digit(c: char) -> bool {
    48 <= c as int <= 57
}

/// The value of the digit `c`; meaningful when `spec_is_digit(c)`.
pub open spec fn spec_digit_val(c: char) -> int {
    c as int - 48
}

pub open spec fn spec_all_digits(s: Seq<char>) -> bool {
    forall|i: int| 0 <= i < s.len() ==> spec_is_digit(#[trigger] s[i])
}

/// The value of the digit string `s`, read in base ten.
pub open spec fn spec_dec_val(s: Seq<char>) -> int
    decreases s.len(),
{
    if s.len() == 0 {
        0
    } else {
        spec_dec_val(s.drop_last()) * 10 + spec_digit_val(s.last())
    }
}

proof fn lemma_dec_val_nonneg(s: Seq<char>)
    requires
        spec_all_digits(s),
    ensures
        spec_dec_val(s) >= 0,
    decreases s.len(),
{
    if s.len() > 0 {
        assert(spec_all_digits(s.drop_last()));
        lemma_dec_val_nonneg(s.drop_last());
    }
}

/// Along a digit string, the value of a prefix never exceeds the value of
/// the whole.
proof fn lemma_dec_val_prefix_le(s: Seq<char>, j: int)
    requires
        spec_all_digits(s),
        0 <= j <= s.len(),
    ensures
        spec_dec_val(s.take(j)) <= spec_dec_val(s),
    decreases s.len() - j,
{
    if j == s.len() {
        assert(s.take(j) =~= s);
    } else {
        assert(s.take(j + 1).drop_last() =~= s.take(j));
        assert(spec_all_digits(s.take(j)));
        lemma_dec_val_nonneg(s.take(j));
        assert(spec_dec_val(s.take(j + 1)) >= spec_dec_val(s.take(j)));
        lemma_dec_val_prefix_le(s, j + 1);
    }
}

/// The string `s` stripped of one leading `'+'`, as `str::parse::<u64>`
/// strips it.
pub open spec fn spec_strip_plus(s: Seq<char>) -> Seq<char> {
    if s.len() > 0 && s[0] == '+' {
        s.drop_first()
    } else {
        s
    }
}

/// Parse `s` as `str::parse::<u64>` does: an optional `'+'`, then at least
/// one decimal digit, and a value that fits in `u64`.
pub fn parse_u64_dec(s: &str) -> (r: Option<u64>)
    ensures
        ({
            let t = spec_strip_plus(s@);
            &&& (r is Some) == (t.len() > 0 && spec_all_digits(t) && spec_dec_val(t) <= u64::MAX)
            &&& (r matches Some(v) ==> v == spec_dec_val(t))
        }),
{
    let len = s.unicode_len();
    let start: usize = if len > 0 && s.get_char(0) == '+' {
        1
    } else {
        0
    };
    let ghost t = spec_strip_plus(s@);
    proof {
        assert(t =~= s@.subrange(start as int, len as int));
    }
    if len == start {
        return None;
    }
    let mut acc: u64 = 0;
    let mut i: usize = start;
    while i < len
        invariant
            start <= i <= len,
            len == s@.len(),
            t == spec_strip_plus(s@),
            t =~= s@.subrange(start as int, len as int),
            spec_all_digits(t.take(i - start)),
            acc == spec_dec_val(t.take(i - start)),
        decreases len - i,
    {
        let c = s.get_char(i);
        let u = c as u32;
        if u < 48 || u > 57 {
            proof {
                assert(t[i - start] == s@[i as int]);
                assert(c as int == u as int);
                assert(!spec_is_digit(t[i - start]));
                assert(!spec_all_digits(t));
            }
            return None;
        }
        let d = (u - 48) as u64;
        let next = match acc.checked_mul(10) {
            Some(m) => m.checked_add(d),
            None => None,
        };
        proof {
            assert(t.take(i - start + 1).drop_last() =~= t.take(i - start));
            assert(t.take(i - start + 1).last() == s@[i as int]);
            assert(c as int == u as int);
            assert(spec_digit_val(s@[i as int]) == d as int);
            assert(spec_dec_val(t.take(i - start + 1)) == acc * 10 + d);
        }
        match next {
            Some(v) => {
                acc = v;
            },
            None => {
                proof {
                    assert(spec_dec_val(t.take(i - start + 1)) > u64::MAX);
                    if spec_all_digits(t) {
                        lemma_dec_val_prefix_le(t, i - start + 1);
                    }
                }
                return None;
            },
        }
        i = i + 1;
    }
    proof {
        assert(t.take(len - start) =~= t);
    }
    Some(acc)
}

/// Character-wise string equality.
pub fn str_eq(a: &str, b: &str) -> (r: bool)
    ensures
        r == (a@ == b@),
{
    let n = a.unicode_len();
    let m = b.unicode_len();
    if n != m {
        return false;
    }
    let mut i: usize = 0;
    while i < n
        invariant
            i <= n,
            n == a@.len(),
            n == b@.len(),
            forall|j: int| 0 <= j < i ==> a@[j] == b@[j],
        decreases n - i,
    {
        if a.get_char(i) != b.get_char(i) {
            return false;
        }
        i = i + 1;
    }
    proof {
        assert(a@ =~= b@);
    }
    true
}

/// Whether the last character of `s` is `c`.
pub fn ends_with_char(s: &str, c: char) -> (r: bool)
    ensures
        r == (s@.len() > 0 && s@.last() == c),
{
    let len = s.unicode_len();
    if len == 0 {
        false
    } else {
        s.get_char(len - 1) == c
    }
}

/// The number of leading characters of `s` that stand before its `k`-th
/// occurrence of `sep` (all of them when `sep` occurs fewer than `k` times).
pub open spec fn spec_sep_limit(s: Seq<char>, sep: char, k: int) -> int
    decreases s.len(),
{
    if s.len() == 0 {
        0
    } else if s[0] == sep {
        if k <= 1 {
            0
        } else {
            1 + spec_sep_limit(s.drop_first(), sep, k - 1)
        }
    } else {
        1 + spec_sep_limit(s.drop_first(), sep, k)
    }
}

fn sep_limit(s: &str, sep: char, k: u32) -> (r: usize)
    ensures
        r == spec_sep_limit(s@, sep, k as int),
        r <= s@.len(),
    decreases s@.len(),
{
    let len = s.unicode_len();
    if len == 0 {
        0
    } else if s.get_char(0) == sep {
        if k <= 1 {
            0
        } else {
            let rest = s.substring_char(1, len);
            proof {
                assert(rest@ =~= s@.drop_first());
            }
            1 + sep_limit(rest, sep, k - 1)
        }
    } else {
        let rest = s.substring_char(1, len);
        proof {
            assert(rest@ =~= s@.drop_first());
        }
        1 + sep_limit(rest, sep, k)
    }
}

/// The prefix of `s` holding its first `k` `sep`-separated segments: the
/// characters before the `k`-th occurrence of `sep`, or all of `s` when
/// there are fewer.
pub fn segments_prefix(s: &str, sep: char, k: u32) -> (r: String)
    ensures
        r@ == s@.take(spec_sep_limit(s@, sep, k as int)),
{
    let cut = sep_limit(s, sep, k);
    let p = s.substring_char(0, cut);
    proof {
        assert(p@ =~= s@.take(spec_sep_limit(s@, sep, k as int)));
    }
    p.to_owned()
}

} // verus!
