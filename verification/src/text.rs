//! Decimal text codec and the shared `"user:<id>"` / `"system"` target
//! grammar, with round-trip proofs.

use vstd::prelude::*;
use vstd::string::StrSliceExecFns;
use vstd::string::StringExecFns;

verus! {

/// The decimal digit character for `d` (meaningful for `0 <= d < 10`).
pub open spec fn digit_char(d: int) -> char {
    if d == 0 {
        '0'
    } else if d == 1 {
        '1'
    } else if d == 2 {
        '2'
    } else if d == 3 {
        '3'
    } else if d == 4 {
        '4'
    } else if d == 5 {
        '5'
    } else if d == 6 {
        '6'
    } else if d == 7 {
        '7'
    } else if d == 8 {
        '8'
    } else {
        '9'
    }
}

/// Whether `c` is an ASCII decimal digit.
pub open spec fn is_digit(c: char) -> bool {
    48 <= c as int <= 57
}

/// The numeric value of a digit character (meaningful when `is_digit(c)`).
pub open spec fn digit_val(c: char) -> int {
    c as int - 48
}

/// The decimal digit sequence of `n`, most significant digit first.
pub open spec fn dec_seq(n: nat) -> Seq<char>
    decreases n,
{
    if n < 10 {
        seq![digit_char(n as int)]
    } else {
        dec_seq(n / 10).push(digit_char((n % 10) as int))
    }
}

/// The numeric value of a digit sequence (meaningful when `all_digits(s)`).
pub open spec fn dec_val(s: Seq<char>) -> int
    decreases s.len(),
{
    if s.len() == 0 {
        0
    } else {
        dec_val(s.drop_last()) * 10 + digit_val(s.last())
    }
}

/// Whether every character of `s` is an ASCII decimal digit.
pub open spec fn all_digits(s: Seq<char>) -> bool {
    forall|i: int| 0 <= i < s.len() ==> is_digit(#[trigger] s[i])
}

/// What parsing a decimal `u64` from `s` yields: the digits' value when `s`
/// is a nonempty digit string whose value fits, nothing otherwise.
pub open spec fn parse_u64_spec(s: Seq<char>) -> Option<u64> {
    if s.len() > 0 && all_digits(s) && dec_val(s) <= u64::MAX {
        Some(dec_val(s) as u64)
    } else {
        None
    }
}

pub proof fn lemma_digit_char_val(d: int)
    requires
        0 <= d < 10,
    ensures
        is_digit(digit_char(d)),
        digit_val(digit_char(d)) == d,
{
}

pub proof fn lemma_dec_seq_digits(n: nat)
    ensures
        dec_seq(n).len() >= 1,
        all_digits(dec_seq(n)),
    decreases n,
{
    if n < 10 {
        lemma_digit_char_val(n as int);
    } else {
        lemma_dec_seq_digits(n / 10);
        lemma_digit_char_val((n % 10) as int);
    }
}

pub proof fn lemma_dec_val_of_dec_seq(n: nat)
    ensures
        dec_val(dec_seq(n)) == n,
    decreases n,
{
    if n < 10 {
        lemma_digit_char_val(n as int);
        let s = dec_seq(n);
        assert(s =~= seq![digit_char(n as int)]);
        assert(s.drop_last() =~= Seq::<char>::empty());
        assert(dec_val(s.drop_last()) == 0);
        assert(s.last() == digit_char(n as int));
        assert(dec_val(s) == digit_val(digit_char(n as int)));
    } else {
        lemma_dec_val_of_dec_seq(n / 10);
        lemma_digit_char_val((n % 10) as int);
        let prefix = dec_seq(n / 10);
        let whole = prefix.push(digit_char((n % 10) as int));
        assert(dec_seq(n) == whole);
        assert(whole.drop_last() =~= prefix);
        assert(whole.last() == digit_char((n % 10) as int));
        assert(dec_val(whole) == dec_val(prefix) * 10 + digit_val(whole.last()));
        assert(dec_val(whole) == (n / 10) * 10 + (n % 10));
        assert((n / 10) * 10 + (n % 10) == n) by (nonlinear_arith);
    }
}

pub proof fn lemma_dec_val_nonneg(s: Seq<char>)
    requires
        all_digits(s),
    ensures
        dec_val(s) >= 0,
    decreases s.len(),
{
    if s.len() > 0 {
        assert(all_digits(s.drop_last())) by {
            assert(forall|i: int|
                0 <= i < s.drop_last().len() ==> s.drop_last()[i] == #[trigger] s[i]);
        }
        lemma_dec_val_nonneg(s.drop_last());
    }
}

/// Prefixes of a digit string never exceed the whole string's value.
pub proof fn lemma_dec_val_prefix_le(s: Seq<char>, i: int, j: int)
    requires
        0 <= i <= j <= s.len(),
        all_digits(s),
    ensures
        dec_val(s.subrange(0, i)) <= dec_val(s.subrange(0, j)),
    decreases j - i,
{
    if i < j {
        lemma_dec_val_prefix_le(s, i, j - 1);
        let shorter = s.subrange(0, j - 1);
        let longer = s.subrange(0, j);
        assert(longer.drop_last() =~= shorter);
        assert(all_digits(shorter));
        lemma_dec_val_nonneg(shorter);
        assert(is_digit(longer.last()));
        assert(dec_val(longer) == dec_val(shorter) * 10 + digit_val(longer.last()));
        assert(dec_val(shorter) <= dec_val(shorter) * 10);
    }
}

/// Parsing the decimal rendering of `n` gives back `n`.
pub proof fn lemma_u64_dec_round_trip(n: u64)
    ensures
        parse_u64_spec(dec_seq(n as nat)) == Some(n),
{
    lemma_dec_seq_digits(n as nat);
    lemma_dec_val_of_dec_seq(n as nat);
}

/// A single decimal digit as a string slice.
fn digit_str(d: u64) -> (r: &'static str)
    requires
        d < 10,
    ensures
        r@ =~= seq![digit_char(d as int)],
{
    proof {
        reveal_strlit("0");
        reveal_strlit("1");
        reveal_strlit("2");
        reveal_strlit("3");
        reveal_strlit("4");
        reveal_strlit("5");
        reveal_strlit("6");
        reveal_strlit("7");
        reveal_strlit("8");
        reveal_strlit("9");
    }
    if d == 0 {
        "0"
    } else if d == 1 {
        "1"
    } else if d == 2 {
        "2"
    } else if d == 3 {
        "3"
    } else if d == 4 {
        "4"
    } else if d == 5 {
        "5"
    } else if d == 6 {
        "6"
    } else if d == 7 {
        "7"
    } else if d == 8 {
        "8"
    } else {
        "9"
    }
}

/// Renders `n` in decimal, most significant digit first, no sign and no
/// leading zeros.
pub fn u64_to_dec_string(n: u64) -> (r: String)
    ensures
        r@ == dec_seq(n as nat),
    decreases n,
{
    if n < 10 {
        digit_str(n).to_owned()
    } else {
        let mut s = u64_to_dec_string(n / 10);
        s.append(digit_str(n % 10));
        proof {
            assert(s@ =~= dec_seq((n / 10) as nat).push(digit_char((n % 10) as int)));
        }
        s
    }
}

/// Renders `n` in decimal, most significant digit first, no sign and no
/// leading zeros.
pub fn u128_to_dec_string(n: u128) -> (r: String)
    ensures
        r@ == dec_seq(n as nat),
    decreases n,
{
    if n < 10 {
        digit_str(n as u64).to_owned()
    } else {
        let mut s = u128_to_dec_string(n / 10);
        s.append(digit_str((n % 10) as u64));
        proof {
            assert(s@ =~= dec_seq((n / 10) as nat).push(digit_char((n % 10) as int)));
        }
        s
    }
}

/// Parses a decimal `u64`: nonempty, digits only, value in range.
pub fn parse_u64_str(s: &str) -> (r: Option<u64>)
    ensures
        r == parse_u64_spec(s@),
{
    let n = s.unicode_len();
    if n == 0 {
        return None;
    }
    let mut acc: u64 = 0;
    let mut i: usize = 0;
    while i < n
        invariant
            0 <= i <= n,
            n == s@.len(),
            all_digits(s@.subrange(0, i as int)),
            acc == dec_val(s@.subrange(0, i as int)),
        decreases n - i,
    {
        let c = s.get_char(i);
        let u = c as u32;
        if u < 48 || u > 57 {
            assert(!is_digit(s@[i as int]));
            return None;
        }
        let d = (u - 48) as u64;
        let ghost prefix = s@.subrange(0, i as int);
        let ghost extended = s@.subrange(0, i as int + 1);
        proof {
            assert(extended.drop_last() =~= prefix);
            assert(extended.last() == s@[i as int]);
        }
        let stepped = match acc.checked_mul(10) {
            Some(m) => m.checked_add(d),
            None => None,
        };
        match stepped {
            Some(v) => {
                acc = v;
            },
            None => {
                // The value of the digits seen so far already exceeds
                // `u64::MAX`, so the whole string's value does too.
                proof {
                    assert(dec_val(extended) > u64::MAX);
                    if all_digits(s@) {
                        lemma_dec_val_prefix_le(s@, i as int + 1, n as int);
                        assert(s@.subrange(0, n as int) =~= s@);
                    }
                }
                return None;
            },
        }
        i = i + 1;
    }
    proof {
        assert(s@.subrange(0, n as int) =~= s@);
    }
    Some(acc)
}

/// Whether two string slices hold the same characters.
pub fn str_eq(a: &str, b: &str) -> (r: bool)
    ensures
        r == (a@ == b@),
{
    let an = a.unicode_len();
    let bn = b.unicode_len();
    if an != bn {
        return false;
    }
    let mut i: usize = 0;
    while i < an
        invariant
            0 <= i <= an,
            an == a@.len(),
            an == b@.len(),
            forall|k: int| 0 <= k < i ==> a@[k] == b@[k],
        decreases an - i,
    {
        if a.get_char(i) != b.get_char(i) {
            return false;
        }
        i = i + 1;
    }
    proof {
        assert(a@ =~= b@);
    }
    true
}

/// How a target parses: one of the two valid shapes, or one of the two
/// rejection reasons of the `"user:<id>"` / `"system"` grammar.
#[derive(Debug, Clone, Copy, PartialEq, Eq, Structural)]
pub enum TargetText {
    /// The text was exactly `"system"`.
    Sys,
    /// The text was `"user:"` followed by a valid decimal `u64`.
    Usr(u64),
    /// The text was neither `"system"` nor prefixed by `"user:"`.
    BadFormat,
    /// The text after `"user:"` is not a valid decimal `u64`.
    BadUserId,
}

/// What parsing a target string yields under the `"user:<id>"` / `"system"`
/// grammar.
pub open spec fn parse_target_spec(s: Seq<char>) -> TargetText {
    if s == "system"@ {
        TargetText::Sys
    } else if s.len() >= 5 && s.subrange(0, 5) == "user:"@ {
        match parse_u64_spec(s.skip(5)) {
            Some(id) => TargetText::Usr(id),
            None => TargetText::BadUserId,
        }
    } else {
        TargetText::BadFormat
    }
}

/// The textual rendering of a target: `"system"`, or `"user:"` followed by
/// the id in decimal.
pub open spec fn target_seq(t: Option<u64>) -> Seq<char> {
    match t {
        Option::None => "system"@,
        Option::Some(id) => "user:"@ + dec_seq(id as nat),
    }
}

/// Parses a target string.
pub fn parse_target(s: &str) -> (r: TargetText)
    ensures
        r == parse_target_spec(s@),
{
    if str_eq(s, "system") {
        return TargetText::Sys;
    }
    let n = s.unicode_len();
    if n < 5 {
        return TargetText::BadFormat;
    }
    let prefix = s.substring_char(0, 5);
    if !str_eq(prefix, "user:") {
        return TargetText::BadFormat;
    }
    let rest = s.substring_char(5, n);
    proof {
        assert(rest@ =~= s@.skip(5));
    }
    match parse_u64_str(rest) {
        Some(id) => TargetText::Usr(id),
        None => TargetText::BadUserId,
    }
}

/// Renders a target: `None` is the system, `Some(id)` a user.
pub fn format_target(t: Option<u64>) -> (r: String)
    ensures
        r@ == target_seq(t),
{
    match t {
        None => "system".to_owned(),
        Some(id) => {
            let mut s = "user:".to_owned();
            let digits = u64_to_dec_string(id);
            s.append(digits.as_str());
            s
        },
    }
}

/// Parsing the rendering of any target gives back that target.
pub proof fn lemma_target_round_trip(t: Option<u64>)
    ensures
        parse_target_spec(target_seq(t)) == (match t {
            Option::None => TargetText::Sys,
            Option::Some(id) => TargetText::Usr(id),
        }),
{
    reveal_strlit("system");
    reveal_strlit("user:");
    match t {
        Option::None => {},
        Option::Some(id) => {
            let s = target_seq(t);
            lemma_dec_seq_digits(id as nat);
            assert(s.len() >= 6);
            assert(s[4] == ':');
            assert(s != "system"@);
            assert(s.subrange(0, 5) =~= "user:"@);
            assert(s.skip(5) =~= dec_seq(id as nat));
            lemma_u64_dec_round_trip(id);
        },
    }
}

} // verus!
