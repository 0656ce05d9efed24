//! Recognising the texts that read as a floating-point literal.
//!
//! The grammar is the one of Rust's `f64` parser:
//!
//! ```text
//! Float  ::= Sign? ( 'inf' | 'infinity' | 'nan' | Number )
//! Number ::= ( Digit+ | Digit+ '.' Digit* | Digit* '.' Digit+ ) Exp?
//! Exp    ::= 'e' Sign? Digit+
//! Sign   ::= [+-]
//! Digit  ::= [0-9]
//! ```
//!
//! Letters are matched without regard to ASCII case. No white space is
//! allowed anywhere.

use crate::text::{all_digits, chars_of, is_digit};
use vstd::prelude::*;

verus! {

/// Whether `c` is a plus or a minus sign.
pub open spec fn is_sign(c: char) -> bool {
    c == '+' || c == '-'
}

/// `s` without its leading sign, if it has one.
pub open spec fn unsigned_part(s: Seq<char>) -> Seq<char> {
    if s.len() > 0 && is_sign(s[0]) {
        s.skip(1)
    } else {
        s
    }
}

/// Whether `c` is the letter given in its two cases.
pub open spec fn is_letter(c: char, lower: char, upper: char) -> bool {
    c == lower || c == upper
}

/// `inf`, in any mix of cases.
pub open spec fn is_inf(s: Seq<char>) -> bool {
    &&& s.len() == 3
    &&& is_letter(s[0], 'i', 'I')
    &&& is_letter(s[1], 'n', 'N')
    &&& is_letter(s[2], 'f', 'F')
}

/// `infinity`, in any mix of cases.
pub open spec fn is_infinity(s: Seq<char>) -> bool {
    &&& s.len() == 8
    &&& is_inf(s.take(3))
    &&& is_letter(s[3], 'i', 'I')
    &&& is_letter(s[4], 'n', 'N')
    &&& is_letter(s[5], 'i', 'I')
    &&& is_letter(s[6], 't', 'T')
    &&& is_letter(s[7], 'y', 'Y')
}

/// `nan`, in any mix of cases.
pub open spec fn is_nan(s: Seq<char>) -> bool {
    &&& s.len() == 3
    &&& is_letter(s[0], 'n', 'N')
    &&& is_letter(s[1], 'a', 'A')
    &&& is_letter(s[2], 'n', 'N')
}

/// One of the three words that name a value which is not a finite number.
pub open spec fn is_special(s: Seq<char>) -> bool {
    is_inf(s) || is_infinity(s) || is_nan(s)
}

/// `Digit+ | Digit+ '.' Digit* | Digit* '.' Digit+`
pub open spec fn is_mantissa(s: Seq<char>) -> bool {
    ||| s.len() > 0 && all_digits(s)
    ||| exists|k: int|
        0 <= k < s.len() && s.len() >= 2 && s[k] == '.' && all_digits(#[trigger] s.take(k))
            && all_digits(s.skip(k + 1))
}

/// `'e' Sign? Digit+`
pub open spec fn is_exponent(s: Seq<char>) -> bool {
    &&& s.len() >= 2
    &&& is_letter(s[0], 'e', 'E')
    &&& unsigned_part(s.skip(1)).len() > 0
    &&& all_digits(unsigned_part(s.skip(1)))
}

/// A mantissa, followed or not by an exponent.
pub open spec fn is_number(s: Seq<char>) -> bool {
    ||| is_mantissa(s)
    ||| exists|k: int|
        0 < k < s.len() && is_mantissa(#[trigger] s.take(k)) && is_exponent(s.skip(k))
}

/// Whether the whole of `s` reads as a floating-point literal.
pub open spec fn is_float_literal(s: Seq<char>) -> bool {
    is_special(unsigned_part(s)) || is_number(unsigned_part(s))
}

/// Where the run of digits that starts at `from` ends: the first position from
/// there on that holds no digit, or the length of `s`.
pub open spec fn digit_run_end(s: Seq<char>, from: int) -> int
    decreases s.len() - from,
{
    if 0 <= from < s.len() && is_digit(s[from]) {
        digit_run_end(s, from + 1)
    } else {
        from
    }
}

/// A run of digits ends where `digit_run_end` says, and nowhere else.
pub proof fn lemma_digit_run(s: Seq<char>, from: int, end: int)
    requires
        0 <= from <= end <= s.len(),
        forall|i: int| from <= i < end ==> is_digit(#[trigger] s[i]),
        end == s.len() || !is_digit(s[end]),
    ensures
        digit_run_end(s, from) == end,
    decreases end - from,
{
    if from < end {
        lemma_digit_run(s, from + 1, end);
    }
}

/// What `digit_run_end` returns bounds a run of digits that cannot go on.
pub proof fn lemma_digit_run_end(s: Seq<char>, from: int)
    requires
        0 <= from <= s.len(),
    ensures
        from <= digit_run_end(s, from) <= s.len(),
        forall|i: int| from <= i < digit_run_end(s, from) ==> is_digit(#[trigger] s[i]),
        digit_run_end(s, from) == s.len() || !is_digit(s[digit_run_end(s, from)]),
    decreases s.len() - from,
{
    if from < s.len() && is_digit(s[from]) {
        lemma_digit_run_end(s, from + 1);
    }
}

/// Where the mantissa that starts `s` would end: after the leading digits
/// and, if a dot follows them, after the dot and the digits behind it.
pub open spec fn mantissa_end(s: Seq<char>) -> int {
    let whole = digit_run_end(s, 0);
    if whole < s.len() && s[whole] == '.' {
        digit_run_end(s, whole + 1)
    } else {
        whole
    }
}

/// How many digits the mantissa that starts `s` holds.
pub open spec fn mantissa_digits(s: Seq<char>) -> int {
    let whole = digit_run_end(s, 0);
    if whole < s.len() && s[whole] == '.' {
        digit_run_end(s, whole + 1) - 1
    } else {
        whole
    }
}

/// The same question as `is_number`, answered by reading `s` once from left
/// to right.
pub open spec fn reads_as_number(s: Seq<char>) -> bool {
    let m = mantissa_end(s);
    &&& mantissa_digits(s) > 0
    &&& (m == s.len() || is_exponent(s.skip(m)))
}

proof fn lemma_mantissa_is_read(s: Seq<char>, k: int)
    requires
        0 < k <= s.len(),
        is_mantissa(s.take(k)),
        k == s.len() || is_letter(s[k], 'e', 'E'),
    ensures
        mantissa_end(s) == k,
        mantissa_digits(s) > 0,
{
    let t = s.take(k);
    if t.len() > 0 && all_digits(t) {
        assert forall|i: int| 0 <= i < k implies is_digit(#[trigger] s[i]) by {
            assert(t[i] == s[i]);
        }
        lemma_digit_run(s, 0, k);
    } else {
        let d = choose|d: int|
            0 <= d < t.len() && t.len() >= 2 && t[d] == '.' && all_digits(#[trigger] t.take(d))
                && all_digits(t.skip(d + 1));
        assert forall|i: int| 0 <= i < d implies is_digit(#[trigger] s[i]) by {
            assert(t.take(d)[i] == s[i]);
        }
        assert(t[d] == s[d]);
        lemma_digit_run(s, 0, d);
        assert forall|i: int| d + 1 <= i < k implies is_digit(#[trigger] s[i]) by {
            assert(t.skip(d + 1)[i - (d + 1)] == s[i]);
        }
        lemma_digit_run(s, d + 1, k);
    }
}

proof fn lemma_read_is_mantissa(s: Seq<char>)
    requires
        mantissa_digits(s) > 0,
    ensures
        0 < mantissa_end(s) <= s.len(),
        is_mantissa(s.take(mantissa_end(s))),
        mantissa_end(s) == s.len() || !is_digit(s[mantissa_end(s)]),
{
    let whole = digit_run_end(s, 0);
    lemma_digit_run_end(s, 0);
    let m = mantissa_end(s);
    let t = s.take(m);
    if whole < s.len() && s[whole] == '.' {
        lemma_digit_run_end(s, whole + 1);
        assert(t.len() >= 2);
        assert(t[whole] == '.');
        assert forall|i: int| 0 <= i < t.take(whole).len() implies is_digit(
            #[trigger] t.take(whole)[i],
        ) by {
            assert(t.take(whole)[i] == s[i]);
        }
        assert forall|i: int| 0 <= i < t.skip(whole + 1).len() implies is_digit(
            #[trigger] t.skip(whole + 1)[i],
        ) by {
            assert(t.skip(whole + 1)[i] == s[i + whole + 1]);
        }
        assert(all_digits(t.take(whole)) && all_digits(t.skip(whole + 1)));
    } else {
        assert forall|i: int| 0 <= i < t.len() implies is_digit(#[trigger] t[i]) by {
            assert(t[i] == s[i]);
        }
    }
}

/// Reading from left to right decides the grammar of numbers.
pub proof fn lemma_reads_as_number(s: Seq<char>)
    ensures
        reads_as_number(s) == is_number(s),
{
    if is_number(s) {
        if is_mantissa(s) {
            assert(s.take(s.len() as int) =~= s);
            lemma_mantissa_is_read(s, s.len() as int);
        } else {
            let k = choose|k: int|
                0 < k < s.len() && is_mantissa(#[trigger] s.take(k)) && is_exponent(s.skip(k));
            assert(s.skip(k)[0] == s[k]);
            lemma_mantissa_is_read(s, k);
        }
    }
    if reads_as_number(s) {
        lemma_read_is_mantissa(s);
        let m = mantissa_end(s);
        if m == s.len() {
            assert(s.take(m) =~= s);
        }
    }
}

fn digits_end(v: &Vec<char>, from: usize) -> (end: usize)
    requires
        from <= v.len(),
    ensures
        end == digit_run_end(v@, from as int),
        from <= end <= v.len(),
{
    let mut i: usize = from;
    while i < v.len() && '0' <= v[i] && v[i] <= '9'
        invariant
            from <= i <= v.len(),
            digit_run_end(v@, from as int) == digit_run_end(v@, i as int),
        decreases v.len() - i,
    {
        i += 1;
    }
    i
}

fn letter_at(v: &Vec<char>, at: usize, lower: char, upper: char) -> (r: bool)
    requires
        at < v.len(),
    ensures
        r == is_letter(v@[at as int], lower, upper),
{
    v[at] == lower || v[at] == upper
}

fn special_from(v: &Vec<char>, from: usize) -> (r: bool)
    requires
        from <= v.len(),
    ensures
        r == is_special(v@.skip(from as int)),
{
    let n: usize = v.len() - from;
    let ghost t = v@.skip(from as int);
    if n == 3 {
        let inf = letter_at(v, from, 'i', 'I') && letter_at(v, from + 1, 'n', 'N') && letter_at(
            v,
            from + 2,
            'f',
            'F',
        );
        let nan = letter_at(v, from, 'n', 'N') && letter_at(v, from + 1, 'a', 'A') && letter_at(
            v,
            from + 2,
            'n',
            'N',
        );
        inf || nan
    } else if n == 8 {
        let r = letter_at(v, from, 'i', 'I') && letter_at(v, from + 1, 'n', 'N') && letter_at(
            v,
            from + 2,
            'f',
            'F',
        ) && letter_at(v, from + 3, 'i', 'I') && letter_at(v, from + 4, 'n', 'N') && letter_at(
            v,
            from + 5,
            'i',
            'I',
        ) && letter_at(v, from + 6, 't', 'T') && letter_at(v, from + 7, 'y', 'Y');
        proof {
            assert(t.take(3)[0] == t[0]);
            assert(t.take(3)[1] == t[1]);
            assert(t.take(3)[2] == t[2]);
        }
        r
    } else {
        false
    }
}

fn exponent_from(v: &Vec<char>, from: usize) -> (r: bool)
    requires
        from < v.len(),
    ensures
        r == is_exponent(v@.skip(from as int)),
{
    let n: usize = v.len();
    let ghost t = v@.skip(from as int);
    if n - from < 2 || !letter_at(v, from, 'e', 'E') {
        return false;
    }
    let signed: bool = v[from + 1] == '+' || v[from + 1] == '-';
    let start: usize = if signed {
        from + 2
    } else {
        from + 1
    };
    let end: usize = digits_end(v, start);
    proof {
        let u = unsigned_part(t.skip(1));
        assert(t.skip(1)[0] == v@[from + 1]);
        assert(u =~= v@.skip(start as int));
        lemma_digit_run_end(v@, start as int);
        if end == n && start < n {
            assert forall|i: int| 0 <= i < u.len() implies is_digit(#[trigger] u[i]) by {
                assert(u[i] == v@[start + i]);
            }
        }
        if end < n {
            assert(u[end - start] == v@[end as int]);
        }
    }
    end == n && start < n
}

/// Whether `s` reads as a number: as a finite decimal with or without a
/// fraction and an exponent, or as one of `inf`, `infinity` and `nan`, each
/// with or without a sign in front.
pub fn is_numeric(s: &str) -> (r: bool)
    ensures
        r == is_float_literal(s@),
{
    let v: Vec<char> = chars_of(s);
    let n: usize = v.len();
    let start: usize = if n > 0 && (v[0] == '+' || v[0] == '-') {
        1
    } else {
        0
    };
    let ghost t = unsigned_part(s@);
    assert(t =~= v@.skip(start as int));
    if special_from(&v, start) {
        return true;
    }
    proof {
        lemma_reads_as_number(t);
        lemma_digit_run_end(t, 0);
    }
    let whole: usize = digits_end_in(&v, start, start);
    let dotted: bool = whole < n && v[whole] == '.';
    let end: usize = if dotted {
        digits_end_in(&v, start, whole + 1)
    } else {
        whole
    };
    let digits: usize = if dotted {
        end - start - 1
    } else {
        end - start
    };
    if digits == 0 {
        return false;
    }
    if end == n {
        return true;
    }
    assert(t.skip(end - start) =~= v@.skip(end as int));
    exponent_from(&v, end)
}

/// `digit_run_end` of the text that starts at `base`, for a run that starts
/// at `from`, as a position in `v`.
fn digits_end_in(v: &Vec<char>, base: usize, from: usize) -> (end: usize)
    requires
        base <= from <= v.len(),
    ensures
        end - base == digit_run_end(v@.skip(base as int), from - base),
        from <= end <= v.len(),
{
    let end: usize = digits_end(v, from);
    proof {
        let t = v@.skip(base as int);
        lemma_digit_run_end(v@, from as int);
        assert forall|i: int| from - base <= i < end - base implies is_digit(#[trigger] t[i]) by {
            assert(t[i] == v@[i + base]);
        }
        if end < v.len() {
            assert(t[end - base] == v@[end as int]);
        }
        lemma_digit_run(t, from - base, end - base);
    }
    end
}

} // verus!
