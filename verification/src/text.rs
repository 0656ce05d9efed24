//! Text as sequences of characters: conversions between `String`, `&str` and
//! `Vec<char>`, decimal rendering of counters, character classes, substring
//! search and the lexicographic order used to present dataset names.

use vstd::prelude::*;

verus! {

/// `String::push` appends exactly one character and leaves the rest of the
/// text untouched. This is assumed of the standard library, not proved.
pub assume_specification[ String::push ](s: &mut String, c: char)
    ensures
        final(s)@ == old(s)@.push(c),
;

/// The characters of `s`, in order.
pub fn chars_of(s: &str) -> (r: Vec<char>)
    ensures
        r@ == s@,
{
    let mut out: Vec<char> = Vec::new();
    for c in it: s.chars()
        invariant
            out@ == it.seq().take(it.index() as int),
            it.seq() == s@,
    {
        out.push(c);
    }
    out
}

/// The text made of the characters of `v`, in order.
pub fn text_of(v: &Vec<char>) -> (r: String)
    ensures
        r@ == v@,
{
    let mut out = String::new();
    let mut i: usize = 0;
    while i < v.len()
        invariant
            i <= v.len(),
            out@ == v@.take(i as int),
        decreases v.len() - i,
    {
        out.push(v[i]);
        i += 1;
    }
    out
}

/// Whether `c` is one of the ten ASCII decimal digits.
pub open spec fn is_digit(c: char) -> bool {
    '0' <= c && c <= '9'
}

/// Whether every character of `s` is an ASCII decimal digit.
pub open spec fn all_digits(s: Seq<char>) -> bool {
    forall|i: int| 0 <= i < s.len() ==> is_digit(#[trigger] s[i])
}

/// The character that writes the digit `d`; meaningful for `d < 10`.
pub open spec fn digit_char(d: nat) -> char {
    if d == 0 {
        '0'
    } else if d == 1 {
        '1'
    } else if d == 2 {
        '2'
    } else if d == 3 {
        '3'
    } else if d == 4 {
        '4'
    } else if d == 5 {
        '5'
    } else if d == 6 {
        '6'
    } else if d == 7 {
        '7'
    } else if d == 8 {
        '8'
    } else {
        '9'
    }
}

/// The decimal numeral of `n`: no sign, no leading zero except for zero itself.
pub open spec fn decimal(n: nat) -> Seq<char>
    decreases n,
{
    if n < 10 {
        seq![digit_char(n)]
    } else {
        decimal(n / 10).push(digit_char(n % 10))
    }
}

fn digit_of(d: u64) -> (c: char)
    requires
        d < 10,
    ensures
        c == digit_char(d as nat),
{
    if d == 0 {
        '0'
    } else if d == 1 {
        '1'
    } else if d == 2 {
        '2'
    } else if d == 3 {
        '3'
    } else if d == 4 {
        '4'
    } else if d == 5 {
        '5'
    } else if d == 6 {
        '6'
    } else if d == 7 {
        '7'
    } else if d == 8 {
        '8'
    } else {
        '9'
    }
}

/// Appends the decimal numeral of `n` to `out`.
pub fn push_decimal(out: &mut String, n: u64)
    ensures
        final(out)@ == old(out)@ + decimal(n as nat),
    decreases n,
{
    if n >= 10 {
        push_decimal(out, n / 10);
    }
    out.push(digit_of(n % 10));
}

/// The decimal numeral of `n` as text.
pub fn decimal_text(n: u64) -> (r: String)
    ensures
        r@ == decimal(n as nat),
{
    let mut out = String::new();
    push_decimal(&mut out, n);
    out
}

/// A decimal numeral is never empty, has two or more digits from ten on, and
/// holds digits only.
pub proof fn lemma_decimal_shape(n: nat)
    ensures
        decimal(n).len() >= 1,
        n >= 10 ==> decimal(n).len() >= 2,
        all_digits(decimal(n)),
    decreases n,
{
    if n >= 10 {
        lemma_decimal_shape(n / 10);
    }
}

/// Different digits are written with different characters.
pub proof fn lemma_digit_char_injective(x: nat, y: nat)
    requires
        x < 10,
        y < 10,
        digit_char(x) == digit_char(y),
    ensures
        x == y,
{
}

/// Different numbers have different decimal numerals.
pub proof fn lemma_decimal_injective(a: nat, b: nat)
    requires
        decimal(a) == decimal(b),
    ensures
        a == b,
    decreases a,
{
    lemma_decimal_shape(a);
    lemma_decimal_shape(b);
    if a < 10 || b < 10 {
        assert(decimal(a).len() == 1);
        assert(a < 10 && b < 10);
        assert(decimal(a)[0] == digit_char(a));
        assert(decimal(b)[0] == digit_char(b));
        lemma_digit_char_injective(a, b);
    } else {
        assert(decimal(a).drop_last() =~= decimal(a / 10));
        assert(decimal(b).drop_last() =~= decimal(b / 10));
        assert(decimal(a).last() == digit_char(a % 10));
        assert(decimal(b).last() == digit_char(b % 10));
        lemma_decimal_injective(a / 10, b / 10);
        lemma_digit_char_injective(a % 10, b % 10);
        assert(a == 10 * (a / 10) + a % 10);
        assert(b == 10 * (b / 10) + b % 10);
    }
}

/// What is left of a text after a common prefix decides equality.
pub proof fn lemma_same_prefix(p: Seq<char>, a: Seq<char>, b: Seq<char>)
    requires
        p + a == p + b,
    ensures
        a == b,
{
    assert((p + a).skip(p.len() as int) =~= a);
    assert((p + b).skip(p.len() as int) =~= b);
}

/// `s` with every occurrence of `target` replaced by `with`.
pub open spec fn replace_char(s: Seq<char>, target: char, with: Seq<char>) -> Seq<char>
    decreases s.len(),
{
    if s.len() == 0 {
        Seq::empty()
    } else {
        replacement(s[0], target, with) + replace_char(s.skip(1), target, with)
    }
}

/// What stands for the character `c` once `target` is replaced by `with`.
pub open spec fn replacement(c: char, target: char, with: Seq<char>) -> Seq<char> {
    if c == target {
        with
    } else {
        seq![c]
    }
}

/// Replacing in a text that grew by one character replaces in the text and
/// then in the character.
pub proof fn lemma_replace_push(s: Seq<char>, c: char, target: char, with: Seq<char>)
    ensures
        replace_char(s.push(c), target, with) == replace_char(s, target, with) + replacement(
            c,
            target,
            with,
        ),
    decreases s.len(),
{
    if s.len() == 0 {
        assert(s.push(c).skip(1) =~= Seq::<char>::empty());
        assert(s.push(c)[0] == c);
        assert(replace_char(s.push(c).skip(1), target, with) =~= Seq::<char>::empty());
        assert(replace_char(s.push(c), target, with) =~= replacement(c, target, with));
        assert(replace_char(s, target, with) + replacement(c, target, with) =~= replacement(
            c,
            target,
            with,
        ));
    } else {
        assert(s.push(c).skip(1) =~= s.skip(1).push(c));
        lemma_replace_push(s.skip(1), c, target, with);
        assert(replace_char(s.push(c), target, with) =~= replace_char(s, target, with)
            + replacement(c, target, with));
    }
}

/// A copy of `s` in which every `target` is replaced by `with`.
pub fn replaced(s: &str, target: char, with: &str) -> (r: String)
    ensures
        r@ == replace_char(s@, target, with@),
{
    let v: Vec<char> = chars_of(s);
    let mut out = String::new();
    let mut i: usize = 0;
    while i < v.len()
        invariant
            i <= v.len(),
            v@ == s@,
            out@ == replace_char(v@.take(i as int), target, with@),
        decreases v.len() - i,
    {
        proof {
            lemma_replace_push(v@.take(i as int), v@[i as int], target, with@);
            assert(v@.take(i as int).push(v@[i as int]) =~= v@.take(i + 1));
        }
        if v[i] == target {
            out.append(with);
        } else {
            out.push(v[i]);
        }
        i += 1;
    }
    assert(v@.take(v.len() as int) =~= v@);
    out
}

/// The texts of `parts` in order, with `sep` between each two neighbours.
pub open spec fn joined(parts: Seq<Seq<char>>, sep: Seq<char>) -> Seq<char>
    decreases parts.len(),
{
    if parts.len() == 0 {
        Seq::empty()
    } else if parts.len() == 1 {
        parts[0]
    } else {
        joined(parts.drop_last(), sep) + sep + parts.last()
    }
}

/// Whether `c` is an ASCII letter or an ASCII digit.
pub open spec fn is_ascii_alphanumeric(c: char) -> bool {
    ('a' <= c && c <= 'z') || ('A' <= c && c <= 'Z') || ('0' <= c && c <= '9')
}

/// Whether `c` lies in the ASCII range.
pub open spec fn is_ascii_char(c: char) -> bool {
    c <= '\x7f'
}

/// What Unicode says of a character outside ASCII: whether it has the
/// Alphabetic property or is a number of category Nd, Nl or No.
pub uninterp spec fn unicode_alphanumeric(c: char) -> bool;

/// Whether `c` is a letter or a number: among the ASCII characters the
/// letters `a` to `z`, `A` to `Z` and the digits, elsewhere what Unicode says.
pub open spec fn is_alphanumeric(c: char) -> bool {
    if is_ascii_char(c) {
        is_ascii_alphanumeric(c)
    } else {
        unicode_alphanumeric(c)
    }
}

/// Calls `char::is_alphanumeric`. Trusted: that among ASCII characters it
/// accepts exactly the letters and the digits, and that on any other
/// character it answers by the character alone.
#[verifier::external_body]
pub(crate) fn char_is_alphanumeric(c: char) -> (r: bool)
    ensures
        r == (if is_ascii_char(c) {
            is_ascii_alphanumeric(c)
        } else {
            unicode_alphanumeric(c)
        }),
{
    c.is_alphanumeric()
}

/// Whether two texts hold the same characters.
pub fn text_eq(a: &str, b: &str) -> (r: bool)
    ensures
        r == (a@ == b@),
{
    let x: Vec<char> = chars_of(a);
    let y: Vec<char> = chars_of(b);
    if x.len() != y.len() {
        return false;
    }
    let mut i: usize = 0;
    while i < x.len()
        invariant
            i <= x.len(),
            x.len() == y.len(),
            x@ == a@,
            y@ == b@,
            x@.take(i as int) == y@.take(i as int),
        decreases x.len() - i,
    {
        if x[i] != y[i] {
            return false;
        }
        assert(x@.take(i + 1) =~= x@.take(i as int).push(x@[i as int]));
        assert(y@.take(i + 1) =~= y@.take(i as int).push(y@[i as int]));
        i += 1;
    }
    assert(x@.take(x.len() as int) =~= x@);
    assert(y@.take(y.len() as int) =~= y@);
    true
}

/// The texts of `names`, in order.
pub open spec fn texts_of(names: Seq<String>) -> Seq<Seq<char>> {
    names.map_values(|s: String| s@)
}

/// Whether one of `names` is the text `name`.
pub fn contains_text(names: &Vec<String>, name: &str) -> (r: bool)
    ensures
        r == texts_of(names@).contains(name@),
{
    let mut i: usize = 0;
    while i < names.len()
        invariant
            i <= names.len(),
            forall|j: int| 0 <= j < i ==> #[trigger] texts_of(names@)[j] != name@,
        decreases names.len() - i,
    {
        if text_eq(names[i].as_str(), name) {
            assert(texts_of(names@)[i as int] == name@);
            return true;
        }
        i += 1;
    }
    false
}

/// Whether `pattern` occurs in `s` as a run of neighbouring characters.
pub open spec fn has_substring(s: Seq<char>, pattern: Seq<char>) -> bool {
    exists|i: int|
        0 <= i && i + pattern.len() <= s.len() && #[trigger] s.subrange(i, i + pattern.len())
            == pattern
}

fn occurs_at(s: &Vec<char>, pattern: &Vec<char>, at: usize) -> (r: bool)
    requires
        at + pattern.len() <= s.len(),
    ensures
        r == (s@.subrange(at as int, at + pattern.len()) == pattern@),
{
    let mut j: usize = 0;
    while j < pattern.len()
        invariant
            j <= pattern.len(),
            at + pattern.len() <= s.len(),
            forall|k: int| 0 <= k < j ==> s@[at + k] == pattern@[k],
        decreases pattern.len() - j,
    {
        if s[at + j] != pattern[j] {
            assert(s@.subrange(at as int, at + pattern.len())[j as int] != pattern@[j as int]);
            return false;
        }
        j += 1;
    }
    assert(s@.subrange(at as int, at + pattern.len()) =~= pattern@);
    true
}

/// Whether `pattern` occurs somewhere in `s`.
pub fn contains_substring(s: &str, pattern: &str) -> (r: bool)
    ensures
        r == has_substring(s@, pattern@),
{
    let text: Vec<char> = chars_of(s);
    let pat: Vec<char> = chars_of(pattern);
    if pat.len() == 0 {
        assert(s@.subrange(0int, 0int + pattern@.len()) =~= pattern@);
        return true;
    }
    if pat.len() > text.len() {
        return false;
    }
    let last: usize = text.len() - pat.len();
    let mut i: usize = 0;
    while i <= last
        invariant
            i <= last + 1,
            last == text.len() - pat.len(),
            0 < pat.len() <= text.len(),
            text@ == s@,
            pat@ == pattern@,
            forall|k: int| 0 <= k < i ==> #[trigger] text@.subrange(k, k + pat.len()) != pat@,
        decreases last + 1 - i,
    {
        if occurs_at(&text, &pat, i) {
            return true;
        }
        i += 1;
    }
    false
}

/// Whether every character of `s` lies in the ASCII range.
pub open spec fn is_ascii_text(s: Seq<char>) -> bool {
    forall|i: int| 0 <= i < s.len() ==> is_ascii_char(#[trigger] s[i])
}

/// The lower-case form of an ASCII character: the small letter for a
/// capital letter, else the character itself.
pub open spec fn ascii_lower(c: char) -> char {
    if 'A' <= c && c <= 'Z' {
        ((c as u32) + 32) as char
    } else {
        c
    }
}

/// The upper-case form of an ASCII character: the capital letter for a
/// small letter, else the character itself.
pub open spec fn ascii_upper(c: char) -> char {
    if 'a' <= c && c <= 'z' {
        ((c as u32) - 32) as char
    } else {
        c
    }
}

/// `s` with each character in its ASCII lower-case form.
pub open spec fn ascii_lowercase(s: Seq<char>) -> Seq<char> {
    s.map_values(|c: char| ascii_lower(c))
}

/// `s` with each character in its ASCII upper-case form.
pub open spec fn ascii_uppercase(s: Seq<char>) -> Seq<char> {
    s.map_values(|c: char| ascii_upper(c))
}

/// The text that `str::to_lowercase` gives for a text `s` that is not all
/// ASCII: its characters in lower case as Unicode defines it.
pub uninterp spec fn unicode_lowercase(s: Seq<char>) -> Seq<char>;

/// The text that `str::to_uppercase` gives for a text `s` that is not all
/// ASCII: its characters in upper case as Unicode defines it.
pub uninterp spec fn unicode_uppercase(s: Seq<char>) -> Seq<char>;

/// `s` in lower case: for an ASCII text each capital letter replaced by its
/// small letter, for any other text what Unicode says.
pub open spec fn lowercase(s: Seq<char>) -> Seq<char> {
    if is_ascii_text(s) {
        ascii_lowercase(s)
    } else {
        unicode_lowercase(s)
    }
}

/// `s` in upper case: for an ASCII text each small letter replaced by its
/// capital letter, for any other text what Unicode says.
pub open spec fn uppercase(s: Seq<char>) -> Seq<char> {
    if is_ascii_text(s) {
        ascii_uppercase(s)
    } else {
        unicode_uppercase(s)
    }
}

/// Calls `str::to_lowercase`. Trusted: that an ASCII text comes back with
/// its capital letters made small and nothing else changed, and that the
/// result for any other text depends on its characters alone.
#[verifier::external_body]
pub(crate) fn to_lowercase(s: &str) -> (r: String)
    ensures
        r@ == (if is_ascii_text(s@) {
            ascii_lowercase(s@)
        } else {
            unicode_lowercase(s@)
        }),
{
    s.to_lowercase()
}

/// Calls `str::to_uppercase`. Trusted: that an ASCII text comes back with
/// its small letters made capital and nothing else changed, and that the
/// result for any other text depends on its characters alone.
#[verifier::external_body]
pub(crate) fn to_uppercase(s: &str) -> (r: String)
    ensures
        r@ == (if is_ascii_text(s@) {
            ascii_uppercase(s@)
        } else {
            unicode_uppercase(s@)
        }),
{
    s.to_uppercase()
}

/// Whether `a` comes before `b` when texts are ordered character by
/// character, by code point, a text coming before each of its extensions.
pub open spec fn text_lt(a: Seq<char>, b: Seq<char>) -> bool
    decreases a.len(),
{
    if b.len() == 0 {
        false
    } else if a.len() == 0 {
        true
    } else if a[0] != b[0] {
        a[0] < b[0]
    } else {
        text_lt(a.skip(1), b.skip(1))
    }
}

/// No text comes before itself.
pub proof fn lemma_text_lt_irreflexive(a: Seq<char>)
    ensures
        !text_lt(a, a),
    decreases a.len(),
{
    if a.len() > 0 {
        lemma_text_lt_irreflexive(a.skip(1));
    }
}

/// Of two different texts one comes before the other.
pub proof fn lemma_text_lt_total(a: Seq<char>, b: Seq<char>)
    ensures
        a == b || text_lt(a, b) || text_lt(b, a),
    decreases a.len(),
{
    if a.len() == 0 || b.len() == 0 {
        if a.len() == 0 && b.len() == 0 {
            assert(a =~= b);
        }
    } else if a[0] == b[0] {
        lemma_text_lt_total(a.skip(1), b.skip(1));
        if a.skip(1) == b.skip(1) {
            assert(a =~= seq![a[0]] + a.skip(1));
            assert(b =~= seq![b[0]] + b.skip(1));
        }
    }
}

/// What comes before a text comes before all that the text comes before.
pub proof fn lemma_text_lt_transitive(a: Seq<char>, b: Seq<char>, c: Seq<char>)
    requires
        text_lt(a, b),
        text_lt(b, c),
    ensures
        text_lt(a, c),
    decreases a.len(),
{
    if a.len() > 0 && a[0] == b[0] && b[0] == c[0] {
        lemma_text_lt_transitive(a.skip(1), b.skip(1), c.skip(1));
    }
}

/// Whether `a` comes before `b` in the order of `text_lt`.
pub fn text_before(a: &str, b: &str) -> (r: bool)
    ensures
        r == text_lt(a@, b@),
{
    let x: Vec<char> = chars_of(a);
    let y: Vec<char> = chars_of(b);
    let mut i: usize = 0;
    assert(x@.skip(0) =~= x@ && y@.skip(0) =~= y@);
    while i < x.len() && i < y.len()
        invariant
            i <= x.len(),
            i <= y.len(),
            x@ == a@,
            y@ == b@,
            text_lt(a@, b@) == text_lt(x@.skip(i as int), y@.skip(i as int)),
        decreases x.len() - i,
    {
        let ghost xs = x@.skip(i as int);
        let ghost ys = y@.skip(i as int);
        assert(xs[0] == x@[i as int] && ys[0] == y@[i as int]);
        if x[i] != y[i] {
            return x[i] < y[i];
        }
        assert(xs.skip(1) =~= x@.skip(i + 1));
        assert(ys.skip(1) =~= y@.skip(i + 1));
        i += 1;
    }
    i < y.len()
}

/// Whether each text of `s` comes before all those behind it; then no text
/// occurs twice.
pub open spec fn strictly_sorted(s: Seq<Seq<char>>) -> bool {
    forall|i: int, j: int| 0 <= i < j < s.len() ==> text_lt(#[trigger] s[i], #[trigger] s[j])
}

/// In a strictly sorted sequence no text occurs twice.
pub proof fn lemma_sorted_has_no_repeats(s: Seq<Seq<char>>)
    requires
        strictly_sorted(s),
    ensures
        forall|i: int, j: int| 0 <= i < j < s.len() ==> #[trigger] s[i] != #[trigger] s[j],
{
    assert forall|i: int, j: int| 0 <= i < j < s.len() implies #[trigger] s[i]
        != #[trigger] s[j] by {
        lemma_text_lt_irreflexive(s[i]);
    }
}

fn insert_sorted(out: &mut Vec<String>, name: String)
    requires
        strictly_sorted(texts_of(old(out)@)),
    ensures
        strictly_sorted(texts_of(final(out)@)),
        texts_of(final(out)@).to_set() == texts_of(old(out)@).to_set().insert(name@),
{
    let ghost before = texts_of(out@);
    let mut p: usize = 0;
    while p < out.len() && text_before(out[p].as_str(), name.as_str())
        invariant
            p <= out.len(),
            before == texts_of(out@),
            forall|j: int| 0 <= j < p ==> text_lt(#[trigger] before[j], name@),
        decreases out.len() - p,
    {
        assert(before[p as int] == out@[p as int]@);
        p += 1;
    }
    if p < out.len() && text_eq(out[p].as_str(), name.as_str()) {
        assert(before[p as int] == name@);
        assert(before.to_set().insert(name@) =~= before.to_set());
        return ;
    }
    out.insert(p, name);
    proof {
        let after = texts_of(out@);
        assert(after =~= before.insert(p as int, name@));
        if p < before.len() {
            assert(before[p as int] == old(out)@[p as int]@);
            lemma_text_lt_total(before[p as int], name@);
            assert(text_lt(name@, before[p as int]));
        }
        assert forall|i: int, j: int| 0 <= i < j < after.len() implies text_lt(
            #[trigger] after[i],
            #[trigger] after[j],
        ) by {
            if j < p {
                assert(after[i] == before[i] && after[j] == before[j]);
            } else if j == p {
                assert(after[i] == before[i]);
            } else if i < p {
                assert(after[i] == before[i] && after[j] == before[j - 1]);
            } else if i == p {
                assert(after[j] == before[j - 1]);
                if j - 1 > p {
                    lemma_text_lt_transitive(name@, before[p as int], before[j - 1]);
                }
            } else {
                assert(after[i] == before[i - 1] && after[j] == before[j - 1]);
            }
        }
        assert forall|n: Seq<char>| after.to_set().contains(n) == before.to_set().insert(
            name@,
        ).contains(n) by {
            if after.to_set().contains(n) {
                let k = choose|k: int| 0 <= k < after.len() && after[k] == n;
                if k < p {
                    assert(before[k] == n);
                } else if k > p {
                    assert(before[k - 1] == n);
                }
            }
            if before.to_set().insert(name@).contains(n) {
                if n == name@ {
                    assert(after[p as int] == n);
                } else {
                    let k = choose|k: int| 0 <= k < before.len() && before[k] == n;
                    if k < p {
                        assert(after[k] == n);
                    } else {
                        assert(after[k + 1] == n);
                    }
                }
            }
        }
        assert(after.to_set() =~= before.to_set().insert(name@));
    }
}

/// The texts of `names`, each once, in the order of `text_lt`.
pub fn sorted_distinct(names: &Vec<String>) -> (r: Vec<String>)
    ensures
        strictly_sorted(texts_of(r@)),
        texts_of(r@).to_set() == texts_of(names@).to_set(),
{
    let mut out: Vec<String> = Vec::new();
    let mut i: usize = 0;
    assert(texts_of(out@).to_set() =~= texts_of(names@).take(0).to_set());
    while i < names.len()
        invariant
            i <= names.len(),
            strictly_sorted(texts_of(out@)),
            texts_of(out@).to_set() == texts_of(names@).take(i as int).to_set(),
        decreases names.len() - i,
    {
        let name = names[i].clone();
        assert(name@ == names@[i as int]@);
        insert_sorted(&mut out, name);
        proof {
            let all = texts_of(names@);
            let shorter = all.take(i as int);
            let longer = all.take(i + 1);
            assert(longer =~= shorter.push(all[i as int]));
            assert forall|n: Seq<char>| longer.to_set().contains(n) == shorter.to_set().insert(
                all[i as int],
            ).contains(n) by {
                if longer.to_set().contains(n) {
                    let k = choose|k: int| 0 <= k < longer.len() && longer[k] == n;
                    if k < i {
                        assert(shorter[k] == n);
                    }
                }
                if shorter.to_set().insert(all[i as int]).contains(n) {
                    if n == all[i as int] {
                        assert(longer[i as int] == n);
                    } else {
                        let k = choose|k: int| 0 <= k < shorter.len() && shorter[k] == n;
                        assert(longer[k] == n);
                    }
                }
            }
            assert(longer.to_set() =~= shorter.to_set().insert(all[i as int]));
        }
        i += 1;
    }
    assert(texts_of(names@).take(names.len() as int) =~= texts_of(names@));
    out
}

} // verus!
