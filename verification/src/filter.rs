//! Structured filters and their compilation into the text of a SQL predicate.
//!
//! A filter names columns, operators and values. Only the compiler below
//! turns it into text: column names pass an allow-list before they are
//! quoted, and values are written either as a number or as a string literal
//! whose quotes are doubled.

use crate::error::{text_result, FilterFault, FilterFaultView, RustoraError, RustoraErrorView};
pub use crate::numeric::is_numeric;
use crate::numeric::{
    is_exponent, is_float_literal, is_infinity, is_mantissa, is_sign, is_special, unsigned_part,
};
use crate::text::{
    all_digits, char_is_alphanumeric, chars_of, is_alphanumeric, is_digit, joined, replace_char,
    replaced, replacement,
};
use vstd::prelude::*;
use vstd::utf8::encode_utf8;

verus! {

/// How a column is compared with a value.
#[derive(Debug, Clone, Copy, PartialEq, Eq, Structural)]
pub enum FilterOperator {
    Equals,
    NotEquals,
    GreaterThan,
    GreaterThanOrEqual,
    LessThan,
    LessThanOrEqual,
    Contains,
    NotContains,
    StartsWith,
    EndsWith,
    IsNull,
    IsNotNull,
}

/// How the conditions of a filter are combined.
#[derive(Debug, Clone, Copy, PartialEq, Eq, Structural)]
pub enum FilterLogic {
    And,
    Or,
}

/// One condition on one column.
#[derive(Debug, Clone)]
pub struct FilterCondition {
    pub column: String,
    pub operator: FilterOperator,
    pub value: String,
}

/// A list of conditions, all combined by the same logic.
#[derive(Debug, Clone)]
pub struct FilterSpec {
    pub conditions: Vec<FilterCondition>,
    pub logic: FilterLogic,
}

/// A condition with its texts as sequences of characters.
pub struct ConditionView {
    pub column: Seq<char>,
    pub operator: FilterOperator,
    pub value: Seq<char>,
}

/// A filter with its conditions as a sequence of condition views.
pub struct FilterSpecView {
    pub conditions: Seq<ConditionView>,
    pub logic: FilterLogic,
}

impl View for FilterCondition {
    type V = ConditionView;

    open spec fn view(&self) -> ConditionView {
        ConditionView { column: self.column@, operator: self.operator, value: self.value@ }
    }
}

impl View for FilterSpec {
    type V = FilterSpecView;

    open spec fn view(&self) -> FilterSpecView {
        FilterSpecView {
            conditions: self.conditions@.map_values(|c: FilterCondition| c@),
            logic: self.logic,
        }
    }
}

/// The longest column name accepted, in bytes of its UTF-8 form.
pub const MAX_COLUMN_BYTES: usize = 256;

/// Whether `c` may stand in a column name: a letter, a number, an
/// underscore, a space or a dot.
pub open spec fn allowed_in_column(c: char) -> bool {
    is_alphanumeric(c) || c == '_' || c == ' ' || c == '.'
}

/// Whether `name` may be used as a column name: not empty, at most 256
/// bytes long, and made of allowed characters only.
pub open spec fn valid_column(name: Seq<char>) -> bool {
    &&& name.len() > 0
    &&& encode_utf8(name).len() <= MAX_COLUMN_BYTES
    &&& forall|i: int| 0 <= i < name.len() ==> allowed_in_column(#[trigger] name[i])
}

/// `name` between double quotes.
pub open spec fn quoted_identifier(name: Seq<char>) -> Seq<char> {
    "\""@ + name + "\""@
}

/// Puts `name` between double quotes, as it stands. This is for names
/// that have passed a check or are known to the store.
pub fn quote_identifier(name: &str) -> (r: String)
    ensures
        r@ == quoted_identifier(name@),
{
    let mut out = String::from_str("\"");
    out.append(name);
    out.append("\"");
    out
}

/// `value` with each single quote doubled.
pub open spec fn quote_escaped(value: Seq<char>) -> Seq<char> {
    replace_char(value, '\'', "''"@)
}

/// `value` with each single quote doubled and a backslash put before each
/// percent sign and each underscore.
pub open spec fn like_escaped(value: Seq<char>) -> Seq<char> {
    replace_char(replace_char(quote_escaped(value), '%', "\\%"@), '_', "\\_"@)
}

/// `value` as a string literal: between single quotes, its own quotes doubled.
pub open spec fn string_literal(value: Seq<char>) -> Seq<char> {
    "'"@ + quote_escaped(value) + "'"@
}

/// `value` as the right-hand side of a comparison: as it stands where it
/// reads as a number, else as a string literal.
pub open spec fn comparison_value(value: Seq<char>) -> Seq<char> {
    if is_float_literal(value) {
        value
    } else {
        string_literal(value)
    }
}

/// The words that stand between the column and the operand.
pub open spec fn operator_keyword(op: FilterOperator) -> Seq<char> {
    match op {
        FilterOperator::Equals => " = "@,
        FilterOperator::NotEquals => " != "@,
        FilterOperator::GreaterThan => " > "@,
        FilterOperator::GreaterThanOrEqual => " >= "@,
        FilterOperator::LessThan => " < "@,
        FilterOperator::LessThanOrEqual => " <= "@,
        FilterOperator::Contains => " LIKE "@,
        FilterOperator::NotContains => " NOT LIKE "@,
        FilterOperator::StartsWith => " LIKE "@,
        FilterOperator::EndsWith => " LIKE "@,
        FilterOperator::IsNull => " IS NULL"@,
        FilterOperator::IsNotNull => " IS NOT NULL"@,
    }
}

/// What the operator is applied to: a comparison value, a pattern, or
/// nothing at all for the two tests on null, which ignore the value.
pub open spec fn operand(op: FilterOperator, value: Seq<char>) -> Seq<char> {
    match op {
        FilterOperator::Equals => comparison_value(value),
        FilterOperator::NotEquals => comparison_value(value),
        FilterOperator::GreaterThan => comparison_value(value),
        FilterOperator::GreaterThanOrEqual => comparison_value(value),
        FilterOperator::LessThan => comparison_value(value),
        FilterOperator::LessThanOrEqual => comparison_value(value),
        FilterOperator::Contains => "'%"@ + like_escaped(value) + "%'"@,
        FilterOperator::NotContains => "'%"@ + like_escaped(value) + "%'"@,
        FilterOperator::StartsWith => "'"@ + like_escaped(value) + "%'"@,
        FilterOperator::EndsWith => "'%"@ + like_escaped(value) + "'"@,
        FilterOperator::IsNull => Seq::empty(),
        FilterOperator::IsNotNull => Seq::empty(),
    }
}

/// The predicate for one condition whose column is valid.
pub open spec fn clause(c: ConditionView) -> Seq<char> {
    quoted_identifier(c.column) + operator_keyword(c.operator) + operand(c.operator, c.value)
}

/// The outcome of checking and quoting a column name.
pub open spec fn column_sql(name: Seq<char>) -> Result<Seq<char>, RustoraErrorView> {
    if valid_column(name) {
        Ok(quoted_identifier(name))
    } else {
        Err(RustoraErrorView::InvalidFilter(FilterFaultView::InvalidColumn(name)))
    }
}

/// The outcome of compiling one condition.
pub open spec fn condition_sql(c: ConditionView) -> Result<Seq<char>, RustoraErrorView> {
    if valid_column(c.column) {
        Ok(clause(c))
    } else {
        Err(RustoraErrorView::InvalidFilter(FilterFaultView::InvalidColumn(c.column)))
    }
}

/// Whether every condition names a valid column.
pub open spec fn all_columns_valid(conditions: Seq<ConditionView>) -> bool {
    forall|i: int| 0 <= i < conditions.len() ==> valid_column(#[trigger] conditions[i].column)
}

/// The column of the first condition whose column is not valid, if there
/// is such a condition.
pub open spec fn first_invalid(conditions: Seq<ConditionView>) -> Option<Seq<char>>
    decreases conditions.len(),
{
    if conditions.len() == 0 {
        None
    } else if !valid_column(conditions[0].column) {
        Some(conditions[0].column)
    } else {
        first_invalid(conditions.skip(1))
    }
}

/// Valid columns in front do not change which invalid column is the first.
pub proof fn lemma_first_invalid_skips_valid(conditions: Seq<ConditionView>, k: int)
    requires
        0 <= k <= conditions.len(),
        all_columns_valid(conditions.take(k)),
    ensures
        first_invalid(conditions) == first_invalid(conditions.skip(k)),
    decreases k,
{
    if k == 0 {
        assert(conditions.skip(0) =~= conditions);
    } else {
        assert(conditions.take(k)[0] == conditions[0]);
        let rest = conditions.skip(1);
        assert forall|i: int| 0 <= i < rest.take(k - 1).len() implies valid_column(
            #[trigger] rest.take(k - 1)[i].column,
        ) by {
            assert(rest.take(k - 1)[i] == conditions.take(k)[i + 1]);
        }
        lemma_first_invalid_skips_valid(rest, k - 1);
        assert(rest.skip(k - 1) =~= conditions.skip(k));
    }
}

/// The clauses of the conditions, in order.
pub open spec fn clauses(conditions: Seq<ConditionView>) -> Seq<Seq<char>> {
    conditions.map_values(|c: ConditionView| clause(c))
}

/// The word that joins the clauses.
pub open spec fn joiner(logic: FilterLogic) -> Seq<char> {
    match logic {
        FilterLogic::And => " AND "@,
        FilterLogic::Or => " OR "@,
    }
}

/// What compiling `spec` gives: a fault for an empty list, the fault of the
/// first invalid column, else the clauses joined.
pub open spec fn where_text(spec: FilterSpecView) -> Result<Seq<char>, RustoraErrorView> {
    if spec.conditions.len() == 0 {
        Err(RustoraErrorView::InvalidFilter(FilterFaultView::NoConditions))
    } else {
        match first_invalid(spec.conditions) {
            Some(column) => Err(
                RustoraErrorView::InvalidFilter(FilterFaultView::InvalidColumn(column)),
            ),
            None => Ok(joined(clauses(spec.conditions), joiner(spec.logic))),
        }
    }
}

fn column_char_allowed(c: char) -> (r: bool)
    ensures
        r == allowed_in_column(c),
{
    char_is_alphanumeric(c) || c == '_' || c == ' ' || c == '.'
}

/// Checks a column name against the allow-list and wraps it in double
/// quotes. This is the only way a column name enters a predicate.
pub fn sanitize_column_name(name: &str) -> (r: Result<String, RustoraError>)
    ensures
        text_result(r) == column_sql(name@),
{
    let v: Vec<char> = chars_of(name);
    let mut ok: bool = v.len() > 0 && name.as_bytes().len() <= MAX_COLUMN_BYTES;
    let mut i: usize = 0;
    while ok && i < v.len()
        invariant
            i <= v.len(),
            v@ == name@,
            ok ==> name@.len() > 0 && encode_utf8(name@).len() <= MAX_COLUMN_BYTES,
            ok ==> forall|j: int| 0 <= j < i ==> allowed_in_column(#[trigger] name@[j]),
            !ok ==> !valid_column(name@),
        decreases v.len() - i + (if ok { 1int } else { 0int }),
    {
        if column_char_allowed(v[i]) {
            i += 1;
        } else {
            ok = false;
        }
    }
    if ok {
        Ok(quote_identifier(name))
    } else {
        Err(RustoraError::InvalidFilter(FilterFault::InvalidColumn(String::from_str(name))))
    }
}

/// Doubles each single quote of `val`, so that the result can stand inside
/// a single-quoted literal.
pub fn escape_sql_string(val: &str) -> (r: String)
    ensures
        r@ == quote_escaped(val@),
{
    replaced(val, '\'', "''")
}

/// Prepares `s` for a `LIKE` pattern: single quotes are doubled, then the
/// two wildcard characters get a backslash in front.
pub fn escape_like(s: &str) -> (r: String)
    ensures
        r@ == like_escaped(s@),
{
    let quoted = escape_sql_string(s);
    let percent = replaced(quoted.as_str(), '%', "\\%");
    replaced(percent.as_str(), '_', "\\_")
}

/// Writes `s` as the right-hand side of a comparison: unchanged where it
/// reads as a number, else as a string literal.
pub fn format_comparison_value(s: &str) -> (r: String)
    ensures
        r@ == comparison_value(s@),
{
    if is_numeric(s) {
        String::from_str(s)
    } else {
        let mut out = String::from_str("'");
        let escaped = escape_sql_string(s);
        out.append(escaped.as_str());
        out.append("'");
        out
    }
}

fn keyword_of(op: FilterOperator) -> (r: &'static str)
    ensures
        r@ == operator_keyword(op),
{
    match op {
        FilterOperator::Equals => " = ",
        FilterOperator::NotEquals => " != ",
        FilterOperator::GreaterThan => " > ",
        FilterOperator::GreaterThanOrEqual => " >= ",
        FilterOperator::LessThan => " < ",
        FilterOperator::LessThanOrEqual => " <= ",
        FilterOperator::Contains => " LIKE ",
        FilterOperator::NotContains => " NOT LIKE ",
        FilterOperator::StartsWith => " LIKE ",
        FilterOperator::EndsWith => " LIKE ",
        FilterOperator::IsNull => " IS NULL",
        FilterOperator::IsNotNull => " IS NOT NULL",
    }
}

fn pattern(before: &str, value: &str, after: &str) -> (r: String)
    ensures
        r@ == before@ + like_escaped(value@) + after@,
{
    let mut out = String::from_str(before);
    let escaped = escape_like(value);
    out.append(escaped.as_str());
    out.append(after);
    out
}

fn operand_of(op: FilterOperator, value: &str) -> (r: String)
    ensures
        r@ == operand(op, value@),
{
    match op {
        FilterOperator::Equals => format_comparison_value(value),
        FilterOperator::NotEquals => format_comparison_value(value),
        FilterOperator::GreaterThan => format_comparison_value(value),
        FilterOperator::GreaterThanOrEqual => format_comparison_value(value),
        FilterOperator::LessThan => format_comparison_value(value),
        FilterOperator::LessThanOrEqual => format_comparison_value(value),
        FilterOperator::Contains => pattern("'%", value, "%'"),
        FilterOperator::NotContains => pattern("'%", value, "%'"),
        FilterOperator::StartsWith => pattern("'", value, "%'"),
        FilterOperator::EndsWith => pattern("'%", value, "'"),
        FilterOperator::IsNull => String::new(),
        FilterOperator::IsNotNull => String::new(),
    }
}

/// Compiles one condition: the quoted column, the operator's words, and
/// the operand.
pub fn condition_to_sql(cond: &FilterCondition) -> (r: Result<String, RustoraError>)
    ensures
        text_result(r) == condition_sql(cond@),
{
    match sanitize_column_name(cond.column.as_str()) {
        Ok(mut out) => {
            out.append(keyword_of(cond.operator));
            let rhs = operand_of(cond.operator, cond.value.as_str());
            out.append(rhs.as_str());
            Ok(out)
        },
        Err(e) => Err(e),
    }
}

fn joiner_of(logic: FilterLogic) -> (r: &'static str)
    ensures
        r@ == joiner(logic),
{
    match logic {
        FilterLogic::And => " AND ",
        FilterLogic::Or => " OR ",
    }
}

impl FilterSpec {
    /// Compiles the filter into the text of a SQL predicate.
    ///
    /// An empty list of conditions is refused, and so is a column name that
    /// does not pass the allow-list; the first such name is reported. On
    /// every other filter the clauses of the conditions come back joined by
    /// ` AND ` or ` OR `.
    pub fn to_sql_where(&self) -> (r: Result<String, RustoraError>)
        ensures
            text_result(r) == where_text(self@),
    {
        let n: usize = self.conditions.len();
        if n == 0 {
            return Err(RustoraError::InvalidFilter(FilterFault::NoConditions));
        }
        let sep: &str = joiner_of(self.logic);
        let mut out = String::new();
        let mut i: usize = 0;
        while i < n
            invariant
                i <= n,
                n == self.conditions.len(),
                n > 0,
                sep@ == joiner(self.logic),
                all_columns_valid(self@.conditions.take(i as int)),
                out@ == joined(clauses(self@.conditions.take(i as int)), sep@),
            decreases n - i,
        {
            let ghost conds = self@.conditions;
            assert(conds[i as int] == self.conditions@[i as int]@);
            match condition_to_sql(&self.conditions[i]) {
                Ok(text) => {
                    if i > 0 {
                        out.append(sep);
                    }
                    out.append(text.as_str());
                    proof {
                        let before = conds.take(i as int);
                        let after = conds.take(i + 1);
                        assert(after.drop_last() =~= before);
                        assert(clauses(after).drop_last() =~= clauses(before));
                        assert(clauses(after).last() == clause(conds[i as int]));
                        assert forall|j: int| 0 <= j < after.len() implies valid_column(
                            #[trigger] after[j].column,
                        ) by {
                            if j < i {
                                assert(before[j] == after[j]);
                            }
                        }
                        if i == 0 {
                            assert(clauses(before).len() == 0);
                            assert(out@ =~= text@);
                        }
                    }
                },
                Err(e) => {
                    proof {
                        lemma_first_invalid_skips_valid(conds, i as int);
                        assert(conds.skip(i as int)[0] == conds[i as int]);
                    }
                    return Err(e);
                },
            }
            i += 1;
        }
        proof {
            let conds = self@.conditions;
            assert(conds.take(n as int) =~= conds);
            lemma_first_invalid_skips_valid(conds, n as int);
        }
        Ok(out)
    }
}

/// Reads `s` as the inside of a single-quoted literal: a pair of quotes
/// stands for one quote, any other character for itself, and a lone quote
/// ends the reading with nothing.
pub open spec fn unquoted(s: Seq<char>) -> Option<Seq<char>>
    decreases s.len(),
{
    if s.len() == 0 {
        Some(Seq::empty())
    } else if s[0] != '\'' {
        match unquoted(s.skip(1)) {
            Some(rest) => Some(seq![s[0]] + rest),
            None => None,
        }
    } else if s.len() >= 2 && s[1] == '\'' {
        match unquoted(s.skip(2)) {
            Some(rest) => Some(seq!['\''] + rest),
            None => None,
        }
    } else {
        None
    }
}

/// Whether no single quote of `s` stands alone: read from the left, each
/// quote is followed at once by a second one.
pub open spec fn quotes_paired(s: Seq<char>) -> bool {
    unquoted(s) is Some
}

/// Whether `s` holds no single quote.
pub open spec fn quote_free(s: Seq<char>) -> bool {
    forall|i: int| 0 <= i < s.len() ==> #[trigger] s[i] != '\''
}

/// Whether `c` can occur in a number written by the grammar of floating-point
/// literals: a digit, a sign, a dot or an ASCII letter.
pub open spec fn is_number_char(c: char) -> bool {
    ||| is_digit(c)
    ||| is_sign(c)
    ||| c == '.'
    ||| ('a' <= c && c <= 'z')
    ||| ('A' <= c && c <= 'Z')
}

/// Whether an operand cannot end the literal it stands in or start another
/// one: it is made of the characters of numbers only (an empty operand is),
/// or it starts and ends with a single quote and no quote between them
/// stands alone.
pub open spec fn is_contained(t: Seq<char>) -> bool {
    ||| forall|i: int| 0 <= i < t.len() ==> is_number_char(#[trigger] t[i])
    ||| (t.len() >= 2 && t[0] == '\'' && t.last() == '\'' && quotes_paired(
        t.subrange(1, t.len() - 1),
    ))
}

/// Doubling the quotes of a value can be undone, and gives the value back.
pub proof fn lemma_quote_escape_round_trip(value: Seq<char>)
    ensures
        unquoted(quote_escaped(value)) == Some(value),
    decreases value.len(),
{
    reveal_strlit("''");
    let e = quote_escaped(value);
    if value.len() > 0 {
        let rest = quote_escaped(value.skip(1));
        lemma_quote_escape_round_trip(value.skip(1));
        if value[0] == '\'' {
            assert(e =~= seq!['\'', '\''] + rest);
            assert(e.skip(2) =~= rest);
            assert(seq!['\''] + value.skip(1) =~= value);
        } else {
            assert(e =~= seq![value[0]] + rest);
            assert(e.skip(1) =~= rest);
            assert(seq![value[0]] + value.skip(1) =~= value);
        }
    }
}

/// A text without quotes has no lone quote.
pub proof fn lemma_quote_free_is_paired(s: Seq<char>)
    requires
        quote_free(s),
    ensures
        quotes_paired(s),
    decreases s.len(),
{
    if s.len() > 0 {
        assert forall|i: int| 0 <= i < s.skip(1).len() implies #[trigger] s.skip(1)[i] != '\'' by {
            assert(s.skip(1)[i] == s[i + 1]);
        }
        lemma_quote_free_is_paired(s.skip(1));
    }
}

/// Two texts without a lone quote, joined end to end, have none.
pub proof fn lemma_paired_concat(a: Seq<char>, b: Seq<char>)
    requires
        quotes_paired(a),
        quotes_paired(b),
    ensures
        quotes_paired(a + b),
    decreases a.len(),
{
    if a.len() == 0 {
        assert(a + b =~= b);
    } else if a[0] != '\'' {
        assert((a + b).skip(1) =~= a.skip(1) + b);
        lemma_paired_concat(a.skip(1), b);
    } else {
        assert((a + b).skip(2) =~= a.skip(2) + b);
        lemma_paired_concat(a.skip(2), b);
    }
}

/// Replacing a character that is no quote by a text without quotes makes no
/// quote stand alone.
pub proof fn lemma_replace_keeps_pairs(s: Seq<char>, target: char, with: Seq<char>)
    requires
        quotes_paired(s),
        target != '\'',
        quote_free(with),
    ensures
        quotes_paired(replace_char(s, target, with)),
    decreases s.len(),
{
    if s.len() > 0 {
        if s[0] != '\'' {
            let piece = replacement(s[0], target, with);
            assert(quote_free(piece));
            lemma_quote_free_is_paired(piece);
            lemma_replace_keeps_pairs(s.skip(1), target, with);
            lemma_paired_concat(piece, replace_char(s.skip(1), target, with));
        } else {
            let pair = seq!['\'', '\''];
            assert(s.skip(1).skip(1) =~= s.skip(2));
            assert(s.skip(1)[0] == '\'');
            lemma_replace_keeps_pairs(s.skip(2), target, with);
            let tail = replace_char(s.skip(2), target, with);
            assert(replace_char(s.skip(1), target, with) =~= seq!['\''] + tail);
            assert(replace_char(s, target, with) =~= pair + tail);
            assert((pair + tail).skip(2) =~= tail);
        }
    }
}

/// A value prepared for a `LIKE` pattern has no lone quote.
pub proof fn lemma_like_escaped_is_paired(value: Seq<char>)
    ensures
        quotes_paired(like_escaped(value)),
{
    reveal_strlit("\\%");
    reveal_strlit("\\_");
    lemma_quote_escape_round_trip(value);
    lemma_replace_keeps_pairs(quote_escaped(value), '%', "\\%"@);
    lemma_replace_keeps_pairs(replace_char(quote_escaped(value), '%', "\\%"@), '_', "\\_"@);
}

/// A valid column name holds neither a double nor a single quote.
pub proof fn lemma_valid_column_has_no_quote(name: Seq<char>)
    requires
        valid_column(name),
    ensures
        forall|i: int| 0 <= i < name.len() ==> #[trigger] name[i] != '"' && name[i] != '\'',
{
    assert forall|i: int| 0 <= i < name.len() implies #[trigger] name[i] != '"' && name[i]
        != '\'' by {
        assert(allowed_in_column(name[i]));
    }
}

proof fn lemma_mantissa_chars(s: Seq<char>)
    requires
        is_mantissa(s),
    ensures
        forall|i: int| 0 <= i < s.len() ==> is_number_char(#[trigger] s[i]),
{
    if s.len() > 0 && all_digits(s) {
    } else {
        let k = choose|k: int|
            0 <= k < s.len() && s.len() >= 2 && s[k] == '.' && all_digits(#[trigger] s.take(k))
                && all_digits(s.skip(k + 1));
        assert forall|i: int| 0 <= i < s.len() implies is_number_char(#[trigger] s[i]) by {
            if i < k {
                assert(s.take(k)[i] == s[i]);
            } else if i > k {
                assert(s.skip(k + 1)[i - (k + 1)] == s[i]);
            }
        }
    }
}

proof fn lemma_exponent_chars(s: Seq<char>)
    requires
        is_exponent(s),
    ensures
        forall|i: int| 0 <= i < s.len() ==> is_number_char(#[trigger] s[i]),
{
    let t = s.skip(1);
    let u = unsigned_part(t);
    assert forall|i: int| 0 <= i < s.len() implies is_number_char(#[trigger] s[i]) by {
        if i >= 1 {
            assert(t[i - 1] == s[i]);
            if t.len() > 0 && is_sign(t[0]) {
                if i >= 2 {
                    assert(u[i - 2] == s[i]);
                }
            } else {
                assert(u[i - 1] == s[i]);
            }
        }
    }
}

/// A text that reads as a number is made of digits, signs, dots and ASCII
/// letters only.
pub proof fn lemma_number_chars(value: Seq<char>)
    requires
        is_float_literal(value),
    ensures
        forall|i: int| 0 <= i < value.len() ==> is_number_char(#[trigger] value[i]),
{
    let t = unsigned_part(value);
    let shift: int = if value.len() > 0 && is_sign(value[0]) {
        1
    } else {
        0
    };
    assert forall|i: int| 0 <= i < t.len() implies is_number_char(#[trigger] t[i]) by {
        if is_special(t) {
            if is_infinity(t) {
                assert(t.take(3)[0] == t[0]);
                assert(t.take(3)[1] == t[1]);
                assert(t.take(3)[2] == t[2]);
            }
        } else if is_mantissa(t) {
            lemma_mantissa_chars(t);
        } else {
            let k = choose|k: int|
                0 < k < t.len() && is_mantissa(#[trigger] t.take(k)) && is_exponent(t.skip(k));
            lemma_mantissa_chars(t.take(k));
            lemma_exponent_chars(t.skip(k));
            if i < k {
                assert(t.take(k)[i] == t[i]);
            } else {
                assert(t.skip(k)[i - k] == t[i]);
            }
        }
    }
    assert forall|i: int| 0 <= i < value.len() implies is_number_char(#[trigger] value[i]) by {
        if i >= shift {
            assert(t[i - shift] == value[i]);
        }
    }
}

proof fn lemma_literal_is_contained(open: Seq<char>, body: Seq<char>, close: Seq<char>)
    requires
        open.len() >= 1,
        open[0] == '\'',
        quote_free(open.skip(1)),
        close.len() >= 1,
        close.last() == '\'',
        quote_free(close.drop_last()),
        quotes_paired(body),
    ensures
        is_contained(open + body + close),
{
    let t = open + body + close;
    let inner = t.subrange(1, t.len() - 1);
    assert(inner =~= open.skip(1) + body + close.drop_last());
    lemma_quote_free_is_paired(open.skip(1));
    lemma_quote_free_is_paired(close.drop_last());
    lemma_paired_concat(open.skip(1), body);
    lemma_paired_concat(open.skip(1) + body, close.drop_last());
}

/// Whatever the operator and the value, the operand is contained.
pub proof fn lemma_operand_is_contained(op: FilterOperator, value: Seq<char>)
    ensures
        is_contained(operand(op, value)),
{
    reveal_strlit("'");
    reveal_strlit("'%");
    reveal_strlit("%'");
    let t = operand(op, value);
    match op {
        FilterOperator::IsNull | FilterOperator::IsNotNull => {},
        FilterOperator::Contains | FilterOperator::NotContains => {
            lemma_like_escaped_is_paired(value);
            lemma_literal_is_contained("'%"@, like_escaped(value), "%'"@);
        },
        FilterOperator::StartsWith => {
            lemma_like_escaped_is_paired(value);
            lemma_literal_is_contained("'"@, like_escaped(value), "%'"@);
        },
        FilterOperator::EndsWith => {
            lemma_like_escaped_is_paired(value);
            lemma_literal_is_contained("'%"@, like_escaped(value), "'"@);
        },
        _ => {
            assert(t == comparison_value(value));
            if is_float_literal(value) {
                lemma_number_chars(value);
            } else {
                lemma_quote_escape_round_trip(value);
                lemma_literal_is_contained("'"@, quote_escaped(value), "'"@);
            }
        },
    }
}

/// Where a reader of SQL text stands after some characters.
pub enum Lexing {
    /// Outside of any quotes.
    Code,
    /// Inside an identifier between double quotes.
    Identifier,
    /// Inside a literal between single quotes.
    Literal,
    /// Behind a single quote read inside a literal: the literal has ended,
    /// unless the next character is a second single quote.
    AfterQuote,
}

/// Where the reader stands after one more character.
pub open spec fn lex_step(state: Lexing, c: char) -> Lexing {
    match state {
        Lexing::Code => if c == '"' {
            Lexing::Identifier
        } else if c == '\'' {
            Lexing::Literal
        } else {
            Lexing::Code
        },
        Lexing::Identifier => if c == '"' {
            Lexing::Code
        } else {
            Lexing::Identifier
        },
        Lexing::Literal => if c == '\'' {
            Lexing::AfterQuote
        } else {
            Lexing::Literal
        },
        Lexing::AfterQuote => if c == '\'' {
            Lexing::Literal
        } else if c == '"' {
            Lexing::Identifier
        } else {
            Lexing::Code
        },
    }
}

/// Where the reader stands after the text `s`, having started in `state`.
pub open spec fn lex(state: Lexing, s: Seq<char>) -> Lexing
    decreases s.len(),
{
    if s.len() == 0 {
        state
    } else {
        lex(lex_step(state, s[0]), s.skip(1))
    }
}

/// Whether the reader stands outside of every identifier and literal.
pub open spec fn is_outside(state: Lexing) -> bool {
    state is Code || state is AfterQuote
}

/// Whether `text`, read from outside, ends outside: each identifier and
/// each literal that it opens, it also closes.
pub open spec fn is_closed(text: Seq<char>) -> bool {
    is_outside(lex(Lexing::Code, text))
}

/// Whether `s` holds no quote of either kind.
pub open spec fn is_plain(s: Seq<char>) -> bool {
    forall|i: int| 0 <= i < s.len() ==> #[trigger] s[i] != '\'' && s[i] != '"'
}

/// Whether `part`, read from outside, is read to its end outside.
pub open spec fn closes(part: Seq<char>) -> bool {
    forall|state: Lexing| is_outside(state) ==> is_outside(#[trigger] lex(state, part))
}

/// Reading two texts one after the other is reading them joined.
pub proof fn lemma_lex_concat(state: Lexing, a: Seq<char>, b: Seq<char>)
    ensures
        lex(state, a + b) == lex(lex(state, a), b),
    decreases a.len(),
{
    if a.len() == 0 {
        assert(a + b =~= b);
    } else {
        assert((a + b).skip(1) =~= a.skip(1) + b);
        lemma_lex_concat(lex_step(state, a[0]), a.skip(1), b);
    }
}

/// Text without quotes leaves the reader outside, and, if there is any of
/// it, outside of a literal that has just ended too.
pub proof fn lemma_lex_plain(state: Lexing, s: Seq<char>)
    requires
        is_plain(s),
        is_outside(state),
    ensures
        is_outside(lex(state, s)),
        s.len() > 0 ==> lex(state, s) is Code,
        state is Code ==> lex(state, s) is Code,
    decreases s.len(),
{
    if s.len() > 0 {
        assert forall|i: int| 0 <= i < s.skip(1).len() implies #[trigger] s.skip(1)[i] != '\''
            && s.skip(1)[i] != '"' by {
            assert(s.skip(1)[i] == s[i + 1]);
        }
        lemma_lex_plain(Lexing::Code, s.skip(1));
    }
}

/// Inside an identifier, text without double quotes stays inside.
pub proof fn lemma_lex_identifier(name: Seq<char>)
    requires
        forall|i: int| 0 <= i < name.len() ==> #[trigger] name[i] != '"',
    ensures
        lex(Lexing::Identifier, name) is Identifier,
    decreases name.len(),
{
    if name.len() > 0 {
        assert forall|i: int| 0 <= i < name.skip(1).len() implies #[trigger] name.skip(1)[i]
            != '"' by {
            assert(name.skip(1)[i] == name[i + 1]);
        }
        lemma_lex_identifier(name.skip(1));
    }
}

/// Inside a literal, text without a lone quote stays inside.
pub proof fn lemma_lex_literal(body: Seq<char>)
    requires
        quotes_paired(body),
    ensures
        lex(Lexing::Literal, body) is Literal,
    decreases body.len(),
{
    if body.len() > 0 {
        if body[0] != '\'' {
            assert(quotes_paired(body.skip(1)));
            lemma_lex_literal(body.skip(1));
        } else {
            assert(body.len() >= 2 && body[1] == '\'' && quotes_paired(body.skip(2)));
            let rest = body.skip(1);
            assert(rest[0] == body[1]);
            assert(rest.skip(1) =~= body.skip(2));
            assert(lex(Lexing::Literal, body) == lex(Lexing::AfterQuote, rest));
            assert(lex(Lexing::AfterQuote, rest) == lex(Lexing::Literal, rest.skip(1)));
            lemma_lex_literal(body.skip(2));
        }
    }
}

/// The words of an operator hold no quote.
pub proof fn lemma_keyword_is_plain(op: FilterOperator)
    ensures
        is_plain(operator_keyword(op)),
        operator_keyword(op).len() > 0,
{
    reveal_strlit(" = ");
    reveal_strlit(" != ");
    reveal_strlit(" > ");
    reveal_strlit(" >= ");
    reveal_strlit(" < ");
    reveal_strlit(" <= ");
    reveal_strlit(" LIKE ");
    reveal_strlit(" NOT LIKE ");
    reveal_strlit(" IS NULL");
    reveal_strlit(" IS NOT NULL");
}

/// The word that joins the clauses holds no quote.
pub proof fn lemma_joiner_is_plain(logic: FilterLogic)
    ensures
        is_plain(joiner(logic)),
        joiner(logic).len() > 0,
{
    reveal_strlit(" AND ");
    reveal_strlit(" OR ");
}

/// A contained operand, read from outside of any quotes, is read to its end
/// outside.
pub proof fn lemma_contained_is_closed(t: Seq<char>)
    requires
        is_contained(t),
    ensures
        is_outside(lex(Lexing::Code, t)),
{
    if forall|i: int| 0 <= i < t.len() ==> is_number_char(#[trigger] t[i]) {
        assert forall|i: int| 0 <= i < t.len() implies #[trigger] t[i] != '\'' && t[i] != '"' by {
            assert(is_number_char(t[i]));
        }
        lemma_lex_plain(Lexing::Code, t);
    } else {
        let open = t.take(1);
        let body = t.subrange(1, t.len() - 1);
        let close = t.skip(t.len() - 1);
        assert(t =~= open + body + close);
        lemma_lex_concat(Lexing::Code, open + body, close);
        lemma_lex_concat(Lexing::Code, open, body);
        assert(open.skip(1) =~= Seq::<char>::empty());
        assert(lex(Lexing::Code, open) == lex(lex_step(Lexing::Code, open[0]), open.skip(1)));
        assert(lex(Lexing::Code, open) is Literal);
        lemma_lex_literal(body);
        assert(close.skip(1) =~= Seq::<char>::empty());
        assert(close[0] == '\'');
        assert(lex(Lexing::Literal, close) == lex(
            lex_step(Lexing::Literal, close[0]),
            close.skip(1),
        ));
    }
}

/// The clause of a condition with a valid column, read from outside, is
/// read to its end outside.
pub proof fn lemma_clause_closes(c: ConditionView)
    requires
        valid_column(c.column),
    ensures
        closes(clause(c)),
{
    reveal_strlit("\"");
    lemma_valid_column_has_no_quote(c.column);
    lemma_keyword_is_plain(c.operator);
    lemma_operand_is_contained(c.operator, c.value);
    let quote = "\""@;
    let keyword = operator_keyword(c.operator);
    let rhs = operand(c.operator, c.value);
    assert forall|state: Lexing| is_outside(state) implies is_outside(
        #[trigger] lex(state, clause(c)),
    ) by {
        assert(clause(c) == ((quote + c.column + quote) + keyword) + rhs);
        lemma_lex_concat(state, (quote + c.column + quote) + keyword, rhs);
        lemma_lex_concat(state, quote + c.column + quote, keyword);
        lemma_lex_concat(state, quote + c.column, quote);
        lemma_lex_concat(state, quote, c.column);
        assert(quote.skip(1) =~= Seq::<char>::empty());
        assert(lex(state, quote) == lex(lex_step(state, quote[0]), quote.skip(1)));
        assert(lex(state, quote) is Identifier);
        lemma_lex_identifier(c.column);
        assert(lex(Lexing::Identifier, quote) == lex(
            lex_step(Lexing::Identifier, quote[0]),
            quote.skip(1),
        ));
        assert(lex(state, quote + c.column + quote) is Code);
        lemma_lex_plain(Lexing::Code, keyword);
        lemma_contained_is_closed(rhs);
    }
}

/// Parts that are each read to their end outside, joined by a word without
/// quotes, are read to their end outside.
pub proof fn lemma_joined_is_closed(parts: Seq<Seq<char>>, sep: Seq<char>)
    requires
        parts.len() >= 1,
        forall|i: int| 0 <= i < parts.len() ==> closes(#[trigger] parts[i]),
        is_plain(sep),
    ensures
        is_closed(joined(parts, sep)),
    decreases parts.len(),
{
    if parts.len() == 1 {
        assert(closes(parts[0]));
    } else {
        let front = parts.drop_last();
        assert forall|i: int| 0 <= i < front.len() implies closes(#[trigger] front[i]) by {
            assert(front[i] == parts[i]);
        }
        lemma_joined_is_closed(front, sep);
        let before = joined(front, sep);
        lemma_lex_concat(Lexing::Code, before + sep, parts.last());
        lemma_lex_concat(Lexing::Code, before, sep);
        lemma_lex_plain(lex(Lexing::Code, before), sep);
        assert(closes(parts[parts.len() - 1]));
    }
}

/// Compiling cannot be made to fail by the values of a filter, and what it
/// gives cannot be broken out of.
///
/// For every filter with at least one condition whose column names all pass
/// the allow-list, whatever its operators and values: the compilation
/// succeeds; its text is the clauses joined; each clause is the column
/// between double quotes, the operator's words and the operand; no column
/// holds a quote of either kind; each operand is contained, that is, made
/// of the characters of numbers or closed between single quotes with no
/// lone quote inside; and the text as a whole is closed: a reader of SQL
/// that starts outside of any quotes ends outside of them, whatever the
/// values are.
pub proof fn lemma_compiled_filter_is_safe(spec: FilterSpecView)
    requires
        spec.conditions.len() >= 1,
        all_columns_valid(spec.conditions),
    ensures
        where_text(spec) == Ok::<Seq<char>, RustoraErrorView>(
            joined(clauses(spec.conditions), joiner(spec.logic)),
        ),
        is_closed(joined(clauses(spec.conditions), joiner(spec.logic))),
        forall|i: int|
            #![trigger spec.conditions[i]]
            0 <= i < spec.conditions.len() ==> {
                let c = spec.conditions[i];
                &&& clauses(spec.conditions)[i] == quoted_identifier(c.column) + operator_keyword(
                    c.operator,
                ) + operand(c.operator, c.value)
                &&& forall|j: int|
                    0 <= j < c.column.len() ==> #[trigger] c.column[j] != '"' && c.column[j]
                        != '\''
                &&& is_contained(operand(c.operator, c.value))
            },
{
    assert(spec.conditions.take(spec.conditions.len() as int) =~= spec.conditions);
    lemma_first_invalid_skips_valid(spec.conditions, spec.conditions.len() as int);
    assert forall|i: int|
        #![trigger spec.conditions[i]]
        0 <= i < spec.conditions.len() implies {
        let c = spec.conditions[i];
        &&& clauses(spec.conditions)[i] == quoted_identifier(c.column) + operator_keyword(
            c.operator,
        ) + operand(c.operator, c.value)
        &&& forall|j: int|
            0 <= j < c.column.len() ==> #[trigger] c.column[j] != '"' && c.column[j] != '\''
        &&& is_contained(operand(c.operator, c.value))
    } by {
        let c = spec.conditions[i];
        lemma_valid_column_has_no_quote(c.column);
        lemma_operand_is_contained(c.operator, c.value);
    }
    assert forall|i: int| 0 <= i < clauses(spec.conditions).len() implies closes(
        #[trigger] clauses(spec.conditions)[i],
    ) by {
        lemma_clause_closes(spec.conditions[i]);
    }
    lemma_joiner_is_plain(spec.logic);
    lemma_joined_is_closed(clauses(spec.conditions), joiner(spec.logic));
}

/// A test for equality with a value that does not read as a number compares
/// with that very value.
///
/// The predicate is the column between double quotes, ` = `, and the value
/// in one literal with each of its quotes doubled; read back as the inside
/// of a literal, what stands between the quotes is the value, whatever
/// characters it holds.
pub proof fn lemma_equals_compares_the_value(
    column: Seq<char>,
    value: Seq<char>,
    logic: FilterLogic,
)
    requires
        valid_column(column),
        !is_float_literal(value),
    ensures
        where_text(
            FilterSpecView {
                conditions: seq![
                    ConditionView { column, operator: FilterOperator::Equals, value },
                ],
                logic,
            },
        ) == Ok::<Seq<char>, RustoraErrorView>(
            quoted_identifier(column) + " = "@ + ("'"@ + quote_escaped(value) + "'"@),
        ),
        unquoted(quote_escaped(value)) == Some(value),
{
    let c = ConditionView { column, operator: FilterOperator::Equals, value };
    let spec = FilterSpecView { conditions: seq![c], logic };
    assert(spec.conditions[0] == c);
    lemma_compiled_filter_is_safe(spec);
    assert(clauses(spec.conditions)[0] == clause(c));
    assert(joined(clauses(spec.conditions), joiner(logic)) == clause(c));
    lemma_quote_escape_round_trip(value);
}

} // verus!
