//! The names of derived datasets. A sorted dataset is named by its source
//! alone; every other result gets a number from the counter of the session,
//! so that no two results share a name.

use crate::paths::stem_text;
use crate::text::{
    decimal, lemma_decimal_injective, lemma_decimal_shape, lemma_same_prefix, push_decimal,
};
use vstd::prelude::*;

verus! {

/// The name of what sorting `name` gives.
pub open spec fn sorted_name(name: Seq<char>) -> Seq<char> {
    name + "_sorted"@
}

/// The name of what filtering the lazy graph `name` gives.
pub open spec fn filtered_name(name: Seq<char>) -> Seq<char> {
    name + "_filtered"@
}

/// A name made of a source name, a tag and a number.
pub open spec fn numbered_name(name: Seq<char>, tag: Seq<char>, n: nat) -> Seq<char> {
    name + tag + decimal(n)
}

/// The name of the result of the `n`-th statement.
pub open spec fn sql_result_name(n: nat) -> Seq<char> {
    "sql_result_"@ + decimal(n)
}

/// The name given to a file that is imported or scanned without one.
pub open spec fn generated_name(path: Seq<char>, n: nat) -> Seq<char> {
    stem_text(path) + "_"@ + decimal(n)
}

/// The name given to a file with the stem `stem` that is imported or
/// scanned without a name, as the `n`-th name of the session.
pub fn generated_for(stem: &str, n: u64) -> (r: String)
    ensures
        r@ == stem@ + "_"@ + decimal(n as nat),
{
    let mut out = String::from_str(stem);
    out.append("_");
    push_decimal(&mut out, n);
    out
}

/// The name of the result of the `n`-th statement.
pub fn sql_result_for(n: u64) -> (r: String)
    ensures
        r@ == sql_result_name(n as nat),
{
    let mut out = String::from_str("sql_result_");
    push_decimal(&mut out, n);
    out
}

/// The name made of the source name `name`, `tag` and the number `n`.
pub fn numbered(name: &str, tag: &str, n: u64) -> (r: String)
    ensures
        r@ == numbered_name(name@, tag@, n as nat),
{
    let mut out = String::from_str(name);
    out.append(tag);
    push_decimal(&mut out, n);
    out
}

pub(crate) fn suffixed(name: &str, suffix: &str) -> (r: String)
    ensures
        r@ == name@ + suffix@,
{
    let mut out = String::from_str(name);
    out.append(suffix);
    out
}

/// Two names made of the same source and tag differ where their numbers do.
pub proof fn lemma_numbered_names_differ(name: Seq<char>, tag: Seq<char>, a: nat, b: nat)
    requires
        a != b,
    ensures
        numbered_name(name, tag, a) != numbered_name(name, tag, b),
{
    if numbered_name(name, tag, a) == numbered_name(name, tag, b) {
        lemma_same_prefix(name + tag, decimal(a), decimal(b));
        lemma_decimal_injective(a, b);
    }
}

/// Two names generated for the same file differ where their numbers do.
pub proof fn lemma_generated_names_differ(path: Seq<char>, a: nat, b: nat)
    requires
        a != b,
    ensures
        generated_name(path, a) != generated_name(path, b),
{
    if generated_name(path, a) == generated_name(path, b) {
        lemma_same_prefix(stem_text(path) + "_"@, decimal(a), decimal(b));
        lemma_decimal_injective(a, b);
    }
}

/// The results of two statements are named differently where their numbers
/// differ.
pub proof fn lemma_sql_result_names_differ(a: nat, b: nat)
    requires
        a != b,
    ensures
        sql_result_name(a) != sql_result_name(b),
{
    if sql_result_name(a) == sql_result_name(b) {
        lemma_same_prefix("sql_result_"@, decimal(a), decimal(b));
        lemma_decimal_injective(a, b);
    }
}

/// What a transformation gives never goes by the name of its source: the
/// source stays what it was.
pub proof fn lemma_derived_names_are_new(name: Seq<char>, tag: Seq<char>, n: nat)
    ensures
        sorted_name(name) != name,
        filtered_name(name) != name,
        numbered_name(name, tag, n) != name,
{
    reveal_strlit("_sorted");
    reveal_strlit("_filtered");
    lemma_decimal_shape(n);
    assert(sorted_name(name).len() == name.len() + 7);
    assert(filtered_name(name).len() == name.len() + 9);
    assert(numbered_name(name, tag, n).len() == name.len() + tag.len() + decimal(n).len());
}

} // verus!
