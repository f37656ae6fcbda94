//! Validation rules and their combinator builder.
//!
//! A rule pairs a declarative predicate over a raw field value with the
//! message reported when the predicate fails. A field's validator is an
//! ordered sequence of rules, evaluated in attachment order and stopping
//! at the first failure (first-failure semantics).

use vstd::prelude::*;

use crate::model::FieldValue;
use crate::text::dec_digits;
use crate::text::u32_to_string;

verus! {

/// A declarative check over a raw field value. A predicate about text
/// holds trivially on a numeric value and vice versa; descriptors attach
/// predicates matching their attribute's raw type.
#[derive(Clone, PartialEq, Eq, Debug)]
pub enum Predicate {
    /// The extracted text is non-empty (the `required` combinator).
    NonEmpty,
    /// The extracted text has at least `n` characters.
    MinLen { n: u32 },
    /// The extracted number lies in the inclusive range `lo ..= hi`.
    Bound { lo: u32, hi: u32 },
}

/// One validation rule: a predicate plus the message reported on failure.
#[derive(Clone, PartialEq, Eq, Debug)]
pub struct Rule {
    pub pred: Predicate,
    pub message: String,
}

/// Whether a predicate holds of a raw value.
pub open spec fn spec_pred_holds(p: Predicate, v: FieldValue) -> bool {
    match p {
        Predicate::NonEmpty => v matches FieldValue::Text(s) ==> s@.len() > 0,
        Predicate::MinLen { n } => v matches FieldValue::Text(s) ==> s@.len() >= n,
        Predicate::Bound { lo, hi } => v matches FieldValue::Num(x) ==> lo <= x <= hi,
    }
}

/// The message of the first failing rule, in attachment order, if any.
pub open spec fn spec_first_failure(rules: Seq<Rule>, v: FieldValue) -> Option<Seq<char>>
    decreases rules.len(),
{
    if rules.len() == 0 {
        None
    } else if !spec_pred_holds(rules[0].pred, v) {
        Some(rules[0].message@)
    } else {
        spec_first_failure(rules.drop_first(), v)
    }
}

/// Evaluates one rule against a raw value: the message if it fails.
pub fn eval_rule(rule: &Rule, v: &FieldValue) -> (r: Option<String>)
    ensures
        match r {
            Some(m) => !spec_pred_holds(rule.pred, *v) && m@ == rule.message@,
            None => spec_pred_holds(rule.pred, *v),
        },
{
    let holds = match (&rule.pred, v) {
        (Predicate::NonEmpty, FieldValue::Text(s)) => s.as_str().unicode_len() > 0,
        (Predicate::MinLen { n }, FieldValue::Text(s)) => s.as_str().unicode_len() >= *n as usize,
        (Predicate::Bound { lo, hi }, FieldValue::Num(x)) => *lo <= *x && *x <= *hi,
        _ => true,
    };
    if holds {
        None
    } else {
        Some(rule.message.clone())
    }
}

/// Evaluates rules in attachment order, returning the first failure's
/// message, if any.
pub fn eval_rules(rules: &Vec<Rule>, v: &FieldValue) -> (r: Option<String>)
    ensures
        match r {
            Some(m) => spec_first_failure(rules@, *v) matches Some(sm) && sm == m@,
            None => spec_first_failure(rules@, *v) is None,
        },
{
    let n = rules.len();
    proof {
        assert(rules@.subrange(0, n as int) =~= rules@);
    }
    let mut i: usize = 0;
    while i < n
        invariant
            0 <= i <= n,
            n == rules@.len(),
            spec_first_failure(rules@, *v) == spec_first_failure(rules@.subrange(i as int, n as int), *v),
        decreases n - i,
    {
        proof {
            let rest = rules@.subrange(i as int, n as int);
            assert(rest[0] == rules@[i as int]);
            assert(rest.drop_first() =~= rules@.subrange(i as int + 1, n as int));
        }
        if let Some(m) = eval_rule(&rules[i], v) {
            return Some(m);
        }
        i = i + 1;
    }
    proof {
        assert(rules@.subrange(n as int, n as int) =~= Seq::<Rule>::empty());
    }
    None
}

/// The message the `required` combinator configures for a field label.
pub open spec fn required_message(label: Seq<char>) -> Seq<char> {
    label + " is required"@
}

/// The message the `min_len` combinator configures for a field label.
pub open spec fn min_len_message(label: Seq<char>, n: nat) -> Seq<char> {
    label + " must be at least "@ + dec_digits(n) + " characters"@
}

/// The message the `bound` combinator configures for a field label.
pub open spec fn bound_message(label: Seq<char>, lo: nat, hi: nat) -> Seq<char> {
    label + " must be between "@ + dec_digits(lo) + " and "@ + dec_digits(hi)
}

/// Builds a field's validator from declarative rules. Rules apply in the
/// order they are attached; messages name the configured field label.
pub struct ValidationBuilder {
    pub label: String,
    pub rules: Vec<Rule>,
}

impl ValidationBuilder {
    /// Starts a validator for the field with the given label.
    pub fn for_field(label: &str) -> (r: Self)
        ensures
            r.label@ == label@,
            r.rules@.len() == 0,
    {
        ValidationBuilder { label: String::from_str(label), rules: Vec::new() }
    }

    /// Renames the field label used in subsequent rule messages.
    pub fn named(self, label: &str) -> (r: Self)
        ensures
            r.label@ == label@,
            r.rules@ == self.rules@,
    {
        ValidationBuilder { label: String::from_str(label), rules: self.rules }
    }

    /// Attaches the rule that the extracted text must be non-empty.
    pub fn required(self) -> (r: Self)
        ensures
            r.label@ == self.label@,
            r.rules@.len() == self.rules@.len() + 1,
            r.rules@.subrange(0, self.rules@.len() as int) == self.rules@,
            r.rules@.last().pred == Predicate::NonEmpty,
            r.rules@.last().message@ == required_message(self.label@),
    {
        let msg = self.label.clone().concat(" is required");
        let mut rules = self.rules;
        rules.push(Rule { pred: Predicate::NonEmpty, message: msg });
        proof {
            assert(rules@.subrange(0, rules@.len() - 1) =~= rules@.drop_last());
        }
        ValidationBuilder { label: self.label, rules }
    }

    /// Attaches the rule that the extracted text must have at least `n`
    /// characters.
    pub fn min_len(self, n: u32) -> (r: Self)
        ensures
            r.label@ == self.label@,
            r.rules@.len() == self.rules@.len() + 1,
            r.rules@.subrange(0, self.rules@.len() as int) == self.rules@,
            r.rules@.last().pred == (Predicate::MinLen { n }),
            r.rules@.last().message@ == min_len_message(self.label@, n as nat),
    {
        let msg = self.label.clone().concat(" must be at least ").concat(
            u32_to_string(n).as_str(),
        ).concat(" characters");
        let mut rules = self.rules;
        rules.push(Rule { pred: Predicate::MinLen { n }, message: msg });
        proof {
            assert(rules@.subrange(0, rules@.len() - 1) =~= rules@.drop_last());
        }
        ValidationBuilder { label: self.label, rules }
    }

    /// Attaches the rule that the extracted number must lie in `lo ..= hi`.
    pub fn bound(self, lo: u32, hi: u32) -> (r: Self)
        ensures
            r.label@ == self.label@,
            r.rules@.len() == self.rules@.len() + 1,
            r.rules@.subrange(0, self.rules@.len() as int) == self.rules@,
            r.rules@.last().pred == (Predicate::Bound { lo, hi }),
            r.rules@.last().message@ == bound_message(self.label@, lo as nat, hi as nat),
    {
        let msg = self.label.clone().concat(" must be between ").concat(
            u32_to_string(lo).as_str(),
        ).concat(" and ").concat(u32_to_string(hi).as_str());
        let mut rules = self.rules;
        rules.push(Rule { pred: Predicate::Bound { lo, hi }, message: msg });
        proof {
            assert(rules@.subrange(0, rules@.len() - 1) =~= rules@.drop_last());
        }
        ValidationBuilder { label: self.label, rules }
    }

    /// Finishes the validator: the attached rules in attachment order.
    pub fn build(self) -> (r: Vec<Rule>)
        ensures
            r@ == self.rules@,
    {
        self.rules
    }
}

/// The `required` rule fails on exactly the empty extracted text, and
/// its configured message starts with the field label.
pub proof fn lemma_required_fails_iff_empty(v: FieldValue, label: Seq<char>)
    ensures
        v matches FieldValue::Text(s) ==> (!spec_pred_holds(Predicate::NonEmpty, v) <==> s@.len()
            == 0),
        required_message(label).subrange(0, label.len() as int) == label,
{
    assert(required_message(label).subrange(0, label.len() as int) =~= label);
}

/// The `min_len` rule fails on exactly the extracted texts shorter than
/// `n`, and its configured message starts with the field label.
pub proof fn lemma_min_len_fails_iff_short(v: FieldValue, label: Seq<char>, n: u32)
    ensures
        v matches FieldValue::Text(s) ==> (!spec_pred_holds(Predicate::MinLen { n }, v) <==> s@.len()
            < n),
        min_len_message(label, n as nat).subrange(0, label.len() as int) == label,
{
    assert(min_len_message(label, n as nat).subrange(0, label.len() as int) =~= label);
}

} // verus!
