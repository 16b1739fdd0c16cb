//! Criteria trees: constraints joined by `AND`/`OR` and grouped by parentheses.

use vstd::prelude::*;

use crate::criteria::satisfies;
use crate::criteria::Criteria as Constraint;
use crate::json_value::{field_value, fields_view, Json, JsonView};
use crate::text::{ascii_upper, chars_eq_str, chars_of, push_str, string_of, upper_chars};

verus! {

/// Joins two criteria.
#[derive(Debug, Clone, Copy, PartialEq, Eq, Structural)]
pub enum Operator {
    /// Both hold.
    And,
    /// Either holds.
    Or,
}

impl Default for Operator {
    fn default() -> (op: Self)
        ensures
            op == Operator::And,
    {
        Operator::And
    }
}

/// The operator a word names, case-insensitively: `AND` or `OR`.
pub open spec fn operator_of_word(word: Seq<char>) -> Option<Operator> {
    if ascii_upper(word) == "AND"@ {
        Some(Operator::And)
    } else if ascii_upper(word) == "OR"@ {
        Some(Operator::Or)
    } else {
        None
    }
}

/// Message of a word that names no operator.
pub open spec fn invalid_operator_message(word: Seq<char>) -> Seq<char> {
    "Invalid operator: '"@ + word + "'"@
}

impl Operator {
    /// The operator named by `value` in any letter case, or an error that quotes
    /// it. (Comparing the uppercased word with `AND`/`OR` only depends on ASCII
    /// letters: no other character's uppercase mapping consists of these letters.)
    pub fn try_from(value: &str) -> (r: Result<Operator, String>)
        ensures
            match operator_of_word(value@) {
                Some(op) => r == Ok::<Operator, String>(op),
                None => r matches Err(msg) && msg@ == invalid_operator_message(value@),
            },
    {
        let upper = upper_chars(&chars_of(value));
        if chars_eq_str(&upper, "AND") {
            Ok(Operator::And)
        } else if chars_eq_str(&upper, "OR") {
            Ok(Operator::Or)
        } else {
            let mut msg = chars_of("Invalid operator: '");
            push_str(&mut msg, value);
            push_str(&mut msg, "'");
            Err(string_of(&msg))
        }
    }
}

/// A criteria tree.
#[derive(Debug)]
pub enum Criteria {
    /// One constraint.
    Final(Constraint),
    /// Two criteria joined by an operator.
    LeftAndRight(Box<Criteria>, Operator, Box<Criteria>),
    /// A criteria in parentheses.
    Parentheses(Box<Criteria>),
}

/// A criteria tree as plain values.
pub enum CriteriaTree {
    /// A constraint: field, comparer and value.
    Constraint(Seq<char>, crate::criteria::Comparer, JsonView),
    /// Two trees joined by an operator.
    Joined(Box<CriteriaTree>, Operator, Box<CriteriaTree>),
    /// A tree in parentheses.
    Grouped(Box<CriteriaTree>),
}

/// The plain value of a criteria tree.
pub open spec fn tree_of(c: Criteria) -> CriteriaTree
    decreases c,
{
    match c {
        Criteria::Final(k) => CriteriaTree::Constraint(k.field@, k.comparer, k.value@),
        Criteria::LeftAndRight(a, op, b) => CriteriaTree::Joined(
            Box::new(tree_of(*a)),
            op,
            Box::new(tree_of(*b)),
        ),
        Criteria::Parentheses(inner) => CriteriaTree::Grouped(Box::new(tree_of(*inner))),
    }
}

impl View for Criteria {
    type V = CriteriaTree;

    open spec fn view(&self) -> CriteriaTree {
        tree_of(*self)
    }
}

/// Whether an object's fields satisfy a criteria tree: a constraint holds of
/// the field it names (an object without the field fails it); `AND` needs
/// both sides, `OR` either.
pub open spec fn tree_holds(t: CriteriaTree, item: Seq<(Seq<char>, JsonView)>) -> bool
    decreases t,
{
    match t {
        CriteriaTree::Constraint(field, comparer, value) => match field_value(item, field) {
            Some(v) => satisfies(comparer, value, v),
            None => false,
        },
        CriteriaTree::Joined(a, op, b) => match op {
            Operator::And => tree_holds(*a, item) && tree_holds(*b, item),
            Operator::Or => tree_holds(*a, item) || tree_holds(*b, item),
        },
        CriteriaTree::Grouped(inner) => tree_holds(*inner, item),
    }
}

impl Criteria {
    /// The criteria in a box.
    pub fn into_boxed(self) -> (b: Box<Criteria>)
        ensures
            *b == self,
    {
        Box::new(self)
    }

    /// Whether an object's fields satisfy the criteria.
    pub fn compare_item(&self, item: &Vec<(String, Json)>) -> (r: bool)
        ensures
            r == tree_holds(self@, fields_view(item@)),
        decreases self,
    {
        match self {
            Criteria::Final(constraint) => constraint.compare_item(item),
            Criteria::LeftAndRight(a, op, b) => match op {
                Operator::And => a.compare_item(item) && b.compare_item(item),
                Operator::Or => a.compare_item(item) || b.compare_item(item),
            },
            Criteria::Parentheses(inner) => inner.compare_item(item),
        }
    }
}

} // verus!
