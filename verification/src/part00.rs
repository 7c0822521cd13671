//! Algebraic data types: a number or nothing, and the minimum of a vector.

use crate::decimal::{decimal, push_decimal};
use crate::minimum::{
    is_minimum, lemma_minimum_of_is, lemma_minimum_push, lemma_minimum_singleton, minimum_of,
    smaller,
};
use vstd::prelude::*;
use vstd::string::StringExecFns;

verus! {

/// Either a number, or nothing at all.
#[derive(Clone, Copy, Debug, PartialEq, Eq, Structural)]
pub enum NumberOrNothing {
    Number(i32),
    Nothing,
}

impl View for NumberOrNothing {
    type V = Option<i32>;

    open spec fn view(&self) -> Option<i32> {
        match *self {
            NumberOrNothing::Number(n) => Some(n),
            NumberOrNothing::Nothing => None,
        }
    }
}

/// The minimum of `vector`, or `Nothing` where it is empty.
pub fn vector_minimum(vector: Vec<i32>) -> (result: NumberOrNothing)
    ensures
        result@ == minimum_of(vector@),
        result is Nothing <==> vector@.len() == 0,
        result matches NumberOrNothing::Number(m) ==> is_minimum(m, vector@),
{
    let mut current = NumberOrNothing::Nothing;

    for element in it: vector
        invariant
            match current {
                NumberOrNothing::Nothing => it.index() == 0,
                NumberOrNothing::Number(m) => is_minimum(m, vector@.take(it.index() as int)),
            },
    {
        proof {
            let seen = vector@.take(it.index() as int);
            assert(vector@.take(it.index() + 1) == seen.push(element));
            match current {
                NumberOrNothing::Nothing => {
                    assert(seen.push(element) == seq![element]);
                    lemma_minimum_singleton(element);
                },
                NumberOrNothing::Number(n) => lemma_minimum_push(seen, n, element),
            }
        }
        match current {
            NumberOrNothing::Nothing => {
                current = NumberOrNothing::Number(element);
            },
            NumberOrNothing::Number(n) => {
                current = NumberOrNothing::Number(minimum_i32(element, n));
            },
        }
    }

    proof {
        assert(vector@.take(vector@.len() as int) == vector@);
        if let NumberOrNothing::Number(m) = current {
            lemma_minimum_of_is(vector@, m);
        }
    }
    current
}

/// The smaller of `a` and `b`.
pub fn minimum_i32(a: i32, b: i32) -> (result: i32)
    ensures
        result == smaller(a, b),
{
    if a < b {
        return a;
    } else {
        return b;
    }
}

/// The vector of the first example.
pub fn read_vector() -> (vector: Vec<i32>)
    ensures
        vector@ == seq![4i32, 8, 9, 3, 2, 4],
{
    vec![4, 8, 9, 3, 2, 4]
}

/// The line of text that shows a number or nothing: a fixed sentence for
/// nothing, and for a number a sentence that ends in the number in base ten.
pub open spec fn number_or_nothing_text(n: Option<i32>) -> Seq<char> {
    match n {
        None => "We have nothing!"@,
        Some(value) => "This is the number: "@ + decimal(value as int),
    }
}

/// The line of text that shows `n`.
pub fn describe_number_or_nothing(n: NumberOrNothing) -> (text: String)
    ensures
        text@ == number_or_nothing_text(n@),
{
    match n {
        NumberOrNothing::Nothing => String::from_str("We have nothing!"),
        NumberOrNothing::Number(value) => {
            let mut text = String::from_str("This is the number: ");
            push_decimal(&mut text, value);
            text
        },
    }
}

} // verus!
