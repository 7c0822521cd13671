//! Expressions and inherent methods: the minimum again, written as one
//! expression, a sum, and the text of a vector.

use crate::decimal::{decimal, push_decimal};
use crate::minimum::{
    is_minimum, lemma_minimum_of_is, lemma_minimum_push, lemma_minimum_singleton, minimum_of,
    smaller,
};
use vstd::prelude::*;
use vstd::string::StringExecFns;

verus! {

/// The numbers whose square fits in an `i32` are those from -46340 to 46340.
pub proof fn lemma_sqr_fits(i: int)
    ensures
        i * i <= i32::MAX <==> -46340 <= i <= 46340,
{
    assert(-46340 <= i <= 46340 ==> i * i <= 46340 * 46340) by (nonlinear_arith);
    assert(i >= 46341 ==> i * i >= 46341 * 46341) by (nonlinear_arith);
    assert(i <= -46341 ==> i * i >= 46341 * 46341) by (nonlinear_arith);
}

/// The square of `i`, for an `i` whose square fits in an `i32`.
pub fn sqr(i: i32) -> (result: i32)
    requires
        i * i <= i32::MAX,
    ensures
        result == i * i,
{
    assert(0 <= i * i) by (nonlinear_arith);
    i * i
}

/// The distance of `i` from zero, for an `i` that has one in `i32`.
pub fn abs(i: i32) -> (result: i32)
    requires
        i != i32::MIN,
    ensures
        result >= 0,
        result == i || result == -i,
{
    if i >= 0 {
        i
    } else {
        -i
    }
}

/// Either a number, or nothing at all.
#[derive(Clone, Copy, Debug, PartialEq, Eq, Structural)]
pub enum NumberOrNothing {
    Number(i32),
    Nothing,
}

impl View for NumberOrNothing {
    type V = Option<i32>;

    open spec fn view(&self) -> Option<i32> {
        match *self {
            NumberOrNothing::Number(n) => Some(n),
            NumberOrNothing::Nothing => None,
        }
    }
}

/// The line of text that shows a number or nothing: a fixed sentence for
/// nothing, and for a number a sentence that ends in the number in base ten.
pub open spec fn number_text(n: Option<i32>) -> Seq<char> {
    match n {
        None => "The number is: <nothing>"@,
        Some(value) => "This is the number: "@ + decimal(value as int),
    }
}

impl NumberOrNothing {
    /// The line of text that shows `self`.
    pub fn describe(self) -> (text: String)
        ensures
            text@ == number_text(self@),
    {
        match self {
            NumberOrNothing::Nothing => String::from_str("The number is: <nothing>"),
            NumberOrNothing::Number(n) => {
                let mut text = String::from_str("This is the number: ");
                push_decimal(&mut text, n);
                text
            },
        }
    }

    /// The number in `n`, or `default` where `n` holds none.
    pub fn number_or_default(n: NumberOrNothing, default: i32) -> (result: i32)
        ensures
            result == match n@ {
                None => default,
                Some(value) => value,
            },
    {
        match n {
            NumberOrNothing::Nothing => default,
            NumberOrNothing::Number(n) => n,
        }
    }
}

/// The numbers on which `compute_stuff` stays within `i32` are those from
/// -215 to 215.
pub proof fn lemma_compute_stuff_fits(x: int)
    ensures
        (x * x + 14) * (x * x + 14) <= i32::MAX <==> -215 <= x <= 215,
{
    let y = x * x + 14;
    assert(-215 <= x <= 215 ==> 0 <= x * x <= 215 * 215) by (nonlinear_arith);
    assert(x >= 216 ==> x * x >= 216 * 216) by (nonlinear_arith);
    assert(x <= -216 ==> x * x >= 216 * 216) by (nonlinear_arith);
    assert(0 <= y <= 46239 ==> y * y <= 46239 * 46239) by (nonlinear_arith);
    assert(y >= 46670 ==> y * y >= 46670 * 46670) by (nonlinear_arith);
}

/// The square of fourteen more than the square of `x`, where that fits in an
/// `i32`.
pub fn compute_stuff(x: i32) -> (result: i32)
    requires
        (x * x + 14) * (x * x + 14) <= i32::MAX,
    ensures
        result == (x * x + 14) * (x * x + 14),
{
    assert(0 <= x * x && x * x + 14 <= (x * x + 14) * (x * x + 14)) by (nonlinear_arith);
    let y = {
        let z = x * x;
        z + 14
    };
    y * y
}

/// The smaller of `a` and `b`.
fn min_i32(a: i32, b: i32) -> (result: i32)
    ensures
        result == smaller(a, b),
{
    if a < b {
        a
    } else {
        b
    }
}

/// The minimum of `v`, or `Nothing` where it is empty.
pub fn vec_min(v: Vec<i32>) -> (result: NumberOrNothing)
    ensures
        result@ == minimum_of(v@),
        result is Nothing <==> v@.len() == 0,
        result matches NumberOrNothing::Number(m) ==> is_minimum(m, v@),
{
    let mut min = NumberOrNothing::Nothing;
    for e in it: v
        invariant
            match min {
                NumberOrNothing::Nothing => it.index() == 0,
                NumberOrNothing::Number(m) => is_minimum(m, v@.take(it.index() as int)),
            },
    {
        proof {
            let seen = v@.take(it.index() as int);
            assert(v@.take(it.index() + 1) == seen.push(e));
            match min {
                NumberOrNothing::Nothing => {
                    assert(seen.push(e) == seq![e]);
                    lemma_minimum_singleton(e);
                },
                NumberOrNothing::Number(n) => lemma_minimum_push(seen, n, e),
            }
        }
        min = NumberOrNothing::Number(
            match min {
                NumberOrNothing::Nothing => e,
                NumberOrNothing::Number(n) => min_i32(n, e),
            },
        );
    }
    proof {
        assert(v@.take(v@.len() as int) == v@);
        if let NumberOrNothing::Number(m) = min {
            lemma_minimum_of_is(v@, m);
        }
    }
    min
}

/// The vector of the examples.
pub fn read_vec() -> (v: Vec<i32>)
    ensures
        v@ == seq![18i32, 5, 7, 2, 9, 27],
{
    vec![18, 5, 7, 2, 9, 27]
}

/// The sum of the elements of `s`.
pub open spec fn sum_of(s: Seq<i32>) -> int
    decreases s.len(),
{
    if s.len() == 0 {
        0
    } else {
        sum_of(s.drop_last()) + s.last()
    }
}

/// The sum of all values of `v`, in a type wide enough for any vector.
pub fn vec_sum(v: Vec<i32>) -> (sum: i128)
    ensures
        sum == sum_of(v@),
{
    let mut sum: i128 = 0;
    assert(v@.len() == v.len());
    for e in it: v
        invariant
            sum == sum_of(v@.take(it.index() as int)),
            v@.len() <= usize::MAX,
            it.index() <= v@.len(),
            -0x8000_0000 * it.index() <= sum <= 0x8000_0000 * it.index(),
    {
        proof {
            let next = v@.take(it.index() + 1);
            assert(next.drop_last() == v@.take(it.index() as int));
            assert(next.last() == e);
        }
        sum += e as i128
    }
    assert(v@.take(v@.len() as int) == v@);
    sum
}

/// The text of the elements of `s`: each in base ten, with a space after it.
pub open spec fn elements_text(s: Seq<i32>) -> Seq<char>
    decreases s.len(),
{
    if s.len() == 0 {
        Seq::empty()
    } else {
        elements_text(s.drop_last()) + decimal(s.last() as int) + " "@
    }
}

/// The line of text that shows a vector: a heading, then its elements.
pub open spec fn vec_text(s: Seq<i32>) -> Seq<char> {
    "The vector contains: "@ + elements_text(s)
}

/// The line of text that shows `v`.
pub fn describe_vec(v: Vec<i32>) -> (text: String)
    ensures
        text@ == vec_text(v@),
{
    let mut text = String::from_str("The vector contains: ");
    for e in it: v
        invariant
            text@ == vec_text(v@.take(it.index() as int)),
    {
        proof {
            let next = v@.take(it.index() + 1);
            assert(next.drop_last() == v@.take(it.index() as int));
            assert(next.last() == e);
        }
        push_decimal(&mut text, e);
        text.append(" ");
    }
    assert(v@.take(v@.len() as int) == v@);
    text
}

} // verus!
