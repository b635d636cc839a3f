//! The six dice of the standard set.
//!
//! Each die holds the value of the roll that made it and nothing else. The
//! field is private, and a die is made only by asking a source for a value
//! between one and its number of sides: `from_source` asks the source it is
//! given, `roll` asks the calling thread's generator. So the type invariant
//! of each die, that its value lies in that range, holds of every die a
//! caller can hold. The view of a die is that value.
//!
//! A source is a function of the two bounds of a request, both included,
//! that returns the answer. `from_source` takes it as `FnOnce`: it asks once.

use crate::rollable::{roll, Rollable};
use crate::source::thread_draw;
use vstd::prelude::*;

verus! {

/// A die with four sides: a roll shows a value from 1 to 4.
#[derive(Debug)]
pub struct D4(u8);

impl D4 {
    #[verifier::type_invariant]
    closed spec fn in_range(self) -> bool {
        1 <= self.0 <= 4
    }

    /// Roll the die with the given source: ask it once for a value from 1 to
    /// 4, and show the answer unchanged.
    ///
    /// The source must take that request and keep its answer within it.
    pub fn from_source<F: FnOnce(u8, u8) -> u8>(draw: F) -> (die: D4)
        requires
            call_requires(draw, (1u8, 4u8)),
            forall|v: u8| call_ensures(draw, (1u8, 4u8), v) ==> 1 <= v <= 4,
        ensures
            call_ensures(draw, (1u8, 4u8), die@),
    {
        D4(draw(1, 4))
    }
}

impl View for D4 {
    type V = u8;

    closed spec fn view(&self) -> u8 {
        self.0
    }
}

impl Rollable for D4 {
    /// Roll the die with the calling thread's generator as the source: the
    /// die shows that generator's answer to one request for its range.
    fn roll() -> (die: D4)
        ensures
            call_ensures(thread_draw, (1u8, 4u8), die@),
            1 <= die@ <= 4,
    {
        D4::from_source(thread_draw)
    }

    /// The value drawn when this die was rolled.
    fn val(&self) -> (v: u8)
        ensures
            v == self@,
            1 <= v <= 4,
    {
        proof {
            use_type_invariant(self);
        }
        self.0
    }
}

/// A die with six sides: a roll shows a value from 1 to 6.
#[derive(Debug)]
pub struct D6(u8);

impl D6 {
    #[verifier::type_invariant]
    closed spec fn in_range(self) -> bool {
        1 <= self.0 <= 6
    }

    /// Roll the die with the given source: ask it once for a value from 1 to
    /// 6, and show the answer unchanged.
    ///
    /// The source must take that request and keep its answer within it.
    pub fn from_source<F: FnOnce(u8, u8) -> u8>(draw: F) -> (die: D6)
        requires
            call_requires(draw, (1u8, 6u8)),
            forall|v: u8| call_ensures(draw, (1u8, 6u8), v) ==> 1 <= v <= 6,
        ensures
            call_ensures(draw, (1u8, 6u8), die@),
    {
        D6(draw(1, 6))
    }
}

impl View for D6 {
    type V = u8;

    closed spec fn view(&self) -> u8 {
        self.0
    }
}

impl Rollable for D6 {
    /// Roll the die with the calling thread's generator as the source: the
    /// die shows that generator's answer to one request for its range.
    fn roll() -> (die: D6)
        ensures
            call_ensures(thread_draw, (1u8, 6u8), die@),
            1 <= die@ <= 6,
    {
        D6::from_source(thread_draw)
    }

    /// The value drawn when this die was rolled.
    fn val(&self) -> (v: u8)
        ensures
            v == self@,
            1 <= v <= 6,
    {
        proof {
            use_type_invariant(self);
        }
        self.0
    }
}

/// A die with eight sides: a roll shows a value from 1 to 8.
#[derive(Debug)]
pub struct D8(u8);

impl D8 {
    #[verifier::type_invariant]
    closed spec fn in_range(self) -> bool {
        1 <= self.0 <= 8
    }

    /// Roll the die with the given source: ask it once for a value from 1 to
    /// 8, and show the answer unchanged.
    ///
    /// The source must take that request and keep its answer within it.
    pub fn from_source<F: FnOnce(u8, u8) -> u8>(draw: F) -> (die: D8)
        requires
            call_requires(draw, (1u8, 8u8)),
            forall|v: u8| call_ensures(draw, (1u8, 8u8), v) ==> 1 <= v <= 8,
        ensures
            call_ensures(draw, (1u8, 8u8), die@),
    {
        D8(draw(1, 8))
    }
}

impl View for D8 {
    type V = u8;

    closed spec fn view(&self) -> u8 {
        self.0
    }
}

impl Rollable for D8 {
    /// Roll the die with the calling thread's generator as the source: the
    /// die shows that generator's answer to one request for its range.
    fn roll() -> (die: D8)
        ensures
            call_ensures(thread_draw, (1u8, 8u8), die@),
            1 <= die@ <= 8,
    {
        D8::from_source(thread_draw)
    }

    /// The value drawn when this die was rolled.
    fn val(&self) -> (v: u8)
        ensures
            v == self@,
            1 <= v <= 8,
    {
        proof {
            use_type_invariant(self);
        }
        self.0
    }
}

/// A die with ten sides: a roll shows a value from 1 to 10.
#[derive(Debug)]
pub struct D10(u8);

impl D10 {
    #[verifier::type_invariant]
    closed spec fn in_range(self) -> bool {
        1 <= self.0 <= 10
    }

    /// Roll the die with the given source: ask it once for a value from 1 to
    /// 10, and show the answer unchanged.
    ///
    /// The source must take that request and keep its answer within it.
    pub fn from_source<F: FnOnce(u8, u8) -> u8>(draw: F) -> (die: D10)
        requires
            call_requires(draw, (1u8, 10u8)),
            forall|v: u8| call_ensures(draw, (1u8, 10u8), v) ==> 1 <= v <= 10,
        ensures
            call_ensures(draw, (1u8, 10u8), die@),
    {
        D10(draw(1, 10))
    }
}

impl View for D10 {
    type V = u8;

    closed spec fn view(&self) -> u8 {
        self.0
    }
}

impl Rollable for D10 {
    /// Roll the die with the calling thread's generator as the source: the
    /// die shows that generator's answer to one request for its range.
    fn roll() -> (die: D10)
        ensures
            call_ensures(thread_draw, (1u8, 10u8), die@),
            1 <= die@ <= 10,
    {
        D10::from_source(thread_draw)
    }

    /// The value drawn when this die was rolled.
    fn val(&self) -> (v: u8)
        ensures
            v == self@,
            1 <= v <= 10,
    {
        proof {
            use_type_invariant(self);
        }
        self.0
    }
}

/// A die with twelve sides: a roll shows a value from 1 to 12.
#[derive(Debug)]
pub struct D12(u8);

impl D12 {
    #[verifier::type_invariant]
    closed spec fn in_range(self) -> bool {
        1 <= self.0 <= 12
    }

    /// Roll the die with the given source: ask it once for a value from 1 to
    /// 12, and show the answer unchanged.
    ///
    /// The source must take that request and keep its answer within it.
    pub fn from_source<F: FnOnce(u8, u8) -> u8>(draw: F) -> (die: D12)
        requires
            call_requires(draw, (1u8, 12u8)),
            forall|v: u8| call_ensures(draw, (1u8, 12u8), v) ==> 1 <= v <= 12,
        ensures
            call_ensures(draw, (1u8, 12u8), die@),
    {
        D12(draw(1, 12))
    }
}

impl View for D12 {
    type V = u8;

    closed spec fn view(&self) -> u8 {
        self.0
    }
}

impl Rollable for D12 {
    /// Roll the die with the calling thread's generator as the source: the
    /// die shows that generator's answer to one request for its range.
    fn roll() -> (die: D12)
        ensures
            call_ensures(thread_draw, (1u8, 12u8), die@),
            1 <= die@ <= 12,
    {
        D12::from_source(thread_draw)
    }

    /// The value drawn when this die was rolled.
    fn val(&self) -> (v: u8)
        ensures
            v == self@,
            1 <= v <= 12,
    {
        proof {
            use_type_invariant(self);
        }
        self.0
    }
}

/// A die with twenty sides: a roll shows a value from 1 to 20.
#[derive(Debug)]
pub struct D20(u8);

impl D20 {
    #[verifier::type_invariant]
    closed spec fn in_range(self) -> bool {
        1 <= self.0 <= 20
    }

    /// Roll the die with the given source: ask it once for a value from 1 to
    /// 20, and show the answer unchanged.
    ///
    /// The source must take that request and keep its answer within it.
    pub fn from_source<F: FnOnce(u8, u8) -> u8>(draw: F) -> (die: D20)
        requires
            call_requires(draw, (1u8, 20u8)),
            forall|v: u8| call_ensures(draw, (1u8, 20u8), v) ==> 1 <= v <= 20,
        ensures
            call_ensures(draw, (1u8, 20u8), die@),
    {
        D20(draw(1, 20))
    }
}

impl View for D20 {
    type V = u8;

    closed spec fn view(&self) -> u8 {
        self.0
    }
}

impl Rollable for D20 {
    /// Roll the die with the calling thread's generator as the source: the
    /// die shows that generator's answer to one request for its range.
    fn roll() -> (die: D20)
        ensures
            call_ensures(thread_draw, (1u8, 20u8), die@),
            1 <= die@ <= 20,
    {
        D20::from_source(thread_draw)
    }

    /// The value drawn when this die was rolled.
    fn val(&self) -> (v: u8)
        ensures
            v == self@,
            1 <= v <= 20,
    {
        proof {
            use_type_invariant(self);
        }
        self.0
    }
}

/// Every die that `roll` can return for `D4` shows a value from 1 to 4.
pub proof fn lemma_rolled_d4_in_range(die: D4)
    requires
        call_ensures(roll::<D4>, (), die),
    ensures
        1 <= die@ <= 4,
{
}

/// Every die that `roll` can return for `D6` shows a value from 1 to 6.
pub proof fn lemma_rolled_d6_in_range(die: D6)
    requires
        call_ensures(roll::<D6>, (), die),
    ensures
        1 <= die@ <= 6,
{
}

/// Every die that `roll` can return for `D8` shows a value from 1 to 8.
pub proof fn lemma_rolled_d8_in_range(die: D8)
    requires
        call_ensures(roll::<D8>, (), die),
    ensures
        1 <= die@ <= 8,
{
}

/// Every die that `roll` can return for `D10` shows a value from 1 to 10.
pub proof fn lemma_rolled_d10_in_range(die: D10)
    requires
        call_ensures(roll::<D10>, (), die),
    ensures
        1 <= die@ <= 10,
{
}

/// Every die that `roll` can return for `D12` shows a value from 1 to 12.
pub proof fn lemma_rolled_d12_in_range(die: D12)
    requires
        call_ensures(roll::<D12>, (), die),
    ensures
        1 <= die@ <= 12,
{
}

/// Every die that `roll` can return for `D20` shows a value from 1 to 20.
pub proof fn lemma_rolled_d20_in_range(die: D20)
    requires
        call_ensures(roll::<D20>, (), die),
    ensures
        1 <= die@ <= 20,
{
}

/// A `D4` shows what its source answered: where the source can give but one
/// answer to the request for 1 to 4, the die made from it shows that answer.
/// So each face shows whenever the source answers it, the same answer gives
/// the same value, and the die is as fair as its source.
pub proof fn lemma_d4_shows_the_answer<F: FnOnce(u8, u8) -> u8>(draw: F, die: D4, answer: u8)
    requires
        call_ensures(D4::from_source::<F>, (draw,), die),
        forall|v: u8| call_ensures(draw, (1u8, 4u8), v) ==> v == answer,
    ensures
        die@ == answer,
{
}

/// A `D6` shows what its source answered: where the source can give but one
/// answer to the request for 1 to 6, the die made from it shows that answer.
/// So each face shows whenever the source answers it, the same answer gives
/// the same value, and the die is as fair as its source.
pub proof fn lemma_d6_shows_the_answer<F: FnOnce(u8, u8) -> u8>(draw: F, die: D6, answer: u8)
    requires
        call_ensures(D6::from_source::<F>, (draw,), die),
        forall|v: u8| call_ensures(draw, (1u8, 6u8), v) ==> v == answer,
    ensures
        die@ == answer,
{
}

/// A `D8` shows what its source answered: where the source can give but one
/// answer to the request for 1 to 8, the die made from it shows that answer.
/// So each face shows whenever the source answers it, the same answer gives
/// the same value, and the die is as fair as its source.
pub proof fn lemma_d8_shows_the_answer<F: FnOnce(u8, u8) -> u8>(draw: F, die: D8, answer: u8)
    requires
        call_ensures(D8::from_source::<F>, (draw,), die),
        forall|v: u8| call_ensures(draw, (1u8, 8u8), v) ==> v == answer,
    ensures
        die@ == answer,
{
}

/// A `D10` shows what its source answered: where the source can give but one
/// answer to the request for 1 to 10, the die made from it shows that answer.
/// So each face shows whenever the source answers it, the same answer gives
/// the same value, and the die is as fair as its source.
pub proof fn lemma_d10_shows_the_answer<F: FnOnce(u8, u8) -> u8>(draw: F, die: D10, answer: u8)
    requires
        call_ensures(D10::from_source::<F>, (draw,), die),
        forall|v: u8| call_ensures(draw, (1u8, 10u8), v) ==> v == answer,
    ensures
        die@ == answer,
{
}

/// A `D12` shows what its source answered: where the source can give but one
/// answer to the request for 1 to 12, the die made from it shows that answer.
/// So each face shows whenever the source answers it, the same answer gives
/// the same value, and the die is as fair as its source.
pub proof fn lemma_d12_shows_the_answer<F: FnOnce(u8, u8) -> u8>(draw: F, die: D12, answer: u8)
    requires
        call_ensures(D12::from_source::<F>, (draw,), die),
        forall|v: u8| call_ensures(draw, (1u8, 12u8), v) ==> v == answer,
    ensures
        die@ == answer,
{
}

/// A `D20` shows what its source answered: where the source can give but one
/// answer to the request for 1 to 20, the die made from it shows that answer.
/// So each face shows whenever the source answers it, the same answer gives
/// the same value, and the die is as fair as its source.
pub proof fn lemma_d20_shows_the_answer<F: FnOnce(u8, u8) -> u8>(draw: F, die: D20, answer: u8)
    requires
        call_ensures(D20::from_source::<F>, (draw,), die),
        forall|v: u8| call_ensures(draw, (1u8, 20u8), v) ==> v == answer,
    ensures
        die@ == answer,
{
}

} // verus!
