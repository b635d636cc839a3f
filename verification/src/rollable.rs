//! What it means to be a die, and the function that rolls any die.

use vstd::prelude::*;

verus! {

/// A die: a type that can be rolled into a fresh instance, and that reports
/// the value it shows.
///
/// The trait asks nothing of the values: a die of another crate may show a
/// constant, or favour some values over others. Each die of this crate
/// states on its own `roll` and `val` what it shows.
pub trait Rollable: Sized {
    /// Roll the die: a new instance holding the value of a fresh roll.
    fn roll() -> Self;

    /// The value of the roll that made this die.
    fn val(&self) -> u8;
}

/// Roll the die that the caller's expected type names.
///
/// The result is what `T::roll` returned, unchanged: whatever that function
/// ensures of its result holds of this one.
pub fn roll<T: Rollable>() -> (die: T)
    ensures
        call_ensures(T::roll, (), die),
{
    T::roll()
}

/// The dispatcher adds nothing of its own: a die that `roll` can return for
/// the type `T` is a die that `T::roll` can return. So a die type whose own
/// roll always shows the same value shows that value through `roll` too.
pub proof fn lemma_roll_returns_what_the_die_rolls<T: Rollable>(die: T)
    requires
        call_ensures(roll::<T>, (), die),
    ensures
        call_ensures(T::roll, (), die),
{
}

} // verus!
