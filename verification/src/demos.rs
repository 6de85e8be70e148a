//! The small computations behind the control-flow and function
//! demonstration routines. Each returns the value the demonstration goes on
//! to print, so the printing itself can stay outside the library.

use vstd::prelude::*;

verus! {

/// Which branch of the demonstration's if/else-if/else chain runs for a
/// given number.
#[derive(Clone, Copy, Debug, PartialEq, Eq, Structural)]
pub enum Branch {
    AboveTwo,
    BelowFour,
    Neither,
}

/// The demonstration function: it binds seven plus two and returns it,
/// whatever its input.
pub fn another_function(x: i32) -> (r: i32)
    ensures
        r == 9,
{
    let _ = x;
    let y: i32 = 7 + 2;
    y
}

/// The shadowing demonstration: ten, raised by ten, then doubled, each step
/// shadowing the binding before it.
pub fn shadowed_math() -> (r: i32)
    ensures
        r == 40,
{
    let z: i32 = 10;
    let z: i32 = z + 10;
    let z: i32 = z * 2;
    z
}

/// Picks the branch of the conditional chain that a number falls under:
/// first "above two", else "below four", else neither. The final arm can
/// never run: a number that is at most two is always below four.
pub fn branch_for(number: i32) -> (b: Branch)
    ensures
        number > 2 ==> b == Branch::AboveTwo,
        number <= 2 ==> b == Branch::BelowFour,
        b != Branch::Neither,
{
    if number > 2 {
        Branch::AboveTwo
    } else if number < 4 {
        Branch::BelowFour
    } else {
        Branch::Neither
    }
}

/// The conditional binding demonstration: five when the condition holds,
/// six otherwise.
pub fn chosen_number(condition: bool) -> (r: i32)
    ensures
        condition ==> r == 5,
        !condition ==> r == 6,
{
    if condition {
        5
    } else {
        6
    }
}

/// The counting loop demonstration: a counter runs from zero up to three,
/// and the loop's value is the final counter doubled. Returns the number of
/// passes and that value.
pub fn repeat_until_three() -> (r: (i32, i32))
    ensures
        r.0 == 3,
        r.1 == 6,
{
    let mut counter: i32 = 0;
    loop
        invariant
            0 <= counter <= 2,
        decreases 3 - counter,
    {
        counter = counter + 1;
        if counter == 3 {
            return (counter, counter * 2);
        }
    }
}

/// A countdown from `start` to one: the sequence `start`, `start - 1`, ...,
/// `1`, as both countdown demonstrations print it.
pub fn countdown(start: u32) -> (r: Vec<u32>)
    ensures
        r@.len() == start,
        forall|i: int| 0 <= i < start ==> #[trigger] r@[i] == start - i,
{
    let mut r: Vec<u32> = Vec::new();
    let mut n: u32 = start;
    while n > 0
        invariant
            n <= start,
            r@.len() == start - n,
            forall|i: int| 0 <= i < r@.len() ==> #[trigger] r@[i] == start - i,
        decreases n,
    {
        r.push(n);
        n = n - 1;
    }
    r
}

} // verus!
