use vstd::prelude::*;

verus! {

/// A unit step per axis: each component is `-1` or `+1`.
#[derive(Clone, Copy, Debug, PartialEq, Eq, Structural)]
pub struct Velocity {
    pub x: i16,
    pub y: i16,
}

/// A single direction sign.
pub open spec fn is_sign(d: i16) -> bool {
    d == -1 || d == 1
}

impl Velocity {
    pub open spec fn is_unit(&self) -> bool {
        is_sign(self.x) && is_sign(self.y)
    }

    /// A velocity with both signs drawn at random.
    pub fn new() -> (r: Velocity)
        ensures
            r.is_unit(),
    {
        Velocity { x: Velocity::get(), y: Velocity::get() }
    }

    /// A direction sign drawn uniformly from `{-1, +1}`.
    pub fn get() -> (r: i16)
        ensures
            is_sign(r),
    {
        let choice = random_index(2);
        direction_of(choice)
    }
}

/// The direction sign that a choice among two stands for: `0` is `-1`,
/// `1` is `+1`.
pub fn direction_of(choice: usize) -> (r: i16)
    requires
        choice < 2,
    ensures
        choice == 0 ==> r == -1,
        choice == 1 ==> r == 1,
{
    let choices: [i16; 2] = [-1, 1];
    choices[choice]
}

/// Relies on `rand::Rng::gen_range` over `rand::thread_rng()`: an index drawn
/// from `0..n`; the call panics only on an empty range.
#[verifier::external_body]
fn random_index(n: usize) -> (r: usize)
    requires
        n > 0,
    ensures
        r < n,
{
    rand::Rng::gen_range(&mut rand::thread_rng(), 0..n)
}

} // verus!
