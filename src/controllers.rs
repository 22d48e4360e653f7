use vstd::prelude::*;

verus! {

/// Keyboard control. Reading the keys is left to the caller; this decides what they mean.
#[derive(Clone, Copy, Debug, PartialEq, Eq, Structural)]
pub struct HumanController;

impl Default for HumanController {
    fn default() -> (r: HumanController)
        ensures
            r == HumanController,
    {
        HumanController
    }
}

impl HumanController {
    /// Turn direction from the two rotate keys: -1 left, +1 right, 0 for both or neither.
    pub fn turn_axis(&self, left: bool, right: bool) -> (r: i8)
        ensures
            r == (if right { 1i8 } else { 0i8 }) - (if left { 1i8 } else { 0i8 }),
    {
        let mut turn: i8 = 0;
        if left {
            turn = turn - 1;
        }
        if right {
            turn = turn + 1;
        }
        turn
    }
}

} // verus!
