//! The semantic actions the keyboard produces in one frame, and the queries
//! the game loop asks of them.

use vstd::prelude::*;

verus! {

/// A semantic input action.
#[derive(Debug, Clone, Copy, PartialEq, Eq, Structural)]
pub enum Action {
    Up,
    Down,
    Left,
    Right,
    Fire,
    LeftSoft,
    RightSoft,
    Pickup,
    Examine,
    CraftMenu,
    Inventory,
    Sleep,
    /// Number key / quick slot 1..=9.
    Slot(u8),
}

/// The actions held and the actions newly pressed in one frame.
pub struct ActionState {
    /// Held this frame.
    pub held: Vec<Action>,
    /// Triggered this frame (pressed edge).
    pub pressed: Vec<Action>,
}

/// Whether an action occurs in a list of actions.
fn contains_action(list: &Vec<Action>, a: Action) -> (r: bool)
    ensures
        r == list@.contains(a),
{
    let mut i: usize = 0;
    while i < list.len()
        invariant
            i <= list@.len(),
            forall|j: int| 0 <= j < i ==> list@[j] != a,
        decreases list@.len() - i,
    {
        if list[i] == a {
            assert(list@[i as int] == a);
            return true;
        }
        i = i + 1;
    }
    false
}

impl ActionState {
    /// Nothing held and nothing pressed.
    pub fn new() -> (r: ActionState)
        ensures
            r.held@.len() == 0,
            r.pressed@.len() == 0,
    {
        ActionState { held: Vec::new(), pressed: Vec::new() }
    }

    /// Whether an action is held this frame.
    pub fn is_held(&self, a: Action) -> (r: bool)
        ensures
            r == self.held@.contains(a),
    {
        contains_action(&self.held, a)
    }

    /// Whether an action was newly pressed this frame.
    pub fn just_pressed(&self, a: Action) -> (r: bool)
        ensures
            r == self.pressed@.contains(a),
    {
        contains_action(&self.pressed, a)
    }
}

} // verus!
