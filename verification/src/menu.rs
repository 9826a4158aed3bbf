use vstd::prelude::*;

verus! {

/// An entry of the help menu: a text and where it is drawn.
#[derive(Debug)]
pub struct UserHelpMenu {
    pub x: i32,
    pub y: i32,
    pub text: String,
}

impl UserHelpMenu {
    /// An empty entry at the origin.
    pub fn new() -> (r: UserHelpMenu)
        ensures
            r.x == 0,
            r.y == 0,
            r.text@ == Seq::<char>::empty(),
    {
        UserHelpMenu { x: 0, y: 0, text: String::new() }
    }
}

} // verus!
