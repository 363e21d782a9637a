use vstd::prelude::*;

verus! {

/// The instance variables of the application delegate. The two strings
/// become `NSString` objects when the delegate is allocated.
#[derive(Debug)]
pub struct Ivars {
    pub ivar: u8,
    pub another_ivar: bool,
    pub box_ivar: Box<i32>,
    pub maybe_box_ivar: Option<Box<i32>>,
    pub id_ivar: String,
    pub maybe_id_ivar: Option<String>,
}

impl Ivars {
    /// The instance variables of a fresh delegate: the two given values,
    /// a boxed 2, no second box, the string "abc" and a copy of "def".
    pub fn new(ivar: u8, another_ivar: bool) -> (r: Ivars)
        ensures
            r.ivar == ivar,
            r.another_ivar == another_ivar,
            *r.box_ivar == 2,
            r.maybe_box_ivar is None,
            r.id_ivar@ == seq!['a', 'b', 'c'],
            r.maybe_id_ivar matches Some(s) && s@ == seq!['d', 'e', 'f'],
    {
        proof {
            reveal_strlit("abc");
            reveal_strlit("def");
        }
        Ivars {
            ivar,
            another_ivar,
            box_ivar: Box::new(2),
            maybe_box_ivar: None,
            id_ivar: "abc".to_owned(),
            maybe_id_ivar: Some("def".to_owned()),
        }
    }
}

/// Whether the application quits once its last window has closed: it does
/// not, since the popover lives on in the menu bar.
pub fn application_should_terminate_after_last_window_closed() -> (r: bool)
    ensures
        !r,
{
    false
}

} // verus!
