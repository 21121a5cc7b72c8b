//! The application object that a front end starts.
use vstd::prelude::*;

verus! {

/// The window-modifier application. It holds no state of its own: the window
/// list and the edit buffers belong to the front end that runs it.
pub struct MainApp {}

impl MainApp {
    /// A new application.
    pub fn new() -> (r: Self)
        ensures
            r == (MainApp {}),
    {
        MainApp {}
    }
}

} // verus!
