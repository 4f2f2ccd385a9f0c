use vstd::prelude::*;

verus! {

/// Error carried out of process start-up when the server cannot come up.
#[derive(Debug)]
pub struct MainError {
    pub message: String,
}

impl MainError {
    /// The stored description of what failed.
    pub fn description(&self) -> (r: &str)
        ensures
            r@ == self.message@,
    {
        self.message.as_str()
    }
}

} // verus!
