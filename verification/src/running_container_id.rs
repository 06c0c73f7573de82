use vstd::prelude::*;

use crate::text::{trim_spec, trim_str};

verus! {

/// The identifier of the single currently running instance, as the runtime
/// printed it, with surrounding whitespace removed.
#[derive(Debug)]
pub struct RunningContainerId(String);

impl View for RunningContainerId {
    type V = Seq<char>;

    closed spec fn view(&self) -> Seq<char> {
        self.0@
    }
}

impl RunningContainerId {
    /// Wrap a raw identifier, trimming the whitespace the runtime prints
    /// around it.
    pub fn new(id: &str) -> (r: Self)
        ensures
            r@ == trim_spec(id@),
    {
        RunningContainerId(trim_str(id))
    }

    /// The identifier text.
    pub fn as_ref(&self) -> (r: &str)
        ensures
            r@ == self@,
    {
        self.0.as_str()
    }
}

impl Clone for RunningContainerId {
    /// An exact copy of the identifier.
    fn clone(&self) -> (r: Self)
        ensures
            r == *self,
    {
        RunningContainerId(self.0.clone())
    }
}

} // verus!
