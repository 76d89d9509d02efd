use vstd::prelude::*;

verus! {

/// The error observed when a `crate::Transitionable` is used after a transition lost its
/// value: "poisoned transitionable: lost value due to panic in previous transition".
/// The public operations never hand it out; they require a container that is not poisoned.
#[derive(Debug)]
pub(crate) struct PoisonError {
    _private: (),
}

impl PoisonError {
    pub(crate) fn new() -> (r: Self) {
        PoisonError { _private: () }
    }
}

} // verus!
