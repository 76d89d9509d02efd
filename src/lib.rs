//! `Transitionable` holds one value and lets it be moved out, transformed and put back
//! where only an `&mut` to the holder is at hand.
mod poison;

use vstd::prelude::*;

use poison::PoisonError;

verus! {

/// A holder of exactly one value of `T` that can be transitioned from one state to the next
/// through an `&mut`. It becomes poisoned when a transition's function panics.
#[derive(Debug, Clone, Copy, Eq, PartialEq, Ord, PartialOrd, Hash)]
pub struct Transitionable<T>(Inner<T>);

#[derive(Debug, Clone, Copy, Eq, PartialEq, Ord, PartialOrd, Hash)]
enum Inner<T> {
    Holding(T),
    Poisoned,
}

impl<T> View for Transitionable<T> {
    /// `Some(v)` while the value `v` is held, `None` once poisoned.
    type V = Option<T>;

    closed spec fn view(&self) -> Option<T> {
        match self.0 {
            Inner::Holding(v) => Some(v),
            Inner::Poisoned => None,
        }
    }
}

impl<T> Transitionable<T> {
    /// Construct a new `Transitionable` holding `value`.
    pub fn new(value: T) -> (r: Self)
        ensures
            r@ == Some(value),
    {
        Transitionable(Inner::Holding(value))
    }

    /// Deconstructs the `Transitionable` back into its held value.
    ///
    /// The container must not be poisoned.
    pub fn into_inner(transitionable: Self) -> (r: T)
        requires
            transitionable@ is Some,
        ensures
            transitionable@ == Some(r),
    {
        Self::try_into_inner(transitionable).unwrap()
    }

    fn try_into_inner(transitionable: Self) -> (r: Result<T, PoisonError>)
        ensures
            r is Ok <==> transitionable@ is Some,
            r is Ok ==> transitionable@ == Some(r->Ok_0),
    {
        match transitionable.0 {
            Inner::Holding(value) => Ok(value),
            Inner::Poisoned => Err(PoisonError::new()),
        }
    }

    /// Whether `after` is what a transition through `f` makes of `before`: a held value
    /// that `f` may return for the value held before.
    pub open spec fn transitioned<F: FnOnce(T) -> T>(before: Self, f: F, after: Self) -> bool {
        &&& before@ is Some
        &&& after@ is Some
        &&& f.ensures((before@->Some_0,), after@->Some_0)
    }

    /// Transition the held value from one state to the next through `f`, and hand back
    /// the same reference, so that transitions can be chained.
    ///
    /// The container must not be poisoned. Should `f` panic, the container stays poisoned.
    pub fn transition<F: FnOnce(T) -> T>(transitionable: &mut Self, f: F) -> (r: &mut Self)
        requires
            old(transitionable)@ is Some,
            f.requires((old(transitionable)@->Some_0,)),
        ensures
            Self::transitioned(*old(transitionable), f, *r),
            *final(transitionable) == *final(r),
    {
        let r = Self::try_transition(transitionable, f);
        r.unwrap()
    }

    fn try_transition<F: FnOnce(T) -> T>(transitionable: &mut Self, f: F) -> (r: Result<&mut Self, PoisonError>)
        requires
            old(transitionable)@ is Some ==> f.requires((old(transitionable)@->Some_0,)),
        ensures
            r is Ok <==> old(transitionable)@ is Some,
            r is Err ==> final(transitionable)@ is None,
            r is Ok ==> Self::transitioned(*old(transitionable), f, *(r->Ok_0)),
            r is Ok ==> *final(transitionable) == *final(r->Ok_0),
    {
        let mut taken = Inner::Poisoned;
        core::mem::swap(&mut transitionable.0, &mut taken);
        let value = match taken {
            Inner::Holding(value) => value,
            Inner::Poisoned => {
                return Err(PoisonError::new());
            },
        };
        transitionable.0 = Inner::Holding(f(value));
        Ok(transitionable)
    }

    /// Whether a panic inside the function of an earlier transition lost the value. A
    /// poisoned `Transitionable` cannot be healed: replace it with a new one.
    pub fn is_poisoned(transitionable: &Self) -> (r: bool)
        ensures
            r <==> transitionable@ is None,
    {
        match transitionable.0 {
            Inner::Holding(_) => false,
            Inner::Poisoned => true,
        }
    }

    /// A shared view of the held value. The container must not be poisoned.
    pub fn get(transitionable: &Self) -> (r: &T)
        requires
            transitionable@ is Some,
        ensures
            transitionable@ == Some(*r),
    {
        Self::try_get(transitionable).unwrap()
    }

    fn try_get(transitionable: &Self) -> (r: Result<&T, PoisonError>)
        ensures
            r is Ok <==> transitionable@ is Some,
            r is Ok ==> transitionable@ == Some(*(r->Ok_0)),
    {
        match &transitionable.0 {
            Inner::Holding(value) => Ok(value),
            Inner::Poisoned => Err(PoisonError::new()),
        }
    }

    /// A mutable view of the held value. The container must not be poisoned; it keeps
    /// holding whatever the view is left with.
    pub fn get_mut(transitionable: &mut Self) -> (r: &mut T)
        requires
            old(transitionable)@ is Some,
        ensures
            old(transitionable)@ == Some(*r),
            final(transitionable)@ == Some(*final(r)),
    {
        Self::try_get_mut(transitionable).unwrap()
    }

    fn try_get_mut(transitionable: &mut Self) -> (r: Result<&mut T, PoisonError>)
        ensures
            r is Ok <==> old(transitionable)@ is Some,
            r is Ok ==> old(transitionable)@ == Some(*(r->Ok_0)),
            r is Ok ==> final(transitionable)@ == Some(*final(r->Ok_0)),
            r is Err ==> *final(transitionable) == *old(transitionable),
    {
        match &mut transitionable.0 {
            Inner::Holding(value) => Ok(value),
            Inner::Poisoned => Err(PoisonError::new()),
        }
    }
}

impl<T> Transitionable<T> {
    /// Taking the value out of a freshly made `Transitionable` gives back the value it was
    /// made with.
    pub proof fn lemma_new_into_inner(value: T, made: Self, taken: T)
        requires
            made@ == Some(value),
            made@ == Some(taken),
        ensures
            taken == value,
    {
    }

    /// A transition whose function returns leaves the container holding a value that
    /// the function may return for the old one, and not poisoned.
    pub proof fn lemma_transition_not_poisoned<F: FnOnce(T) -> T>(before: Self, f: F, after: Self)
        requires
            Self::transitioned(before, f, after),
        ensures
            !(after@ is None),
            f.ensures((before@->Some_0,), after@->Some_0),
    {
    }

    /// Two chained transitions through `f1` and then `f2` apply their composition: the
    /// final value is one that `f2` may return for a value that `f1` may return for the
    /// value held at first.
    pub proof fn lemma_chained_transitions<F1: FnOnce(T) -> T, F2: FnOnce(T) -> T>(
        first: Self,
        f1: F1,
        middle: Self,
        f2: F2,
        last: Self,
    )
        requires
            Self::transitioned(first, f1, middle),
            Self::transitioned(middle, f2, last),
        ensures
            last@ is Some,
            exists|between: T|
                f1.ensures((first@->Some_0,), between) && f2.ensures((between,), last@->Some_0),
    {
        let between = middle@->Some_0;
        assert(f1.ensures((first@->Some_0,), between) && f2.ensures((between,), last@->Some_0));
    }

    /// Converting a value into a `Transitionable` is the same as constructing one.
    pub proof fn lemma_from_holds(value: T)
        ensures
            <Self as vstd::std_specs::convert::FromSpec<T>>::from_spec(value)@ == Some(value),
    {
    }
}

impl<T> From<T> for Transitionable<T> {
    /// Wraps `value`, as `Transitionable::new` does.
    fn from(value: T) -> (r: Self) {
        Transitionable::new(value)
    }
}

impl<T> vstd::std_specs::convert::FromSpecImpl<T> for Transitionable<T> {
    open spec fn obeys_from_spec() -> bool {
        true
    }

    closed spec fn from_spec(value: T) -> Self {
        Transitionable(Inner::Holding(value))
    }
}

} // verus!
