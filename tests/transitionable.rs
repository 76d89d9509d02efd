use transitionable::Transitionable;

/// Owns a container and checks, when dropped while a panic unwinds, that the
/// container was poisoned by that panic.
struct ExpectPoisoned(Transitionable<()>);

impl Drop for ExpectPoisoned {
    fn drop(&mut self) {
        assert!(Transitionable::is_poisoned(&self.0));
    }
}

#[test]
fn transition_works() {
    let mut t = Transitionable::new(());
    Transitionable::transition(&mut t, |x: ()| x);
}

#[test]
fn is_poisoned_works() {
    let t = Transitionable::new(());
    assert!(!Transitionable::is_poisoned(&t));
}

#[test]
fn deref_works() {
    let t = Transitionable::new(());
    let _: &() = Transitionable::get(&t);
}

#[test]
fn deref_mut_works() {
    let mut t = Transitionable::new(());
    let _: &mut () = Transitionable::get_mut(&mut t);
}

#[test]
#[should_panic]
fn when_poisoned_panic_on_deref() {
    let mut guard = ExpectPoisoned(Transitionable::new(()));
    Transitionable::transition(&mut guard.0, |_: ()| panic!("oops"));
}

#[test]
fn new_into_inner_round_trip() {
    let t = Transitionable::new(String::from("held"));
    assert_eq!(Transitionable::into_inner(t), "held");
    let n = Transitionable::new(-17i64);
    assert_eq!(Transitionable::into_inner(n), -17);
}

#[test]
fn transition_increments() {
    let mut t = Transitionable::new(1);
    Transitionable::transition(&mut t, |x| x + 1);
    assert_eq!(*Transitionable::get(&t), 2);
    assert!(!Transitionable::is_poisoned(&t));
}

#[test]
fn transition_consumes_by_value() {
    let mut t = Transitionable::new(vec![1u8, 2]);
    Transitionable::transition(&mut t, |mut v: Vec<u8>| {
        v.push(3);
        v
    });
    assert_eq!(Transitionable::into_inner(t), vec![1u8, 2, 3]);
}

#[test]
fn chained_transitions_compose() {
    let mut t = Transitionable::new(3i32);
    Transitionable::transition(Transitionable::transition(&mut t, |x| x + 1), |x| x * 10);
    assert_eq!(*Transitionable::get(&t), 40);
    let mut u = Transitionable::new(3i32);
    Transitionable::transition(&mut u, |x| (x + 1) * 10);
    assert_eq!(Transitionable::into_inner(t), Transitionable::into_inner(u));
}

#[derive(Debug, PartialEq)]
enum State {
    A,
    B,
}

#[test]
fn transition_changes_state() {
    let t = &mut Transitionable::new(State::A);
    Transitionable::transition(t, |_: State| State::B);
    assert_eq!(*Transitionable::get(t), State::B);
}

#[test]
fn get_mut_writes_through() {
    let mut t = Transitionable::new(5u32);
    *Transitionable::get_mut(&mut t) += 4;
    assert_eq!(*Transitionable::get(&t), 9);
    assert!(!Transitionable::is_poisoned(&t));
}

#[test]
fn from_is_construction() {
    let t: Transitionable<u16> = Transitionable::from(42u16);
    assert!(!Transitionable::is_poisoned(&t));
    assert_eq!(t, Transitionable::new(42u16));
    let u: Transitionable<&str> = "x".into();
    assert_eq!(Transitionable::into_inner(u), "x");
}
