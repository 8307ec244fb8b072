use info_flow::flow_control::HighSecWitness;
use info_flow::flow_control::Item;
use info_flow::flow_control::SecureVec;

#[test]
fn test_security() {
    let v = SecureVec::new();
    let lo = Item::low_sec(1);
    let hi = Item::high_sec(2);
    let v = v.push(lo); // v is still low sec
    assert_eq!(*v.get(0).unwrap(), 1); // ok to read v

    let v = v.push_secure(hi); // v is now high sec

    // v.get(0) no longer exists on a high-sec container: compiler error
    let w = HighSecWitness::login();
    assert_eq!(*v.get_secure(1, w).unwrap(), 2); // can read after login
}

#[test]
fn test_max_level() {
    let v = SecureVec::new();
    let lo = Item::low_sec(1);
    let hi = Item::high_sec(2);
    let v = v.push(lo); // v is still low sec
    assert_eq!(*v.get(0).unwrap(), 1); // ok to read v

    let v = v.push(hi); // v is now high sec

    // v.get(0) no longer exists on a high-sec container: compiler error
    let w = HighSecWitness::login();
    assert_eq!(*v.get_secure(1, w).unwrap(), 2); // can read after login
}

// Create an empty container at Low, insert 1 at Low, and read index 0
// without any witness.
#[test]
fn low_container_reads_without_witness() {
    let v = SecureVec::new();
    let v = v.push(Item::low_sec(1));
    assert_eq!(*v.get(0).unwrap(), 1);
}

// Escalate the container from the previous scenario with a High insert: the
// result is a High container, and after login both the new element and the
// element originally inserted at Low are readable — but only with the
// witness. The ungated read is not callable on the escalated handle at all.
#[test]
fn escalated_container_reads_only_with_witness() {
    let v = SecureVec::new();
    let v = v.push(Item::low_sec(1));
    let v = v.push(Item::high_sec(2));
    // v.get(1) would not compile here: the container's type is now High.
    assert_eq!(*v.get_secure(1, HighSecWitness::login()).unwrap(), 2);
    // The element inserted at Low is gated exactly the same way now.
    assert_eq!(*v.get_secure(0, HighSecWitness::login()).unwrap(), 1);
}

// On a container with two elements, reading index 2 is an out-of-range
// failure, not a silent default — on the ungated and the gated read alike.
#[test]
fn out_of_range_read_fails() {
    let v = SecureVec::new();
    let v = v.push(Item::low_sec(10));
    let v = v.push(Item::low_sec(20));
    assert_eq!(*v.get(1).unwrap(), 20);
    assert!(v.get(2).is_none());

    let v = v.push(Item::high_sec(30));
    assert!(v.get_secure(3, HighSecWitness::login()).is_none());
    assert_eq!(*v.get_secure(2, HighSecWitness::login()).unwrap(), 30);
}

// The container's level depends only on which levels were inserted, not on
// their order: Low-then-High and High-then-Low both end High, with the same
// elements readable through the gated read.
#[test]
fn insert_order_does_not_change_level() {
    let a = SecureVec::new();
    let a = a.push(Item::low_sec(1));
    let a = a.push(Item::high_sec(2));

    let b = SecureVec::new();
    let b = b.push(Item::high_sec(2));
    let b = b.push(Item::low_sec(1));

    // Both a and b have the High container type: only get_secure exists.
    assert_eq!(*a.get_secure(0, HighSecWitness::login()).unwrap(), 1);
    assert_eq!(*b.get_secure(0, HighSecWitness::login()).unwrap(), 2);
    assert_eq!(*a.get_secure(1, HighSecWitness::login()).unwrap(), 2);
    assert_eq!(*b.get_secure(1, HighSecWitness::login()).unwrap(), 1);
}

// The generalized insert keeps a High container High when a Low element
// enters, and a Low element into a Low container stays Low: the generalized
// path agrees with the simple paths on every overlapping case.
#[test]
fn generalized_insert_agrees_with_simple_paths() {
    let v = SecureVec::new();
    let v = v.push(Item::low_sec(5)); // Low into Low resolves to Low...
    assert_eq!(*v.get(0).unwrap(), 5); // ...so the ungated read still exists.

    let v = v.push(Item::high_sec(6));
    let v = v.push(Item::low_sec(7)); // Low into High stays High.
    assert_eq!(*v.get_secure(2, HighSecWitness::login()).unwrap(), 7);
}

// The escalating simple path and the generalized path build the same
// container.
#[test]
fn push_secure_matches_generalized_push() {
    let a = SecureVec::new();
    let a = a.push_secure(Item::high_sec(9));
    let b = SecureVec::new();
    let b = b.push(Item::high_sec(9));
    assert_eq!(
        *a.get_secure(0, HighSecWitness::login()).unwrap(),
        *b.get_secure(0, HighSecWitness::login()).unwrap()
    );
}

// A witness-holding caller can also append to an already-High container in
// place.
#[test]
fn push_into_high_container_with_witness() {
    let v = SecureVec::new();
    let mut v = v.push(Item::high_sec(1));
    v.push_secure(2, HighSecWitness::login());
    assert_eq!(*v.get_secure(1, HighSecWitness::login()).unwrap(), 2);
}

// Upgrading relabels the same value one way: the payload is untouched, and
// the result can only enter a container as a High element.
#[test]
fn upgrade_relabels_without_touching_the_value() {
    let lo = Item::low_sec(42);
    assert_eq!(*lo.read(), 42);
    let hi = lo.upgrade();
    // hi.read() would not compile: no direct read exists at High.
    let v = SecureVec::new();
    let v = v.push(hi);
    assert_eq!(*v.get_secure(0, HighSecWitness::login()).unwrap(), 42);
}

// The container works for non-numeric element types too.
#[test]
fn string_elements_round_trip() {
    let v = SecureVec::new();
    let v = v.push(Item::low_sec(String::from("public")));
    let v = v.push(Item::high_sec(String::from("secret")));
    let w = HighSecWitness::login();
    assert_eq!(v.get_secure(1, w).unwrap(), "secret");
}
