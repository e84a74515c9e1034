//! The six counter operations on concrete values, wraparound included.

use counter::decrement;
use counter::increment;
use counter::new_counter;
use counter::reset;
use counter::subtract;

#[test]
fn test_new_counter() {
    assert_eq!(new_counter(), 0);
}

#[test]
fn test_increment() {
    assert_eq!(increment(0), 1);
    assert_eq!(increment(5), 6);
    assert_eq!(increment(increment(0)), 2);
}

#[test]
fn test_decrement() {
    assert_eq!(decrement(1), 0);
    assert_eq!(decrement(5), 4);
}

#[test]
fn test_increment_decrement_inverse() {
    let c: u32 = 42;
    assert_eq!(decrement(increment(c)), c);
}

#[test]
fn test_add() {
    assert_eq!(counter::add(0, 0), 0);
    assert_eq!(counter::add(5, 3), 8);
    assert_eq!(counter::add(0, 1), increment(0));
}

#[test]
fn test_subtract() {
    assert_eq!(subtract(5, 3), 2);
    assert_eq!(subtract(5, 1), decrement(5));
}

#[test]
fn test_reset() {
    assert_eq!(reset(0), 0);
    assert_eq!(reset(100), 0);
    assert_eq!(reset(42), new_counter());
}

#[test]
fn test_wrapping_behavior() {
    assert_eq!(increment(u32::MAX), 0);
    assert_eq!(decrement(0), u32::MAX);
}
