//! Tests of the three-way map split used by the merge engine.

use nickel_merge::ident::Ident;
use nickel_merge::indexmap::{split, IndexMap, SplitResult};

#[test]
fn all_left() -> Result<(), String> {
    let mut m1 = IndexMap::new();
    let m2 = IndexMap::<isize>::new();

    m1.insert(Ident::from_sym(1), 1isize);
    let SplitResult {
        mut left,
        center,
        right,
    } = split(m1, m2);

    if left.remove(Ident::from_sym(1)) == Some(1) && left.is_empty() && center.is_empty() && right.is_empty() {
        Ok(())
    } else {
        Err(String::from("Expected all elements to be in the left part"))
    }
}

#[test]
fn all_right() -> Result<(), String> {
    let m1 = IndexMap::<isize>::new();
    let mut m2 = IndexMap::new();

    m2.insert(Ident::from_sym(1), 1isize);
    let SplitResult {
        left,
        center,
        mut right,
    } = split(m1, m2);

    if right.remove(Ident::from_sym(1)) == Some(1) && right.is_empty() && left.is_empty() && center.is_empty() {
        Ok(())
    } else {
        Err(String::from("Expected all elements to be in the right part"))
    }
}

#[test]
fn all_center() -> Result<(), String> {
    let mut m1 = IndexMap::new();
    let mut m2 = IndexMap::new();

    m1.insert(Ident::from_sym(1), 1isize);
    m2.insert(Ident::from_sym(1), 2isize);
    let SplitResult {
        left,
        mut center,
        right,
    } = split(m1, m2);

    if center.remove(Ident::from_sym(1)) == Some((1, 2)) && center.is_empty() && left.is_empty() && right.is_empty() {
        Ok(())
    } else {
        Err(String::from("Expected all elements to be in the center part"))
    }
}

#[test]
fn mixed() -> Result<(), String> {
    let mut m1 = IndexMap::new();
    let mut m2 = IndexMap::new();

    m1.insert(Ident::from_sym(1), 1isize);
    m1.insert(Ident::from_sym(2), 1isize);
    m2.insert(Ident::from_sym(1), -1isize);
    m2.insert(Ident::from_sym(3), -1isize);
    let SplitResult {
        mut left,
        mut center,
        mut right,
    } = split(m1, m2);

    if left.remove(Ident::from_sym(2)) == Some(1)
        && center.remove(Ident::from_sym(1)) == Some((1, -1))
        && right.remove(Ident::from_sym(3)) == Some(-1)
        && left.is_empty()
        && center.is_empty()
        && right.is_empty()
    {
        Ok(())
    } else {
        Err(String::from("Expected all elements to be in the center part"))
    }
}

#[test]
fn split_keeps_left_order() {
    let mut m1 = IndexMap::new();
    let m2 = IndexMap::<isize>::new();
    m1.insert(Ident::from_sym(4), 40isize);
    m1.insert(Ident::from_sym(2), 20isize);
    m1.insert(Ident::from_sym(9), 90isize);
    let SplitResult { left, .. } = split(m1, m2);
    assert_eq!(left.len(), 3);
    assert_eq!(left.key_at(0), Ident::from_sym(4));
    assert_eq!(left.key_at(1), Ident::from_sym(2));
    assert_eq!(left.key_at(2), Ident::from_sym(9));
}
