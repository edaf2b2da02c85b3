use tristate::TriState;

#[test]
fn from_bool_maps_each_value() {
    assert_eq!(TriState::from(true), TriState::True);
    assert_eq!(TriState::from(false), TriState::False);
}

#[test]
fn from_option_bool_covers_all_inputs() {
    assert_eq!(TriState::from(Some(true)), TriState::True);
    assert_eq!(TriState::from(Some(false)), TriState::False);
    assert_eq!(TriState::from(None), TriState::Default);
}

#[test]
fn bool_round_trip() {
    for b in [false, true] {
        assert_eq!(TriState::from(b).to_bool(), b);
    }
}

#[test]
fn option_bool_round_trip() {
    for o in [None, Some(false), Some(true)] {
        assert_eq!(TriState::from(o).to_option_bool(), o);
    }
}

#[test]
fn to_bool_collapses_default_to_false() {
    assert_eq!(TriState::True.to_bool(), true);
    assert_eq!(TriState::False.to_bool(), false);
    assert_eq!(TriState::Default.to_bool(), false);
}

#[test]
fn to_option_bool_maps_default_to_none() {
    assert_eq!(TriState::False.to_option_bool(), Some(false));
    assert_eq!(TriState::Default.to_option_bool(), None);
    assert_eq!(TriState::True.to_option_bool(), Some(true));
}

#[test]
fn bool_from_tristate_collapses_default() {
    assert_eq!(bool::from(TriState::True), true);
    assert_eq!(bool::from(TriState::False), false);
    assert_eq!(bool::from(TriState::Default), false);
}

#[test]
fn option_bool_from_tristate_keeps_default_absent() {
    assert_eq!(Option::<bool>::from(TriState::True), Some(true));
    assert_eq!(Option::<bool>::from(TriState::False), Some(false));
    assert_eq!(Option::<bool>::from(TriState::Default), None);
}

#[test]
fn ordering_is_false_then_default_then_true() {
    assert!(TriState::False < TriState::Default);
    assert!(TriState::Default < TriState::True);
    assert!(TriState::False < TriState::True);
}

#[test]
fn sorting_orders_variants() {
    let mut v = vec![TriState::True, TriState::False, TriState::Default];
    v.sort();
    assert_eq!(v, vec![TriState::False, TriState::Default, TriState::True]);
}

#[test]
fn default_constructed_is_the_default_variant() {
    let t: TriState = Default::default();
    assert_eq!(t, TriState::Default);
    assert_ne!(t, TriState::True);
    assert_ne!(t, TriState::False);
}

#[test]
fn or_else_resolves_default_to_the_fallback() {
    assert_eq!(TriState::Default.or_else(true), true);
    assert_eq!(TriState::Default.or_else(false), false);
    assert_eq!(TriState::True.or_else(true), true);
    assert_eq!(TriState::True.or_else(false), true);
    assert_eq!(TriState::False.or_else(true), false);
    assert_eq!(TriState::False.or_else(false), false);
}

#[test]
fn or_else_get_skips_the_supplier_for_explicit_values() {
    let mut calls = 0;
    let r = TriState::True.or_else_get(|| {
        calls += 1;
        false
    });
    assert_eq!(r, true);
    assert_eq!(calls, 0);
    let r = TriState::False.or_else_get(|| {
        calls += 1;
        true
    });
    assert_eq!(r, false);
    assert_eq!(calls, 0);
}

#[test]
fn or_else_get_calls_the_supplier_once_for_default() {
    let mut calls = 0;
    let r = TriState::Default.or_else_get(|| {
        calls += 1;
        true
    });
    assert_eq!(r, true);
    assert_eq!(calls, 1);
    let mut calls = 0;
    let r = TriState::Default.or_else_get(|| {
        calls += 1;
        false
    });
    assert_eq!(r, false);
    assert_eq!(calls, 1);
}

#[test]
fn labels_match_the_variant_names() {
    assert_eq!(TriState::False.label(), "False");
    assert_eq!(TriState::Default.label(), "Default");
    assert_eq!(TriState::True.label(), "True");
}
