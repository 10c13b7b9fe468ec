use gat_monads::{ping, Functor};

#[test]
fn main_test_option_map() {
    assert_eq!(Functor::map(Some(5), |x| ping(x)), Some(String::from("fixed")));
    assert_eq!(Functor::map(None, |x: i32| x + 1), None);
}

#[test]
fn ping_ignores_its_argument() {
    assert_eq!(ping(0), "fixed");
    assert_eq!(ping(-17), "fixed");
    assert_eq!(ping(i32::MAX), "fixed");
}

#[test]
fn map_present_applies_once() {
    let mut calls: u32 = 0;
    let r = Functor::map(Some(5), |x: i32| {
        calls += 1;
        x + 1
    });
    assert_eq!(r, Some(6));
    assert_eq!(calls, 1);
}

#[test]
fn map_absent_never_calls() {
    let mut calls: u32 = 0;
    let r = Functor::map(None, |x: i32| {
        calls += 1;
        x + 1
    });
    assert_eq!(r, None);
    assert_eq!(calls, 0);
}
