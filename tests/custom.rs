use gat_monads::{MyOption, MyResult};

#[test]
fn test_option_map() {
    assert_eq!(MyOption::Present(5).map(|x| x + 1), MyOption::Present(6));
    assert_eq!(MyOption::Absent.map(|x: i32| x + 1), MyOption::Absent);
}

#[test]
fn test_result_map() {
    assert_eq!(MyResult::Success(5).map(|x| x + 1), MyResult::Success::<i32, ()>(6));
}

#[test]
fn my_option_map_changes_type() {
    assert_eq!(
        MyOption::Present(12).map(|x: i32| format!("n{}", x)),
        MyOption::Present(String::from("n12"))
    );
}

#[test]
fn my_option_map_absent_never_calls() {
    let mut calls: u32 = 0;
    let r = MyOption::Absent.map(|x: i32| {
        calls += 1;
        x + 1
    });
    assert_eq!(r, MyOption::Absent);
    assert_eq!(calls, 0);
}

#[test]
fn my_option_map_present_calls_once() {
    let mut calls: u32 = 0;
    let r = MyOption::Present(2).map(|x: i32| {
        calls += 1;
        x * 7
    });
    assert_eq!(r, MyOption::Present(14));
    assert_eq!(calls, 1);
}

#[test]
fn my_result_map_keeps_error() {
    let mut calls: u32 = 0;
    let r = MyResult::<i32, String>::Error(String::from("bad")).map(|x: i32| {
        calls += 1;
        x + 1
    });
    assert_eq!(r, MyResult::Error(String::from("bad")));
    assert_eq!(calls, 0);
}

#[test]
fn my_result_map_changes_success_type() {
    let mut calls: u32 = 0;
    let r = MyResult::<i32, u8>::Success(9).map(|x: i32| {
        calls += 1;
        x > 5
    });
    assert_eq!(r, MyResult::Success(true));
    assert_eq!(calls, 1);
}
