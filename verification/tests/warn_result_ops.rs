use warn_result::WarnResult;

#[test]
fn ok_unwrap_gives_value_back() {
    let x: WarnResult<i32, &str, String> = WarnResult::ok(41);
    assert_eq!(x.unwrap(), 41);
}

#[test]
fn constructors_build_their_arm() {
    let a: WarnResult<i32, &str, String> = WarnResult::ok(1);
    assert_eq!(a, WarnResult::Okay(1));
    let b: WarnResult<i32, &str, String> = WarnResult::warning("caveat");
    assert_eq!(b, WarnResult::Warning("caveat"));
    let c: WarnResult<i32, &str, String> = WarnResult::err(String::from("broken"));
    assert_eq!(c, WarnResult::Error(String::from("broken")));
}

#[test]
fn exactly_one_predicate_holds() {
    let all: [WarnResult<u8, u8, u8>; 3] =
        [WarnResult::ok(0), WarnResult::warning(0), WarnResult::err(0)];
    for x in all {
        let mut holding = 0;
        if x.is_ok() {
            holding += 1;
        }
        if x.is_warning() {
            holding += 1;
        }
        if x.is_err() {
            holding += 1;
        }
        assert_eq!(holding, 1);
    }
    assert!(WarnResult::<u8, u8, u8>::ok(0).is_ok());
    assert!(WarnResult::<u8, u8, u8>::warning(0).is_warning());
    assert!(WarnResult::<u8, u8, u8>::err(0).is_err());
}

#[test]
fn unwrap_or_treats_warning_and_error_alike() {
    assert_eq!(WarnResult::<i32, u8, u8>::ok(3).unwrap_or(9), 3);
    assert_eq!(WarnResult::<i32, u8, u8>::warning(1).unwrap_or(9), 9);
    assert_eq!(WarnResult::<i32, u8, u8>::err(1).unwrap_or(9), 9);
}

#[test]
fn unwrap_or_else_calls_producer_off_success_only() {
    let mut calls = 0;
    let got = WarnResult::<i32, u8, u8>::ok(3).unwrap_or_else(|| {
        calls += 1;
        9
    });
    assert_eq!((got, calls), (3, 0));
    let got = WarnResult::<i32, u8, u8>::warning(1).unwrap_or_else(|| {
        calls += 1;
        9
    });
    assert_eq!((got, calls), (9, 1));
    let got = WarnResult::<i32, u8, u8>::err(1).unwrap_or_else(|| {
        calls += 1;
        8
    });
    assert_eq!((got, calls), (8, 2));
}

#[test]
fn unwrap_or_default_gives_zero_value_off_success() {
    assert_eq!(WarnResult::<u32, u8, u8>::ok(12).unwrap_or_default(), 12);
    assert_eq!(WarnResult::<u32, u8, u8>::warning(1).unwrap_or_default(), 0);
    assert_eq!(WarnResult::<u32, u8, u8>::err(1).unwrap_or_default(), 0);
    assert_eq!(WarnResult::<String, u8, u8>::err(1).unwrap_or_default(), "");
    assert_eq!(WarnResult::<bool, u8, u8>::warning(1).unwrap_or_default(), false);
}

#[test]
fn map_transforms_success_only() {
    let x: WarnResult<i32, &str, String> = WarnResult::ok(20);
    assert_eq!(x.map(|v| v + 1), WarnResult::Okay(21));
    let mut called = false;
    let w: WarnResult<i32, &str, String> = WarnResult::warning("kept");
    let mapped: WarnResult<i64, &str, String> = w.map(|v| {
        called = true;
        i64::from(v)
    });
    assert_eq!(mapped, WarnResult::Warning("kept"));
    let e: WarnResult<i32, &str, String> = WarnResult::err(String::from("kept too"));
    let mapped: WarnResult<i64, &str, String> = e.map(|v| {
        called = true;
        i64::from(v)
    });
    assert_eq!(mapped, WarnResult::Error(String::from("kept too")));
    assert!(!called);
}

#[test]
fn map_on_non_ok_then_unwrap_or_gives_default() {
    let w: WarnResult<i32, &str, String> = WarnResult::warning("w");
    assert_eq!(w.map(|v| v * 2).unwrap_or(-1), -1);
    let e: WarnResult<i32, &str, String> = WarnResult::err(String::from("e"));
    assert_eq!(e.map(|v| v * 2).unwrap_or(-1), -1);
    let o: WarnResult<i32, &str, String> = WarnResult::ok(4);
    assert_eq!(o.map(|v| v * 2).unwrap_or(-1), 8);
}

#[test]
fn map_warning_transforms_warning_only() {
    let w: WarnResult<i32, &str, String> = WarnResult::warning("abc");
    assert_eq!(w.map_warning(|s| s.len()), WarnResult::Warning(3));
    let mut called = false;
    let o: WarnResult<i32, &str, String> = WarnResult::ok(5);
    let mapped: WarnResult<i32, usize, String> = o.map_warning(|s| {
        called = true;
        s.len()
    });
    assert_eq!(mapped, WarnResult::Okay(5));
    let e: WarnResult<i32, &str, String> = WarnResult::err(String::from("e"));
    let mapped: WarnResult<i32, usize, String> = e.map_warning(|s| {
        called = true;
        s.len()
    });
    assert_eq!(mapped, WarnResult::Error(String::from("e")));
    assert!(!called);
}

#[test]
fn map_err_transforms_error_only() {
    let e: WarnResult<i32, &str, String> = WarnResult::err(String::from("four"));
    assert_eq!(e.map_err(|s| s.len()), WarnResult::Error(4));
    let mut called = false;
    let o: WarnResult<i32, &str, String> = WarnResult::ok(5);
    let mapped: WarnResult<i32, &str, usize> = o.map_err(|s| {
        called = true;
        s.len()
    });
    assert_eq!(mapped, WarnResult::Okay(5));
    let w: WarnResult<i32, &str, String> = WarnResult::warning("w");
    let mapped: WarnResult<i32, &str, usize> = w.map_err(|s| {
        called = true;
        s.len()
    });
    assert_eq!(mapped, WarnResult::Warning("w"));
    assert!(!called);
}

#[test]
fn ok_or_tells_warning_from_error() {
    assert_eq!(WarnResult::<i32, u8, u8>::ok(3).ok_or(10, 20), 3);
    assert_eq!(WarnResult::<i32, u8, u8>::warning(0).ok_or(10, 20), 10);
    assert_eq!(WarnResult::<i32, u8, u8>::err(0).ok_or(10, 20), 20);
}

#[test]
fn ok_or_with_payload_equal_to_a_default() {
    assert_eq!(WarnResult::<i32, u8, u8>::ok(10).ok_or(10, 20), 10);
    assert_eq!(WarnResult::<i32, u8, u8>::warning(0).ok_or(7, 7), 7);
    assert_eq!(WarnResult::<i32, u8, u8>::err(0).ok_or(7, 7), 7);
}

#[test]
fn ok_or_else_calls_the_producer_of_the_arm() {
    let mut warn_calls = 0;
    let mut err_calls = 0;
    let got = WarnResult::<i32, u8, u8>::ok(3).ok_or_else(
        || {
            warn_calls += 1;
            10
        },
        || {
            err_calls += 1;
            20
        },
    );
    assert_eq!((got, warn_calls, err_calls), (3, 0, 0));
    let got = WarnResult::<i32, u8, u8>::warning(0).ok_or_else(
        || {
            warn_calls += 1;
            10
        },
        || {
            err_calls += 1;
            20
        },
    );
    assert_eq!((got, warn_calls, err_calls), (10, 1, 0));
    let got = WarnResult::<i32, u8, u8>::err(0).ok_or_else(
        || {
            warn_calls += 1;
            10
        },
        || {
            err_calls += 1;
            20
        },
    );
    assert_eq!((got, warn_calls, err_calls), (20, 1, 1));
}

#[test]
fn warn_result_is_copy_and_compares_by_value() {
    let x: WarnResult<i32, u8, u8> = WarnResult::err(4);
    let y = x;
    assert_eq!(x, y);
    assert_eq!(x.clone(), WarnResult::Error(4));
    assert_ne!(WarnResult::<i32, i32, i32>::Warning(4), WarnResult::<i32, i32, i32>::Error(4));
    assert_ne!(WarnResult::<i32, i32, i32>::Okay(4), WarnResult::<i32, i32, i32>::Warning(4));
    assert_eq!(format!("{:?}", WarnResult::<i32, u8, u8>::Error(2)), "Error(2)");
}
