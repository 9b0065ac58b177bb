use partial::Partial;

#[test]
fn unwrap_returns_value_payload() {
    assert_eq!(Partial::Value(3).unwrap(), 3);
}

#[test]
fn unwrap_returns_fake_payload() {
    assert_eq!(Partial::Fake("placeholder").unwrap(), "placeholder");
}

#[test]
fn expect_returns_payload() {
    assert_eq!(Partial::Value(8).expect("must hold a payload"), 8);
    assert_eq!(Partial::Fake(9).expect("must hold a payload"), 9);
}

#[test]
fn unwrap_or_else_keeps_present_payload() {
    let mut calls = 0;
    let v = Partial::Value(1).unwrap_or_else(|| {
        calls += 1;
        10
    });
    assert_eq!(v, 1);
    let f = Partial::Fake(2).unwrap_or_else(|| {
        calls += 1;
        10
    });
    assert_eq!(f, 2);
    assert_eq!(calls, 0);
}

#[test]
fn unwrap_or_else_runs_fallback_once_on_nothing() {
    let mut calls = 0;
    let r = Partial::Nothing.unwrap_or_else(|| {
        calls += 1;
        42
    });
    assert_eq!(r, 42);
    assert_eq!(calls, 1);
}

#[test]
fn variants_compare_by_tag_and_payload() {
    assert_eq!(Partial::Value(1), Partial::Value(1));
    assert_ne!(Partial::Value(1), Partial::Fake(1));
    assert_ne!(Partial::Value(1), Partial::Nothing);
    assert_ne!(Partial::Fake(1), Partial::Nothing);
}
