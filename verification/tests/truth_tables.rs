use curry_howard::{And, Equal, False, Imply, Not, Or, Prop, True};

#[test]
fn test_bool() {
    assert!(True::VALUE);
    assert!(!False::VALUE);
}

#[test]
fn test_not() {
    assert!(!Not::<True>::VALUE);
    assert!(Not::<False>::VALUE);
}

#[test]
fn test_and() {
    assert!(And::<True, True>::VALUE);
    assert!(!And::<True, False>::VALUE);
    assert!(!And::<False, True>::VALUE);
    assert!(!And::<False, False>::VALUE);
}

#[test]
fn test_or() {
    assert!(Or::<True, True>::VALUE);
    assert!(Or::<True, False>::VALUE);
    assert!(Or::<False, True>::VALUE);
    assert!(!Or::<False, False>::VALUE);
}

#[test]
fn test_imply() {
    assert!(Imply::<True, True>::VALUE);
    assert!(!Imply::<True, False>::VALUE);
    assert!(Imply::<False, True>::VALUE);
    assert!(Imply::<False, False>::VALUE);
}

#[test]
fn test_equal() {
    assert!(Equal::<True, True>::VALUE);
    assert!(!Equal::<True, False>::VALUE);
    assert!(!Equal::<False, True>::VALUE);
    assert!(Equal::<False, False>::VALUE);
}
