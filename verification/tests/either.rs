use teloxide_listener::Either;

#[test]
fn either_calls_the_function_of_the_held_side() {
    let left: Either<u8, String> = Either::Left(7);
    let right: Either<u8, String> = Either::Right("abc".to_string());
    assert_eq!(left.either(|n| n as usize + 1, |s| s.len()), 8);
    assert_eq!(right.either(|n| n as usize + 1, |s| s.len()), 3);
}

#[test]
fn either_never_calls_the_other_function() {
    let left: Either<u8, u8> = Either::Left(7);
    assert_eq!(left.either(|n| n, |_| panic!("the right side is not held")), 7);
    let right: Either<u8, u8> = Either::Right(9);
    assert_eq!(right.either(|_| panic!("the left side is not held"), |n| n), 9);
}

#[test]
fn as_ref_keeps_side_and_value() {
    let left: Either<u8, String> = Either::Left(7);
    assert!(matches!(left.as_ref(), Either::Left(&7)));
    let right: Either<u8, String> = Either::Right("abc".to_string());
    assert_eq!(right.as_ref().either(|_| 0, |s| s.len()), 3);
    assert!(matches!(right, Either::Right(_)));
}

#[test]
fn as_mut_changes_the_held_value_in_place() {
    let mut value: Either<u8, String> = Either::Right("abc".to_string());
    value.as_mut().either(|n| *n += 1, |s| s.push('d'));
    assert!(matches!(value.as_ref(), Either::Right(s) if s == "abcd"));
    let mut value: Either<u8, String> = Either::Left(1);
    value.as_mut().either(|n| *n += 1, |s| s.push('d'));
    assert!(matches!(value, Either::Left(2)));
}

#[test]
fn either_with_hands_the_context_to_the_called_function() {
    let mut log: Vec<String> = Vec::new();
    let left: Either<u8, String> = Either::Left(7);
    left.either_with(
        &mut log,
        |log: &mut Vec<String>, n| log.push(format!("left {}", n)),
        |log: &mut Vec<String>, s| log.push(format!("right {}", s)),
    );
    let right: Either<u8, String> = Either::Right("abc".to_string());
    right.either_with(
        &mut log,
        |log: &mut Vec<String>, n| log.push(format!("left {}", n)),
        |log: &mut Vec<String>, s| log.push(format!("right {}", s)),
    );
    assert_eq!(log, vec!["left 7".to_string(), "right abc".to_string()]);
}

#[test]
fn map_keeps_the_side() {
    let left: Either<u8, String> = Either::Left(7);
    assert!(matches!(left.map(|n| n + 1, |s| s.len()), Either::Left(8)));
    let right: Either<u8, String> = Either::Right("abc".to_string());
    assert!(matches!(right.map(|n| n + 1, |s| s.len()), Either::Right(3)));
}

#[test]
fn dispatch_equals_direct_call_on_each_side() {
    let double = |n: u32| n * 2;
    let length = |s: &str| s.len() as u32;
    for n in [0u32, 1, 21] {
        let held: Either<u32, &str> = Either::Left(n);
        assert_eq!(held.either(double, length), double(n));
    }
    for s in ["", "a", "update"] {
        let held: Either<u32, &str> = Either::Right(s);
        assert_eq!(held.either(double, length), length(s));
    }
}

#[test]
fn stop_consumes_the_held_handle_once() {
    let mut stopped: Vec<&str> = Vec::new();
    let handle: Either<&str, &str> = Either::Right("server");
    handle.either_with(
        &mut stopped,
        |stopped: &mut Vec<&str>, name| stopped.push(name),
        |stopped: &mut Vec<&str>, name| stopped.push(name),
    );
    assert_eq!(stopped, vec!["server"]);
}
