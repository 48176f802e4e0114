use feos_c::derivative::EvaluationError;
use feos_c::message::{append_decimal, bounded_message, status_of, STATUS_FAILED, STATUS_OK};

#[test]
fn decimal_notation() {
    let mut s = String::from("n=");
    append_decimal(&mut s, 0);
    assert_eq!(s, "n=0");
    let mut s = String::new();
    append_decimal(&mut s, 1203);
    assert_eq!(s, "1203");
    let mut s = String::new();
    append_decimal(&mut s, usize::MAX);
    assert_eq!(s, usize::MAX.to_string());
}

#[test]
fn unsupported_order_message() {
    let e = EvaluationError::UnsupportedOrder { order_temperature: 3, order_density: 0 };
    assert_eq!(
        e.message(),
        "unimplemented derivative order (3, 0): the highest supported orders are 2 in temperature and 2 in density"
    );
}

#[test]
fn composition_message() {
    let e = EvaluationError::CompositionLength { expected: 1, found: 12 };
    assert_eq!(
        e.message(),
        "mole-fraction array has 12 entries, the equation of state has 1 components"
    );
}

#[test]
fn message_fits_buffer() {
    assert_eq!(bounded_message(b"abc", 8), vec![b'a', b'b', b'c', 0]);
    assert_eq!(bounded_message(b"abc", 4), vec![b'a', b'b', b'c', 0]);
}

#[test]
fn message_truncated_to_buffer() {
    assert_eq!(bounded_message(b"abc", 3), vec![b'a', b'b', 0]);
    assert_eq!(bounded_message(b"abc", 1), vec![0]);
    assert_eq!(bounded_message(b"abc", 0), Vec::<u8>::new());
    assert_eq!(bounded_message(b"", 5), vec![0]);
}

#[test]
fn status_codes() {
    assert_eq!(STATUS_OK, 0);
    assert_ne!(STATUS_FAILED, 0);
    let ok: Result<u8, EvaluationError> = Ok(1);
    let failed: Result<u8, EvaluationError> =
        Err(EvaluationError::UnsupportedOrder { order_temperature: 3, order_density: 0 });
    assert_eq!(status_of(&ok), STATUS_OK);
    assert_eq!(status_of(&failed), STATUS_FAILED);
}
