use std::io;
use std::io::ErrorKind;

use dv_toolbox_core::ioutil::after_attempt;
use dv_toolbox_core::ioutil::retry_if_interrupted;
use dv_toolbox_core::ioutil::Attempt;

#[test]
fn test_retry_if_interrupted() {
    let mut call_count = 0;
    retry_if_interrupted(|| {
        call_count += 1;
        if call_count < 3 {
            Err(io::Error::new(ErrorKind::Interrupted, "interrupted"))
        } else {
            Ok(())
        }
    })
    .unwrap();

    assert_eq!(call_count, 3);
}

#[test]
fn other_errors_are_not_retried() {
    let mut call_count = 0;
    let result: io::Result<()> = retry_if_interrupted(|| {
        call_count += 1;
        Err(io::Error::new(ErrorKind::NotFound, "missing"))
    });
    assert_eq!(result.unwrap_err().kind(), ErrorKind::NotFound);
    assert_eq!(call_count, 1);
}

#[test]
fn the_step_after_an_attempt() {
    assert!(matches!(after_attempt::<u8, u8>(Err(1), true, 5), Attempt::Retry));
    assert!(matches!(after_attempt::<u8, u8>(Err(1), true, 0), Attempt::Done(Err(1))));
    assert!(matches!(after_attempt::<u8, u8>(Err(1), false, 5), Attempt::Done(Err(1))));
    assert!(matches!(after_attempt::<u8, u8>(Ok(7), false, 5), Attempt::Done(Ok(7))));
    assert!(matches!(after_attempt::<u8, u8>(Ok(7), true, 5), Attempt::Done(Ok(7))));
}
