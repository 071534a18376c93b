//! Classification of how a launch of the external process ended: exactly
//! a zero exit code is success, and the two failure kinds stay apart.

use ffust::CommandFailure;
use ffust::FFust;
use ffust::FFustError;

#[test]
fn zero_exit_code_is_success() {
    let r = FFust::classify_execution(Ok(Some(0)));
    assert!(r.is_ok());
}

#[test]
fn nonzero_exit_code_carries_the_code() {
    let r = FFust::classify_execution(Ok(Some(1)));
    assert!(matches!(
        r,
        Err(FFustError::CommandExecutingError(CommandFailure::ProcessFailed(Some(1))))
    ));
    let r = FFust::classify_execution(Ok(Some(127)));
    assert!(matches!(
        r,
        Err(FFustError::CommandExecutingError(CommandFailure::ProcessFailed(Some(127))))
    ));
    let r = FFust::classify_execution(Ok(Some(-9)));
    assert!(matches!(
        r,
        Err(FFustError::CommandExecutingError(CommandFailure::ProcessFailed(Some(-9))))
    ));
}

#[test]
fn termination_without_code_is_a_process_failure() {
    let r = FFust::classify_execution(Ok(None));
    assert!(matches!(
        r,
        Err(FFustError::CommandExecutingError(CommandFailure::ProcessFailed(None)))
    ));
}

#[test]
fn failed_launch_carries_the_description() {
    let r = FFust::classify_execution(Err("No such file or directory".to_string()));
    match r {
        Err(FFustError::CommandExecutingError(CommandFailure::LaunchFailed(d))) => {
            assert_eq!(d, "No such file or directory");
        }
        _ => panic!("expected a launch failure"),
    }
}

#[test]
fn failure_kinds_are_distinguishable() {
    let ran = FFust::classify_execution(Ok(Some(2)));
    let unlaunchable = FFust::classify_execution(Err("denied".to_string()));
    assert!(matches!(
        ran,
        Err(FFustError::CommandExecutingError(CommandFailure::ProcessFailed(_)))
    ));
    assert!(matches!(
        unlaunchable,
        Err(FFustError::CommandExecutingError(CommandFailure::LaunchFailed(_)))
    ));
}
