use patina_sre::efi::EfiError;
use patina_sre::interleave::{
    interleave_connect_and_dispatch, InterleaveAction, InterleaveAnswer, MAX_ROUNDS,
};
use r_efi::efi;

/// Runs the rounds with these answers of the dispatcher, each used once. Gives
/// the result and how often the controllers were connected.
fn interleave(
    connected: Result<(), EfiError>,
    dispatched: &[Result<bool, EfiError>],
) -> (Result<(), EfiError>, usize, usize) {
    let mut interleave = interleave_connect_and_dispatch();
    let (mut connects, mut dispatches) = (0, 0);
    loop {
        let answer = match interleave.action() {
            InterleaveAction::ConnectAll => {
                connects += 1;
                InterleaveAnswer::Connected(connected)
            }
            InterleaveAction::Dispatch => {
                dispatches += 1;
                InterleaveAnswer::Dispatched(dispatched[dispatches - 1])
            }
            InterleaveAction::Finished(result) => return (result, connects, dispatches),
        };
        interleave = interleave.advance(answer);
    }
}

fn device_error() -> EfiError {
    EfiError::from_status(efi::Status::DEVICE_ERROR.as_usize())
}

#[test]
fn test_interleave_single_round_no_drivers_dispatched() {
    let (result, connects, dispatches) = interleave(Ok(()), &[Ok(false)]);
    assert!(result.is_ok());
    assert_eq!((connects, dispatches), (1, 1));
}

#[test]
fn test_interleave_dispatch_failure_propagates() {
    let (result, _, _) = interleave(Ok(()), &[Err(device_error())]);
    assert!(result.is_err());
    assert_eq!(result, Err(device_error()));
}

#[test]
fn test_interleave_stops_at_max_rounds() {
    let (result, connects, dispatches) = interleave(Ok(()), &[Ok(true); 10]);
    assert!(result.is_ok());
    assert_eq!((connects, dispatches), (MAX_ROUNDS, MAX_ROUNDS));
}

#[test]
fn rounds_end_when_nothing_is_dispatched() {
    assert_eq!(interleave(Ok(()), &[Ok(true), Ok(true), Ok(false)]), (Ok(()), 3, 3));
}

#[test]
fn failed_connection_ends_the_rounds() {
    assert_eq!(interleave(Err(device_error()), &[]), (Err(device_error()), 1, 0));
}
