use laska::poll::{poll_outcome, poll_timeout, PollError, PollResult};

#[test]
fn timeout_argument() {
    assert_eq!(poll_timeout(Some(250)), 250);
    assert_eq!(poll_timeout(Some(0)), 0);
    assert_eq!(poll_timeout(None), -1);
}

#[test]
fn return_code_is_read() {
    assert_eq!(poll_outcome(0, PollError::EINTR), Ok(PollResult::Timeout));
    assert_eq!(poll_outcome(1, PollError::EINTR), Ok(PollResult::Ready(1)));
    assert_eq!(poll_outcome(3, PollError::EINTR), Ok(PollResult::Ready(3)));
    for error in [PollError::EFAULT, PollError::EINTR, PollError::EINVAL, PollError::ENOMEM] {
        assert_eq!(poll_outcome(-1, error), Err(error));
    }
}
