use webtoon::stdx::http::{Attempt, Next, Retry, DEFAULT_USER_AGENT, MAX_RETRIES};

#[test]
fn default_user_agent_should_be_expected() {
    const AGENT: &str = "webtoon/0.9.0";
    const { assert!(AGENT.len() == DEFAULT_USER_AGENT.len()) }
    assert_eq!(AGENT, DEFAULT_USER_AGENT);
}

#[test]
fn retry_finishes_on_success() {
    let mut retry = Retry::new(1);
    assert_eq!(retry.next(Attempt::Responded(200), 1), Next::Finish);
}

#[test]
fn retry_gives_up_after_the_last_try() {
    let mut retry = Retry::new(1);
    let mut resends = 0;
    loop {
        match retry.next(Attempt::Failed, 2) {
            Next::Finish => break,
            Next::RetryAfter(_) => resends += 1,
        }
        assert!(resends <= MAX_RETRIES);
    }
    assert_eq!(resends, MAX_RETRIES);
}
