use webtoon::platform::webtoons::client::Session;

#[test]
fn session_should_be_empty() {
    let session = Session::default();
    assert!(session.is_empty());
    let session = Session::new("");
    assert!(session.is_empty());
}

#[test]
fn session_should_not_be_empty() {
    let session = Session::new("session");
    assert!(!session.is_empty());
}

#[test]
fn session_keeps_its_token() {
    assert_eq!(Session::new("abc").token(), Some("abc"));
    assert_eq!(Session::default().token(), None);
}
