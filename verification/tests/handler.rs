use minimal_reporter::handler::MinimalOutputHandler;
use minimal_reporter::message::Event;
use minimal_reporter::message::ListVariant;
use minimal_reporter::message::Message;
use minimal_reporter::sink::MemorySink;
use minimal_reporter::version::BareVersion;

#[test]
fn find_with_result() {
    let min_available = BareVersion::ThreeComponents(1, 0, 0);
    let max_available = BareVersion::ThreeComponents(2, 0, 0);

    let event = Event::new(Message::ResolvedVersion {
        version: Some(BareVersion::ThreeComponents(1, 10, 100)),
        target: "my-target".to_string(),
        min_available,
        max_available,
    });

    let s = MemorySink::new();
    let f = MemorySink::new();
    let mut handler = MinimalOutputHandler::new(s, f);
    handler.handle(event);

    let s = handler.inner_success_writer().bytes().clone();
    let s = String::from_utf8_lossy(&s);
    assert_eq!(s.as_ref(), "1.10.100\n");

    let f = handler.inner_failure_writer().bytes().clone();
    let f = String::from_utf8_lossy(&f);
    assert_eq!(f.as_ref(), "");
}

#[test]
fn find_without_result() {
    let min_available = BareVersion::ThreeComponents(1, 0, 0);
    let max_available = BareVersion::ThreeComponents(2, 0, 0);

    let event = Event::new(Message::ResolvedVersion {
        version: None,
        target: "my-target".to_string(),
        min_available,
        max_available,
    });

    let s = MemorySink::new();
    let f = MemorySink::new();
    let mut handler = MinimalOutputHandler::new(s, f);
    handler.handle(event);

    let s = handler.inner_success_writer().bytes().clone();
    let s = String::from_utf8_lossy(&s);
    assert_eq!(s.as_ref(), "");

    let f = handler.inner_failure_writer().bytes().clone();
    let f = String::from_utf8_lossy(&f);
    assert_eq!(f.as_ref(), "none\n");
}

#[test]
fn list_direct_deps() {
    let event = Event::new(Message::ListResult {
        variant: ListVariant::DirectDeps,
        root: "hello_world".to_string(),
    });

    let s = MemorySink::new();
    let f = MemorySink::new();
    let mut handler = MinimalOutputHandler::new(s, f);
    handler.handle(event);

    let s = handler.inner_success_writer().bytes().clone();
    let s = String::from_utf8_lossy(&s);
    assert_eq!(s.as_ref(), "");

    let f = handler.inner_failure_writer().bytes().clone();
    let f = String::from_utf8_lossy(&f);
    assert_eq!(f.as_ref(), "unsupported\n");
}

#[test]
fn set_output() {
    let event = Event::new(Message::SetOutput {
        version: BareVersion::TwoComponents(1, 20),
        manifest_path: "/my/path".to_string(),
    });

    let s = MemorySink::new();
    let f = MemorySink::new();
    let mut handler = MinimalOutputHandler::new(s, f);
    handler.handle(event);

    let s = handler.inner_success_writer().bytes().clone();
    let s = String::from_utf8_lossy(&s);
    assert_eq!(s.as_ref(), "1.20\n");

    let f = handler.inner_failure_writer().bytes().clone();
    let f = String::from_utf8_lossy(&f);
    assert_eq!(f.as_ref(), "");
}

#[test]
fn show_output() {
    let event = Event::new(Message::ShowOutput {
        version: BareVersion::ThreeComponents(1, 40, 3),
        manifest_path: "/my/path".to_string(),
    });

    let s = MemorySink::new();
    let f = MemorySink::new();
    let mut handler = MinimalOutputHandler::new(s, f);
    handler.handle(event);

    let s = handler.inner_success_writer().bytes().clone();
    let s = String::from_utf8_lossy(&s);
    assert_eq!(s.as_ref(), "1.40.3\n");

    let f = handler.inner_failure_writer().bytes().clone();
    let f = String::from_utf8_lossy(&f);
    assert_eq!(f.as_ref(), "");
}

#[test]
fn verify_true() {
    let event = Event::new(Message::VerifyResult {
        toolchain_version: BareVersion::ThreeComponents(1, 2, 3),
        target: "test_target".to_string(),
        compatible: true,
        error: None,
    });

    let s = MemorySink::new();
    let f = MemorySink::new();
    let mut handler = MinimalOutputHandler::new(s, f);
    handler.handle(event);

    let s = handler.inner_success_writer().bytes().clone();
    let s = String::from_utf8_lossy(&s);
    assert_eq!(s.as_ref(), "true\n");

    let f = handler.inner_failure_writer().bytes().clone();
    let f = String::from_utf8_lossy(&f);
    assert_eq!(f.as_ref(), "");
}

#[test]
fn verify_false_no_error_message() {
    let event = Event::new(Message::VerifyResult {
        toolchain_version: BareVersion::ThreeComponents(1, 2, 3),
        target: "test_target".to_string(),
        compatible: false,
        error: None,
    });

    let s = MemorySink::new();
    let f = MemorySink::new();
    let mut handler = MinimalOutputHandler::new(s, f);
    handler.handle(event);

    let s = handler.inner_success_writer().bytes().clone();
    let s = String::from_utf8_lossy(&s);
    assert_eq!(s.as_ref(), "");

    let f = handler.inner_failure_writer().bytes().clone();
    let f = String::from_utf8_lossy(&f);
    assert_eq!(f.as_ref(), "false\n");
}

#[test]
fn verify_false_with_error_message() {
    let event = Event::new(Message::VerifyResult {
        toolchain_version: BareVersion::ThreeComponents(1, 2, 3),
        target: "test_target".to_string(),
        compatible: false,
        error: Some("error message".to_string()),
    });

    let s = MemorySink::new();
    let f = MemorySink::new();
    let mut handler = MinimalOutputHandler::new(s, f);
    handler.handle(event);

    let s = handler.inner_success_writer().bytes().clone();
    let s = String::from_utf8_lossy(&s);
    assert_eq!(s.as_ref(), "");

    let f = handler.inner_failure_writer().bytes().clone();
    let f = String::from_utf8_lossy(&f);
    assert_eq!(f.as_ref(), "false\n");
}

#[test]
fn unreported_event() {
    let event = Event::new(Message::Progress {
        current: 1,
        search_space: 100,
        iteration: 50,
    });

    let s = MemorySink::new();
    let f = MemorySink::new();
    let mut handler = MinimalOutputHandler::new(s, f);
    handler.handle(event);

    let s = handler.inner_success_writer().bytes().clone();
    let s = String::from_utf8_lossy(&s);
    assert_eq!(s.as_ref(), "");

    let f = handler.inner_failure_writer().bytes().clone();
    let f = String::from_utf8_lossy(&f);
    assert_eq!(f.as_ref(), "");
}
