use gallery_dl::progress::{Msg, Status, Update};
use gallery_dl::task::{TaskPhase, TaskProgress};

/// The full phase sequence of one attempt, in order, with the right
/// events.
#[test]
fn full_phase_sequence() {
    let mut t = TaskProgress::new(4);
    assert_eq!(t.phase(), TaskPhase::Fresh);

    let m = t.begin_resolving();
    assert!(matches!(m, Msg::Update(Update { id: 4, status: Status::ResolvingUrl })));
    assert_eq!(t.phase(), TaskPhase::Resolving);

    let m = t.begin_file(String::from("12.png"));
    match m {
        Msg::Update(Update { id, status: Status::Starting(name) }) => {
            assert_eq!(id, 4);
            assert_eq!(name, "12.png");
        },
        other => panic!("expected a starting event, got {:?}", other),
    }
    assert_eq!(t.phase(), TaskPhase::Started);

    let m = t.begin_body();
    assert!(matches!(m, Msg::Update(Update { id: 4, status: Status::Downloading })));
    assert_eq!(t.phase(), TaskPhase::Downloading);

    let m = t.finish();
    assert!(matches!(m, Msg::Update(Update { id: 4, status: Status::Done })));
    assert_eq!(t.phase(), TaskPhase::Finished);
}

/// An empty body skips the downloading phase: a task may finish straight
/// from its named file.
#[test]
fn empty_body_skips_downloading() {
    let mut t = TaskProgress::new(0);
    t.begin_resolving();
    t.begin_file(String::from("empty.gif"));
    let m = t.finish();
    assert!(matches!(m, Msg::Update(Update { id: 0, status: Status::Done })));
}

/// A failed attempt restarts the sequence from the beginning.
#[test]
fn restart_after_failed_attempt() {
    let mut t = TaskProgress::new(9);
    t.begin_resolving();
    t.begin_file(String::from("3.jpg"));
    t.restart();
    assert_eq!(t.phase(), TaskPhase::Fresh);
    let m = t.begin_resolving();
    assert!(matches!(m, Msg::Update(Update { id: 9, status: Status::ResolvingUrl })));
}
