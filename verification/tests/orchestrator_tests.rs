use gallery_dl::downloaders::Msg as GalleryMsg;
use gallery_dl::orchestrator::{Run, RunError};
use gallery_dl::progress::{Msg, Reporter, Status, Update};
use gallery_dl::uri::{parse_url, Url};

fn image_url(path: &str) -> Url {
    let mut text = String::from("https://cdn.example.com");
    text.push_str(path);
    parse_url(&text).expect("test url must parse")
}

/// A gallery with title "Foo/Bar" and three image URLs: the directory is
/// named "Foo_Bar", three tasks run, the aggregate reaches 3 of 3, and
/// the run succeeds.
#[test]
fn scenario_three_images_full_success() {
    let mut run = Run::new(3);
    let mut reporter = Reporter::new();

    let dir = run.on_title("Foo/Bar").expect("first title is accepted");
    assert_eq!(dir, "Foo_Bar");

    let urls = vec![image_url("/g/1.jpg"), image_url("/g/2.jpg"), image_url("/g/3.jpg")];
    let announce = run.on_images_announced(urls.len());
    assert!(matches!(announce, Msg::IncLen(3)));
    reporter.handle(&announce).expect("announcement is consistent");

    let mut ids = Vec::new();
    for url in urls {
        assert!(run.can_spawn());
        let task = run.start_task(url);
        ids.push(task.id);
        reporter
            .handle(&Msg::Update(Update { id: task.id, status: Status::ResolvingUrl }))
            .expect("fresh id");
    }
    assert_eq!(ids, vec![0, 1, 2]);

    // completion order differs from admission order
    for id in [2usize, 0, 1] {
        reporter
            .handle(&Msg::Update(Update { id, status: Status::Done }))
            .expect("open id");
        run.on_task_end(true);
    }

    assert_eq!(reporter.completed(), 3);
    assert_eq!(reporter.total(), Some(3));
    assert_eq!(reporter.open_count(), 0);

    let summary = run.take_outcome().expect("no fatal error: exit zero");
    assert_eq!(summary.done, 3);
    assert_eq!(summary.failed, 0);
    assert_eq!(summary.announced, 3);
}

/// The resolver reports "page not found" before any images: the run
/// fails (non-zero exit) and no directory name ever exists.
#[test]
fn scenario_resolver_error_before_images() {
    let mut run = Run::new(3);

    // what the orchestrator does on GalleryMsg::Error
    let msg = GalleryMsg::Error(String::from("page not found"));
    if let GalleryMsg::Error(text) = msg {
        run.on_fatal(RunError::Resolver(text));
    }

    assert!(run.dir_name().is_none());
    assert!(run.is_fatal());
    match run.take_outcome() {
        Err(RunError::Resolver(text)) => assert_eq!(text, "page not found"),
        other => panic!("expected a resolver error, got {:?}", other),
    }
}

/// One of five images fails permanently: the run still succeeds
/// (best-effort, exit zero), four completions are counted, one failure
/// is recorded, and the aggregate shows 4 of 5.
#[test]
fn scenario_one_of_five_fails() {
    let mut run = Run::new(2);
    let mut reporter = Reporter::new();

    run.on_title("title").expect("first title");
    let announce = run.on_images_announced(5);
    reporter.handle(&announce).expect("announcement");

    let mut pending: Vec<usize> = Vec::new();
    for n in 0..5usize {
        while !run.can_spawn() {
            let id = pending.remove(0);
            let success = id != 3;
            if success {
                reporter
                    .handle(&Msg::Update(Update { id, status: Status::Done }))
                    .expect("open id");
            }
            run.on_task_end(success);
        }
        let task = run.start_task(image_url("/img/x.png"));
        assert_eq!(task.id, n);
        reporter
            .handle(&Msg::Update(Update { id: task.id, status: Status::ResolvingUrl }))
            .expect("fresh id");
        pending.push(task.id);
    }
    for id in pending {
        let success = id != 3;
        if success {
            reporter
                .handle(&Msg::Update(Update { id, status: Status::Done }))
                .expect("open id");
        }
        run.on_task_end(success);
    }

    assert_eq!(reporter.completed(), 4);
    assert_eq!(reporter.total(), Some(5));

    let summary = run.take_outcome().expect("isolated failures keep exit zero");
    assert_eq!(summary.done, 4);
    assert_eq!(summary.failed, 1);
    assert_eq!(summary.announced, 5);
}

/// Never more than `jobs` tasks hold a slot at once.
#[test]
fn concurrency_stays_bounded() {
    let mut run = Run::new(2);
    run.on_title("t").expect("first title");
    run.on_images_announced(4);

    assert!(run.in_flight() <= run.jobs());
    run.start_task(image_url("/a/1.png"));
    assert!(run.in_flight() <= run.jobs());
    run.start_task(image_url("/a/2.png"));
    assert_eq!(run.in_flight(), 2);
    assert!(!run.can_spawn());

    run.on_task_end(true);
    assert!(run.can_spawn());
    run.start_task(image_url("/a/3.png"));
    assert_eq!(run.in_flight(), 2);
    assert!(run.in_flight() <= run.jobs());
}

/// Task ids increase strictly in admission order, across batches.
#[test]
fn task_ids_increase_across_batches() {
    let mut run = Run::new(4);
    run.on_title("t").expect("first title");

    run.on_images_announced(2);
    let a = run.start_task(image_url("/b/1.png"));
    let b = run.start_task(image_url("/b/2.png"));
    run.on_images_announced(2);
    let c = run.start_task(image_url("/b/3.png"));
    let d = run.start_task(image_url("/b/4.png"));

    assert!(a.id < b.id && b.id < c.id && c.id < d.id);
    assert_eq!(vec![a.id, b.id, c.id, d.id], vec![0, 1, 2, 3]);
}

/// A second title announcement is a fatal defect.
#[test]
fn second_title_is_fatal() {
    let mut run = Run::new(1);
    run.on_title("first").expect("first title");
    match run.on_title("second") {
        Err(RunError::TitleRepeated) => {},
        other => panic!("expected the repeated-title error, got {:?}", other),
    }
    assert!(run.is_fatal());
    assert!(matches!(run.take_outcome(), Err(RunError::TitleRepeated)));
}

/// The first fatal error decides the outcome; later ones are not kept.
#[test]
fn first_fatal_error_wins() {
    let mut run = Run::new(1);
    run.on_fatal(RunError::Resolver(String::from("first failure")));
    run.on_fatal(RunError::DirCreate(String::from("second failure")));
    match run.take_outcome() {
        Err(RunError::Resolver(text)) => assert_eq!(text, "first failure"),
        other => panic!("expected the first error, got {:?}", other),
    }
}

/// A directory-creation failure is fatal; a task-join failure is fatal.
#[test]
fn other_fatal_error_kinds() {
    let mut run = Run::new(1);
    run.on_fatal(RunError::DirCreate(String::from("permission denied")));
    assert!(matches!(run.take_outcome(), Err(RunError::DirCreate(_))));

    let mut run = Run::new(1);
    run.on_fatal(RunError::TaskJoin(String::from("task panicked")));
    assert!(matches!(run.take_outcome(), Err(RunError::TaskJoin(_))));

    let mut run = Run::new(1);
    run.on_fatal(RunError::NoDownloaderFound);
    assert!(matches!(run.take_outcome(), Err(RunError::NoDownloaderFound)));
}
