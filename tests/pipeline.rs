use cliptex::image::RasterImage;
use cliptex::pipeline::{Action, Event, Failure, Orchestrator, Stage};

fn template() -> String {
    "\\begin{document}%INSERT%\\end{document}".to_string()
}

fn read_text(o: &mut Orchestrator, text: &str) -> Action {
    assert!(matches!(o.handle(Event::Fired), Action::ReadClipboard));
    o.handle(Event::TextRead(text.to_string()))
}

#[test]
fn unmarked_text_ends_silently() {
    for s in ["hello", "", "tex x", "x !tex y", "!TEX y"] {
        let mut o = Orchestrator::new(template());
        assert!(matches!(read_text(&mut o, s), Action::Nothing));
        assert_eq!(o.stage, Stage::Idle);
        assert!(o.is_idle());
    }
}

#[test]
fn marked_text_is_bound_and_compiled() {
    let mut o = Orchestrator::new(template());
    match read_text(&mut o, "!tex x") {
        Action::Compile(src) => assert_eq!(src, "\\begin{document}x\\end{document}"),
        _ => panic!("expected a compile"),
    }
    assert_eq!(o.stage, Stage::Compiling);
}

#[test]
fn repeated_marker_payload_is_bound() {
    let mut o = Orchestrator::new(template());
    match read_text(&mut o, "!tex !tex x") {
        Action::Compile(src) => assert_eq!(src, "\\begin{document}x\\end{document}"),
        _ => panic!("expected a compile"),
    }
}

#[test]
fn read_failure_is_not_applicable() {
    let mut o = Orchestrator::new(template());
    o.handle(Event::Fired);
    assert!(matches!(o.handle(Event::ReadFailed), Action::Nothing));
    assert_eq!(o.stage, Stage::Idle);
}

#[test]
fn failing_compiler_never_reaches_the_writer() {
    let mut o = Orchestrator::new(template());
    for _ in 0..3 {
        read_text(&mut o, "!tex x");
        let a = o.handle(Event::CompileFailed);
        assert!(matches!(a, Action::Report(Failure::CompileFailure)));
        assert_eq!(o.stage, Stage::Idle);
    }
}

#[test]
fn render_failure_ends_the_run() {
    let mut o = Orchestrator::new(template());
    read_text(&mut o, "!tex x");
    assert!(matches!(o.handle(Event::RenderFailed), Action::Report(Failure::RenderFailure)));
    assert_eq!(o.stage, Stage::Idle);
}

#[test]
fn successful_compile_writes_positive_dimensions() {
    let mut o = Orchestrator::new(template());
    read_text(&mut o, "!tex x");
    let img = RasterImage::new(3, 2, vec![255u8; 24]).unwrap();
    match o.handle(Event::Compiled(img)) {
        Action::WriteImage(w) => {
            assert_eq!(w.width, 3);
            assert_eq!(w.height, 2);
            assert_eq!(w.bytes.len(), 24);
        }
        _ => panic!("expected a write"),
    }
    assert_eq!(o.stage, Stage::Writing);
    assert!(matches!(o.handle(Event::Written), Action::Notify));
    assert_eq!(o.stage, Stage::Notifying);
    assert!(matches!(o.handle(Event::Notified), Action::Nothing));
    assert_eq!(o.stage, Stage::Idle);
}

#[test]
fn malformed_image_is_rejected_before_the_writer() {
    let mut o = Orchestrator::new(template());
    read_text(&mut o, "!tex x");
    let bad = RasterImage { width: 0, height: 2, bytes: vec![] };
    assert!(matches!(o.handle(Event::Compiled(bad)), Action::Report(Failure::RenderFailure)));
    assert_eq!(o.stage, Stage::Idle);
}

#[test]
fn clipboard_and_notify_failures() {
    let mut o = Orchestrator::new(template());
    read_text(&mut o, "!tex x");
    let img = RasterImage::new(1, 1, vec![0u8; 4]).unwrap();
    o.handle(Event::Compiled(img));
    assert!(matches!(o.handle(Event::WriteFailed), Action::Report(Failure::ClipboardFailure)));
    assert_eq!(o.stage, Stage::Idle);

    read_text(&mut o, "!tex y");
    let img = RasterImage::new(1, 1, vec![0u8; 4]).unwrap();
    o.handle(Event::Compiled(img));
    o.handle(Event::Written);
    assert!(matches!(o.handle(Event::NotifyFailed), Action::Report(Failure::NotifyFailure)));
    assert_eq!(o.stage, Stage::Idle);
}

#[test]
fn second_trigger_waits_for_the_first_run() {
    let mut o = Orchestrator::new(template());
    read_text(&mut o, "!tex x");
    // A second trigger while compiling: nothing happens yet.
    assert!(matches!(o.handle(Event::Fired), Action::Nothing));
    assert_eq!(o.stage, Stage::Compiling);
    assert!(o.pending);
    assert!(matches!(o.resume(), Action::Nothing));
    assert_eq!(o.stage, Stage::Compiling);
    o.handle(Event::CompileFailed);
    assert_eq!(o.stage, Stage::Idle);
    // Now the queued trigger starts its run.
    assert!(matches!(o.resume(), Action::ReadClipboard));
    assert_eq!(o.stage, Stage::Detecting);
    assert!(!o.pending);
    assert!(matches!(o.resume(), Action::Nothing));
}

#[test]
fn stray_events_are_ignored() {
    let mut o = Orchestrator::new(template());
    assert!(matches!(o.handle(Event::Written), Action::Nothing));
    assert!(matches!(o.handle(Event::TextRead("!tex x".to_string())), Action::Nothing));
    assert!(matches!(o.handle(Event::CompileFailed), Action::Nothing));
    assert_eq!(o.stage, Stage::Idle);
    assert!(!o.pending);
}
