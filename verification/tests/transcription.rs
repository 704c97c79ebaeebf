use whisper_gui::transcribe::{
    build_transcription_args, notification_for, TranscriptionEvent, TranscriptionNotification,
    TranscriptionSession,
};

#[test]
fn args_without_language() {
    let args = build_transcription_args("/audio/a.wav", "/models/ggml-tiny.bin", "txt", None);
    assert_eq!(args, vec!["-m", "/models/ggml-tiny.bin", "-f", "/audio/a.wav", "-o", "txt"]);
}

#[test]
fn args_with_language() {
    let args = build_transcription_args("a.wav", "m.bin", "srt", Some("en"));
    assert_eq!(args, vec!["-m", "m.bin", "-f", "a.wav", "-o", "srt", "-l", "en"]);
}

#[test]
fn args_auto_language_omits_flag() {
    let args = build_transcription_args("a.wav", "m.bin", "txt", Some("auto"));
    assert_eq!(args, vec!["-m", "m.bin", "-f", "a.wav", "-o", "txt"]);
}

#[test]
fn zero_exit_yields_completed_with_stdout_in_order() {
    let mut s = TranscriptionSession::new();
    let e1 = s.on_stdout(b"hello");
    assert!(matches!(e1, TranscriptionEvent::Stdout(ref t) if t == "hello"));
    let e2 = s.on_stderr(b"progress 50%");
    assert!(matches!(e2, TranscriptionEvent::Stderr(ref t) if t == "progress 50%"));
    let e3 = s.on_stdout(b"world");
    assert!(matches!(e3, TranscriptionEvent::Stdout(ref t) if t == "world"));
    let done = s.on_terminated(Some(0));
    match done {
        TranscriptionEvent::Completed(text) => assert_eq!(text, "hello\nworld\n"),
        _ => panic!("expected Completed"),
    }
    assert!(s.finished);
}

#[test]
fn stderr_never_reaches_the_payload() {
    let mut s = TranscriptionSession::new();
    s.on_stderr(b"noise");
    s.on_stderr(b"more noise");
    let done = s.on_terminated(Some(0));
    match done {
        TranscriptionEvent::Completed(text) => {
            assert_eq!(text, "");
            assert!(!text.contains("noise"));
        }
        _ => panic!("expected Completed"),
    }
}

#[test]
fn nonzero_exit_yields_failed_naming_the_code() {
    let mut s = TranscriptionSession::new();
    s.on_stdout(b"partial");
    let done = s.on_terminated(Some(3));
    match done {
        TranscriptionEvent::Error(msg) => assert_eq!(msg, "Process exited with code: Some(3)"),
        _ => panic!("expected Error"),
    }
    assert!(s.finished);
}

#[test]
fn negative_exit_code_named() {
    let mut s = TranscriptionSession::new();
    let done = s.on_terminated(Some(-9));
    match done {
        TranscriptionEvent::Error(msg) => assert_eq!(msg, "Process exited with code: Some(-9)"),
        _ => panic!("expected Error"),
    }
}

#[test]
fn unknown_exit_code_named_unknown() {
    let mut s = TranscriptionSession::new();
    let done = s.on_terminated(None);
    match done {
        TranscriptionEvent::Error(msg) => assert_eq!(msg, "Process exited with code: unknown"),
        _ => panic!("expected Error"),
    }
}

#[test]
fn invalid_utf8_is_replaced_not_fatal() {
    let mut s = TranscriptionSession::new();
    let e = s.on_stdout(&[0x68, 0x69, 0xFF]);
    match e {
        TranscriptionEvent::Stdout(t) => assert_eq!(t, "hi\u{FFFD}"),
        _ => panic!("expected Stdout"),
    }
    let done = s.on_terminated(Some(0));
    match done {
        TranscriptionEvent::Completed(text) => assert_eq!(text, "hi\u{FFFD}\n"),
        _ => panic!("expected Completed"),
    }
}

#[test]
fn notifications_mirror_events() {
    match notification_for(TranscriptionEvent::Stdout("a".to_string())) {
        TranscriptionNotification::Output(o) => {
            assert_eq!(o.line, "a");
            assert!(!o.is_error);
        }
        _ => panic!("expected Output"),
    }
    match notification_for(TranscriptionEvent::Stderr("b".to_string())) {
        TranscriptionNotification::Output(o) => {
            assert_eq!(o.line, "b");
            assert!(o.is_error);
        }
        _ => panic!("expected Output"),
    }
    match notification_for(TranscriptionEvent::Completed("text".to_string())) {
        TranscriptionNotification::Complete(c) => {
            assert!(c.success);
            assert_eq!(c.output, "text");
            assert!(c.error.is_none());
        }
        _ => panic!("expected Complete"),
    }
    match notification_for(TranscriptionEvent::Error("boom".to_string())) {
        TranscriptionNotification::Complete(c) => {
            assert!(!c.success);
            assert_eq!(c.output, "");
            assert_eq!(c.error.as_deref(), Some("boom"));
        }
        _ => panic!("expected Complete"),
    }
}
