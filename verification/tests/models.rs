use whisper_gui::catalog::{find_model, get_available_models, model_statuses};
use whisper_gui::download::{percent_of, DownloadSession};
use whisper_gui::errors::AppError;
use whisper_gui::paths::{get_model_path, get_models_dir, model_file_name, model_path_in, temp_path_for};

#[test]
fn catalog_has_six_models_in_stable_order() {
    let models = get_available_models();
    assert_eq!(models.len(), 6);
    let names: Vec<&str> = models.iter().map(|m| m.name.as_str()).collect();
    assert_eq!(names, vec!["tiny", "base", "small", "medium", "large-v3", "large-v3-turbo"]);
    assert_eq!(models[0].display_name, "Tiny");
    assert_eq!(models[0].size_mb, 75);
    assert_eq!(models[0].description, "Fastest, lowest accuracy");
    assert_eq!(
        models[0].url,
        "https://huggingface.co/ggerganov/whisper.cpp/resolve/main/ggml-tiny.bin"
    );
    assert_eq!(models[4].size_mb, 3000);
    assert_eq!(
        models[5].url,
        "https://huggingface.co/ggerganov/whisper.cpp/resolve/main/ggml-large-v3-turbo.bin"
    );
}

#[test]
fn find_model_known_and_unknown() {
    let m = find_model("base").expect("base is in the catalog");
    assert_eq!(m.name, "base");
    assert_eq!(m.url, "https://huggingface.co/ggerganov/whisper.cpp/resolve/main/ggml-base.bin");
    assert!(find_model("ghost").is_none());
    assert!(find_model("").is_none());
}

#[test]
fn model_statuses_pairs_in_order() {
    let models = get_available_models();
    let flags = vec![true, false, false, true, false, false];
    let statuses = model_statuses(models, flags);
    assert_eq!(statuses.len(), 6);
    assert!(statuses[0].downloaded);
    assert_eq!(statuses[0].info.name, "tiny");
    assert!(!statuses[1].downloaded);
    assert!(statuses[3].downloaded);
    assert_eq!(statuses[3].info.name, "medium");
}

#[test]
fn paths_are_deterministic() {
    assert_eq!(model_file_name("tiny"), "ggml-tiny.bin");
    assert_eq!(model_path_in("/data/models", "tiny"), "/data/models/ggml-tiny.bin");
    assert_eq!(temp_path_for("/data/models/ggml-tiny.bin"), "/data/models/ggml-tiny.bin.tmp");
    let dir = get_models_dir();
    assert!(dir.ends_with("/com.whisper-gui.app/models"));
    let path = get_model_path("large-v3");
    assert!(path.ends_with("/ggml-large-v3.bin"));
    assert!(path.starts_with(&dir));
}

#[test]
fn percent_handles_unknown_total_without_division() {
    assert_eq!(percent_of(0, 0), 0);
    assert_eq!(percent_of(12345, 0), 0);
    assert_eq!(percent_of(u64::MAX, 0), 0);
}

#[test]
fn percent_exact_values() {
    assert_eq!(percent_of(250, 750), 33);
    assert_eq!(percent_of(500, 750), 66);
    assert_eq!(percent_of(750, 750), 100);
    assert_eq!(percent_of(1, 3), 33);
    assert_eq!(percent_of(1, 101), 0);
    assert_eq!(percent_of(10, 5), 200);
}

#[test]
fn download_unknown_model_fails_before_any_step() {
    let r = DownloadSession::start("ghost");
    match r {
        Err(AppError::UnknownModel(name)) => {
            assert_eq!(name, "ghost");
            assert_eq!(
                AppError::UnknownModel(name).message(),
                "Model 'ghost' not found"
            );
        }
        _ => panic!("expected UnknownModel"),
    }
}

#[test]
fn download_session_resolves_known_model() {
    let s = DownloadSession::start("tiny").expect("tiny is known");
    assert_eq!(s.model_name, "tiny");
    assert_eq!(s.url, "https://huggingface.co/ggerganov/whisper.cpp/resolve/main/ggml-tiny.bin");
    assert!(s.target_path.ends_with("/ggml-tiny.bin"));
    assert_eq!(s.temp_path, format!("{}.tmp", s.target_path));
    assert_eq!(s.downloaded_bytes, 0);
    assert_eq!(s.total_bytes, 0);
}

#[test]
fn download_session_rejects_error_status() {
    let mut s = DownloadSession::start("tiny").unwrap();
    let r = s.on_response(404, Some(10));
    match r {
        Err(AppError::RemoteError(status)) => {
            assert_eq!(status, 404);
            assert_eq!(
                AppError::RemoteError(status).message(),
                "Download failed with status: 404"
            );
        }
        _ => panic!("expected RemoteError"),
    }
    assert_eq!(s.total_bytes, 0);
}

#[test]
fn download_session_missing_length_is_zero_total() {
    let mut s = DownloadSession::start("tiny").unwrap();
    s.on_response(200, None).unwrap();
    assert_eq!(s.total_bytes, 0);
    let p = s.record_chunk(4096);
    assert_eq!(p.downloaded, 4096);
    assert_eq!(p.total, 0);
    assert_eq!(p.percent, 0);
}

#[test]
fn three_chunk_transfer_reports_monotone_progress() {
    let mut s = DownloadSession::start("tiny").unwrap();
    s.on_response(200, Some(750)).unwrap();
    assert_eq!(s.total_bytes, 750);

    let p1 = s.record_chunk(250);
    assert_eq!((p1.downloaded, p1.total, p1.percent), (250, 750, 33));
    assert_eq!(p1.model_name, "tiny");

    let p2 = s.record_chunk(250);
    assert_eq!((p2.downloaded, p2.total, p2.percent), (500, 750, 66));

    let p3 = s.record_chunk(250);
    assert_eq!((p3.downloaded, p3.total, p3.percent), (750, 750, 100));

    assert!(p1.downloaded <= p2.downloaded && p2.downloaded <= p3.downloaded);
    assert_eq!(s.downloaded_bytes, 750);
}
