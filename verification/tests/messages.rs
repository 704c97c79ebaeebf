use whisper_gui::errors::{exit_message, AppError, NetOp, StorageOp};
use whisper_gui::numfmt::{i32_dec, u64_dec};

#[test]
fn decimal_rendering_exact() {
    assert_eq!(u64_dec(0), "0");
    assert_eq!(u64_dec(7), "7");
    assert_eq!(u64_dec(10), "10");
    assert_eq!(u64_dec(1234567890), "1234567890");
    assert_eq!(u64_dec(u64::MAX), "18446744073709551615");
    assert_eq!(i32_dec(0), "0");
    assert_eq!(i32_dec(-1), "-1");
    assert_eq!(i32_dec(-42), "-42");
    assert_eq!(i32_dec(i32::MIN), "-2147483648");
    assert_eq!(i32_dec(i32::MAX), "2147483647");
}

#[test]
fn unknown_model_message() {
    assert_eq!(
        AppError::UnknownModel("ghost".to_string()).message(),
        "Model 'ghost' not found"
    );
}

#[test]
fn network_messages() {
    assert_eq!(
        AppError::NetworkError(NetOp::Connect, "refused".to_string()).message(),
        "Failed to start download: refused"
    );
    assert_eq!(
        AppError::NetworkError(NetOp::Read, "reset".to_string()).message(),
        "Error downloading: reset"
    );
}

#[test]
fn remote_error_message_names_status() {
    assert_eq!(AppError::RemoteError(503).message(), "Download failed with status: 503");
}

#[test]
fn storage_messages() {
    assert_eq!(
        AppError::StorageError(StorageOp::CreateDir, "denied".to_string()).message(),
        "Failed to create models directory: denied"
    );
    assert_eq!(
        AppError::StorageError(StorageOp::CreateFile, "denied".to_string()).message(),
        "Failed to create file: denied"
    );
    assert_eq!(
        AppError::StorageError(StorageOp::Write, "full".to_string()).message(),
        "Error writing file: full"
    );
    assert_eq!(
        AppError::StorageError(StorageOp::Flush, "io".to_string()).message(),
        "Error flushing file: io"
    );
    assert_eq!(
        AppError::StorageError(StorageOp::Rename, "busy".to_string()).message(),
        "Error finalizing download: busy"
    );
    assert_eq!(
        AppError::StorageError(StorageOp::Delete, "gone".to_string()).message(),
        "Failed to delete model: gone"
    );
}

#[test]
fn spawn_and_process_messages() {
    assert_eq!(
        AppError::SpawnError("no such file".to_string()).message(),
        "Failed to spawn whisper-cli: no such file"
    );
    assert_eq!(
        AppError::ProcessFailure(Some(1)).message(),
        "Process exited with code: Some(1)"
    );
    assert_eq!(
        AppError::ProcessFailure(None).message(),
        "Process exited with code: unknown"
    );
    assert_eq!(exit_message(Some(127)), "Process exited with code: Some(127)");
}

#[test]
fn not_downloaded_and_audio_messages() {
    assert_eq!(
        AppError::NotDownloaded("tiny".to_string()).message(),
        "Model 'tiny' not downloaded"
    );
    assert_eq!(
        AppError::AudioNotFound("/a.wav".to_string()).message(),
        "Audio file not found: /a.wav"
    );
}
