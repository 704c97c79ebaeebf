//! The error taxonomy of the library, with exact human-readable messages.
//!
//! Every error is terminal for the single operation that raised it; the
//! caller is responsible for presentation and any retry decision. Details
//! that only the I/O shell can observe (an I/O error's own text) arrive as
//! plain strings; everything around them is built and stated here.

use crate::numfmt::{dec_seq, int_dec_seq, i32_dec, u64_dec};
use vstd::prelude::*;
use vstd::string::StringExecFns;

verus! {

/// Which storage operation failed; selects the message prefix.
#[derive(PartialEq, Eq, Structural, Clone, Copy, Debug)]
pub enum StorageOp {
    CreateDir,
    CreateFile,
    Write,
    Flush,
    Rename,
    Delete,
}

/// Which network operation failed; selects the message prefix.
#[derive(PartialEq, Eq, Structural, Clone, Copy, Debug)]
pub enum NetOp {
    Connect,
    Read,
}

/// Everything that can go wrong in the two components.
#[derive(Debug)]
pub enum AppError {
    /// The identifier is absent from the catalog (carries the identifier).
    UnknownModel(String),
    /// The remote host cannot be reached or read (carries transport detail).
    NetworkError(NetOp, String),
    /// The response status was not a success (carries the status code).
    RemoteError(u16),
    /// A storage operation failed (carries the failed operation and detail).
    StorageError(StorageOp, String),
    /// The child process could not be launched (carries spawn detail).
    SpawnError(String),
    /// The child process exited abnormally (carries the exit code, if known).
    ProcessFailure(Option<i32>),
    /// The operation needs an artifact that is absent (carries the identifier).
    NotDownloaded(String),
    /// The requested audio file is absent (carries the path).
    AudioNotFound(String),
}

pub open spec fn storage_prefix(op: StorageOp) -> Seq<char> {
    match op {
        StorageOp::CreateDir => "Failed to create models directory: "@,
        StorageOp::CreateFile => "Failed to create file: "@,
        StorageOp::Write => "Error writing file: "@,
        StorageOp::Flush => "Error flushing file: "@,
        StorageOp::Rename => "Error finalizing download: "@,
        StorageOp::Delete => "Failed to delete model: "@,
    }
}

pub open spec fn net_prefix(op: NetOp) -> Seq<char> {
    match op {
        NetOp::Connect => "Failed to start download: "@,
        NetOp::Read => "Error downloading: "@,
    }
}

/// The terminal diagnostic for a child process exit code: names the code, or
/// names "unknown" when the code could not be determined (the process was
/// killed by a signal, say).
pub open spec fn exit_message_spec(code: Option<i32>) -> Seq<char> {
    match code {
        Some(n) => "Process exited with code: Some("@ + int_dec_seq(n as int) + ")"@,
        None => "Process exited with code: unknown"@,
    }
}

/// The exact message of each error.
pub open spec fn message_spec(e: AppError) -> Seq<char> {
    match e {
        AppError::UnknownModel(n) => "Model '"@ + n@ + "' not found"@,
        AppError::NetworkError(op, d) => net_prefix(op) + d@,
        AppError::RemoteError(status) => "Download failed with status: "@ + dec_seq(status as nat),
        AppError::StorageError(op, d) => storage_prefix(op) + d@,
        AppError::SpawnError(d) => "Failed to spawn whisper-cli: "@ + d@,
        AppError::ProcessFailure(code) => exit_message_spec(code),
        AppError::NotDownloaded(n) => "Model '"@ + n@ + "' not downloaded"@,
        AppError::AudioNotFound(p) => "Audio file not found: "@ + p@,
    }
}

/// Builds the terminal diagnostic for a child process exit code.
pub fn exit_message(code: Option<i32>) -> (r: String)
    ensures
        r@ == exit_message_spec(code),
{
    match code {
        Some(n) => {
            let mut s: String = "Process exited with code: Some(".to_owned();
            let digits = i32_dec(n);
            s.append(digits.as_str());
            s.append(")");
            s
        },
        None => "Process exited with code: unknown".to_owned(),
    }
}

impl AppError {
    /// The human-readable message surfaced to the caller.
    pub fn message(&self) -> (r: String)
        ensures
            r@ == message_spec(*self),
    {
        match self {
            AppError::UnknownModel(n) => {
                let mut s: String = "Model '".to_owned();
                s.append(n.as_str());
                s.append("' not found");
                s
            },
            AppError::NetworkError(op, d) => {
                let mut s: String = match op {
                    NetOp::Connect => "Failed to start download: ".to_owned(),
                    NetOp::Read => "Error downloading: ".to_owned(),
                };
                s.append(d.as_str());
                s
            },
            AppError::RemoteError(status) => {
                let mut s: String = "Download failed with status: ".to_owned();
                let digits = u64_dec(*status as u64);
                s.append(digits.as_str());
                s
            },
            AppError::StorageError(op, d) => {
                let mut s: String = match op {
                    StorageOp::CreateDir => "Failed to create models directory: ".to_owned(),
                    StorageOp::CreateFile => "Failed to create file: ".to_owned(),
                    StorageOp::Write => "Error writing file: ".to_owned(),
                    StorageOp::Flush => "Error flushing file: ".to_owned(),
                    StorageOp::Rename => "Error finalizing download: ".to_owned(),
                    StorageOp::Delete => "Failed to delete model: ".to_owned(),
                };
                s.append(d.as_str());
                s
            },
            AppError::SpawnError(d) => {
                let mut s: String = "Failed to spawn whisper-cli: ".to_owned();
                s.append(d.as_str());
                s
            },
            AppError::ProcessFailure(code) => exit_message(*code),
            AppError::NotDownloaded(n) => {
                let mut s: String = "Model '".to_owned();
                s.append(n.as_str());
                s.append("' not downloaded");
                s
            },
            AppError::AudioNotFound(p) => {
                let mut s: String = "Audio file not found: ".to_owned();
                s.append(p.as_str());
                s
            },
        }
    }
}

} // verus!
