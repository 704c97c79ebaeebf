//! The transcription process event pipeline's decision core.
//!
//! A `TranscriptionSession` turns the child process's line-oriented output
//! into typed events: every standard-output line is decoded, accumulated and
//! forwarded; every standard-error line is decoded and forwarded but never
//! accumulated; process termination yields exactly one terminal event —
//! `Completed` with the accumulated text on exit code zero, `Error` naming
//! the code otherwise. The I/O shell owns the child process and the channel;
//! it hands each observed line or the exit code to the session and sends on
//! whatever event comes back, stopping after the terminal one. Every handler
//! requires an unfinished session and the terminal handler finishes it, so a
//! session can yield at most one terminal event, after which it accepts
//! nothing more.

use crate::errors::{exit_message, exit_message_spec};
use vstd::prelude::*;
use vstd::string::StringExecFns;

verus! {

/// What decoding a byte line yields. Relied on to depend on the bytes alone;
/// stated only through the trusted decoder below.
pub uninterp spec fn lossy_utf8(bytes: Seq<u8>) -> Seq<char>;

/// Relies on String::from_utf8_lossy: decodes UTF-8, replacing invalid byte
/// sequences instead of failing; the result depends on the bytes alone.
#[verifier::external_body]
fn decode_line(bytes: &[u8]) -> (r: String)
    ensures
        r@ == lossy_utf8(bytes@),
{
    String::from_utf8_lossy(bytes).to_string()
}

/// One event of the pipeline, consumed in arrival order.
#[derive(Debug, Clone)]
pub enum TranscriptionEvent {
    /// A decoded standard-output line.
    Stdout(String),
    /// A decoded standard-error line.
    Stderr(String),
    /// Terminal: the child exited with code zero; carries the accumulated
    /// standard-output text.
    Completed(String),
    /// Terminal: the child exited abnormally; carries a diagnostic naming
    /// the exit code.
    Error(String),
}

/// The accumulated transcript after a sequence of observed lines, each a
/// byte line paired with whether it came from standard error: every
/// standard-output line contributes its decoding plus a newline; standard-
/// error lines contribute nothing.
pub open spec fn transcript_of(lines: Seq<(Seq<u8>, bool)>) -> Seq<char>
    decreases lines.len(),
{
    if lines.len() == 0 {
        Seq::empty()
    } else {
        transcript_of(lines.drop_last()) + (if lines.last().1 {
            Seq::<char>::empty()
        } else {
            lossy_utf8(lines.last().0) + seq!['\n']
        })
    }
}

/// The standard-output lines among a sequence of observed lines, in order.
pub open spec fn stdout_lines(lines: Seq<(Seq<u8>, bool)>) -> Seq<Seq<u8>>
    decreases lines.len(),
{
    if lines.len() == 0 {
        Seq::empty()
    } else if lines.last().1 {
        stdout_lines(lines.drop_last())
    } else {
        stdout_lines(lines.drop_last()).push(lines.last().0)
    }
}

/// The concatenation of decoded standard-output lines, each followed by a
/// newline, in emission order.
pub open spec fn stdout_transcript(outs: Seq<Seq<u8>>) -> Seq<char>
    decreases outs.len(),
{
    if outs.len() == 0 {
        Seq::empty()
    } else {
        stdout_transcript(outs.drop_last()) + lossy_utf8(outs.last()) + seq!['\n']
    }
}

/// The accumulated transcript is exactly the concatenation of the
/// standard-output lines in emission order: standard-error lines never
/// appear in it, however the two streams interleave.
pub proof fn lemma_transcript_is_stdout_only(lines: Seq<(Seq<u8>, bool)>)
    ensures
        transcript_of(lines) == stdout_transcript(stdout_lines(lines)),
    decreases lines.len(),
{
    if lines.len() > 0 {
        lemma_transcript_is_stdout_only(lines.drop_last());
        if lines.last().1 {
            assert(transcript_of(lines) =~= transcript_of(lines.drop_last()));
        } else {
            assert(stdout_lines(lines).drop_last() =~= stdout_lines(lines.drop_last()));
            assert(transcript_of(lines) =~= stdout_transcript(stdout_lines(lines)));
        }
    }
}

/// The state of one transcription run: the accumulation buffer and whether
/// the terminal event has been produced.
pub struct TranscriptionSession {
    pub full_output: String,
    pub finished: bool,
    pub lines: Ghost<Seq<(Seq<u8>, bool)>>,
}

impl TranscriptionSession {
    /// The buffer always holds exactly the transcript of the lines observed
    /// so far.
    pub open spec fn wf(self) -> bool {
        self.full_output@ == transcript_of(self.lines@)
    }

    /// A fresh run: nothing observed, nothing accumulated, not finished.
    pub fn new() -> (r: TranscriptionSession)
        ensures
            r.wf(),
            !r.finished,
            r.lines@ == Seq::<(Seq<u8>, bool)>::empty(),
            r.full_output@ == Seq::<char>::empty(),
    {
        TranscriptionSession { full_output: String::new(), finished: false, lines: Ghost(Seq::empty()) }
    }

    /// Handles one standard-output line: appends its decoding and a newline
    /// to the accumulation buffer and yields the forwarded event.
    pub fn on_stdout(&mut self, line: &[u8]) -> (e: TranscriptionEvent)
        requires
            old(self).wf(),
            !old(self).finished,
        ensures
            final(self).wf(),
            !final(self).finished,
            final(self).lines@ == old(self).lines@.push((line@, false)),
            final(self).full_output@ == old(self).full_output@ + lossy_utf8(line@) + seq!['\n'],
            e matches TranscriptionEvent::Stdout(s) && s@ == lossy_utf8(line@),
    {
        let text = decode_line(line);
        self.full_output.append(text.as_str());
        self.full_output.append("\n");
        proof {
            reveal_strlit("\n");
            self.lines@ = self.lines@.push((line@, false));
            assert(self.lines@.drop_last() =~= old(self).lines@);
            assert("\n"@ =~= seq!['\n']);
            assert(self.full_output@ =~= transcript_of(self.lines@));
        }
        TranscriptionEvent::Stdout(text)
    }

    /// Handles one standard-error line: yields the forwarded event and
    /// leaves the accumulation buffer untouched.
    pub fn on_stderr(&mut self, line: &[u8]) -> (e: TranscriptionEvent)
        requires
            old(self).wf(),
            !old(self).finished,
        ensures
            final(self).wf(),
            !final(self).finished,
            final(self).lines@ == old(self).lines@.push((line@, true)),
            final(self).full_output@ == old(self).full_output@,
            e matches TranscriptionEvent::Stderr(s) && s@ == lossy_utf8(line@),
    {
        let text = decode_line(line);
        proof {
            self.lines@ = self.lines@.push((line@, true));
            assert(self.lines@.drop_last() =~= old(self).lines@);
            assert(self.full_output@ =~= transcript_of(self.lines@));
        }
        TranscriptionEvent::Stderr(text)
    }

    /// Handles process termination: finishes the session and yields the one
    /// terminal event — `Completed` with the accumulated standard-output
    /// text exactly when the exit code is zero, otherwise `Error` with a
    /// diagnostic naming the code (or naming "unknown" when the code could
    /// not be determined).
    pub fn on_terminated(&mut self, code: Option<i32>) -> (e: TranscriptionEvent)
        requires
            old(self).wf(),
            !old(self).finished,
        ensures
            final(self).wf(),
            final(self).finished,
            final(self).lines@ == old(self).lines@,
            final(self).full_output@ == old(self).full_output@,
            code == Some(0i32) ==> (e matches TranscriptionEvent::Completed(s) && s@
                == transcript_of(old(self).lines@)),
            code != Some(0i32) ==> (e matches TranscriptionEvent::Error(m) && m@
                == exit_message_spec(code)),
    {
        self.finished = true;
        match code {
            Some(c) => {
                if c == 0 {
                    TranscriptionEvent::Completed(self.full_output.clone())
                } else {
                    TranscriptionEvent::Error(exit_message(code))
                }
            },
            None => TranscriptionEvent::Error(exit_message(code)),
        }
    }
}

/// The flat argument list handed to the transcription executable: model
/// path, audio path and output format always; a language flag only when a
/// language is supplied and is not the auto-detect sentinel.
pub open spec fn transcription_args_spec(
    audio: Seq<char>,
    model: Seq<char>,
    format: Seq<char>,
    language: Option<Seq<char>>,
) -> Seq<Seq<char>> {
    let base = seq!["-m"@, model, "-f"@, audio, "-o"@, format];
    match language {
        Some(l) => if l != "auto"@ {
            base + seq!["-l"@, l]
        } else {
            base
        },
        None => base,
    }
}

/// Builds the child process's argument list.
pub fn build_transcription_args(
    audio_path: &str,
    model_path: &str,
    output_format: &str,
    language: Option<&str>,
) -> (r: Vec<String>)
    ensures
        r@.map_values(|s: String| s@) == transcription_args_spec(
            audio_path@,
            model_path@,
            output_format@,
            (match language {
                Some(l) => Some(l@),
                None => None,
            }),
        ),
{
    let mut args: Vec<String> = Vec::new();
    args.push("-m".to_owned());
    args.push(model_path.to_owned());
    args.push("-f".to_owned());
    args.push(audio_path.to_owned());
    args.push("-o".to_owned());
    args.push(output_format.to_owned());
    match language {
        Some(lang) => {
            let lang_owned: String = lang.to_owned();
            let auto: String = "auto".to_owned();
            if lang_owned != auto {
                args.push("-l".to_owned());
                args.push(lang.to_owned());
                proof {
                    assert(args@.map_values(|s: String| s@) =~= transcription_args_spec(
                        audio_path@,
                        model_path@,
                        output_format@,
                        Some(lang@),
                    ));
                }
            } else {
                proof {
                    assert(args@.map_values(|s: String| s@) =~= transcription_args_spec(
                        audio_path@,
                        model_path@,
                        output_format@,
                        Some(lang@),
                    ));
                }
            }
        },
        None => {
            proof {
                assert(args@.map_values(|s: String| s@) =~= transcription_args_spec(
                    audio_path@,
                    model_path@,
                    output_format@,
                    None,
                ));
            }
        },
    }
    args
}

/// One per-line notification to the presentation layer.
pub struct TranscriptionOutput {
    pub line: String,
    pub is_error: bool,
}

/// The terminal notification to the presentation layer.
pub struct TranscriptionComplete {
    pub success: bool,
    pub output: String,
    pub error: Option<String>,
}

/// Which notification topic an event belongs to.
pub enum TranscriptionNotification {
    Output(TranscriptionOutput),
    Complete(TranscriptionComplete),
}

/// Maps a pipeline event to the notification the presentation layer
/// receives: output lines keep their text and stream flag; the terminal
/// events become the one completion notification, successful with the full
/// text or failed with the diagnostic and an empty text.
pub fn notification_for(event: TranscriptionEvent) -> (r: TranscriptionNotification)
    ensures
        event matches TranscriptionEvent::Stdout(l) ==> (r
            matches TranscriptionNotification::Output(o) && o.line@ == l@ && o.is_error == false),
        event matches TranscriptionEvent::Stderr(l) ==> (r
            matches TranscriptionNotification::Output(o) && o.line@ == l@ && o.is_error == true),
        event matches TranscriptionEvent::Completed(t) ==> (r
            matches TranscriptionNotification::Complete(c) && c.success && c.output@ == t@
            && c.error is None),
        event matches TranscriptionEvent::Error(m) ==> (r
            matches TranscriptionNotification::Complete(c) && !c.success && c.output@
            == Seq::<char>::empty() && (c.error matches Some(e) && e@ == m@)),
{
    match event {
        TranscriptionEvent::Stdout(line) => TranscriptionNotification::Output(
            TranscriptionOutput { line, is_error: false },
        ),
        TranscriptionEvent::Stderr(line) => TranscriptionNotification::Output(
            TranscriptionOutput { line, is_error: true },
        ),
        TranscriptionEvent::Completed(output) => TranscriptionNotification::Complete(
            TranscriptionComplete { success: true, output, error: None },
        ),
        TranscriptionEvent::Error(err) => TranscriptionNotification::Complete(
            TranscriptionComplete { success: false, output: String::new(), error: Some(err) },
        ),
    }
}

} // verus!
