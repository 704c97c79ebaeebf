//! The download manager's decision core.
//!
//! A `DownloadSession` holds everything one download attempt decides on:
//! the resolved URL, the target and temporary paths, and the byte counters
//! behind progress reporting. The I/O shell drives it: it performs each
//! network or storage step and hands the outcome back; every decision and
//! every reported number comes out of a verified method. Constructing a
//! session performs no I/O, so a rejected identifier provably causes no
//! storage action at all.

use crate::catalog::{find_model, known_model, model_url};
use crate::errors::AppError;
use crate::paths::{get_model_path, model_path_spec, temp_path_spec, temp_path_for};
use vstd::prelude::*;

verus! {

/// The sum of a sequence of chunk lengths.
pub open spec fn sum_u64(s: Seq<u64>) -> int
    decreases s.len(),
{
    if s.len() == 0 {
        0
    } else {
        sum_u64(s.drop_last()) + s.last()
    }
}

pub proof fn lemma_sum_push(s: Seq<u64>, x: u64)
    ensures
        sum_u64(s.push(x)) == sum_u64(s) + x,
{
    assert(s.push(x).drop_last() =~= s);
}

/// Progress samples are monotonically non-decreasing: the byte counter after
/// any prefix of the chunks never exceeds the counter after a longer prefix.
pub proof fn lemma_progress_monotone(lens: Seq<u64>, i: int, j: int)
    requires
        0 <= i <= j <= lens.len(),
    ensures
        sum_u64(lens.take(i)) <= sum_u64(lens.take(j)),
    decreases j - i,
{
    if i < j {
        lemma_progress_monotone(lens, i, j - 1);
        assert(lens.take(j).drop_last() =~= lens.take(j - 1));
        assert(sum_u64(lens.take(j)) == sum_u64(lens.take(j - 1)) + lens[j - 1]);
    }
}

/// The progress percentage: zero whenever the total is unknown (stored as
/// zero), never a division by zero; otherwise the integer percentage.
pub open spec fn percent_spec(downloaded: u64, total: u64) -> int {
    if total == 0 {
        0
    } else {
        (downloaded as int) * 100 / (total as int)
    }
}

/// The percentage capped to what fits the sample's field (a cap only a
/// misdeclared total can reach).
pub open spec fn percent_capped(downloaded: u64, total: u64) -> int {
    if percent_spec(downloaded, total) > u64::MAX as int {
        u64::MAX as int
    } else {
        percent_spec(downloaded, total)
    }
}

/// Computes the progress percentage.
pub fn percent_of(downloaded: u64, total: u64) -> (r: u64)
    ensures
        r as int == percent_capped(downloaded, total),
        total == 0 ==> r == 0,
{
    if total == 0 {
        0u64
    } else {
        let q: u128 = (downloaded as u128) * 100 / (total as u128);
        if q > u64::MAX as u128 {
            u64::MAX
        } else {
            q as u64
        }
    }
}

/// One progress notification: recomputed on each chunk.
pub struct DownloadProgress {
    pub model_name: String,
    pub downloaded: u64,
    pub total: u64,
    pub percent: u64,
}

/// The state of one download attempt.
pub struct DownloadSession {
    pub model_name: String,
    pub url: String,
    pub target_path: String,
    pub temp_path: String,
    pub total_bytes: u64,
    pub downloaded_bytes: u64,
    pub chunk_sizes: Ghost<Seq<u64>>,
}

impl DownloadSession {
    /// The byte counter always equals the sum of the recorded chunk lengths,
    /// and the temporary path is the target path plus the fixed suffix.
    pub open spec fn wf(self) -> bool {
        &&& self.downloaded_bytes == sum_u64(self.chunk_sizes@)
        &&& self.temp_path@ == temp_path_spec(self.target_path@)
    }

    /// Starts a download attempt: resolves the identifier against the
    /// catalog. Succeeds exactly for known identifiers; an unknown one is
    /// rejected before any I/O can happen.
    pub fn start(model_name: &str) -> (r: Result<DownloadSession, AppError>)
        ensures
            r is Ok <==> known_model(model_name@),
            r matches Ok(s) ==> {
                &&& s.wf()
                &&& s.model_name@ == model_name@
                &&& s.url@ == model_url(model_name@)
                &&& (exists|base: Seq<char>| s.target_path@ == model_path_spec(base, model_name@))
                &&& s.temp_path@ == temp_path_spec(s.target_path@)
                &&& s.downloaded_bytes == 0
                &&& s.total_bytes == 0
                &&& s.chunk_sizes@ == Seq::<u64>::empty()
            },
            r matches Err(e) ==> (e matches AppError::UnknownModel(n) && n@ == model_name@),
    {
        match find_model(model_name) {
            None => Err(AppError::UnknownModel(model_name.to_owned())),
            Some(m) => {
                let target = get_model_path(model_name);
                let temp = temp_path_for(target.as_str());
                Ok(DownloadSession {
                    model_name: model_name.to_owned(),
                    url: m.url,
                    target_path: target,
                    temp_path: temp,
                    total_bytes: 0,
                    downloaded_bytes: 0,
                    chunk_sizes: Ghost(Seq::empty()),
                })
            },
        }
    }

    /// Accepts the response status and declared content length. Succeeds
    /// exactly for success statuses; a missing content length becomes the
    /// legitimate total of zero ("unknown") for the rest of the transfer.
    pub fn on_response(&mut self, status: u16, content_length: Option<u64>) -> (r: Result<
        (),
        AppError,
    >)
        requires
            old(self).wf(),
        ensures
            final(self).wf(),
            r is Ok <==> 200 <= status < 300,
            final(self).model_name@ == old(self).model_name@,
            final(self).url@ == old(self).url@,
            final(self).target_path@ == old(self).target_path@,
            final(self).temp_path@ == old(self).temp_path@,
            final(self).downloaded_bytes == old(self).downloaded_bytes,
            final(self).chunk_sizes@ == old(self).chunk_sizes@,
            r is Ok ==> final(self).total_bytes == (match content_length {
                Some(t) => t,
                None => 0u64,
            }),
            r is Err ==> final(self).total_bytes == old(self).total_bytes,
            r matches Err(e) ==> (e matches AppError::RemoteError(st) && st == status),
    {
        if 200 <= status && status < 300 {
            self.total_bytes = match content_length {
                Some(t) => t,
                None => 0,
            };
            Ok(())
        } else {
            Err(AppError::RemoteError(status))
        }
    }

    /// Records one durably written chunk and computes the progress
    /// notification for it. The byte counter only ever grows, and always
    /// equals the total number of bytes written so far.
    pub fn record_chunk(&mut self, chunk_len: usize) -> (p: DownloadProgress)
        requires
            old(self).wf(),
            old(self).downloaded_bytes + chunk_len <= u64::MAX,
        ensures
            final(self).wf(),
            final(self).model_name@ == old(self).model_name@,
            final(self).url@ == old(self).url@,
            final(self).target_path@ == old(self).target_path@,
            final(self).temp_path@ == old(self).temp_path@,
            final(self).total_bytes == old(self).total_bytes,
            final(self).downloaded_bytes == old(self).downloaded_bytes + chunk_len,
            final(self).chunk_sizes@ == old(self).chunk_sizes@.push(chunk_len as u64),
            old(self).downloaded_bytes <= final(self).downloaded_bytes,
            p.model_name@ == old(self).model_name@,
            p.downloaded == final(self).downloaded_bytes,
            p.total == old(self).total_bytes,
            p.percent as int == percent_capped(final(self).downloaded_bytes, old(self).total_bytes),
    {
        let len: u64 = chunk_len as u64;
        self.downloaded_bytes = self.downloaded_bytes + len;
        proof {
            lemma_sum_push(self.chunk_sizes@, len);
        }
        self.chunk_sizes = Ghost(self.chunk_sizes@.push(len));
        let percent = percent_of(self.downloaded_bytes, self.total_bytes);
        DownloadProgress {
            model_name: self.model_name.clone(),
            downloaded: self.downloaded_bytes,
            total: self.total_bytes,
            percent,
        }
    }
}

} // verus!
