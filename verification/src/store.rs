//! A model of the two storage locations a download attempt touches: the
//! target path and the temporary path. Each is absent or holds bytes.
//!
//! The download design commits through a single atomic rename: the
//! temporary path is the only location that may hold partial data, and the
//! target path changes only at the commit step. The lemmas here state that
//! design: a completed transfer leaves the full artifact at the target and
//! nothing at the temporary path, and any attempt that never reaches the
//! commit step leaves the target exactly as it was.

use vstd::prelude::*;

verus! {

/// What the two locations hold: `None` is absence.
pub struct ArtifactStore {
    pub target: Option<Seq<u8>>,
    pub temp: Option<Seq<u8>>,
}

/// One storage step of a download attempt.
pub enum StoreStep {
    /// Create (or truncate) the temporary file.
    CreateTemp,
    /// Append one durably written chunk to the temporary file.
    AppendChunk(Seq<u8>),
    /// Atomically rename the temporary file onto the target path.
    Commit,
}

/// The effect of one step. Appending without a temporary file, or committing
/// without one, changes nothing (the real operation fails and the attempt
/// stops).
pub open spec fn step_store(s: ArtifactStore, e: StoreStep) -> ArtifactStore {
    match e {
        StoreStep::CreateTemp => ArtifactStore { target: s.target, temp: Some(Seq::empty()) },
        StoreStep::AppendChunk(c) => match s.temp {
            Some(d) => ArtifactStore { target: s.target, temp: Some(d + c) },
            None => s,
        },
        StoreStep::Commit => match s.temp {
            Some(d) => ArtifactStore { target: Some(d), temp: None },
            None => s,
        },
    }
}

/// The effect of a sequence of steps, first to last.
pub open spec fn run_store(s: ArtifactStore, es: Seq<StoreStep>) -> ArtifactStore
    decreases es.len(),
{
    if es.len() == 0 {
        s
    } else {
        run_store(step_store(s, es[0]), es.drop_first())
    }
}

/// All chunks, in order, as one byte sequence.
pub open spec fn concat_chunks(chunks: Seq<Seq<u8>>) -> Seq<u8>
    decreases chunks.len(),
{
    if chunks.len() == 0 {
        Seq::empty()
    } else {
        concat_chunks(chunks.drop_last()) + chunks.last()
    }
}

/// The total size of a sequence of chunks.
pub open spec fn total_len(chunks: Seq<Seq<u8>>) -> nat
    decreases chunks.len(),
{
    if chunks.len() == 0 {
        0
    } else {
        total_len(chunks.drop_last()) + chunks.last().len()
    }
}

/// The committed artifact is exactly as large as the chunks together: the
/// byte counter that sums the chunk sizes ends at the size of what was
/// written.
pub proof fn lemma_artifact_size(chunks: Seq<Seq<u8>>)
    ensures
        concat_chunks(chunks).len() == total_len(chunks),
    decreases chunks.len(),
{
    if chunks.len() > 0 {
        lemma_artifact_size(chunks.drop_last());
    }
}

/// The storage steps of a transfer that runs to completion: create the
/// temporary file, append every chunk, commit.
pub open spec fn transfer_steps(chunks: Seq<Seq<u8>>) -> Seq<StoreStep> {
    seq![StoreStep::CreateTemp] + chunks.map_values(|c: Seq<u8>| StoreStep::AppendChunk(c))
        + seq![StoreStep::Commit]
}

/// Whether the artifact counts as downloaded: purely a target-existence
/// check, no other state consulted.
pub open spec fn is_downloaded_in(s: ArtifactStore) -> bool {
    s.target is Some
}

proof fn lemma_run_one(s: ArtifactStore, e: StoreStep)
    ensures
        run_store(s, seq![e]) == step_store(s, e),
{
    let es = seq![e];
    assert(es.drop_first() =~= Seq::<StoreStep>::empty());
    assert(run_store(s, es) == run_store(step_store(s, e), es.drop_first()));
    assert(run_store(step_store(s, e), Seq::<StoreStep>::empty()) == step_store(s, e));
}

proof fn lemma_run_append(s: ArtifactStore, es1: Seq<StoreStep>, es2: Seq<StoreStep>)
    ensures
        run_store(s, es1 + es2) == run_store(run_store(s, es1), es2),
    decreases es1.len(),
{
    if es1.len() == 0 {
        assert(es1 + es2 =~= es2);
    } else {
        assert((es1 + es2).drop_first() =~= es1.drop_first() + es2);
        lemma_run_append(step_store(s, es1[0]), es1.drop_first(), es2);
    }
}

proof fn lemma_run_appends(s: ArtifactStore, target0: Option<Seq<u8>>, held: Seq<u8>, chunks: Seq<
    Seq<u8>,
>)
    requires
        s.target == target0,
        s.temp == Some(held),
    ensures
        run_store(s, chunks.map_values(|c: Seq<u8>| StoreStep::AppendChunk(c))).target == target0,
        run_store(s, chunks.map_values(|c: Seq<u8>| StoreStep::AppendChunk(c))).temp == Some(
            held + concat_chunks(chunks),
        ),
    decreases chunks.len(),
{
    let steps = chunks.map_values(|c: Seq<u8>| StoreStep::AppendChunk(c));
    if chunks.len() == 0 {
        assert(held + concat_chunks(chunks) =~= held);
    } else {
        let front = chunks.drop_last();
        let front_steps = front.map_values(|c: Seq<u8>| StoreStep::AppendChunk(c));
        assert(steps =~= front_steps + seq![StoreStep::AppendChunk(chunks.last())]);
        lemma_run_appends(s, target0, held, front);
        lemma_run_append(s, front_steps, seq![StoreStep::AppendChunk(chunks.last())]);
        let mid = run_store(s, front_steps);
        lemma_run_one(mid, StoreStep::AppendChunk(chunks.last()));
        assert(held + concat_chunks(front) + chunks.last() =~= held + concat_chunks(chunks));
    }
}

/// A transfer that runs to completion leaves the complete artifact — the
/// chunks in order — at the target path, leaves nothing at the temporary
/// path, and makes the artifact count as downloaded; this holds whatever
/// either location held before.
pub proof fn lemma_completed_transfer(s0: ArtifactStore, chunks: Seq<Seq<u8>>)
    ensures
        run_store(s0, transfer_steps(chunks)).target == Some(concat_chunks(chunks)),
        run_store(s0, transfer_steps(chunks)).temp is None,
        is_downloaded_in(run_store(s0, transfer_steps(chunks))),
{
    let created = step_store(s0, StoreStep::CreateTemp);
    let appends = chunks.map_values(|c: Seq<u8>| StoreStep::AppendChunk(c));
    assert(transfer_steps(chunks) =~= seq![StoreStep::CreateTemp] + (appends + seq![
        StoreStep::Commit,
    ]));
    lemma_run_append(s0, seq![StoreStep::CreateTemp], appends + seq![StoreStep::Commit]);
    lemma_run_one(s0, StoreStep::CreateTemp);
    lemma_run_append(created, appends, seq![StoreStep::Commit]);
    lemma_run_appends(created, s0.target, Seq::empty(), chunks);
    let streamed = run_store(created, appends);
    assert(streamed.temp == Some(Seq::<u8>::empty() + concat_chunks(chunks)));
    assert(Seq::<u8>::empty() + concat_chunks(chunks) =~= concat_chunks(chunks));
    lemma_run_one(streamed, StoreStep::Commit);
}

/// An attempt that never reaches the commit step — however far it got, and
/// however it failed — leaves the target exactly as it was: absent stays
/// absent, present stays present and untouched.
pub proof fn lemma_no_commit_preserves_target(s0: ArtifactStore, es: Seq<StoreStep>)
    requires
        forall|i: int| 0 <= i < es.len() ==> !(es[i] is Commit),
    ensures
        run_store(s0, es).target == s0.target,
    decreases es.len(),
{
    if es.len() > 0 {
        assert(!(es[0] is Commit));
        lemma_no_commit_preserves_target(step_store(s0, es[0]), es.drop_first());
    }
}

/// Before a download the artifact is not counted as downloaded (the target
/// is absent); immediately after a completed transfer it is.
pub proof fn lemma_downloaded_flips(s0: ArtifactStore, chunks: Seq<Seq<u8>>)
    requires
        s0.target is None,
    ensures
        !is_downloaded_in(s0),
        is_downloaded_in(run_store(s0, transfer_steps(chunks))),
{
    lemma_completed_transfer(s0, chunks);
}

} // verus!
