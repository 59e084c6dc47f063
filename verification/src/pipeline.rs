//! The ingestion pipeline: from a decoded replay to the artifact handle and
//! the columnar layout of its frame series.
//!
//! The caller at the process boundary opens the replay file, runs the
//! external decoder and text-encodes the fixed-shape records; the pipeline
//! here derives the occupancy, columnarizes the frame series, produces the
//! hash-derived destination path, and builds the handle. The caller
//! serializes the layout as a finalized Arrow IPC file at that path before it
//! lets the handle escape, so that a returned path always names a finalized,
//! generally readable file.

use vstd::prelude::*;

use crate::columnar::{ColumnarFrames, columnar_wf, columnarize, slots_view, spec_columnar_slots,
    spec_index_column};
use crate::handle::Game;
use crate::model::{DecodedGame, Frame, SlotOccupancy, frames_match, port_occupancy,
    spec_occupancy};

verus! {

/// The error of the ingestion pipeline: the decoded frame series does not
/// have the shape the match-start record promises.
#[derive(Clone, Copy, Debug, PartialEq, Eq, Structural)]
pub enum IngestError {
    FrameShapeMismatch,
}

/// The view of an optional text field.
pub open spec fn opt_text(o: Option<String>) -> Option<Seq<char>> {
    match o {
        Some(s) => Some(s@),
        None => None,
    }
}

/// The destination path of a replay's columnar file: under the given
/// temporary directory, named by the integrity hash, with a fixed sentinel
/// where the hash is absent.
pub open spec fn spec_frames_path(tmp: Seq<char>, hash: Option<Seq<char>>) -> Seq<char> {
    tmp + "/slippi_frames_"@ + (match hash {
        Some(h) => h,
        None => "unknown"@,
    }) + ".arrow"@
}

/// Everything a successful ingestion pins down: the handle carries the
/// decoded summaries, the hash and the hash-derived path unchanged, and the
/// columnar layout is exactly the columnarization of the frame series under
/// the occupancy the start record determines.
pub open spec fn ingest_post(
    game: DecodedGame,
    tmp: Seq<char>,
    handle: Game,
    columns: ColumnarFrames,
) -> bool {
    &&& handle.start@ == game.start_summary@
    &&& opt_text(handle.end) == opt_text(game.end_summary)
    &&& opt_text(handle.metadata) == opt_text(game.metadata_summary)
    &&& opt_text(handle.hash) == opt_text(game.hash)
    &&& handle.frames_arrow_path@ == spec_frames_path(tmp, opt_text(game.hash))
    &&& columns.schema@ == spec_occupancy(game.start.players@)
    &&& columns.index@ == spec_index_column(game.frames@)
    &&& slots_view(columns.slots@) == spec_columnar_slots(
        game.frames@,
        spec_occupancy(game.start.players@),
    )
    &&& columnar_wf(columns)
}

/// Whether a frame series has the shape an occupancy list promises; the
/// runtime mirror of `frames_match`.
pub fn frames_match_exec(frames: &Vec<Frame>, occupancy: &Vec<SlotOccupancy>) -> (r: bool)
    ensures
        r == frames_match(frames@, occupancy@),
{
    let mut k: usize = 0;
    while k < frames.len()
        invariant
            k <= frames@.len(),
            forall|k2: int|
                0 <= k2 < k as int ==> {
                    &&& (#[trigger] frames@[k2]).slots@.len() == occupancy@.len()
                    &&& forall|i: int|
                        0 <= i < occupancy@.len() ==> ((#[trigger] frames@[k2].slots@[i]).follower
                            is Some <==> occupancy@[i].has_auxiliary)
                },
        decreases frames@.len() - k,
    {
        if frames[k].slots.len() != occupancy.len() {
            proof {
                assert(frames@[k as int].slots@.len() != occupancy@.len());
            }
            return false;
        }
        let mut i: usize = 0;
        while i < occupancy.len()
            invariant
                i <= occupancy@.len(),
                (k as int) < frames@.len(),
                frames@[k as int].slots@.len() == occupancy@.len(),
                forall|i2: int|
                    0 <= i2 < i as int ==> ((#[trigger] frames@[k as int].slots@[i2]).follower
                        is Some <==> occupancy@[i2].has_auxiliary),
            decreases occupancy@.len() - i,
        {
            let present = match &frames[k].slots[i].follower {
                Some(_) => true,
                None => false,
            };
            if present != occupancy[i].has_auxiliary {
                proof {
                    assert(!((frames@[k as int].slots@[i as int]).follower is Some
                        <==> occupancy@[i as int].has_auxiliary));
                }
                return false;
            }
            i += 1;
        }
        k += 1;
    }
    true
}

/// A copy of an optional text field with the same content.
fn clone_opt_text(o: &Option<String>) -> (r: Option<String>)
    ensures
        opt_text(r) == opt_text(*o),
{
    match o {
        Some(s) => Some(s.clone()),
        None => None,
    }
}

/// The destination path for a replay with the given integrity hash, under
/// the given temporary directory. Replays without a hash all share the fixed
/// sentinel name, so concurrent ingestions of hash-less replays contend for
/// one destination; callers that need distinct files must supply a hash.
pub fn frames_path(temp_dir: &str, hash: &Option<String>) -> (r: String)
    ensures
        r@ == spec_frames_path(temp_dir@, opt_text(*hash)),
{
    let mut s = temp_dir.to_owned();
    s.append("/slippi_frames_");
    match hash {
        Some(h) => s.append(h.as_str()),
        None => s.append("unknown"),
    }
    s.append(".arrow");
    s
}

/// Ingest one decoded replay: derive the occupancy, columnarize the frame
/// series, produce the hash-derived destination path, and build the artifact
/// handle. Succeeds exactly when the frame series has the shape the
/// match-start record promises; nothing escapes on the failure path.
pub fn read_slippi(game: &DecodedGame, temp_dir: &str) -> (r: Result<
    (Game, ColumnarFrames),
    IngestError,
>)
    ensures
        r is Ok <==> frames_match(game.frames@, spec_occupancy(game.start.players@)),
        r is Ok ==> ingest_post(*game, temp_dir@, r->Ok_0.0, r->Ok_0.1),
        r is Err ==> r->Err_0 == IngestError::FrameShapeMismatch,
{
    let occupancy = port_occupancy(&game.start);
    if !frames_match_exec(&game.frames, &occupancy) {
        return Err(IngestError::FrameShapeMismatch);
    }
    let columns = columnarize(&game.frames, &occupancy);
    let path = frames_path(temp_dir, &game.hash);
    let handle = Game {
        start: game.start_summary.clone(),
        end: clone_opt_text(&game.end_summary),
        metadata: clone_opt_text(&game.metadata_summary),
        hash: clone_opt_text(&game.hash),
        frames_arrow_path: path,
    };
    Ok((handle, columns))
}

/// Idempotence: two ingestions of the same decoded replay under the same
/// temporary directory yield handles with the same summary text, the same
/// hash and the same destination path, and columnar layouts with identical
/// schema, frame ordering and cell content.
pub proof fn lemma_ingest_idempotent(
    game: DecodedGame,
    tmp: Seq<char>,
    h1: Game,
    c1: ColumnarFrames,
    h2: Game,
    c2: ColumnarFrames,
)
    requires
        ingest_post(game, tmp, h1, c1),
        ingest_post(game, tmp, h2, c2),
    ensures
        h1.start@ == h2.start@,
        opt_text(h1.end) == opt_text(h2.end),
        opt_text(h1.metadata) == opt_text(h2.metadata),
        opt_text(h1.hash) == opt_text(h2.hash),
        h1.frames_arrow_path@ == h2.frames_arrow_path@,
        c1.schema@ == c2.schema@,
        c1.index@ == c2.index@,
        slots_view(c1.slots@) == slots_view(c2.slots@),
{
}


} // verus!
