//! Plain-value model of a decoded replay, and the occupancy resolver.
//!
//! The binary decoder (an external collaborator) produces a fully decoded
//! in-memory game record; this module models the parts of that record the
//! pipeline reads: the match-start player list, the optional text summaries,
//! the integrity hash, and the per-frame time series.

use vstd::prelude::*;

verus! {

/// External character id of the one character whose primary entity spawns a
/// bound companion (follower) entity, so that its port carries auxiliary
/// per-frame data.
pub const ICE_CLIMBERS: u8 = 14;

/// One participant of the match-start record: the port it sits on and the
/// external id of its selected character.
#[derive(Clone, Debug, PartialEq, Eq, Structural)]
pub struct Player {
    pub port: u8,
    pub character: u8,
}

/// The match-start record, reduced to what the pipeline reads: the ordered
/// list of participating players.
#[derive(Clone, Debug, PartialEq)]
pub struct StartRecord {
    pub players: Vec<Player>,
}

/// Occupancy of one structural slot (player port): which port it is, and
/// whether the port carries an auxiliary (follower) entity.
#[derive(Clone, Copy, Debug, PartialEq, Eq, Structural)]
pub struct SlotOccupancy {
    pub slot_id: u8,
    pub has_auxiliary: bool,
}

/// Per-frame state of one in-game entity.
#[derive(Clone, Copy, Debug, PartialEq, Eq, Structural)]
pub struct EntityFrame {
    pub character: u8,
    pub action_state: u16,
}

/// Per-frame state of one occupied slot: the primary (leader) entity, and the
/// auxiliary (follower) entity where the slot has one.
#[derive(Clone, Copy, Debug, PartialEq)]
pub struct SlotFrame {
    pub leader: EntityFrame,
    pub follower: Option<EntityFrame>,
}

/// One frame of the time series: its frame index and the state of each
/// occupied slot, in the same slot order as the match-start player list.
#[derive(Clone, Debug, PartialEq)]
pub struct Frame {
    pub index: i32,
    pub slots: Vec<SlotFrame>,
}

/// A fully decoded replay, as the external decoder hands it over: the
/// structural start record, the already text-encoded summaries (`None` marks
/// an absent record or a failed encoding, which degrades to absence), the
/// integrity hash, and the frame time series.
#[derive(Clone, Debug, PartialEq)]
pub struct DecodedGame {
    pub start: StartRecord,
    pub start_summary: String,
    pub end_summary: Option<String>,
    pub metadata_summary: Option<String>,
    pub hash: Option<String>,
    pub frames: Vec<Frame>,
}

/// The occupancy list derived from a player list: one entry per player, in
/// order, carrying its port and whether its character spawns a companion.
pub open spec fn spec_occupancy(players: Seq<Player>) -> Seq<SlotOccupancy> {
    Seq::new(
        players.len(),
        |i: int|
            SlotOccupancy {
                slot_id: players[i].port,
                has_auxiliary: players[i].character == ICE_CLIMBERS,
            },
    )
}

/// A frame series is shaped by an occupancy list when every frame has one
/// slot entry per occupancy entry, and a follower entry exactly where the
/// occupancy says the slot has an auxiliary entity.
pub open spec fn frames_match(frames: Seq<Frame>, occupancy: Seq<SlotOccupancy>) -> bool {
    forall|k: int|
        0 <= k < frames.len() ==> {
            &&& (#[trigger] frames[k]).slots@.len() == occupancy.len()
            &&& forall|i: int|
                0 <= i < occupancy.len() ==> ((#[trigger] frames[k].slots@[i]).follower is Some
                    <==> occupancy[i].has_auxiliary)
        }
}

/// Occupancy resolver: derive, from the match-start player list, which slots
/// exist and which of them carry an auxiliary entity. The output has one
/// entry per player, in the same order; `has_auxiliary` is true exactly when
/// the player's character is the companion-spawning one.
pub fn port_occupancy(start: &StartRecord) -> (r: Vec<SlotOccupancy>)
    ensures
        r@ == spec_occupancy(start.players@),
        r@.len() == start.players@.len(),
        forall|i: int|
            0 <= i < r@.len() ==> (#[trigger] r@[i]).slot_id == start.players@[i].port && (
            r@[i].has_auxiliary <==> start.players@[i].character == ICE_CLIMBERS),
{
    let mut r: Vec<SlotOccupancy> = Vec::new();
    let mut k: usize = 0;
    while k < start.players.len()
        invariant
            k <= start.players@.len(),
            r@ =~= spec_occupancy(start.players@).take(k as int),
        decreases start.players@.len() - k,
    {
        let p = &start.players[k];
        r.push(SlotOccupancy { slot_id: p.port, has_auxiliary: p.character == ICE_CLIMBERS });
        k += 1;
    }
    assert(r@ =~= spec_occupancy(start.players@));
    r
}

} // verus!
