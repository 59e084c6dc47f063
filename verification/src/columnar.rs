//! Frame columnarizer: turn the frame time series and the occupancy list into
//! a columnar layout whose schema is derived from that same occupancy list.

use vstd::prelude::*;

use crate::model::{Frame, SlotOccupancy};

verus! {

/// Columns of one entity across all frames: one value per frame, in frame
/// order, per field.
#[derive(Clone, Debug, PartialEq)]
pub struct EntityColumns {
    pub character: Vec<u8>,
    pub action_state: Vec<u16>,
}

/// Columns of one occupied slot: the leader's columns, and the follower's
/// columns where the slot carries an auxiliary entity.
#[derive(Clone, Debug, PartialEq)]
pub struct SlotColumns {
    pub leader: EntityColumns,
    pub follower: Option<EntityColumns>,
}

/// The columnar layout of a frame series: the schema (the occupancy list it
/// was built from), the frame-index column, and one `SlotColumns` per schema
/// entry.
#[derive(Clone, Debug, PartialEq)]
pub struct ColumnarFrames {
    pub schema: Vec<SlotOccupancy>,
    pub index: Vec<i32>,
    pub slots: Vec<SlotColumns>,
}

/// Mathematical image of `EntityColumns`.
#[verifier::ext_equal]
pub ghost struct EntityColumnsView {
    pub character: Seq<u8>,
    pub action_state: Seq<u16>,
}

/// Mathematical image of `SlotColumns`.
#[verifier::ext_equal]
pub ghost struct SlotColumnsView {
    pub leader: EntityColumnsView,
    pub follower: Option<EntityColumnsView>,
}

impl View for EntityColumns {
    type V = EntityColumnsView;

    open spec fn view(&self) -> EntityColumnsView {
        EntityColumnsView { character: self.character@, action_state: self.action_state@ }
    }
}

impl View for SlotColumns {
    type V = SlotColumnsView;

    open spec fn view(&self) -> SlotColumnsView {
        SlotColumnsView {
            leader: self.leader@,
            follower: match self.follower {
                Some(f) => Some(f@),
                None => None,
            },
        }
    }
}

/// The views of a sequence of slot columns.
pub open spec fn slots_view(s: Seq<SlotColumns>) -> Seq<SlotColumnsView> {
    s.map_values(|sc: SlotColumns| sc@)
}

/// Well-formedness of a columnar layout: one `SlotColumns` per schema entry,
/// every column as long as the index column, and follower columns present
/// exactly where the schema says the slot has an auxiliary entity.
pub open spec fn columnar_wf(c: ColumnarFrames) -> bool {
    &&& c.slots@.len() == c.schema@.len()
    &&& forall|i: int|
        0 <= i < c.slots@.len() ==> {
            let sc = #[trigger] c.slots@[i];
            &&& sc.leader.character@.len() == c.index@.len()
            &&& sc.leader.action_state@.len() == c.index@.len()
            &&& (sc.follower is Some <==> c.schema@[i].has_auxiliary)
            &&& (sc.follower is Some ==> sc.follower->0.character@.len() == c.index@.len()
                && sc.follower->0.action_state@.len() == c.index@.len())
        }
}

/// The columns of the leader entity of slot `i`, read off a frame series.
pub open spec fn spec_leader_columns(frames: Seq<Frame>, i: int) -> EntityColumnsView {
    EntityColumnsView {
        character: Seq::new(frames.len(), |k: int| frames[k].slots@[i].leader.character),
        action_state: Seq::new(frames.len(), |k: int| frames[k].slots@[i].leader.action_state),
    }
}

/// The columns of the follower entity of slot `i`, read off a frame series.
pub open spec fn spec_follower_columns(frames: Seq<Frame>, i: int) -> EntityColumnsView {
    EntityColumnsView {
        character: Seq::new(frames.len(), |k: int| frames[k].slots@[i].follower->0.character),
        action_state: Seq::new(
            frames.len(),
            |k: int| frames[k].slots@[i].follower->0.action_state,
        ),
    }
}

/// The slot columns a frame series columnarizes to under an occupancy list:
/// one entry per occupancy entry, with follower columns exactly where the
/// occupancy has an auxiliary entity.
pub open spec fn spec_columnar_slots(frames: Seq<Frame>, occupancy: Seq<SlotOccupancy>) -> Seq<
    SlotColumnsView,
> {
    Seq::new(
        occupancy.len(),
        |i: int|
            SlotColumnsView {
                leader: spec_leader_columns(frames, i),
                follower: if occupancy[i].has_auxiliary {
                    Some(spec_follower_columns(frames, i))
                } else {
                    None
                },
            },
    )
}

/// The frame-index column of a frame series, in frame order.
pub open spec fn spec_index_column(frames: Seq<Frame>) -> Seq<i32> {
    Seq::new(frames.len(), |k: int| frames[k].index)
}

/// The schema of a columnarized series has one sub-column per occupancy
/// entry, and an auxiliary sub-column exactly where the occupancy entry has
/// `has_auxiliary` — including the empty occupancy and the empty series.
pub proof fn lemma_columnar_schema_shape(frames: Seq<Frame>, occupancy: Seq<SlotOccupancy>)
    ensures
        spec_columnar_slots(frames, occupancy).len() == occupancy.len(),
        forall|i: int|
            0 <= i < occupancy.len() ==> ((#[trigger] spec_columnar_slots(frames, occupancy)[i]).follower is Some
                <==> occupancy[i].has_auxiliary),
{
}

fn leader_columns(frames: &Vec<Frame>, i: usize) -> (r: EntityColumns)
    requires
        forall|k: int| 0 <= k < frames@.len() ==> i < (#[trigger] frames@[k]).slots@.len(),
    ensures
        r@ == spec_leader_columns(frames@, i as int),
{
    let n = frames.len();
    let mut character: Vec<u8> = Vec::new();
    let mut action_state: Vec<u16> = Vec::new();
    let mut k: usize = 0;
    while k < n
        invariant
            k <= n,
            n == frames@.len(),
            forall|k2: int| 0 <= k2 < frames@.len() ==> i < (#[trigger] frames@[k2]).slots@.len(),
            character@ =~= spec_leader_columns(frames@, i as int).character.take(k as int),
            action_state@ =~= spec_leader_columns(frames@, i as int).action_state.take(k as int),
        decreases n - k,
    {
        let e = &frames[k].slots[i].leader;
        character.push(e.character);
        action_state.push(e.action_state);
        k += 1;
    }
    let r = EntityColumns { character, action_state };
    assert(r@.character =~= spec_leader_columns(frames@, i as int).character);
    assert(r@.action_state =~= spec_leader_columns(frames@, i as int).action_state);
    r
}

fn follower_columns(frames: &Vec<Frame>, i: usize) -> (r: EntityColumns)
    requires
        forall|k: int|
            0 <= k < frames@.len() ==> i < (#[trigger] frames@[k]).slots@.len()
                && frames@[k].slots@[i as int].follower is Some,
    ensures
        r@ == spec_follower_columns(frames@, i as int),
{
    let n = frames.len();
    let mut character: Vec<u8> = Vec::new();
    let mut action_state: Vec<u16> = Vec::new();
    let mut k: usize = 0;
    while k < n
        invariant
            k <= n,
            n == frames@.len(),
            forall|k2: int|
                0 <= k2 < frames@.len() ==> i < (#[trigger] frames@[k2]).slots@.len()
                    && frames@[k2].slots@[i as int].follower is Some,
            character@ =~= spec_follower_columns(frames@, i as int).character.take(k as int),
            action_state@ =~= spec_follower_columns(frames@, i as int).action_state.take(k as int),
        decreases n - k,
    {
        let sf = &frames[k].slots[i];
        match &sf.follower {
            Some(e) => {
                character.push(e.character);
                action_state.push(e.action_state);
            },
            None => {
                assert(false);
            },
        }
        k += 1;
    }
    let r = EntityColumns { character, action_state };
    assert(r@.character =~= spec_follower_columns(frames@, i as int).character);
    assert(r@.action_state =~= spec_follower_columns(frames@, i as int).action_state);
    r
}

/// Frame columnarizer: build the columnar layout of `frames` under
/// `occupancy`. The schema of the result is exactly the occupancy list, the
/// index column preserves frame order, every cell is the matching field of
/// the matching frame, and a zero-length series yields a valid, empty,
/// correctly-schemed layout.
pub fn columnarize(frames: &Vec<Frame>, occupancy: &Vec<SlotOccupancy>) -> (r: ColumnarFrames)
    requires
        crate::model::frames_match(frames@, occupancy@),
    ensures
        r.schema@ == occupancy@,
        r.index@ == spec_index_column(frames@),
        slots_view(r.slots@) == spec_columnar_slots(frames@, occupancy@),
        columnar_wf(r),
{
    let mut index: Vec<i32> = Vec::new();
    let mut k: usize = 0;
    while k < frames.len()
        invariant
            k <= frames@.len(),
            index@ =~= spec_index_column(frames@).take(k as int),
        decreases frames@.len() - k,
    {
        index.push(frames[k].index);
        k += 1;
    }
    assert(index@ =~= spec_index_column(frames@));

    let mut slots: Vec<SlotColumns> = Vec::new();
    let mut i: usize = 0;
    while i < occupancy.len()
        invariant
            i <= occupancy@.len(),
            crate::model::frames_match(frames@, occupancy@),
            slots@.len() == i as int,
            forall|j: int|
                0 <= j < i as int ==> (#[trigger] slots@[j])@ == spec_columnar_slots(
                    frames@,
                    occupancy@,
                )[j],
        decreases occupancy@.len() - i,
    {
        let leader = leader_columns(frames, i);
        let follower = if occupancy[i].has_auxiliary {
            Some(follower_columns(frames, i))
        } else {
            None
        };
        let sc = SlotColumns { leader, follower };
        proof {
            assert(sc@ == spec_columnar_slots(frames@, occupancy@)[i as int]);
        }
        slots.push(sc);
        i += 1;
    }
    proof {
        assert(slots_view(slots@) =~= spec_columnar_slots(frames@, occupancy@));
    }

    let r = ColumnarFrames { schema: occupancy.clone(), index, slots };
    proof {
        assert(r.schema@ =~= occupancy@);
        let full = spec_columnar_slots(frames@, occupancy@);
        assert forall|j: int| 0 <= j < r.slots@.len() implies {
            let sc = #[trigger] r.slots@[j];
            &&& sc.leader.character@.len() == r.index@.len()
            &&& sc.leader.action_state@.len() == r.index@.len()
            &&& (sc.follower is Some <==> r.schema@[j].has_auxiliary)
            &&& (sc.follower is Some ==> sc.follower->0.character@.len() == r.index@.len()
                && sc.follower->0.action_state@.len() == r.index@.len())
        } by {
            assert(r.slots@[j]@ == slots_view(r.slots@)[j]);
            assert(slots_view(r.slots@)[j] == full[j]);
        }
    }
    r
}

/// Whether a columnar layout is well formed; the runtime mirror of
/// `columnar_wf`, used by the file writer to validate the schema against the
/// data before writing.
pub fn is_well_formed(c: &ColumnarFrames) -> (r: bool)
    ensures
        r == columnar_wf(*c),
{
    if c.slots.len() != c.schema.len() {
        return false;
    }
    let nrows = c.index.len();
    let mut i: usize = 0;
    while i < c.slots.len()
        invariant
            i <= c.slots@.len(),
            c.slots@.len() == c.schema@.len(),
            nrows == c.index@.len(),
            forall|j: int|
                0 <= j < i ==> {
                    let sc = #[trigger] c.slots@[j];
                    &&& sc.leader.character@.len() == c.index@.len()
                    &&& sc.leader.action_state@.len() == c.index@.len()
                    &&& (sc.follower is Some <==> c.schema@[j].has_auxiliary)
                    &&& (sc.follower is Some ==> sc.follower->0.character@.len() == c.index@.len()
                        && sc.follower->0.action_state@.len() == c.index@.len())
                },
        decreases c.slots@.len() - i,
    {
        let sc = &c.slots[i];
        if sc.leader.character.len() != nrows || sc.leader.action_state.len() != nrows {
            return false;
        }
        match &sc.follower {
            Some(f) => {
                if !c.schema[i].has_auxiliary {
                    return false;
                }
                if f.character.len() != nrows || f.action_state.len() != nrows {
                    return false;
                }
            },
            None => {
                if c.schema[i].has_auxiliary {
                    return false;
                }
            },
        }
        i += 1;
    }
    true
}

} // verus!
