//! The artifact handle: an immutable aggregate of the text summaries, the
//! integrity hash and the path of the columnar file, handed across the
//! process boundary. Accessors are pure reads; for the optional fields they
//! collapse "absent" and "present but empty" into the empty string — a
//! documented, intentional simplification of the accessor boundary.

use vstd::prelude::*;

verus! {

/// One ingested replay, as handed to the host: the match-start summary, the
/// optional end and metadata summaries, the optional integrity hash, and the
/// path of the finalized columnar file.
pub struct Game {
    pub start: String,
    pub end: Option<String>,
    pub metadata: Option<String>,
    pub hash: Option<String>,
    pub frames_arrow_path: String,
}

/// The characters an accessor returns for an optional field: the text when
/// present, the empty string when absent.
pub open spec fn summary_or_empty(o: Option<String>) -> Seq<char> {
    match o {
        Some(s) => s@,
        None => Seq::empty(),
    }
}

impl Game {
    /// The match-start summary.
    pub fn get_start(&self) -> (r: String)
        ensures
            r@ == self.start@,
    {
        self.start.clone()
    }

    /// The end summary, or the empty string where the record is absent.
    pub fn get_end(&self) -> (r: String)
        ensures
            r@ == summary_or_empty(self.end),
    {
        match &self.end {
            Some(s) => s.clone(),
            None => String::new(),
        }
    }

    /// The metadata summary, or the empty string where the record is absent.
    pub fn get_metadata(&self) -> (r: String)
        ensures
            r@ == summary_or_empty(self.metadata),
    {
        match &self.metadata {
            Some(s) => s.clone(),
            None => String::new(),
        }
    }

    /// The integrity hash, or the empty string where it is absent.
    pub fn get_hash(&self) -> (r: String)
        ensures
            r@ == summary_or_empty(self.hash),
    {
        match &self.hash {
            Some(s) => s.clone(),
            None => String::new(),
        }
    }

    /// The path of the finalized columnar file.
    pub fn get_frames_arrow_path(&self) -> (r: String)
        ensures
            r@ == self.frames_arrow_path@,
    {
        self.frames_arrow_path.clone()
    }
}

} // verus!
