//! The disc model that the renderer consumes.
//!
//! A `Disc` and its `Track`s are plain data, built once by the caller from a
//! parsed cue sheet and never mutated by the renderer. Each field that a cue
//! sheet may omit is an `Option`; the renderer, not the model, decides which
//! fields are required.

use vstd::prelude::*;

verus! {

/// One track of the disc.
///
/// `start` is the track's absolute position in frames from the start of the
/// disc. `index1` is the offset of the track's index-1 marker, in frames,
/// relative to `start`. Index 1 exists for every track of a valid cue sheet,
/// so it is a plain field; the pre-gap marker (index 0) coincides with
/// `start` and needs no field of its own. The track stores no track number:
/// numbering is positional.
pub struct Track {
    pub title: Option<String>,
    pub performer: Option<String>,
    pub filename: String,
    pub start: u64,
    pub index1: u64,
}

/// Mathematical image of a `Track`.
pub ghost struct TrackView {
    pub title: Option<Seq<char>>,
    pub performer: Option<Seq<char>>,
    pub filename: Seq<char>,
    pub start: nat,
    pub index1: nat,
}

impl TrackView {
    /// The track's index-1 position never leaves the machine range when the
    /// relative offset is added to the absolute start.
    pub open spec fn wf(self) -> bool {
        self.start + self.index1 <= u64::MAX
    }
}

impl View for Track {
    type V = TrackView;

    open spec fn view(&self) -> TrackView {
        TrackView {
            title: match self.title {
                Some(t) => Some(t@),
                None => None,
            },
            performer: match self.performer {
                Some(p) => Some(p@),
                None => None,
            },
            filename: self.filename@,
            start: self.start as nat,
            index1: self.index1 as nat,
        }
    }
}

impl Track {
    /// True when adding the index-1 offset to the start cannot overflow.
    pub fn check_wf(&self) -> (r: bool)
        ensures
            r == self@.wf(),
    {
        self.start <= u64::MAX - self.index1
    }
}

/// A whole disc: its metadata and its tracks in physical order.
///
/// The referenced audio filename lives on the tracks; the renderer takes it
/// from the first track, so a disc must hold at least one track.
pub struct Disc {
    pub performer: Option<String>,
    pub title: Option<String>,
    pub date: Option<String>,
    pub genre: Option<String>,
    pub tracks: Vec<Track>,
}

/// Mathematical image of a `Disc`.
pub ghost struct DiscView {
    pub performer: Option<Seq<char>>,
    pub title: Option<Seq<char>>,
    pub date: Option<Seq<char>>,
    pub genre: Option<Seq<char>>,
    pub tracks: Seq<TrackView>,
}

impl DiscView {
    /// A renderable disc: at least one track, and every track well formed.
    pub open spec fn wf(self) -> bool {
        &&& self.tracks.len() > 0
        &&& forall|i: int| 0 <= i < self.tracks.len() ==> (#[trigger] self.tracks[i]).wf()
    }
}

impl View for Disc {
    type V = DiscView;

    open spec fn view(&self) -> DiscView {
        DiscView {
            performer: match self.performer {
                Some(p) => Some(p@),
                None => None,
            },
            title: match self.title {
                Some(t) => Some(t@),
                None => None,
            },
            date: match self.date {
                Some(d) => Some(d@),
                None => None,
            },
            genre: match self.genre {
                Some(g) => Some(g@),
                None => None,
            },
            tracks: Seq::new(self.tracks@.len(), |i: int| self.tracks@[i]@),
        }
    }
}

impl Disc {
    /// True when the disc can be rendered at all: it has a track, and no
    /// track's index-1 position overflows.
    pub fn check_wf(&self) -> (r: bool)
        ensures
            r == self@.wf(),
    {
        if self.tracks.len() == 0 {
            return false;
        }
        let mut i: usize = 0;
        while i < self.tracks.len()
            invariant
                0 <= i <= self.tracks@.len(),
                forall|j: int| 0 <= j < i ==> (#[trigger] self@.tracks[j]).wf(),
            decreases self.tracks@.len() - i,
        {
            if !self.tracks[i].check_wf() {
                proof {
                    assert(!(#[trigger] self@.tracks[i as int]).wf());
                }
                return false;
            }
            i = i + 1;
        }
        true
    }
}

} // verus!
