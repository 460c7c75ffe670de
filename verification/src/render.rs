//! The sheet renderer.
//!
//! `render` turns a disc model into normalized cue-sheet text, or fails with
//! the first missing required field in emission order. The exact text is
//! pinned down by `render_spec`: disc metadata lines in fixed order, then one
//! block per track with positional 1-based numbering, fixed indentation, and
//! timecode index lines. Nothing is written on failure: the result is a
//! whole `String` or an error.

use crate::error::{CueError, Field};
use crate::model::{Disc, DiscView, Track, TrackView};
use crate::text::{pad2, pad2_string};
use crate::timecode::{tc_frames, tc_minutes, tc_seconds, to_timecode};
use vstd::prelude::*;

verus! {

/// The `MM:SS:FF` text for an absolute frame count.
pub open spec fn timecode_text(f: nat) -> Seq<char> {
    pad2(tc_minutes(f)) + ":"@ + pad2(tc_seconds(f)) + ":"@ + pad2(tc_frames(f))
}

/// The disc-level metadata lines and the FILE line, in emission order.
/// Meaningful only when no disc-level field is missing.
pub open spec fn header_text(d: DiscView) -> Seq<char> {
    "PERFORMER \""@ + d.performer->0 + "\"\n"@ + "TITLE \""@ + d.title->0 + "\"\n"@
        + "REM DATE \""@ + d.date->0 + "\"\n"@ + "GENRE \""@ + d.genre->0 + "\"\n"@ + "FILE \""@
        + d.tracks[0].filename + "\" WAVE\n"@
}

/// The TRACK, TITLE and PERFORMER lines of one track block. `pos` is the
/// track's 0-based position; the rendered number is `pos + 1`.
pub open spec fn track_head_text(t: TrackView, pos: nat) -> Seq<char> {
    "  TRACK "@ + pad2(pos + 1) + " AUDIO\n"@ + "    TITLE \""@ + t.title->0 + "\"\n"@
        + "    PERFORMER \""@ + t.performer->0 + "\"\n"@
}

/// The pre-gap line of a track: its raw start position as a timecode.
pub open spec fn index00_text(t: TrackView) -> Seq<char> {
    "    INDEX 00 "@ + timecode_text(t.start) + "\n"@
}

/// The track-start line of a track: start plus the index-1 offset.
pub open spec fn index01_text(t: TrackView) -> Seq<char> {
    "    INDEX 01 "@ + timecode_text(t.start + t.index1) + "\n"@
}

/// One whole track block. The pre-gap line is suppressed for the first
/// track of the disc and emitted for every other track.
pub open spec fn track_block_text(t: TrackView, pos: nat) -> Seq<char> {
    track_head_text(t, pos) + (if pos == 0 {
        Seq::<char>::empty()
    } else {
        index00_text(t)
    }) + index01_text(t)
}

/// Whether a track carries both of its required text fields.
pub open spec fn track_fields_ok(t: TrackView) -> bool {
    t.title is Some && t.performer is Some
}

/// The first missing disc-level field in emission order, if any.
pub open spec fn first_missing_disc_field(d: DiscView) -> Option<Field> {
    if d.performer is None {
        Some(Field::Performer)
    } else if d.title is None {
        Some(Field::Title)
    } else if d.date is None {
        Some(Field::Date)
    } else if d.genre is None {
        Some(Field::Genre)
    } else {
        None
    }
}

/// The first missing track-level field at or after track `i`, in emission
/// order: a track's title is checked before its performer, earlier tracks
/// before later ones.
pub open spec fn first_missing_track_field(ts: Seq<TrackView>, i: int) -> Option<Field>
    decreases ts.len() - i,
{
    if i < 0 || i >= ts.len() {
        None
    } else if ts[i].title is None {
        Some(Field::TrackTitle)
    } else if ts[i].performer is None {
        Some(Field::TrackPerformer)
    } else {
        first_missing_track_field(ts, i + 1)
    }
}

/// The concatenated blocks of the tracks at positions `i..`, each numbered
/// by its position. Meaningful only when every track's fields are present.
pub open spec fn blocks_text(ts: Seq<TrackView>, i: int) -> Seq<char>
    decreases ts.len() - i,
{
    if i < 0 || i >= ts.len() {
        Seq::<char>::empty()
    } else {
        track_block_text(ts[i], i as nat) + blocks_text(ts, i + 1)
    }
}

/// The full rendered sheet of a disc with no missing field.
pub open spec fn render_text(d: DiscView) -> Seq<char> {
    header_text(d) + blocks_text(d.tracks, 0)
}

/// What rendering a disc yields: the exact sheet text, or the first missing
/// required field in emission order.
pub open spec fn render_spec(d: DiscView) -> Result<Seq<char>, Field> {
    match first_missing_disc_field(d) {
        Some(f) => Err(f),
        None => match first_missing_track_field(d.tracks, 0) {
            Some(f) => Err(f),
            None => Ok(render_text(d)),
        },
    }
}

/// When every track before `i` has its fields, the first missing track
/// field overall is the first at or after `i`.
proof fn lemma_skip_ok_tracks(ts: Seq<TrackView>, i: int)
    requires
        0 <= i <= ts.len(),
        forall|j: int| 0 <= j < i ==> track_fields_ok(#[trigger] ts[j]),
    ensures
        first_missing_track_field(ts, 0) == first_missing_track_field(ts, i),
    decreases i,
{
    if i > 0 {
        lemma_skip_ok_tracks(ts, i - 1);
        lemma_skip_step(ts, i - 1);
    }
}

/// One step of `lemma_skip_ok_tracks`: skipping a track whose fields are
/// present does not change the first missing field.
proof fn lemma_skip_step(ts: Seq<TrackView>, i: int)
    requires
        0 <= i < ts.len(),
        track_fields_ok(ts[i]),
    ensures
        first_missing_track_field(ts, i) == first_missing_track_field(ts, i + 1),
{
}

/// Track numbering in the output is positional and 1-based: the block of
/// the track at position `pos` begins with the line `  TRACK <pos+1> AUDIO`,
/// whatever the track holds. The model stores no track number, so nothing
/// in the source can influence the numbering.
pub proof fn lemma_track_numbering(t: TrackView, pos: nat)
    ensures
        track_block_text(t, pos).subrange(
            0,
            ("  TRACK "@ + pad2(pos + 1) + " AUDIO\n"@).len() as int,
        ) == "  TRACK "@ + pad2(pos + 1) + " AUDIO\n"@,
{
    assert(track_block_text(t, pos).subrange(
        0,
        ("  TRACK "@ + pad2(pos + 1) + " AUDIO\n"@).len() as int,
    ) =~= "  TRACK "@ + pad2(pos + 1) + " AUDIO\n"@);
}

/// The concatenated blocks of the tracks before position `k`.
pub open spec fn blocks_prefix(ts: Seq<TrackView>, k: int) -> Seq<char>
    decreases k,
{
    if k <= 0 {
        Seq::<char>::empty()
    } else {
        blocks_prefix(ts, k - 1) + track_block_text(ts[k - 1], (k - 1) as nat)
    }
}

/// The track blocks split around position `k`: what comes before it, then
/// the rest.
proof fn lemma_blocks_split(ts: Seq<TrackView>, k: int)
    requires
        0 <= k <= ts.len(),
    ensures
        blocks_text(ts, 0) == blocks_prefix(ts, k) + blocks_text(ts, k),
    decreases k,
{
    if k == 0 {
        assert(blocks_text(ts, 0) =~= blocks_prefix(ts, 0) + blocks_text(ts, 0));
    } else {
        lemma_blocks_split(ts, k - 1);
        assert(blocks_text(ts, k - 1) == track_block_text(ts[k - 1], (k - 1) as nat)
            + blocks_text(ts, k));
        assert(blocks_text(ts, 0) =~= blocks_prefix(ts, k) + blocks_text(ts, k));
    }
}

/// Track numbering over the whole sheet is sequential from 1: in the full
/// rendered text, the block of the track at position `k` starts at its
/// offset with the line `  TRACK <k+1> AUDIO`, for every `k` in turn.
pub proof fn lemma_sheet_numbering(d: DiscView, k: int)
    requires
        0 <= k < d.tracks.len(),
    ensures
        ({
            let off = header_text(d).len() + blocks_prefix(d.tracks, k).len();
            let line = "  TRACK "@ + pad2((k + 1) as nat) + " AUDIO\n"@;
            render_text(d).subrange(off as int, off + line.len() as int) == line
        }),
{
    let ts = d.tracks;
    let off = header_text(d).len() + blocks_prefix(ts, k).len();
    let line = "  TRACK "@ + pad2((k + 1) as nat) + " AUDIO\n"@;
    let block = track_block_text(ts[k], k as nat);
    lemma_blocks_split(ts, k);
    assert(blocks_text(ts, k) == block + blocks_text(ts, k + 1));
    assert(render_text(d) =~= (header_text(d) + blocks_prefix(ts, k)) + (block + blocks_text(
        ts,
        k + 1,
    )));
    lemma_track_numbering(ts[k], k as nat);
    assert(line.len() <= block.len()) by {
        assert(block.subrange(0, line.len() as int) == line);
    }
    assert forall|j: int| 0 <= j < line.len() implies render_text(d)[off + j] == line[j] by {
        assert(render_text(d)[off + j] == block[j]);
        assert(block.subrange(0, line.len() as int)[j] == line[j]);
    }
    assert(render_text(d).subrange(off as int, off + line.len() as int) =~= line);
}

/// The pre-gap line is omitted for the first track and present for every
/// other track: the block of the track at position 0 is its head followed
/// directly by the INDEX 01 line, while every later block carries the
/// INDEX 00 line between the two.
pub proof fn lemma_pregap_suppression(t: TrackView, pos: nat)
    ensures
        pos == 0 ==> track_block_text(t, pos) == track_head_text(t, pos) + index01_text(t),
        pos > 0 ==> track_block_text(t, pos) == track_head_text(t, pos) + index00_text(t)
            + index01_text(t),
{
    if pos == 0 {
        assert(track_block_text(t, pos) =~= track_head_text(t, pos) + index01_text(t));
    }
}

/// The fields of a disc that the rendered text is built from. Two discs
/// that agree on them are indistinguishable to the renderer.
pub open spec fn same_rendered_content(a: DiscView, b: DiscView) -> bool {
    &&& a.performer == b.performer
    &&& a.title == b.title
    &&& a.date == b.date
    &&& a.genre == b.genre
    &&& a.tracks.len() == b.tracks.len()
    &&& a.tracks.len() > 0 ==> a.tracks[0].filename == b.tracks[0].filename
    &&& forall|i: int|
        0 <= i < a.tracks.len() ==> {
            &&& (#[trigger] a.tracks[i]).title == (#[trigger] b.tracks[i]).title
            &&& a.tracks[i].performer == b.tracks[i].performer
            &&& a.tracks[i].start == b.tracks[i].start
            &&& a.tracks[i].index1 == b.tracks[i].index1
        }
}

/// Helper for `lemma_render_depends_on_content_only`: the track scan and
/// the block texts agree from position `i` on.
proof fn lemma_tracks_content_congruence(a: Seq<TrackView>, b: Seq<TrackView>, i: int)
    requires
        a.len() == b.len(),
        forall|j: int|
            0 <= j < a.len() ==> {
                &&& (#[trigger] a[j]).title == (#[trigger] b[j]).title
                &&& a[j].performer == b[j].performer
                &&& a[j].start == b[j].start
                &&& a[j].index1 == b[j].index1
            },
    ensures
        first_missing_track_field(a, i) == first_missing_track_field(b, i),
        blocks_text(a, i) == blocks_text(b, i),
    decreases a.len() - i,
{
    if 0 <= i < a.len() {
        lemma_tracks_content_congruence(a, b, i + 1);
        assert(track_block_text(a[i], i as nat) =~= track_block_text(b[i], i as nat));
    }
}

/// The rendered text is a function of the rendered content alone: two
/// discs that agree on every field the renderer reads yield the same
/// result — the same text, or the same missing-field error. In particular,
/// re-rendering a disc rebuilt from a render's output by any parser that
/// preserves that content yields byte-identical text.
pub proof fn lemma_render_depends_on_content_only(a: DiscView, b: DiscView)
    requires
        a.tracks.len() > 0,
        same_rendered_content(a, b),
    ensures
        render_spec(a) == render_spec(b),
{
    lemma_tracks_content_congruence(a.tracks, b.tracks, 0);
    if first_missing_disc_field(a) is None && first_missing_track_field(a.tracks, 0) is None {
        assert(header_text(a) =~= header_text(b));
        assert(render_text(a) =~= render_text(b));
    }
}

/// Returns the `MM:SS:FF` text for an absolute frame count.
pub fn timecode_string(f: u64) -> (s: String)
    ensures
        s@ == timecode_text(f as nat),
{
    let (m, sec, fr) = to_timecode(f);
    let mut out = pad2_string(m);
    out.append(":");
    let sec_s = pad2_string(sec);
    out.append(sec_s.as_str());
    out.append(":");
    let fr_s = pad2_string(fr);
    out.append(fr_s.as_str());
    proof {
        assert(out@ =~= timecode_text(f as nat));
    }
    out
}

/// Returns one whole track block: the TRACK, TITLE and PERFORMER lines,
/// the pre-gap line for every track but the first, and the INDEX 01 line.
fn track_block_string(t: &Track, pos: u64) -> (s: String)
    requires
        t@.wf(),
        track_fields_ok(t@),
        pos + 1 <= u64::MAX,
    ensures
        s@ == track_block_text(t@, pos as nat),
{
    let mut out = String::new();
    out.append("  TRACK ");
    let num = pad2_string(pos + 1);
    out.append(num.as_str());
    out.append(" AUDIO\n");
    out.append("    TITLE \"");
    let t_title = match &t.title {
        Some(s) => s,
        None => { vstd::pervasive::unreached() },
    };
    out.append(t_title.as_str());
    out.append("\"\n");
    out.append("    PERFORMER \"");
    let t_performer = match &t.performer {
        Some(s) => s,
        None => { vstd::pervasive::unreached() },
    };
    out.append(t_performer.as_str());
    out.append("\"\n");
    if pos != 0 {
        out.append("    INDEX 00 ");
        let tc = timecode_string(t.start);
        out.append(tc.as_str());
        out.append("\n");
    }
    out.append("    INDEX 01 ");
    let tc1 = timecode_string(t.start + t.index1);
    out.append(tc1.as_str());
    out.append("\n");
    proof {
        assert(out@ =~= track_block_text(t@, pos as nat));
    }
    out
}

/// Renders the disc as normalized cue-sheet text.
///
/// On success the returned string is exactly `render_text(disc@)`. When a
/// required field is absent the result is the missing-field error naming the
/// first such field in emission order, and nothing is produced.
pub fn render(disc: &Disc) -> (r: Result<String, CueError>)
    requires
        disc@.wf(),
    ensures
        match render_spec(disc@) {
            Ok(text) => r matches Ok(s) && s@ == text,
            Err(f) => r == Err::<String, CueError>(CueError::MissingField(f)),
        },
{
    let performer = match &disc.performer {
        Some(p) => p,
        None => { return Err(CueError::MissingField(Field::Performer)) },
    };
    let title = match &disc.title {
        Some(t) => t,
        None => { return Err(CueError::MissingField(Field::Title)) },
    };
    let date = match &disc.date {
        Some(d) => d,
        None => { return Err(CueError::MissingField(Field::Date)) },
    };
    let genre = match &disc.genre {
        Some(g) => g,
        None => { return Err(CueError::MissingField(Field::Genre)) },
    };
    let mut out = String::new();
    out.append("PERFORMER \"");
    out.append(performer.as_str());
    out.append("\"\n");
    out.append("TITLE \"");
    out.append(title.as_str());
    out.append("\"\n");
    out.append("REM DATE \"");
    out.append(date.as_str());
    out.append("\"\n");
    out.append("GENRE \"");
    out.append(genre.as_str());
    out.append("\"\n");
    out.append("FILE \"");
    out.append(disc.tracks[0].filename.as_str());
    out.append("\" WAVE\n");
    proof {
        assert(out@ =~= header_text(disc@));
    }
    let ghost ts = disc@.tracks;
    let n = disc.tracks.len();
    let mut i: usize = 0;
    while i < n
        invariant
            disc@.wf(),
            first_missing_disc_field(disc@) is None,
            n == disc.tracks@.len(),
            ts == disc@.tracks,
            0 <= i <= n,
            forall|j: int| 0 <= j < i ==> track_fields_ok(#[trigger] ts[j]),
            out@ + blocks_text(ts, i as int) == render_text(disc@),
        decreases n - i,
    {
        let t = &disc.tracks[i];
        proof {
            assert(t@ == ts[i as int]);
            assert(disc@.tracks[i as int].wf());
        }
        if t.title.is_none() {
            proof {
                lemma_skip_ok_tracks(ts, i as int);
            }
            return Err(CueError::MissingField(Field::TrackTitle));
        }
        if t.performer.is_none() {
            proof {
                lemma_skip_ok_tracks(ts, i as int);
            }
            return Err(CueError::MissingField(Field::TrackPerformer));
        }
        let ghost out_before = out@;
        let block = track_block_string(t, i as u64);
        out.append(block.as_str());
        proof {
            assert(blocks_text(ts, i as int) == track_block_text(ts[i as int], i as nat)
                + blocks_text(ts, i as int + 1));
            assert(out@ + blocks_text(ts, i as int + 1) =~= out_before + blocks_text(
                ts,
                i as int,
            ));
        }
        i = i + 1;
    }
    proof {
        lemma_skip_ok_tracks(ts, n as int);
        assert(out@ =~= render_text(disc@));
    }
    Ok(out)
}

} // verus!
