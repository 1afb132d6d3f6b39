//! Layout calculator: fixed cell metrics, per-track pixel widths, cumulative
//! track x-offsets, and the canvas dimensions derived from them.

use vstd::prelude::*;
use crate::font::CHAR_WIDTH;
use crate::model::Pattern;
use crate::model::Song;
use crate::model::Track;

verus! {

/// Horizontal spacing between track blocks.
pub const TRACK_SPACING_X: u32 = 6;

/// Horizontal spacing in front of each column block.
pub const TRACK_SPACING_X_FX: u32 = 3;

/// Width of one note-plus-instrument block, e.g. `C-500`.
pub const TRACK_WIDTH_NOTE: u32 = TRACK_SPACING_X_FX + 5 * 8;

/// Width of one volume or panning block, e.g. `7F`.
pub const TRACK_WIDTH_VOL: u32 = TRACK_SPACING_X_FX + 2 * 8;

/// Width of one effect block, e.g. `ZT04`.
pub const TRACK_WIDTH_FX: u32 = TRACK_SPACING_X_FX + 4 * 8;

/// Vertical spacing between rows.
pub const TRACK_SPACING_Y: u32 = 2;

/// The pixel width of one track's block: its visible note columns with their
/// optional volume and panning sub-columns, its visible effect columns, and
/// the trailing inter-track spacing.
pub open spec fn spec_track_width(t: Track) -> int {
    t.number_of_visible_note_columns * TRACK_WIDTH_NOTE + (if t.volume_column_is_visible {
        t.number_of_visible_note_columns * TRACK_WIDTH_VOL as int
    } else {
        0
    }) + (if t.panning_column_is_visible {
        t.number_of_visible_note_columns * TRACK_WIDTH_VOL as int
    } else {
        0
    }) + t.number_of_visible_effect_columns * TRACK_WIDTH_FX + TRACK_SPACING_X
}

/// The x-offset at which track `k` begins: the sum of the widths of the
/// tracks before it.
pub open spec fn spec_x_offset_upto(tracks: Seq<Track>, k: int) -> int
    decreases k,
{
    if k <= 0 {
        0
    } else {
        spec_x_offset_upto(tracks, k - 1) + spec_track_width(tracks[k - 1])
    }
}

/// The canvas width for a song: all track widths plus the fixed border.
pub open spec fn spec_canvas_width(song: Song) -> int {
    2 + spec_x_offset_upto(song.tracks@, song.tracks@.len() as int)
}

/// The canvas height for a pattern: one glyph row plus spacing per line,
/// plus the fixed border.
pub open spec fn spec_canvas_height(p: Pattern) -> int {
    2 + p.number_of_lines * (CHAR_WIDTH + TRACK_SPACING_Y)
}

/// Every track occupies at least its trailing spacing.
pub proof fn lemma_track_width_at_least_spacing(t: Track)
    ensures
        spec_track_width(t) >= TRACK_SPACING_X,
{
}

/// Track x-offsets grow with the track index.
pub proof fn lemma_x_offset_upto_monotone(tracks: Seq<Track>, i: int, j: int)
    requires
        0 <= i <= j <= tracks.len(),
    ensures
        spec_x_offset_upto(tracks, i) <= spec_x_offset_upto(tracks, j),
    decreases j - i,
{
    if i < j {
        lemma_x_offset_upto_monotone(tracks, i, j - 1);
        lemma_track_width_at_least_spacing(tracks[j - 1]);
    }
}

/// Computes the pixel width of track `track_index`'s block.
pub fn x_offset_for_track(song: &Song, track_index: usize) -> (r: u32)
    requires
        track_index < song.tracks@.len(),
        spec_track_width(song.tracks@[track_index as int]) <= u32::MAX,
    ensures
        r == spec_track_width(song.tracks@[track_index as int]),
{
    let mut offset: u32 = 0;
    let track = &song.tracks[track_index];
    offset += track.number_of_visible_note_columns * TRACK_WIDTH_NOTE;
    if track.volume_column_is_visible {
        offset += track.number_of_visible_note_columns * TRACK_WIDTH_VOL;
    }
    if track.panning_column_is_visible {
        offset += track.number_of_visible_note_columns * TRACK_WIDTH_VOL;
    }
    offset += track.number_of_visible_effect_columns * TRACK_WIDTH_FX;
    offset += TRACK_SPACING_X;
    offset
}

/// Computes the x-offset at which track `track_index` begins.
pub fn x_offset_upto_track(song: &Song, track_index: usize) -> (r: u32)
    requires
        track_index <= song.tracks@.len(),
        spec_x_offset_upto(song.tracks@, track_index as int) <= u32::MAX,
    ensures
        r == spec_x_offset_upto(song.tracks@, track_index as int),
{
    let mut offset: u32 = 0;
    for i in 0..track_index
        invariant
            track_index <= song.tracks@.len(),
            spec_x_offset_upto(song.tracks@, track_index as int) <= u32::MAX,
            offset == spec_x_offset_upto(song.tracks@, i as int),
    {
        proof {
            lemma_x_offset_upto_monotone(song.tracks@, i + 1, track_index as int);
            lemma_x_offset_upto_monotone(song.tracks@, 0, i as int);
        }
        offset += x_offset_for_track(song, i);
    }
    offset
}

/// Computes the canvas width for a song.
pub fn canvas_width(song: &Song) -> (r: u32)
    requires
        spec_canvas_width(*song) <= u32::MAX,
    ensures
        r == spec_canvas_width(*song),
{
    2 + x_offset_upto_track(song, song.tracks.len())
}

/// Computes the canvas height for a pattern.
pub fn canvas_height(p: &Pattern) -> (r: u32)
    requires
        spec_canvas_height(*p) <= u32::MAX,
    ensures
        r == spec_canvas_height(*p),
{
    2 + p.number_of_lines * (CHAR_WIDTH + TRACK_SPACING_Y)
}

} // verus!
