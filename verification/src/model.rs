//! The song model: a tree of plain values describing global settings, track
//! column visibility, and the pattern pool. An external loader produces it;
//! the renderer consumes it read-only.

use vstd::prelude::*;

verus! {

/// One song: global settings, per-track column configuration, the pattern
/// pool, and the (pass-through) pattern sequence.
pub struct Song {
    pub global_song_data: GlobalSongData,
    pub tracks: Vec<Track>,
    pub pattern_pool: PatternPool,
    pub pattern_sequence: PatternSequence,
}

impl Song {
    /// The model contract the renderer assumes of a loaded song: a positive
    /// highlight cadence, and text fields of their documented sizes in every
    /// pattern of the pool.
    pub open spec fn wf(self) -> bool {
        &&& self.global_song_data.lines_per_beat >= 1
        &&& forall|p: int|
            0 <= p < self.pattern_pool.patterns@.len() ==> (
            #[trigger] self.pattern_pool.patterns@[p]).wf()
    }
}

/// Song-wide settings. `lines_per_beat` drives the row-highlight cadence and
/// is assumed positive.
pub struct GlobalSongData {
    pub beats_per_min: u32,
    pub lines_per_beat: u32,
    pub ticks_per_line: u32,
    pub song_name: String,
    pub artist: String,
}

/// Display configuration of one track. The visible column counts and the
/// volume/panning flags are the sole drivers of the track's pixel width.
pub struct Track {
    pub name: String,
    pub color: String,
    pub state: String,
    pub number_of_visible_note_columns: u32,
    pub number_of_visible_effect_columns: u32,
    pub volume_column_is_visible: bool,
    pub panning_column_is_visible: bool,
    pub delay_column_is_visible: bool,
}

/// The ordered pool of patterns; alias indices refer into this pool.
pub struct PatternPool {
    pub patterns: Vec<Pattern>,
}

/// One pattern: a row count and one `PatternTrack` per track of the song,
/// aligned by position.
pub struct Pattern {
    pub number_of_lines: u32,
    pub tracks: Vec<PatternTrack>,
}

impl Pattern {
    /// Every track's every line carries well-sized text fields.
    pub open spec fn wf(self) -> bool {
        forall|i: int| 0 <= i < self.tracks@.len() ==> (#[trigger] self.tracks@[i]).wf()
    }
}

/// Per-pattern data of one track: either its own sparse list of lines, or,
/// when `alias_pattern_index >= 0`, a reference to the same-position track of
/// another pattern.
pub struct PatternTrack {
    pub kind: String,
    pub alias_pattern_index: i32,
    pub lines: Vec<Line>,
}

impl PatternTrack {
    /// Every line carries well-sized text fields.
    pub open spec fn wf(self) -> bool {
        forall|i: int| 0 <= i < self.lines@.len() ==> (#[trigger] self.lines@[i]).wf()
    }
}

/// One sparse row of a pattern track: a 0-based row index and the column
/// cells present on that row. Missing trailing cells render as placeholders;
/// an index at or beyond the pattern's row count is dropped.
pub struct Line {
    pub index: u32,
    pub note_columns: Vec<Option<NoteColumn>>,
    pub effect_columns: Vec<Option<EffectColumn>>,
}

impl Line {
    /// Every present cell carries text fields of their documented sizes.
    pub open spec fn wf(self) -> bool {
        &&& forall|j: int|
            0 <= j < self.note_columns@.len() ==> ((#[trigger] self.note_columns@[j]) matches Some(
                n,
            ) ==> n.wf())
        &&& forall|k: int|
            0 <= k < self.effect_columns@.len() ==> ((
            #[trigger] self.effect_columns@[k]) matches Some(e) ==> e.wf())
    }
}

/// One note cell: note, instrument, volume and panning text fields.
pub struct NoteColumn {
    pub note: String,
    pub instrument: String,
    pub volume: String,
    pub panning: String,
}

impl NoteColumn {
    /// A three-character note and two-character instrument, volume and
    /// panning fields.
    pub open spec fn wf(self) -> bool {
        &&& self.note@.len() == 3
        &&& self.instrument@.len() == 2
        &&& self.volume@.len() == 2
        &&& self.panning@.len() == 2
    }
}

/// One effect cell: a two-character command mnemonic (`number`) and its
/// two-character value.
pub struct EffectColumn {
    pub value: String,
    pub number: String,
}

impl EffectColumn {
    /// A two-character command mnemonic and two-character value.
    pub open spec fn wf(self) -> bool {
        &&& self.number@.len() == 2
        &&& self.value@.len() == 2
    }
}

/// Play-order metadata; pass-through data that the renderer never reads.
pub struct PatternSequence {
    pub sequence_entries: Vec<SequenceEntry>,
}

/// One entry of the pattern sequence; pass-through data.
pub struct SequenceEntry {
    pub pattern: u32,
    pub section_name: String,
    pub muted_tracks: Vec<u32>,
}

} // verus!
