use xrns_render::canvas::Canvas;
use xrns_render::color::Category;
use xrns_render::color::Rgba;
use xrns_render::color::fx_category;
use xrns_render::color::fx_command;
use xrns_render::layout::x_offset_for_track;
use xrns_render::layout::x_offset_upto_track;
use xrns_render::model::EffectColumn;
use xrns_render::model::GlobalSongData;
use xrns_render::model::Line;
use xrns_render::model::NoteColumn;
use xrns_render::model::Pattern;
use xrns_render::model::PatternPool;
use xrns_render::model::PatternSequence;
use xrns_render::model::PatternTrack;
use xrns_render::model::Song;
use xrns_render::model::Track;
use xrns_render::render::RenderError;
use xrns_render::render::highlighted;
use xrns_render::render::render;

fn global_song_data(lines_per_beat: u32) -> GlobalSongData {
    GlobalSongData {
        beats_per_min: 120,
        lines_per_beat,
        ticks_per_line: 12,
        song_name: String::from("test song"),
        artist: String::from("test artist"),
    }
}

fn track(nvc: u32, nfc: u32, vol: bool, pan: bool) -> Track {
    Track {
        name: String::from("Track"),
        color: String::from("255,0,0"),
        state: String::from("Active"),
        number_of_visible_note_columns: nvc,
        number_of_visible_effect_columns: nfc,
        volume_column_is_visible: vol,
        panning_column_is_visible: pan,
        delay_column_is_visible: false,
    }
}

fn note(note: &str, instrument: &str) -> Option<NoteColumn> {
    Some(NoteColumn {
        note: String::from(note),
        instrument: String::from(instrument),
        volume: String::from(".."),
        panning: String::from(".."),
    })
}

fn effect(number: &str, value: &str) -> Option<EffectColumn> {
    Some(EffectColumn {
        number: String::from(number),
        value: String::from(value),
    })
}

fn own_track(lines: Vec<Line>) -> PatternTrack {
    PatternTrack {
        kind: String::from("PatternTrack"),
        alias_pattern_index: -1,
        lines,
    }
}

fn alias_track(target: i32) -> PatternTrack {
    PatternTrack {
        kind: String::from("PatternAliasTrack"),
        alias_pattern_index: target,
        lines: vec![],
    }
}

fn song(lines_per_beat: u32, tracks: Vec<Track>, patterns: Vec<Pattern>) -> Song {
    Song {
        global_song_data: global_song_data(lines_per_beat),
        tracks,
        pattern_pool: PatternPool { patterns },
        pattern_sequence: PatternSequence {
            sequence_entries: vec![],
        },
    }
}

fn pixel(c: &Canvas, x: u32, y: u32) -> Rgba {
    c.data[(y * c.width + x) as usize]
}

#[test]
fn canvas_size_single_track() {
    let s = song(
        4,
        vec![track(1, 0, false, false)],
        vec![Pattern {
            number_of_lines: 4,
            tracks: vec![own_track(vec![])],
        }],
    );
    let c = render(&s, 0).unwrap();
    assert_eq!(c.width, 51);
    assert_eq!(c.height, 42);
    assert_eq!(c.data.len(), 51 * 42);
}

#[test]
fn track_width_formula() {
    let s = song(
        4,
        vec![track(2, 1, true, false), track(1, 0, false, false)],
        vec![],
    );
    // 2 note blocks, 2 volume blocks, 1 effect block, trailing spacing.
    assert_eq!(x_offset_for_track(&s, 0), 2 * 43 + 2 * 19 + 35 + 6);
    assert_eq!(x_offset_for_track(&s, 1), 43 + 6);
    assert_eq!(x_offset_upto_track(&s, 0), 0);
    assert_eq!(x_offset_upto_track(&s, 1), 165);
    assert_eq!(x_offset_upto_track(&s, 2), 165 + 49);
}

#[test]
fn command_formatting_zero_suppressed() {
    let r = fx_command(&String::from("0F"));
    assert_eq!(r.as_str(), " F");
}

#[test]
fn command_formatting_verbatim() {
    let r = fx_command(&String::from("ZT"));
    assert_eq!(r.as_str(), "ZT");
}

#[test]
fn category_classification() {
    assert_eq!(fx_category(&String::from("ZT")), Category::GlobalEffect);
    assert_eq!(fx_category(&String::from("ZL")), Category::GlobalEffect);
    assert_eq!(fx_category(&String::from("1A")), Category::Pitch);
    assert_eq!(fx_category(&String::from("0T")), Category::Volume);
    assert_eq!(fx_category(&String::from("QS")), Category::Delay);
    assert_eq!(fx_category(&String::from("1P")), Category::Panning);
    assert_eq!(fx_category(&String::from("XX")), Category::OtherEffect);
    // The second character decides: 'Q' sits in the delay set, so only a
    // mnemonic whose second character is in no set is an unused effect.
    assert_eq!(fx_category(&String::from("QQ")), Category::Delay);
    assert_eq!(fx_category(&String::from("FF")), Category::UnusedEffect);
    assert_eq!(fx_category(&String::from("Z")), Category::UnusedEffect);
    assert_eq!(fx_category(&String::from("")), Category::UnusedEffect);
}

#[test]
fn highlight_multiples_of_lines_per_beat() {
    assert!(highlighted(0, 4));
    assert!(!highlighted(1, 4));
    assert!(!highlighted(3, 4));
    assert!(highlighted(4, 4));
    assert!(highlighted(8, 4));
    assert!(!highlighted(5, 4));
    assert!(highlighted(7, 1));
}

#[test]
fn blank_row_placeholder_colors() {
    // One note column, no sub-columns: a blank row draws three spaces and
    // two placeholder dots in the default color. The dot glyph lights
    // pixels 3 and 4 of glyph rows 5 and 6, and the instrument dots start
    // three glyph cells into the note block.
    let s = song(
        4,
        vec![track(1, 0, false, false)],
        vec![Pattern {
            number_of_lines: 4,
            tracks: vec![own_track(vec![])],
        }],
    );
    let c = render(&s, 0).unwrap();
    let highlighted_default = Rgba {
        r: 0xFF,
        g: 0xFF,
        b: 0xFF,
        a: 255,
    };
    let normal_default = Rgba {
        r: 0x94,
        g: 0x94,
        b: 0x94,
        a: 255,
    };
    let blank = Rgba {
        r: 0,
        g: 0,
        b: 0,
        a: 0,
    };
    // Row 0 is a beat boundary, row 1 is not; rows start at y = 10 * row.
    assert_eq!(pixel(&c, 24 + 3, 5), highlighted_default);
    assert_eq!(pixel(&c, 24 + 4, 6), highlighted_default);
    assert_eq!(pixel(&c, 24 + 3, 10 + 5), normal_default);
    // The note text of a blank row is three spaces: nothing is painted.
    assert_eq!(pixel(&c, 3, 5), blank);
}

#[test]
fn volume_panning_placeholder_colors() {
    // With volume and panning visible, a blank note cell draws dots at
    // offsets 43 and 62 in the volume and panning category colors.
    let s = song(
        4,
        vec![track(1, 0, true, true)],
        vec![Pattern {
            number_of_lines: 1,
            tracks: vec![own_track(vec![])],
        }],
    );
    let c = render(&s, 0).unwrap();
    let volume_highlighted = Rgba {
        r: 0xBF,
        g: 0xAE,
        b: 0x25,
        a: 255,
    };
    let panning_highlighted = Rgba {
        r: 0x81,
        g: 0xAF,
        b: 0x72,
        a: 255,
    };
    assert_eq!(pixel(&c, 43 + 3, 5), volume_highlighted);
    assert_eq!(pixel(&c, 62 + 3, 5), panning_highlighted);
}

#[test]
fn effect_cell_category_color() {
    // A global effect command paints its glyphs in the global-effect color;
    // the 'Z' glyph lights pixels 1 through 6 of its top row.
    let s = song(
        4,
        vec![track(0, 1, false, false)],
        vec![Pattern {
            number_of_lines: 1,
            tracks: vec![own_track(vec![Line {
                index: 0,
                note_columns: vec![],
                effect_columns: vec![effect("ZT", "04")],
            }])],
        }],
    );
    let c = render(&s, 0).unwrap();
    let global_highlighted = Rgba {
        r: 0xC6,
        g: 0x76,
        b: 0x10,
        a: 255,
    };
    let blank = Rgba {
        r: 0,
        g: 0,
        b: 0,
        a: 0,
    };
    assert_eq!(pixel(&c, 1, 0), global_highlighted);
    assert_eq!(pixel(&c, 0, 0), blank);
    // The value "04" starts two glyph cells in; '0' lights pixel 2 of its
    // top row.
    assert_eq!(pixel(&c, 16 + 2, 0), global_highlighted);
}

#[test]
fn zero_command_renders_leading_space() {
    // "0F" displays as " F": the first glyph cell stays empty and 'F'
    // starts one glyph cell in, in the unused-effect color.
    let s = song(
        4,
        vec![track(0, 1, false, false)],
        vec![Pattern {
            number_of_lines: 1,
            tracks: vec![own_track(vec![Line {
                index: 0,
                note_columns: vec![],
                effect_columns: vec![effect("0F", "00")],
            }])],
        }],
    );
    let c = render(&s, 0).unwrap();
    let unused = Rgba {
        r: 0x9C,
        g: 0x9C,
        b: 0x9C,
        a: 255,
    };
    let blank = Rgba {
        r: 0,
        g: 0,
        b: 0,
        a: 0,
    };
    for x in 0..8 {
        for y in 0..8 {
            assert_eq!(pixel(&c, x, y), blank);
        }
    }
    assert_eq!(pixel(&c, 8 + 1, 0), unused);
}

#[test]
fn out_of_range_line_contributes_nothing() {
    let with_stray = song(
        4,
        vec![track(1, 0, false, false)],
        vec![Pattern {
            number_of_lines: 2,
            tracks: vec![own_track(vec![
                Line {
                    index: 0,
                    note_columns: vec![note("C-4", "01")],
                    effect_columns: vec![],
                },
                Line {
                    index: 5,
                    note_columns: vec![note("E-4", "02")],
                    effect_columns: vec![],
                },
            ])],
        }],
    );
    let without_stray = song(
        4,
        vec![track(1, 0, false, false)],
        vec![Pattern {
            number_of_lines: 2,
            tracks: vec![own_track(vec![Line {
                index: 0,
                note_columns: vec![note("C-4", "01")],
                effect_columns: vec![],
            }])],
        }],
    );
    let a = render(&with_stray, 0).unwrap();
    let b = render(&without_stray, 0).unwrap();
    assert_eq!(a.width, b.width);
    assert_eq!(a.height, b.height);
    assert_eq!(a.data, b.data);
}

#[test]
fn alias_track_renders_target_content() {
    let tracks = vec![track(1, 0, false, false)];
    let own_lines = vec![Line {
        index: 0,
        note_columns: vec![note("C-4", "01")],
        effect_columns: vec![],
    }];
    let s = song(
        4,
        tracks,
        vec![
            Pattern {
                number_of_lines: 2,
                tracks: vec![own_track(own_lines)],
            },
            Pattern {
                number_of_lines: 2,
                tracks: vec![alias_track(0)],
            },
        ],
    );
    let direct = render(&s, 0).unwrap();
    let aliased = render(&s, 1).unwrap();
    assert_eq!(direct.data, aliased.data);
}

#[test]
fn rendering_is_deterministic() {
    let s = song(
        6,
        vec![track(2, 1, true, false)],
        vec![Pattern {
            number_of_lines: 8,
            tracks: vec![own_track(vec![
                Line {
                    index: 1,
                    note_columns: vec![note("C-4", "01"), note("G-4", "02")],
                    effect_columns: vec![effect("0A", "10")],
                },
                Line {
                    index: 6,
                    note_columns: vec![note("OFF", "..")],
                    effect_columns: vec![],
                },
            ])],
        }],
    );
    let a = render(&s, 0).unwrap();
    let b = render(&s, 0).unwrap();
    assert_eq!(a.width, b.width);
    assert_eq!(a.height, b.height);
    assert_eq!(a.data, b.data);
}

#[test]
fn pattern_index_out_of_range_is_rejected() {
    let s = song(
        4,
        vec![track(1, 0, false, false)],
        vec![Pattern {
            number_of_lines: 4,
            tracks: vec![own_track(vec![])],
        }],
    );
    assert_eq!(render(&s, 1), Err(RenderError::PatternOutOfRange));
    assert_eq!(render(&s, 99), Err(RenderError::PatternOutOfRange));
}

#[test]
fn track_count_mismatch_is_rejected() {
    let s = song(
        4,
        vec![track(1, 0, false, false)],
        vec![Pattern {
            number_of_lines: 4,
            tracks: vec![],
        }],
    );
    assert_eq!(render(&s, 0), Err(RenderError::TrackCountMismatch));
}

#[test]
fn alias_out_of_range_is_rejected() {
    let s = song(
        4,
        vec![track(1, 0, false, false)],
        vec![Pattern {
            number_of_lines: 4,
            tracks: vec![alias_track(7)],
        }],
    );
    assert_eq!(render(&s, 0), Err(RenderError::AliasOutOfRange));
}

#[test]
fn every_row_is_drawn_exactly_once() {
    // A sparse line list still yields a dense grid: each of the four rows
    // shows the instrument placeholder dots of a drawn row, whether it came
    // from data or was synthesized blank.
    let s = song(
        4,
        vec![track(1, 0, false, false)],
        vec![Pattern {
            number_of_lines: 4,
            tracks: vec![own_track(vec![Line {
                index: 2,
                note_columns: vec![note("C-4", "01")],
                effect_columns: vec![],
            }])],
        }],
    );
    let c = render(&s, 0).unwrap();
    let blank = Rgba {
        r: 0,
        g: 0,
        b: 0,
        a: 0,
    };
    for row in 0..4 {
        // Pixel 3 of glyph row 5 in the instrument field: lit by the dot
        // placeholder on blank rows and by the "01" text's '1' glyph
        // bottom row otherwise.
        let y = row * 10;
        let lit = (0..8).any(|gy| (24..40).any(|gx| pixel(&c, gx, y + gy) != blank));
        assert!(lit);
    }
}

