//! Grid renderer: resolves alias indirection, reconstructs sparse rows into a
//! dense grid, and paints every cell through the glyph rasterizer.

use vstd::prelude::*;
use crate::canvas::Canvas;
use crate::canvas::spec_blank_canvas;
use crate::canvas::spec_put;
use crate::color::Category;
use crate::color::Rgba;
use crate::color::color_of;
use crate::color::fx_category;
use crate::color::fx_command;
use crate::color::spec_color;
use crate::color::spec_fx_category;
use crate::color::spec_fx_command;
use crate::font::glyph;
use crate::font::spec_glyph;
use crate::layout::TRACK_WIDTH_FX;
use crate::layout::TRACK_WIDTH_NOTE;
use crate::layout::TRACK_WIDTH_VOL;
use crate::layout::canvas_height;
use crate::layout::canvas_width;
use crate::layout::lemma_x_offset_upto_monotone;
use crate::layout::spec_canvas_height;
use crate::layout::spec_canvas_width;
use crate::layout::spec_x_offset_upto;
use crate::layout::x_offset_upto_track;
use crate::model::EffectColumn;
use crate::model::Line;
use crate::model::NoteColumn;
use crate::model::Pattern;
use crate::model::Song;
use crate::model::Track;

verus! {

/// Why a render request was rejected: the model handed in broke one of the
/// structural invariants the renderer depends on.
#[derive(Clone, Copy, PartialEq, Eq, Structural, Debug)]
pub enum RenderError {
    /// The requested pattern index lies outside the pattern pool.
    PatternOutOfRange,
    /// The pattern's track list and the song's track list differ in length.
    TrackCountMismatch,
    /// An alias index does not name a pool pattern with a same-length track
    /// list.
    AliasOutOfRange,
}

/// Whether a row sits on a beat boundary and is drawn in highlighted colors.
pub open spec fn spec_highlighted(row: u32, lines_per_beat: u32) -> bool {
    row % lines_per_beat == 0
}

/// Decides beat highlighting for a row: true exactly when the row index is a
/// multiple of `lines_per_beat`.
pub fn highlighted(row: u32, lines_per_beat: u32) -> (r: bool)
    requires
        lines_per_beat >= 1,
    ensures
        r == spec_highlighted(row, lines_per_beat),
{
    row % lines_per_beat == 0
}

/// Whether bit `i` of a glyph row byte is set, counting from the most
/// significant (leftmost) bit.
pub open spec fn glyph_bit(row: u8, i: int) -> bool {
    (((row as u32) >> ((7 - i) as u32)) & 1u32) == 1u32
}

/// The canvas after blitting the first `i` bits of one glyph row byte: each
/// set bit paints `col` at `(x + bit, y)`, each clear bit leaves the canvas
/// untouched.
pub open spec fn spec_blit_row(
    d: Seq<Rgba>,
    w: int,
    h: int,
    row: u8,
    x: int,
    y: int,
    col: Rgba,
    i: int,
) -> Seq<Rgba>
    decreases i,
{
    if i <= 0 {
        d
    } else {
        let prev = spec_blit_row(d, w, h, row, x, y, col, i - 1);
        if glyph_bit(row, i - 1) {
            spec_put(prev, w, h, x + (i - 1), y, col)
        } else {
            prev
        }
    }
}

/// The canvas after blitting the first `j` rows of a glyph whose top-left
/// corner sits at `(x, y)`.
pub open spec fn spec_blit_glyph(
    d: Seq<Rgba>,
    w: int,
    h: int,
    g: Seq<u8>,
    x: int,
    y: int,
    col: Rgba,
    j: int,
) -> Seq<Rgba>
    decreases j,
{
    if j <= 0 {
        d
    } else {
        spec_blit_row(spec_blit_glyph(d, w, h, g, x, y, col, j - 1), w, h, g[j - 1], x, y + (j
            - 1), col, 8)
    }
}

/// The canvas after drawing the first `n` characters of a text, left to
/// right at an eight-pixel advance, starting at `(x, y)`.
pub open spec fn spec_render_text(
    d: Seq<Rgba>,
    w: int,
    h: int,
    t: Seq<char>,
    x: int,
    y: int,
    col: Rgba,
    n: int,
) -> Seq<Rgba>
    decreases n,
{
    if n <= 0 {
        d
    } else {
        spec_blit_glyph(
            spec_render_text(d, w, h, t, x, y, col, n - 1),
            w,
            h,
            spec_glyph(t[n - 1]),
            x + 8 * (n - 1),
            y,
            col,
            8,
        )
    }
}

/// Blits the glyph of `c` at `(x, y)`: set font bits paint `color`, clear
/// bits leave the canvas untouched.
fn render_char(canvas: &mut Canvas, c: char, x: u64, y: u64, color: Rgba)
    requires
        old(canvas).wf(),
        x + 8 <= u64::MAX,
        y + 8 <= u64::MAX,
    ensures
        final(canvas).wf(),
        final(canvas).width == old(canvas).width,
        final(canvas).height == old(canvas).height,
        final(canvas).data@ == spec_blit_glyph(
            old(canvas).data@,
            old(canvas).width as int,
            old(canvas).height as int,
            spec_glyph(c),
            x as int,
            y as int,
            color,
            8,
        ),
{
    let ghost w = old(canvas).width as int;
    let ghost h = old(canvas).height as int;
    let g = glyph(c);
    for j in 0..8usize
        invariant
            canvas.wf(),
            canvas.width as int == w,
            canvas.height as int == h,
            g@ == spec_glyph(c),
            x + 8 <= u64::MAX,
            y + 8 <= u64::MAX,
            canvas.data@ == spec_blit_glyph(
                old(canvas).data@,
                w,
                h,
                spec_glyph(c),
                x as int,
                y as int,
                color,
                j as int,
            ),
    {
        let row = g[j];
        let ghost row_base = canvas.data@;
        for i in 0..8u64
            invariant
                canvas.wf(),
                canvas.width as int == w,
                canvas.height as int == h,
                row == spec_glyph(c)[j as int],
                j < 8,
                x + 8 <= u64::MAX,
                y + 8 <= u64::MAX,
                canvas.data@ == spec_blit_row(
                    row_base,
                    w,
                    h,
                    row,
                    x as int,
                    y + j,
                    color,
                    i as int,
                ),
                row_base == spec_blit_glyph(
                    old(canvas).data@,
                    w,
                    h,
                    spec_glyph(c),
                    x as int,
                    y as int,
                    color,
                    j as int,
                ),
        {
            let shift: u32 = 7 - (i as u32);
            if ((row as u32) >> shift) & 1 == 1 {
                proof {
                    assert(glyph_bit(row, i as int));
                }
                canvas.put_pixel(x + i, y + (j as u64), color);
            } else {
                proof {
                    assert(!glyph_bit(row, i as int));
                }
            }
        }
    }
}

/// Draws a text left to right from `(x, y)`, one glyph cell per character.
fn render_text(canvas: &mut Canvas, text: &str, x: u64, y: u64, color: Rgba)
    requires
        old(canvas).wf(),
        x + 8 * text@.len() <= u64::MAX,
        y + 8 <= u64::MAX,
    ensures
        final(canvas).wf(),
        final(canvas).width == old(canvas).width,
        final(canvas).height == old(canvas).height,
        final(canvas).data@ == spec_render_text(
            old(canvas).data@,
            old(canvas).width as int,
            old(canvas).height as int,
            text@,
            x as int,
            y as int,
            color,
            text@.len() as int,
        ),
{
    let ghost w = old(canvas).width as int;
    let ghost h = old(canvas).height as int;
    let n = text.unicode_len();
    for i in 0..n
        invariant
            canvas.wf(),
            canvas.width as int == w,
            canvas.height as int == h,
            n == text@.len(),
            x + 8 * n <= u64::MAX,
            y + 8 <= u64::MAX,
            canvas.data@ == spec_render_text(
                old(canvas).data@,
                w,
                h,
                text@,
                x as int,
                y as int,
                color,
                i as int,
            ),
    {
        let c = text.get_char(i);
        render_char(canvas, c, x + 8 * (i as u64), y, color);
    }
}

/// The horizontal advance of one note cell: the note-plus-instrument block
/// and the volume and panning sub-columns the track makes visible.
pub open spec fn spec_cell_advance(t: Track) -> int {
    TRACK_WIDTH_NOTE + (if t.volume_column_is_visible {
        TRACK_WIDTH_VOL as int
    } else {
        0
    }) + (if t.panning_column_is_visible {
        TRACK_WIDTH_VOL as int
    } else {
        0
    })
}

/// The note, instrument, volume and panning texts a note cell displays: its
/// own fields when present, the fixed placeholders when absent.
pub open spec fn spec_note_texts(nc: Option<NoteColumn>) -> (Seq<char>, Seq<char>, Seq<char>, Seq<
    char,
>) {
    match nc {
        Some(n) => (n.note@, n.instrument@, n.volume@, n.panning@),
        None => (seq![' ', ' ', ' '], seq!['.', '.'], seq!['.', '.'], seq!['.', '.']),
    }
}

/// The canvas after drawing one note cell whose left edge sits at `cx`: note
/// and instrument in the default color, then, per the track's visibility
/// flags, volume and panning in their category colors.
pub open spec fn spec_render_note_cell(
    d: Seq<Rgba>,
    w: int,
    h: int,
    nc: Option<NoteColumn>,
    t: Track,
    hl: bool,
    cx: int,
    y: int,
) -> Seq<Rgba> {
    let texts = spec_note_texts(nc);
    let def = spec_color(Category::DefaultText, hl);
    let d1 = spec_render_text(d, w, h, texts.0, cx, y, def, texts.0.len() as int);
    let d2 = spec_render_text(d1, w, h, texts.1, cx + 24, y, def, texts.1.len() as int);
    let d3 = if t.volume_column_is_visible {
        spec_render_text(
            d2,
            w,
            h,
            texts.2,
            cx + TRACK_WIDTH_NOTE,
            y,
            spec_color(Category::Volume, hl),
            texts.2.len() as int,
        )
    } else {
        d2
    };
    let vol_off: int = if t.volume_column_is_visible {
        TRACK_WIDTH_VOL as int
    } else {
        0
    };
    if t.panning_column_is_visible {
        spec_render_text(
            d3,
            w,
            h,
            texts.3,
            cx + TRACK_WIDTH_NOTE + vol_off,
            y,
            spec_color(Category::Panning, hl),
            texts.3.len() as int,
        )
    } else {
        d3
    }
}

/// The canvas after drawing one effect cell whose left edge sits at `cx`:
/// the formatted command and its value in the command's category color, or
/// two blank pairs in the default color for an absent cell.
pub open spec fn spec_render_fx_cell(
    d: Seq<Rgba>,
    w: int,
    h: int,
    fc: Option<EffectColumn>,
    hl: bool,
    cx: int,
    y: int,
) -> Seq<Rgba> {
    match fc {
        Some(e) => {
            let col = spec_color(spec_fx_category(e.number@), hl);
            let cmd = spec_fx_command(e.number@);
            let d1 = spec_render_text(d, w, h, cmd, cx, y, col, cmd.len() as int);
            spec_render_text(d1, w, h, e.value@, cx + 16, y, col, e.value@.len() as int)
        },
        None => {
            let def = spec_color(Category::DefaultText, hl);
            let d1 = spec_render_text(d, w, h, seq![' ', ' '], cx, y, def, 2);
            spec_render_text(d1, w, h, seq![' ', ' '], cx + 16, y, def, 2)
        },
    }
}

/// Draws one note cell at `x + x_offset` and returns the offset advanced to
/// the next cell; an absent cell draws the placeholder texts in the same
/// positions and colors.
fn render_note_column(
    canvas: &mut Canvas,
    note_column: &Option<NoteColumn>,
    track_info: &Track,
    highlighted: bool,
    x: u64,
    x_offset: u64,
    y: u64,
) -> (r: u64)
    requires
        old(canvas).wf(),
        (*note_column) matches Some(n) ==> n.wf(),
        x + x_offset + 128 <= u64::MAX,
        y + 8 <= u64::MAX,
    ensures
        final(canvas).wf(),
        final(canvas).width == old(canvas).width,
        final(canvas).height == old(canvas).height,
        r == x_offset + spec_cell_advance(*track_info),
        final(canvas).data@ == spec_render_note_cell(
            old(canvas).data@,
            old(canvas).width as int,
            old(canvas).height as int,
            *note_column,
            *track_info,
            highlighted,
            x + x_offset,
            y as int,
        ),
{
    let def = color_of(Category::DefaultText, highlighted);
    let cx = x + x_offset;
    let mut x_offset = x_offset;
    match note_column {
        Some(note) => {
            render_text(canvas, note.note.as_str(), cx, y, def);
            render_text(canvas, note.instrument.as_str(), cx + 24, y, def);
            x_offset = x_offset + TRACK_WIDTH_NOTE as u64;
            if track_info.volume_column_is_visible {
                let volc = color_of(Category::Volume, highlighted);
                render_text(canvas, note.volume.as_str(), x + x_offset, y, volc);
                x_offset = x_offset + TRACK_WIDTH_VOL as u64;
            }
            if track_info.panning_column_is_visible {
                let panc = color_of(Category::Panning, highlighted);
                render_text(canvas, note.panning.as_str(), x + x_offset, y, panc);
                x_offset = x_offset + TRACK_WIDTH_VOL as u64;
            }
        },
        None => {
            proof {
                reveal_strlit("   ");
                reveal_strlit("..");
                assert("   "@ =~= seq![' ', ' ', ' ']);
                assert(".."@ =~= seq!['.', '.']);
            }
            render_text(canvas, "   ", cx, y, def);
            render_text(canvas, "..", cx + 24, y, def);
            x_offset = x_offset + TRACK_WIDTH_NOTE as u64;
            if track_info.volume_column_is_visible {
                let volc = color_of(Category::Volume, highlighted);
                render_text(canvas, "..", x + x_offset, y, volc);
                x_offset = x_offset + TRACK_WIDTH_VOL as u64;
            }
            if track_info.panning_column_is_visible {
                let panc = color_of(Category::Panning, highlighted);
                render_text(canvas, "..", x + x_offset, y, panc);
                x_offset = x_offset + TRACK_WIDTH_VOL as u64;
            }
        },
    }
    x_offset
}

/// Draws one effect cell at `x + x_offset` and returns the offset advanced
/// to the next cell; an absent cell draws two blank pairs in the default
/// color.
fn render_effect_column(
    canvas: &mut Canvas,
    effect_column: &Option<EffectColumn>,
    highlighted: bool,
    x: u64,
    x_offset: u64,
    y: u64,
) -> (r: u64)
    requires
        old(canvas).wf(),
        (*effect_column) matches Some(e) ==> e.wf(),
        x + x_offset + 128 <= u64::MAX,
        y + 8 <= u64::MAX,
    ensures
        final(canvas).wf(),
        final(canvas).width == old(canvas).width,
        final(canvas).height == old(canvas).height,
        r == x_offset + TRACK_WIDTH_FX,
        final(canvas).data@ == spec_render_fx_cell(
            old(canvas).data@,
            old(canvas).width as int,
            old(canvas).height as int,
            *effect_column,
            highlighted,
            x + x_offset,
            y as int,
        ),
{
    let cx = x + x_offset;
    match effect_column {
        Some(effect) => {
            let cat = fx_category(&effect.number);
            let col = color_of(cat, highlighted);
            let cmd = fx_command(&effect.number);
            render_text(canvas, cmd.as_str(), cx, y, col);
            render_text(canvas, effect.value.as_str(), cx + 16, y, col);
        },
        None => {
            proof {
                reveal_strlit("  ");
                assert("  "@ =~= seq![' ', ' ']);
            }
            let def = color_of(Category::DefaultText, highlighted);
            render_text(canvas, "  ", cx, y, def);
            render_text(canvas, "  ", cx + 16, y, def);
        },
    }
    x_offset + TRACK_WIDTH_FX as u64
}

/// The note cell a row displays in column slot `j`: the line's own cell when
/// the slot is supplied, the absent cell otherwise.
pub open spec fn spec_note_cell_at(ncs: Seq<Option<NoteColumn>>, j: int) -> Option<NoteColumn> {
    if 0 <= j < ncs.len() {
        ncs[j]
    } else {
        None
    }
}

/// The effect cell a row displays in column slot `k`: the line's own cell
/// when the slot is supplied, the absent cell otherwise.
pub open spec fn spec_fx_cell_at(fcs: Seq<Option<EffectColumn>>, k: int) -> Option<EffectColumn> {
    if 0 <= k < fcs.len() {
        fcs[k]
    } else {
        None
    }
}

/// The horizontal offset of note cell `j` within its track block: `j` note
/// cells' worth of advance.
pub open spec fn spec_cell_offset(t: Track, j: int) -> int
    decreases j,
{
    if j <= 0 {
        0
    } else {
        spec_cell_offset(t, j - 1) + spec_cell_advance(t)
    }
}

/// The canvas after drawing the first `j` visible note cells of a row whose
/// track block starts at `x`.
pub open spec fn spec_render_note_cells(
    d: Seq<Rgba>,
    w: int,
    h: int,
    ncs: Seq<Option<NoteColumn>>,
    t: Track,
    hl: bool,
    x: int,
    y: int,
    j: int,
) -> Seq<Rgba>
    decreases j,
{
    if j <= 0 {
        d
    } else {
        spec_render_note_cell(
            spec_render_note_cells(d, w, h, ncs, t, hl, x, y, j - 1),
            w,
            h,
            spec_note_cell_at(ncs, j - 1),
            t,
            hl,
            x + spec_cell_offset(t, j - 1),
            y,
        )
    }
}

/// The canvas after drawing the first `k` visible effect cells of a row
/// whose effect block starts at `fx_x`.
pub open spec fn spec_render_fx_cells(
    d: Seq<Rgba>,
    w: int,
    h: int,
    fcs: Seq<Option<EffectColumn>>,
    hl: bool,
    fx_x: int,
    y: int,
    k: int,
) -> Seq<Rgba>
    decreases k,
{
    if k <= 0 {
        d
    } else {
        spec_render_fx_cell(
            spec_render_fx_cells(d, w, h, fcs, hl, fx_x, y, k - 1),
            w,
            h,
            spec_fx_cell_at(fcs, k - 1),
            hl,
            fx_x + (k - 1) * TRACK_WIDTH_FX,
            y,
        )
    }
}

/// The canvas after drawing one full row of a track block: exactly the
/// track's visible note cells left to right, then exactly its visible effect
/// cells, column slots beyond the supplied data rendered as placeholders.
pub open spec fn spec_render_row(
    d: Seq<Rgba>,
    w: int,
    h: int,
    t: Track,
    ncs: Seq<Option<NoteColumn>>,
    fcs: Seq<Option<EffectColumn>>,
    hl: bool,
    x: int,
    y: int,
) -> Seq<Rgba> {
    let d1 = spec_render_note_cells(d, w, h, ncs, t, hl, x, y, t.number_of_visible_note_columns as int);
    spec_render_fx_cells(
        d1,
        w,
        h,
        fcs,
        hl,
        x + spec_cell_offset(t, t.number_of_visible_note_columns as int),
        y,
        t.number_of_visible_effect_columns as int,
    )
}

/// Draws one row of a track block at vertical position `y`, padding column
/// slots beyond the supplied data with placeholder cells.
fn render_row(
    canvas: &mut Canvas,
    track_info: &Track,
    note_columns: &Vec<Option<NoteColumn>>,
    effect_columns: &Vec<Option<EffectColumn>>,
    highlighted: bool,
    x: u64,
    y: u64,
)
    requires
        old(canvas).wf(),
        forall|j: int|
            0 <= j < note_columns@.len() ==> ((#[trigger] note_columns@[j]) matches Some(n)
                ==> n.wf()),
        forall|k: int|
            0 <= k < effect_columns@.len() ==> ((#[trigger] effect_columns@[k]) matches Some(e)
                ==> e.wf()),
        x <= u32::MAX,
        y + 8 <= u64::MAX,
    ensures
        final(canvas).wf(),
        final(canvas).width == old(canvas).width,
        final(canvas).height == old(canvas).height,
        final(canvas).data@ == spec_render_row(
            old(canvas).data@,
            old(canvas).width as int,
            old(canvas).height as int,
            *track_info,
            note_columns@,
            effect_columns@,
            highlighted,
            x as int,
            y as int,
        ),
{
    let ghost w = old(canvas).width as int;
    let ghost h = old(canvas).height as int;
    let nvc = track_info.number_of_visible_note_columns;
    let nfc = track_info.number_of_visible_effect_columns;
    let absent_note: Option<NoteColumn> = None;
    let absent_fx: Option<EffectColumn> = None;
    let mut x_offset: u64 = 0;
    for j in 0..nvc
        invariant
            canvas.wf(),
            canvas.width as int == w,
            canvas.height as int == h,
            x_offset as int == spec_cell_offset(*track_info, j as int),
            x_offset <= j * 81,
            absent_note is None,
            nvc == track_info.number_of_visible_note_columns,
            x <= u32::MAX,
            y + 8 <= u64::MAX,
            forall|ji: int|
                0 <= ji < note_columns@.len() ==> ((#[trigger] note_columns@[ji]) matches Some(n)
                    ==> n.wf()),
            canvas.data@ == spec_render_note_cells(
                old(canvas).data@,
                w,
                h,
                note_columns@,
                *track_info,
                highlighted,
                x as int,
                y as int,
                j as int,
            ),
    {
        if (j as usize) < note_columns.len() {
            x_offset = render_note_column(
                canvas,
                &note_columns[j as usize],
                track_info,
                highlighted,
                x,
                x_offset,
                y,
            );
        } else {
            x_offset = render_note_column(
                canvas,
                &absent_note,
                track_info,
                highlighted,
                x,
                x_offset,
                y,
            );
        }
    }
    let ghost d1 = canvas.data@;
    let ghost fx_base = x as int + spec_cell_offset(*track_info, nvc as int);
    proof {
        assert(x as int + x_offset == fx_base);
    }
    for k in 0..nfc
        invariant
            canvas.wf(),
            canvas.width as int == w,
            canvas.height as int == h,
            x as int + x_offset == fx_base + k * 35,
            x_offset <= nvc * 81 + k * 35,
            absent_fx is None,
            nfc == track_info.number_of_visible_effect_columns,
            x <= u32::MAX,
            y + 8 <= u64::MAX,
            forall|ki: int|
                0 <= ki < effect_columns@.len() ==> ((#[trigger] effect_columns@[ki]) matches Some(
                    e,
                ) ==> e.wf()),
            canvas.data@ == spec_render_fx_cells(
                d1,
                w,
                h,
                effect_columns@,
                highlighted,
                fx_base,
                y as int,
                k as int,
            ),
    {
        if (k as usize) < effect_columns.len() {
            x_offset = render_effect_column(
                canvas,
                &effect_columns[k as usize],
                highlighted,
                x,
                x_offset,
                y,
            );
        } else {
            x_offset = render_effect_column(canvas, &absent_fx, highlighted, x, x_offset, y);
        }
    }
}

/// Whether one of the first `m` source lines targets row `r` and lies inside
/// the pattern's `n` rows.
pub open spec fn covered_upto(lines: Seq<Line>, n: u32, m: int, r: u32) -> bool {
    exists|j: int| 0 <= j < m && j < lines.len() && lines[j].index == r && lines[j].index < n
}

/// Whether any source line targets row `r` inside the pattern's `n` rows.
pub open spec fn covered(lines: Seq<Line>, n: u32, r: u32) -> bool {
    covered_upto(lines, n, lines.len() as int, r)
}

/// The row indices the first `m` source lines draw, in draw order: each
/// line's target row, dropping rows at or beyond `n`.
pub open spec fn spec_rendered_rows(lines: Seq<Line>, n: u32, m: int) -> Seq<u32>
    decreases m,
{
    if m <= 0 {
        Seq::empty()
    } else {
        let prev = spec_rendered_rows(lines, n, m - 1);
        if lines[m - 1].index < n {
            prev.push(lines[m - 1].index)
        } else {
            prev
        }
    }
}

/// The rows drawn from source lines are exactly the covered rows.
pub proof fn lemma_rendered_rows_covered(lines: Seq<Line>, n: u32, m: int, r: u32)
    requires
        0 <= m <= lines.len(),
    ensures
        spec_rendered_rows(lines, n, m).contains(r) <==> covered_upto(lines, n, m, r),
    decreases m,
{
    if m > 0 {
        lemma_rendered_rows_covered(lines, n, m - 1, r);
        let prev = spec_rendered_rows(lines, n, m - 1);
        let cur = spec_rendered_rows(lines, n, m);
        if lines[m - 1].index < n {
            assert(cur == prev.push(lines[m - 1].index));
            if covered_upto(lines, n, m, r) {
                let j = choose|j: int|
                    0 <= j < m && j < lines.len() && lines[j].index == r && lines[j].index < n;
                if j < m - 1 {
                    assert(covered_upto(lines, n, m - 1, r));
                    let i = choose|i: int| 0 <= i < prev.len() && prev[i] == r;
                    assert(cur[i] == r);
                } else {
                    assert(cur[prev.len() as int] == r);
                }
                assert(cur.contains(r));
            }
            if cur.contains(r) {
                let i = choose|i: int| 0 <= i < cur.len() && cur[i] == r;
                if i < prev.len() {
                    assert(prev[i] == r);
                    assert(prev.contains(r));
                    assert(covered_upto(lines, n, m, r));
                } else {
                    assert(r == lines[m - 1].index);
                    assert(covered_upto(lines, n, m, r));
                }
            }
        } else {
            assert(cur == prev);
            assert(covered_upto(lines, n, m, r) <==> covered_upto(lines, n, m - 1, r));
        }
    }
}

/// The canvas after drawing the first `m` source lines of a track block:
/// each line inside the pattern's rows paints one full row at `10 * index`,
/// lines at or beyond `n` paint nothing.
pub open spec fn spec_render_lines(
    d: Seq<Rgba>,
    w: int,
    h: int,
    t: Track,
    lines: Seq<Line>,
    n: u32,
    lpb: u32,
    x: int,
    m: int,
) -> Seq<Rgba>
    decreases m,
{
    if m <= 0 {
        d
    } else {
        let prev = spec_render_lines(d, w, h, t, lines, n, lpb, x, m - 1);
        let l = lines[m - 1];
        if l.index < n {
            spec_render_row(
                prev,
                w,
                h,
                t,
                l.note_columns@,
                l.effect_columns@,
                spec_highlighted(l.index, lpb),
                x,
                l.index * 10,
            )
        } else {
            prev
        }
    }
}

/// The canvas after filling the first `r` rows not covered by any source
/// line with fully blank placeholder rows, under the same highlight rule.
pub open spec fn spec_render_blanks(
    d: Seq<Rgba>,
    w: int,
    h: int,
    t: Track,
    lines: Seq<Line>,
    n: u32,
    lpb: u32,
    x: int,
    r: int,
) -> Seq<Rgba>
    decreases r,
{
    if r <= 0 {
        d
    } else {
        let prev = spec_render_blanks(d, w, h, t, lines, n, lpb, x, r - 1);
        if covered(lines, n, (r - 1) as u32) {
            prev
        } else {
            spec_render_row(
                prev,
                w,
                h,
                t,
                Seq::empty(),
                Seq::empty(),
                spec_highlighted((r - 1) as u32, lpb),
                x,
                (r - 1) * 10,
            )
        }
    }
}

/// The canvas after drawing one whole track block: first every supplied line
/// inside the pattern's rows, then a blank row for every row no line covers,
/// so that each of the `n` rows is drawn exactly once for distinct source
/// rows.
pub open spec fn spec_render_track_block(
    d: Seq<Rgba>,
    w: int,
    h: int,
    t: Track,
    lines: Seq<Line>,
    n: u32,
    lpb: u32,
    x: int,
) -> Seq<Rgba> {
    spec_render_blanks(
        spec_render_lines(d, w, h, t, lines, n, lpb, x, lines.len() as int),
        w,
        h,
        t,
        lines,
        n,
        lpb,
        x,
        n as int,
    )
}

/// Whether `r` is among the rows already drawn.
fn contains_row(v: &Vec<u32>, r: u32) -> (b: bool)
    ensures
        b == v@.contains(r),
{
    for i in 0..v.len()
        invariant
            forall|j: int| 0 <= j < i ==> v@[j] != r,
    {
        if v[i] == r {
            return true;
        }
    }
    false
}

/// Draws one track block: the supplied sparse lines first, then blank
/// placeholder rows for every row they leave uncovered.
fn render_track(
    canvas: &mut Canvas,
    track_info: &Track,
    lines: &Vec<Line>,
    number_of_lines: u32,
    lines_per_beat: u32,
    x: u32,
)
    requires
        old(canvas).wf(),
        lines_per_beat >= 1,
        forall|i: int| 0 <= i < lines@.len() ==> (#[trigger] lines@[i]).wf(),
    ensures
        final(canvas).wf(),
        final(canvas).width == old(canvas).width,
        final(canvas).height == old(canvas).height,
        final(canvas).data@ == spec_render_track_block(
            old(canvas).data@,
            old(canvas).width as int,
            old(canvas).height as int,
            *track_info,
            lines@,
            number_of_lines,
            lines_per_beat,
            x as int,
        ),
{
    let ghost w = old(canvas).width as int;
    let ghost h = old(canvas).height as int;
    let mut rendered: Vec<u32> = Vec::new();
    for m in 0..lines.len()
        invariant
            canvas.wf(),
            canvas.width as int == w,
            canvas.height as int == h,
            lines_per_beat >= 1,
            forall|i: int| 0 <= i < lines@.len() ==> (#[trigger] lines@[i]).wf(),
            rendered@ == spec_rendered_rows(lines@, number_of_lines, m as int),
            canvas.data@ == spec_render_lines(
                old(canvas).data@,
                w,
                h,
                *track_info,
                lines@,
                number_of_lines,
                lines_per_beat,
                x as int,
                m as int,
            ),
    {
        let line = &lines[m];
        if line.index < number_of_lines {
            rendered.push(line.index);
            let hl = highlighted(line.index, lines_per_beat);
            render_row(
                canvas,
                track_info,
                &line.note_columns,
                &line.effect_columns,
                hl,
                x as u64,
                (line.index as u64) * 10,
            );
        }
    }
    let ghost after_lines = canvas.data@;
    let empty_note_columns: Vec<Option<NoteColumn>> = Vec::new();
    let empty_effect_columns: Vec<Option<EffectColumn>> = Vec::new();
    for row in 0..number_of_lines
        invariant
            canvas.wf(),
            canvas.width as int == w,
            canvas.height as int == h,
            lines_per_beat >= 1,
            empty_note_columns@ == Seq::<Option<NoteColumn>>::empty(),
            empty_effect_columns@ == Seq::<Option<EffectColumn>>::empty(),
            rendered@ == spec_rendered_rows(lines@, number_of_lines, lines@.len() as int),
            canvas.data@ == spec_render_blanks(
                after_lines,
                w,
                h,
                *track_info,
                lines@,
                number_of_lines,
                lines_per_beat,
                x as int,
                row as int,
            ),
            after_lines == spec_render_lines(
                old(canvas).data@,
                w,
                h,
                *track_info,
                lines@,
                number_of_lines,
                lines_per_beat,
                x as int,
                lines@.len() as int,
            ),
    {
        let cov = contains_row(&rendered, row);
        proof {
            lemma_rendered_rows_covered(lines@, number_of_lines, lines@.len() as int, row);
        }
        if !cov {
            let hl = highlighted(row, lines_per_beat);
            render_row(
                canvas,
                track_info,
                &empty_note_columns,
                &empty_effect_columns,
                hl,
                x as u64,
                (row as u64) * 10,
            );
        }
    }
}

/// The line list track position `i` of a pattern displays: the pattern
/// track's own lines, or, under alias indirection, the lines of the
/// same-position track of the aliased pattern. Layout always comes from the
/// song's track `i`, never from the aliased pattern.
pub open spec fn spec_resolved_lines(song: Song, p: Pattern, i: int) -> Seq<Line> {
    if p.tracks@[i].alias_pattern_index < 0 {
        p.tracks@[i].lines@
    } else {
        song.pattern_pool.patterns@[p.tracks@[i].alias_pattern_index as int].tracks@[i].lines@
    }
}

/// Whether the pattern pairs one pattern track with every song track.
pub open spec fn spec_track_parity(song: Song, p: Pattern) -> bool {
    p.tracks@.len() == song.tracks@.len()
}

/// Whether the alias of pattern-track `i`, if any, names a pool pattern with
/// a same-length track list.
pub open spec fn spec_alias_ok_at(song: Song, p: Pattern, i: int) -> bool {
    p.tracks@[i].alias_pattern_index >= 0 ==> {
        &&& p.tracks@[i].alias_pattern_index < song.pattern_pool.patterns@.len()
        &&& song.pattern_pool.patterns@[p.tracks@[i].alias_pattern_index as int].tracks@.len()
            == song.tracks@.len()
    }
}

/// Whether every alias of the pattern resolves inside the pool.
pub open spec fn spec_alias_ok(song: Song, p: Pattern) -> bool {
    forall|i: int| 0 <= i < p.tracks@.len() ==> spec_alias_ok_at(song, p, i)
}

/// The canvas after drawing the first `i` track blocks of a pattern, each at
/// its cumulative x-offset with its alias-resolved lines.
pub open spec fn spec_render_tracks(
    d: Seq<Rgba>,
    w: int,
    h: int,
    song: Song,
    p: Pattern,
    i: int,
) -> Seq<Rgba>
    decreases i,
{
    if i <= 0 {
        d
    } else {
        spec_render_track_block(
            spec_render_tracks(d, w, h, song, p, i - 1),
            w,
            h,
            song.tracks@[i - 1],
            spec_resolved_lines(song, p, i - 1),
            p.number_of_lines,
            song.global_song_data.lines_per_beat,
            spec_x_offset_upto(song.tracks@, i - 1),
        )
    }
}

/// The finished raster for pattern `pattern` of a song: every track block
/// drawn onto a blank canvas of the pattern's computed dimensions.
pub open spec fn spec_render_pattern(song: Song, pattern: int) -> Seq<Rgba> {
    let p = song.pattern_pool.patterns@[pattern];
    let w = spec_canvas_width(song);
    let h = spec_canvas_height(p);
    spec_render_tracks(spec_blank_canvas(w, h), w, h, song, p, song.tracks@.len() as int)
}

/// Draws every track block of one pattern onto the canvas, resolving alias
/// indirection per track at render time.
fn render_pattern(canvas: &mut Canvas, song: &Song, pattern: usize)
    requires
        old(canvas).wf(),
        song.wf(),
        pattern < song.pattern_pool.patterns@.len(),
        spec_track_parity(*song, song.pattern_pool.patterns@[pattern as int]),
        spec_alias_ok(*song, song.pattern_pool.patterns@[pattern as int]),
        spec_canvas_width(*song) <= u32::MAX,
    ensures
        final(canvas).wf(),
        final(canvas).width == old(canvas).width,
        final(canvas).height == old(canvas).height,
        final(canvas).data@ == spec_render_tracks(
            old(canvas).data@,
            old(canvas).width as int,
            old(canvas).height as int,
            *song,
            song.pattern_pool.patterns@[pattern as int],
            song.tracks@.len() as int,
        ),
{
    let ghost w = old(canvas).width as int;
    let ghost h = old(canvas).height as int;
    let ghost p = song.pattern_pool.patterns@[pattern as int];
    let pat = &song.pattern_pool.patterns[pattern];
    for i in 0..song.tracks.len()
        invariant
            canvas.wf(),
            canvas.width as int == w,
            canvas.height as int == h,
            song.wf(),
            pattern < song.pattern_pool.patterns@.len(),
            p == song.pattern_pool.patterns@[pattern as int],
            pat == &song.pattern_pool.patterns@[pattern as int],
            spec_track_parity(*song, p),
            spec_alias_ok(*song, p),
            spec_canvas_width(*song) <= u32::MAX,
            canvas.data@ == spec_render_tracks(old(canvas).data@, w, h, *song, p, i as int),
    {
        proof {
            lemma_x_offset_upto_monotone(song.tracks@, i as int, song.tracks@.len() as int);
            lemma_x_offset_upto_monotone(song.tracks@, 0, i as int);
            assert(spec_alias_ok_at(*song, p, i as int));
            assert(song.pattern_pool.patterns@[pattern as int].wf());
        }
        let x = x_offset_upto_track(song, i);
        let track_info = &song.tracks[i];
        let pt = &pat.tracks[i];
        if pt.alias_pattern_index < 0 {
            render_track(
                canvas,
                track_info,
                &pt.lines,
                pat.number_of_lines,
                song.global_song_data.lines_per_beat,
                x,
            );
        } else {
            let k = pt.alias_pattern_index as usize;
            proof {
                assert(song.pattern_pool.patterns@[k as int].wf());
            }
            render_track(
                canvas,
                track_info,
                &song.pattern_pool.patterns[k].tracks[i].lines,
                pat.number_of_lines,
                song.global_song_data.lines_per_beat,
                x,
            );
        }
    }
}

/// Renders one pattern of a song into a fresh raster of the computed
/// dimensions, or reports exactly how the model broke the renderer's
/// structural preconditions; no raster is produced then.
pub fn render(song: &Song, pattern: usize) -> (r: Result<Canvas, RenderError>)
    requires
        song.wf(),
        spec_canvas_width(*song) <= u32::MAX,
        pattern < song.pattern_pool.patterns@.len() ==> spec_canvas_height(
            song.pattern_pool.patterns@[pattern as int],
        ) <= u32::MAX,
        pattern < song.pattern_pool.patterns@.len() ==> spec_canvas_width(*song)
            * spec_canvas_height(song.pattern_pool.patterns@[pattern as int]) <= usize::MAX,
    ensures
        (r == Result::<Canvas, RenderError>::Err(RenderError::PatternOutOfRange)) <==> pattern
            >= song.pattern_pool.patterns@.len(),
        (r == Result::<Canvas, RenderError>::Err(RenderError::TrackCountMismatch)) <==> (pattern
            < song.pattern_pool.patterns@.len() && !spec_track_parity(
            *song,
            song.pattern_pool.patterns@[pattern as int],
        )),
        (r == Result::<Canvas, RenderError>::Err(RenderError::AliasOutOfRange)) <==> (pattern
            < song.pattern_pool.patterns@.len() && spec_track_parity(
            *song,
            song.pattern_pool.patterns@[pattern as int],
        ) && !spec_alias_ok(*song, song.pattern_pool.patterns@[pattern as int])),
        r is Ok <==> (pattern < song.pattern_pool.patterns@.len() && spec_track_parity(
            *song,
            song.pattern_pool.patterns@[pattern as int],
        ) && spec_alias_ok(*song, song.pattern_pool.patterns@[pattern as int])),
        r matches Ok(c) ==> {
            &&& c.wf()
            &&& c.width == spec_canvas_width(*song)
            &&& c.height == spec_canvas_height(song.pattern_pool.patterns@[pattern as int])
            &&& c.data@ == spec_render_pattern(*song, pattern as int)
        },
{
    if pattern >= song.pattern_pool.patterns.len() {
        return Err(RenderError::PatternOutOfRange);
    }
    let pat = &song.pattern_pool.patterns[pattern];
    if pat.tracks.len() != song.tracks.len() {
        return Err(RenderError::TrackCountMismatch);
    }
    let ghost p = song.pattern_pool.patterns@[pattern as int];
    for i in 0..pat.tracks.len()
        invariant
            pattern < song.pattern_pool.patterns@.len(),
            p == song.pattern_pool.patterns@[pattern as int],
            pat == &song.pattern_pool.patterns@[pattern as int],
            spec_track_parity(*song, p),
            forall|j: int| 0 <= j < i ==> spec_alias_ok_at(*song, p, j),
    {
        let a = pat.tracks[i].alias_pattern_index;
        if a >= 0 {
            let k = a as usize;
            if k >= song.pattern_pool.patterns.len() {
                proof {
                    assert(!spec_alias_ok_at(*song, p, i as int));
                }
                return Err(RenderError::AliasOutOfRange);
            }
            if song.pattern_pool.patterns[k].tracks.len() != song.tracks.len() {
                proof {
                    assert(!spec_alias_ok_at(*song, p, i as int));
                }
                return Err(RenderError::AliasOutOfRange);
            }
        }
    }
    let width = canvas_width(song);
    let height = canvas_height(pat);
    let mut canvas = Canvas::new(width, height);
    render_pattern(&mut canvas, song, pattern);
    Ok(canvas)
}

/// How many entries of `s` equal `r`.
pub open spec fn row_count(s: Seq<u32>, r: u32) -> nat
    decreases s.len(),
{
    if s.len() == 0 {
        0
    } else {
        row_count(s.drop_last(), r) + (if s.last() == r {
            1nat
        } else {
            0nat
        })
    }
}

/// The rows a track block fills with blank placeholder rows, in draw order:
/// every row of `[0, r)` no source line covers.
pub open spec fn spec_blank_rows(lines: Seq<Line>, n: u32, r: int) -> Seq<u32>
    decreases r,
{
    if r <= 0 {
        Seq::empty()
    } else {
        let prev = spec_blank_rows(lines, n, r - 1);
        if covered(lines, n, (r - 1) as u32) {
            prev
        } else {
            prev.push((r - 1) as u32)
        }
    }
}

/// Every row index a track block draws, in draw order: first the rows of the
/// supplied lines, then the blank rows filled in afterwards. The two phases
/// of `spec_render_track_block` draw one row per entry, in this order.
pub open spec fn spec_rows_drawn(lines: Seq<Line>, n: u32) -> Seq<u32> {
    spec_rendered_rows(lines, n, lines.len() as int) + spec_blank_rows(lines, n, n as int)
}

/// Whether no two source lines target the same row.
pub open spec fn lines_distinct(lines: Seq<Line>) -> bool {
    forall|i: int, j: int| 0 <= i < j < lines.len() ==> lines[i].index != lines[j].index
}

proof fn lemma_rendered_rows_count(lines: Seq<Line>, n: u32, m: int, r: u32)
    requires
        lines_distinct(lines),
        0 <= m <= lines.len(),
    ensures
        row_count(spec_rendered_rows(lines, n, m), r) == if covered_upto(lines, n, m, r) {
            1nat
        } else {
            0nat
        },
    decreases m,
{
    if m > 0 {
        lemma_rendered_rows_count(lines, n, m - 1, r);
        let prev = spec_rendered_rows(lines, n, m - 1);
        let cur = spec_rendered_rows(lines, n, m);
        if lines[m - 1].index < n {
            assert(cur == prev.push(lines[m - 1].index));
            assert(cur.drop_last() =~= prev);
            assert(cur.last() == lines[m - 1].index);
            if lines[m - 1].index == r {
                assert(covered_upto(lines, n, m, r));
                assert(!covered_upto(lines, n, m - 1, r)) by {
                    if covered_upto(lines, n, m - 1, r) {
                        let j = choose|j: int|
                            0 <= j < m - 1 && j < lines.len() && lines[j].index == r
                                && lines[j].index < n;
                        assert(lines[j].index == lines[m - 1].index);
                    }
                }
            } else {
                assert(covered_upto(lines, n, m, r) <==> covered_upto(lines, n, m - 1, r)) by {
                    if covered_upto(lines, n, m, r) {
                        let j = choose|j: int|
                            0 <= j < m && j < lines.len() && lines[j].index == r && lines[j].index
                                < n;
                        assert(j < m - 1);
                    }
                }
            }
        } else {
            assert(cur == prev);
            assert(covered_upto(lines, n, m, r) <==> covered_upto(lines, n, m - 1, r)) by {
                if covered_upto(lines, n, m, r) {
                    let j = choose|j: int|
                        0 <= j < m && j < lines.len() && lines[j].index == r && lines[j].index < n;
                    assert(j < m - 1);
                }
            }
        }
    }
}

proof fn lemma_blank_rows_count(lines: Seq<Line>, n: u32, b: int, r: u32)
    requires
        0 <= b <= n,
    ensures
        row_count(spec_blank_rows(lines, n, b), r) == if r < b && !covered(lines, n, r) {
            1nat
        } else {
            0nat
        },
    decreases b,
{
    if b > 0 {
        lemma_blank_rows_count(lines, n, b - 1, r);
        let prev = spec_blank_rows(lines, n, b - 1);
        let cur = spec_blank_rows(lines, n, b);
        if covered(lines, n, (b - 1) as u32) {
            assert(cur == prev);
        } else {
            assert(cur == prev.push((b - 1) as u32));
            assert(cur.drop_last() =~= prev);
            assert(cur.last() == (b - 1) as u32);
        }
    }
}

proof fn lemma_row_count_concat(s: Seq<u32>, t: Seq<u32>, r: u32)
    ensures
        row_count(s + t, r) == row_count(s, r) + row_count(t, r),
    decreases t.len(),
{
    if t.len() == 0 {
        assert(s + t =~= s);
    } else {
        lemma_row_count_concat(s, t.drop_last(), r);
        assert((s + t).drop_last() =~= s + t.drop_last());
        assert((s + t).last() == t.last());
    }
}

/// Row coverage is complete and exact: when no two source lines target the
/// same row, a track block draws every row index of `[0, n)` exactly once,
/// however sparse the source line list is — once from its line when one
/// covers it, once as a synthesized blank row otherwise.
pub proof fn lemma_row_coverage(lines: Seq<Line>, n: u32, r: u32)
    requires
        lines_distinct(lines),
        r < n,
    ensures
        row_count(spec_rows_drawn(lines, n), r) == 1,
{
    lemma_row_count_concat(
        spec_rendered_rows(lines, n, lines.len() as int),
        spec_blank_rows(lines, n, n as int),
        r,
    );
    lemma_rendered_rows_count(lines, n, lines.len() as int, r);
    lemma_blank_rows_count(lines, n, n as int, r);
}

proof fn lemma_rendered_rows_count_beyond(lines: Seq<Line>, n: u32, m: int, r: u32)
    requires
        0 <= m <= lines.len(),
        r >= n,
    ensures
        row_count(spec_rendered_rows(lines, n, m), r) == 0,
    decreases m,
{
    if m > 0 {
        lemma_rendered_rows_count_beyond(lines, n, m - 1, r);
        let prev = spec_rendered_rows(lines, n, m - 1);
        let cur = spec_rendered_rows(lines, n, m);
        if lines[m - 1].index < n {
            assert(cur == prev.push(lines[m - 1].index));
            assert(cur.drop_last() =~= prev);
            assert(cur.last() == lines[m - 1].index);
            assert(cur.last() != r);
        } else {
            assert(cur == prev);
        }
    }
}

/// A track block never draws a row at or beyond the pattern's row count:
/// neither from a source line nor as a synthesized blank.
pub proof fn lemma_no_row_beyond_pattern(lines: Seq<Line>, n: u32, r: u32)
    requires
        r >= n,
    ensures
        row_count(spec_rows_drawn(lines, n), r) == 0,
{
    lemma_row_count_concat(
        spec_rendered_rows(lines, n, lines.len() as int),
        spec_blank_rows(lines, n, n as int),
        r,
    );
    lemma_rendered_rows_count_beyond(lines, n, lines.len() as int, r);
    lemma_blank_rows_count(lines, n, n as int, r);
}

/// A row index at or beyond the pattern's row count is dropped: its line
/// paints nothing and does not count toward row coverage.
pub proof fn lemma_out_of_range_line_dropped(
    d: Seq<Rgba>,
    w: int,
    h: int,
    t: Track,
    lines: Seq<Line>,
    n: u32,
    lpb: u32,
    x: int,
    m: int,
)
    requires
        0 <= m < lines.len(),
        lines[m].index >= n,
    ensures
        spec_render_lines(d, w, h, t, lines, n, lpb, x, m + 1) == spec_render_lines(
            d,
            w,
            h,
            t,
            lines,
            n,
            lpb,
            x,
            m,
        ),
        forall|r: u32| covered_upto(lines, n, m + 1, r) == covered_upto(lines, n, m, r),
{
    assert forall|r: u32| covered_upto(lines, n, m + 1, r) == covered_upto(lines, n, m, r) by {
        if covered_upto(lines, n, m + 1, r) {
            let j = choose|j: int|
                0 <= j < m + 1 && j < lines.len() && lines[j].index == r && lines[j].index < n;
            assert(j < m);
        }
    }
}

/// Alias resolution: a pattern track with a non-negative alias index at
/// track position `i` displays the lines of the same-position track of the
/// aliased pool pattern, while its block is laid out from the song's own
/// track `i` at the song's cumulative x-offset.
pub proof fn lemma_alias_resolution(
    d: Seq<Rgba>,
    w: int,
    h: int,
    song: Song,
    p: Pattern,
    i: int,
)
    requires
        0 <= i < p.tracks@.len(),
        p.tracks@[i].alias_pattern_index >= 0,
    ensures
        spec_resolved_lines(song, p, i)
            == song.pattern_pool.patterns@[p.tracks@[i].alias_pattern_index as int].tracks@[i].lines@,
        spec_render_tracks(d, w, h, song, p, i + 1) == spec_render_track_block(
            spec_render_tracks(d, w, h, song, p, i),
            w,
            h,
            song.tracks@[i],
            song.pattern_pool.patterns@[p.tracks@[i].alias_pattern_index as int].tracks@[i].lines@,
            p.number_of_lines,
            song.global_song_data.lines_per_beat,
            spec_x_offset_upto(song.tracks@, i),
        ),
{
}

/// Rendering is deterministic: two successful renders of the same song and
/// pattern index return rasters of identical dimensions and identical
/// pixels.
pub proof fn lemma_render_deterministic(
    song: &Song,
    pattern: usize,
    r1: Result<Canvas, RenderError>,
    r2: Result<Canvas, RenderError>,
)
    requires
        call_ensures(render, (song, pattern), r1),
        call_ensures(render, (song, pattern), r2),
        r1 is Ok,
        r2 is Ok,
    ensures
        r1->Ok_0.width == r2->Ok_0.width,
        r1->Ok_0.height == r2->Ok_0.height,
        r1->Ok_0.data@ == r2->Ok_0.data@,
{
}

} // verus!
