//! The renderer, expressed as positioned text writes. Every function here
//! computes the writes a render pass must make; the input loop carries
//! them to the terminal. Each field is first overwritten with blank
//! padding of at least the field's maximum expected width, then the value
//! is written, so a shorter new value never lets the old one bleed
//! through.

use vstd::prelude::*;
use crate::record::MoveEntry;
use crate::record::StatEntry;
use crate::record::StatLabel;
use crate::text::all_blank;
use crate::text::blanks;
use crate::text::dec_rep;
use crate::text::str_eq;
use crate::text::u64_to_string;
use vstd::string::StrSliceExecFns;
use vstd::string::StringExecFns;

verus! {

/// One positioned write: `text` drawn left-to-right starting at column
/// `x` of row `y`.
pub struct TextWrite {
    pub x: u16,
    pub y: u16,
    pub text: String,
}

/// The write paints the cell at column `x` of row `y`.
pub open spec fn write_covers(w: TextWrite, x: int, y: int) -> bool {
    y == w.y as int && w.x as int <= x < w.x as int + w.text@.len()
}

/// The character shown at a cell after a screen `s` has received the
/// writes `ws` in order: the last write that paints the cell wins; a cell
/// painted by none keeps what the screen held.
pub open spec fn cell_after(s: Map<(int, int), char>, ws: Seq<TextWrite>, x: int, y: int) -> char
    decreases ws.len(),
{
    if ws.len() == 0 {
        s[(x, y)]
    } else if write_covers(ws.last(), x, y) {
        ws.last().text@[x - ws.last().x as int]
    } else {
        cell_after(s, ws.drop_last(), x, y)
    }
}

/// A cell painted by at least one of the writes shows content that comes
/// from the writes alone: whatever two screens held there before, they
/// agree on the cell afterwards.
pub proof fn lemma_covered_cell_independent(
    s1: Map<(int, int), char>,
    s2: Map<(int, int), char>,
    ws: Seq<TextWrite>,
    x: int,
    y: int,
)
    requires
        exists|k: int| 0 <= k < ws.len() && write_covers(ws[k], x, y),
    ensures
        cell_after(s1, ws, x, y) == cell_after(s2, ws, x, y),
    decreases ws.len(),
{
    let k = choose|k: int| 0 <= k < ws.len() && write_covers(ws[k], x, y);
    if !write_covers(ws.last(), x, y) {
        assert(k < ws.len() - 1);
        assert(ws.drop_last()[k] == ws[k]);
        lemma_covered_cell_independent(s1, s2, ws.drop_last(), x, y);
    }
}

/// `n` copies of `piece`, concatenated.
pub open spec fn repeated(piece: Seq<char>, n: nat) -> Seq<char>
    decreases n,
{
    if n == 0 {
        Seq::empty()
    } else {
        repeated(piece, (n - 1) as nat) + piece
    }
}

/// A row of a bordered panel: a left edge, `inner` copies of a filler,
/// and a right edge.
pub fn fill_row(left: &str, fill: &str, right: &str, inner: usize) -> (r: String)
    ensures
        r@ == left@ + repeated(fill@, inner as nat) + right@,
{
    let mut s = left.to_owned();
    let mut i: usize = 0;
    while i < inner
        invariant
            i <= inner,
            s@ == left@ + repeated(fill@, i as nat),
        decreases inner - i,
    {
        s.append(fill);
        i = i + 1;
    }
    s.append(right);
    s
}

/// A block of `ht` writes starting at index `off` of `ws`, one write per
/// row, each starting at column `x0` and `wd` characters wide: the rows
/// of one bordered panel.
pub open spec fn row_block(
    ws: Seq<TextWrite>,
    off: int,
    x0: int,
    y0: int,
    wd: int,
    ht: int,
) -> bool {
    &&& 0 <= off && off + ht <= ws.len()
    &&& forall|k: int|
        0 <= k < ht ==> (#[trigger] ws[off + k]).x == x0 && ws[off + k].y == y0 + k && ws[off
            + k].text@.len() == wd
}

/// Every cell of the rectangle painted row by row in a block is covered
/// by one of the writes.
pub proof fn lemma_row_block_covers(
    ws: Seq<TextWrite>,
    off: int,
    x0: int,
    y0: int,
    wd: int,
    ht: int,
    x: int,
    y: int,
)
    requires
        row_block(ws, off, x0, y0, wd, ht),
        x0 <= x < x0 + wd,
        y0 <= y < y0 + ht,
    ensures
        exists|k: int| 0 <= k < ws.len() && write_covers(ws[k], x, y),
{
    let k = off + (y - y0);
    assert(write_covers(ws[k], x, y));
}

/// The writes of one bordered box: a top border, `height - 2` interior
/// rows of blanks between side borders, and a bottom border.
pub fn box_writes(x: u16, y: u16, width: u16, height: u16) -> (ws: Vec<TextWrite>)
    requires
        width >= 2,
        height >= 2,
        y as int + height as int <= u16::MAX as int + 1,
    ensures
        ws@.len() == height as int,
        row_block(ws@, 0, x as int, y as int, width as int, height as int),
        ws@[0].text@ == "\u{250c}"@ + repeated("\u{2500}"@, (width - 2) as nat) + "\u{2510}"@,
        ws@[height - 1].text@ == "\u{2514}"@ + repeated("\u{2500}"@, (width - 2) as nat)
            + "\u{2518}"@,
        forall|k: int|
            1 <= k < height as int - 1 ==> (#[trigger] ws@[k]).text@ == "\u{2502}"@ + repeated(
                " "@,
                (width - 2) as nat,
            ) + "\u{2502}"@,
{
    proof {
        reveal_strlit("\u{250c}");
        reveal_strlit("\u{2510}");
        reveal_strlit("\u{2514}");
        reveal_strlit("\u{2518}");
        reveal_strlit("\u{2502}");
        reveal_strlit("\u{2500}");
        reveal_strlit(" ");
        lemma_repeated_len("\u{2500}"@, (width - 2) as nat);
        lemma_repeated_len(" "@, (width - 2) as nat);
    }
    let mut ws: Vec<TextWrite> = Vec::new();
    let inner = (width - 2) as usize;
    let mut k: u16 = 0;
    while k < height
        invariant
            k <= height,
            width >= 2,
            height >= 2,
            inner as int == width as int - 2,
            y as int + height as int <= u16::MAX as int + 1,
            ws@.len() == k as int,
            forall|j: int|
                0 <= j < k as int ==> (#[trigger] ws@[j]).x == x as int && ws@[j].y == y as int + j
                    && ws@[j].text@.len() == width as int,
            k as int >= 1 ==> ws@[0].text@ == "\u{250c}"@ + repeated(
                "\u{2500}"@,
                (width - 2) as nat,
            ) + "\u{2510}"@,
            k as int == height as int ==> ws@[height - 1].text@ == "\u{2514}"@ + repeated(
                "\u{2500}"@,
                (width - 2) as nat,
            ) + "\u{2518}"@,
            forall|j: int|
                1 <= j < k as int && j < height as int - 1 ==> (#[trigger] ws@[j]).text@
                    == "\u{2502}"@ + repeated(" "@, (width - 2) as nat) + "\u{2502}"@,
        decreases height - k,
    {
        proof {
            reveal_strlit("\u{250c}");
            reveal_strlit("\u{2510}");
            reveal_strlit("\u{2514}");
            reveal_strlit("\u{2518}");
            reveal_strlit("\u{2502}");
            reveal_strlit("\u{2500}");
            reveal_strlit(" ");
            lemma_repeated_len("\u{2500}"@, (width - 2) as nat);
            lemma_repeated_len(" "@, (width - 2) as nat);
        }
        let row = if k == 0 {
            fill_row("\u{250c}", "\u{2500}", "\u{2510}", inner)
        } else if k == height - 1 {
            fill_row("\u{2514}", "\u{2500}", "\u{2518}", inner)
        } else {
            fill_row("\u{2502}", " ", "\u{2502}", inner)
        };
        ws.push(TextWrite { x, y: y + k, text: row });
        k = k + 1;
    }
    ws
}

/// The writes of one rendered move row: blank padding over the name
/// field, the move name, blank padding over the learn-method field, and
/// the learn method ("Learn At: N" for a level-up move, the raw method
/// name otherwise).
pub open spec fn move_info_writes_rel(
    ws: Seq<TextWrite>,
    w: int,
    h: int,
    minush: int,
    name: Seq<char>,
    method: Seq<char>,
    level: nat,
) -> bool {
    &&& ws.len() == 4
    &&& ws[0].x == w - 22 && ws[0].y == h - minush && ws[0].text@.len() == 21 && all_blank(
        ws[0].text@,
    )
    &&& ws[1].x == w - 20 && ws[1].y == h - minush && ws[1].text@ == name + ": "@
    &&& ws[2].x == w - 22 && ws[2].y == h - minush - 1 && ws[2].text@.len() == 21 && all_blank(
        ws[2].text@,
    )
    &&& ws[3].x == w - 20 && ws[3].y == h - minush - 1
    &&& ws[3].text@ == if method == "level-up"@ {
        "  Learn At: "@ + dec_rep(level)
    } else {
        "  "@ + method
    }
}

/// The writes that render one move into its two panel rows: each field is
/// blank-padded to the full field width before the value is written.
pub fn print_move_info(w: u16, h: u16, minush: u16, move_name: &str, move_info: &MoveEntry) -> (ws:
    Vec<TextWrite>)
    requires
        w >= 22,
        minush as int + 1 <= h as int,
    ensures
        move_info_writes_rel(
            ws@,
            w as int,
            h as int,
            minush as int,
            move_name@,
            move_info.learn_method@,
            move_info.level_learned_at as nat,
        ),
{
    let mut ws: Vec<TextWrite> = Vec::new();
    ws.push(TextWrite { x: w - 22, y: h - minush, text: blanks(21) });
    let mut name_line = move_name.to_owned();
    name_line.append(": ");
    ws.push(TextWrite { x: w - 20, y: h - minush, text: name_line });
    ws.push(TextWrite { x: w - 22, y: h - minush - 1, text: blanks(21) });
    let method_line = if str_eq(move_info.learn_method.as_str(), "level-up") {
        let mut t = "  Learn At: ".to_owned();
        let lvl = u64_to_string(move_info.level_learned_at as u64);
        t.append(lvl.as_str());
        t
    } else {
        let mut t = "  ".to_owned();
        t.append(move_info.learn_method.as_str());
        t
    };
    ws.push(TextWrite { x: w - 20, y: h - minush - 1, text: method_line });
    ws
}

/// Re-rendering a move row over any prior screen leaves no residual
/// characters in the cleared field area: after the writes of one move
/// row, every cell of the two blank-padded rows shows the same character
/// whatever the screen held before.
pub proof fn lemma_move_field_no_residual(
    s1: Map<(int, int), char>,
    s2: Map<(int, int), char>,
    ws: Seq<TextWrite>,
    w: int,
    h: int,
    minush: int,
    name: Seq<char>,
    method: Seq<char>,
    level: nat,
    x: int,
    y: int,
)
    requires
        move_info_writes_rel(ws, w, h, minush, name, method, level),
        w - 22 <= x < w - 1,
        y == h - minush || y == h - minush - 1,
    ensures
        cell_after(s1, ws, x, y) == cell_after(s2, ws, x, y),
{
    if y == h - minush {
        assert(write_covers(ws[0], x, y));
    } else {
        assert(write_covers(ws[2], x, y));
    }
    lemma_covered_cell_independent(s1, s2, ws, x, y);
}

/// The writes of the species panel fields: blank padding over the name
/// field, the display name, blank padding over the id field, and the
/// numeric identifier in decimal.
pub open spec fn species_writes_rel(ws: Seq<TextWrite>, w: int, h: int, name: Seq<char>, id: nat) -> bool {
    &&& ws.len() == 4
    &&& ws[0].x == w - 15 && ws[0].y == h - 7 && ws[0].text@.len() == 13 && all_blank(ws[0].text@)
    &&& ws[1].x == w - 15 && ws[1].y == h - 7 && ws[1].text@ == name
    &&& ws[2].x == w - 15 && ws[2].y == h - 5 && ws[2].text@.len() == 4 && all_blank(ws[2].text@)
    &&& ws[3].x == w - 15 && ws[3].y == h - 5 && ws[3].text@ == dec_rep(id)
}

/// The writes that fill the species panel: the creature's display name
/// and numeric identifier, each blank-padded before the value is written.
pub fn species_writes(w: u16, h: u16, display_name: &str, id: u32) -> (ws: Vec<TextWrite>)
    requires
        w >= 15,
        h >= 8,
    ensures
        species_writes_rel(ws@, w as int, h as int, display_name@, id as nat),
{
    let mut ws: Vec<TextWrite> = Vec::new();
    ws.push(TextWrite { x: w - 15, y: h - 7, text: blanks(13) });
    ws.push(TextWrite { x: w - 15, y: h - 7, text: display_name.to_owned() });
    ws.push(TextWrite { x: w - 15, y: h - 5, text: blanks(4) });
    ws.push(TextWrite { x: w - 15, y: h - 5, text: u64_to_string(id as u64) });
    ws
}

/// Re-rendering the species panel fields over any prior screen leaves no
/// residual characters in the cleared name and id fields.
pub proof fn lemma_species_field_no_residual(
    s1: Map<(int, int), char>,
    s2: Map<(int, int), char>,
    ws: Seq<TextWrite>,
    w: int,
    h: int,
    name: Seq<char>,
    id: nat,
    x: int,
    y: int,
)
    requires
        species_writes_rel(ws, w, h, name, id),
        (y == h - 7 && w - 15 <= x < w - 2) || (y == h - 5 && w - 15 <= x < w - 11),
    ensures
        cell_after(s1, ws, x, y) == cell_after(s2, ws, x, y),
{
    if y == h - 7 {
        assert(write_covers(ws[0], x, y));
    } else {
        assert(write_covers(ws[2], x, y));
    }
    lemma_covered_cell_independent(s1, s2, ws, x, y);
}

/// The first label of the translation table whose key matches, if any.
pub open spec fn spec_first_label(key: Seq<char>, t: Seq<StatLabel>) -> Option<Seq<char>>
    decreases t.len(),
{
    if t.len() == 0 {
        Option::None
    } else if t[0].key@ == key {
        Option::Some(t[0].label@)
    } else {
        spec_first_label(key, t.subrange(1, t.len() as int))
    }
}

/// The label the stats panel shows for a raw stat key: its translation,
/// or the raw key itself when the table does not know it.
pub open spec fn spec_stat_label(key: Seq<char>, t: Seq<StatLabel>) -> Seq<char> {
    match spec_first_label(key, t) {
        Option::Some(l) => l,
        Option::None => key,
    }
}

/// Looks a raw stat key up in the translation table and returns the first
/// matching label, if any.
pub fn translate_stat(key: &str, table: &Vec<StatLabel>) -> (r: Option<String>)
    ensures
        match r {
            Some(l) => spec_first_label(key@, table@) == Option::Some(l@),
            None => spec_first_label(key@, table@) is None,
        },
{
    let ghost full = table@;
    proof {
        assert(table@.subrange(0, table@.len() as int) =~= table@);
    }
    let mut i: usize = 0;
    while i < table.len()
        invariant
            i <= table@.len(),
            full == table@,
            spec_first_label(key@, full) == spec_first_label(
                key@,
                table@.subrange(i as int, table@.len() as int),
            ),
        decreases table@.len() - i,
    {
        let ghost tail = table@.subrange(i as int, table@.len() as int);
        proof {
            assert(tail[0] == table@[i as int]);
            assert(tail.subrange(1, tail.len() as int) =~= table@.subrange(
                i as int + 1,
                table@.len() as int,
            ));
        }
        if str_eq(table[i].key.as_str(), key) {
            return Some(table[i].label.clone());
        }
        i = i + 1;
    }
    proof {
        assert(table@.subrange(table@.len() as int, table@.len() as int).len() == 0);
    }
    None
}

/// The four writes that render one stat into its two panel rows, for the
/// stat at position `j` counted from the top of the stats panel.
pub open spec fn stat_field_rel(
    ws: Seq<TextWrite>,
    h: int,
    j: int,
    st: StatEntry,
    labels: Seq<StatLabel>,
) -> bool {
    let y1 = h - 20 + 3 * j;
    &&& ws[4 * j].x == 2 && ws[4 * j].y == y1 && ws[4 * j].text@.len() == 21 && all_blank(
        ws[4 * j].text@,
    )
    &&& ws[4 * j + 1].x == 2 && ws[4 * j + 1].y == y1 && ws[4 * j + 1].text@ == "Name: "@
        + spec_stat_label(st.stat_key@, labels)
    &&& ws[4 * j + 2].x == 2 && ws[4 * j + 2].y == y1 + 1 && ws[4 * j + 2].text@.len() == 17
        && all_blank(ws[4 * j + 2].text@)
    &&& ws[4 * j + 3].x == 2 && ws[4 * j + 3].y == y1 + 1 && ws[4 * j + 3].text@ == "Base Stat: "@
        + dec_rep(st.base_stat as nat)
}

/// Re-rendering a stat's two rows over any prior screen leaves no
/// residual characters in the cleared label and value fields.
pub proof fn lemma_stat_field_no_residual(
    s1: Map<(int, int), char>,
    s2: Map<(int, int), char>,
    ws: Seq<TextWrite>,
    h: int,
    j: int,
    st: StatEntry,
    labels: Seq<StatLabel>,
    x: int,
    y: int,
)
    requires
        0 <= j,
        4 * j + 4 <= ws.len(),
        stat_field_rel(ws, h, j, st, labels),
        (y == h - 20 + 3 * j && 2 <= x < 23) || (y == h - 20 + 3 * j + 1 && 2 <= x < 19),
    ensures
        cell_after(s1, ws, x, y) == cell_after(s2, ws, x, y),
{
    if y == h - 20 + 3 * j {
        assert(write_covers(ws[4 * j], x, y));
    } else {
        assert(write_covers(ws[4 * j + 2], x, y));
    }
    lemma_covered_cell_independent(s1, s2, ws, x, y);
}

/// The writes that fill the stats panel: every stat of the record, top to
/// bottom with fixed vertical spacing, each row blank-padded to the field
/// width before its value is written.
pub fn stat_rows_writes(h: u16, stats: &Vec<StatEntry>, labels: &Vec<StatLabel>) -> (ws: Vec<
    TextWrite,
>)
    requires
        h >= 21,
        stats@.len() <= 6,
    ensures
        ws@.len() == 4 * stats@.len(),
        forall|j: int| 0 <= j < stats@.len() ==> stat_field_rel(ws@, h as int, j, stats@[j], labels@),
{
    let mut ws: Vec<TextWrite> = Vec::new();
    let mut i: usize = 0;
    while i < stats.len()
        invariant
            i <= stats@.len(),
            stats@.len() <= 6,
            h >= 21,
            ws@.len() == 4 * i,
            forall|j: int| 0 <= j < i ==> stat_field_rel(ws@, h as int, j, stats@[j], labels@),
        decreases stats@.len() - i,
    {
        let y1 = h - 20 + 3 * (i as u16);
        let st = &stats[i];
        ws.push(TextWrite { x: 2, y: y1, text: blanks(21) });
        let label = match translate_stat(st.stat_key.as_str(), labels) {
            Some(l) => l,
            None => st.stat_key.clone(),
        };
        let mut name_line = "Name: ".to_owned();
        name_line.append(label.as_str());
        ws.push(TextWrite { x: 2, y: y1, text: name_line });
        ws.push(TextWrite { x: 2, y: y1 + 1, text: blanks(17) });
        let mut base_line = "Base Stat: ".to_owned();
        let value = u64_to_string(st.base_stat as u64);
        base_line.append(value.as_str());
        ws.push(TextWrite { x: 2, y: y1 + 1, text: base_line });
        i = i + 1;
    }
    ws
}

/// The title row of the moves panel for a page: the page number framed by
/// the panel border.
pub open spec fn moves_title_of(page: nat) -> Seq<char> {
    "\u{251c}\u{2500}\u{2500}\u{2500}\u{2500}\u{2500}\u{2500}\u{2500}Moves\u{2500}"@ + dec_rep(
        page,
    ) + "\u{2500}\u{2500}\u{2500}\u{2500}\u{2500}\u{2500}\u{2500}\u{2524}"@
}

/// The title row of the moves panel, carrying the current page number.
pub fn moves_title_row(page: u64) -> (r: String)
    ensures
        r@ == moves_title_of(page as nat),
{
    let mut s = "\u{251c}\u{2500}\u{2500}\u{2500}\u{2500}\u{2500}\u{2500}\u{2500}Moves\u{2500}".to_owned();
    let p = u64_to_string(page);
    s.append(p.as_str());
    s.append("\u{2500}\u{2500}\u{2500}\u{2500}\u{2500}\u{2500}\u{2500}\u{2524}");
    s
}

/// One panel's rectangle, anchored relative to the terminal edges.
#[derive(Clone, Copy, PartialEq, Eq, Structural, Debug)]
pub struct PanelRect {
    pub x: u16,
    pub y: u16,
    pub width: u16,
    pub height: u16,
}

/// The cell at column `x` of row `y` lies inside the rectangle.
pub open spec fn rect_contains(r: PanelRect, x: int, y: int) -> bool {
    r.x <= x < r.x as int + r.width as int && r.y <= y < r.y as int + r.height as int
}

/// No cell lies inside both rectangles.
pub open spec fn rects_disjoint(a: PanelRect, b: PanelRect) -> bool {
    forall|x: int, y: int| !(rect_contains(a, x, y) && rect_contains(b, x, y))
}

/// The declarative layout table: one rectangle per panel.
#[derive(Clone, Copy, PartialEq, Eq, Structural, Debug)]
pub struct Layout {
    pub input_bar: PanelRect,
    pub moves: PanelRect,
    pub stats: PanelRect,
    pub species: PanelRect,
}

/// Computes the layout table from the terminal dimensions: the input bar
/// along the top right, the moves and species panels anchored to the
/// right edge, the stats panel to the left edge, all anchored to the
/// bottom. The four panels never overlap.
pub fn layout(w: u16, h: u16) -> (t: Layout)
    requires
        w >= 59,
        h >= 23,
    ensures
        t.input_bar == (PanelRect { x: (w - 59) as u16, y: 0, width: 59, height: 2 }),
        t.moves == (PanelRect { x: (w - 23) as u16, y: (h - 21) as u16, width: 23, height: 12 }),
        t.stats == (PanelRect { x: 0, y: (h - 21) as u16, width: 24, height: 19 }),
        t.species == (PanelRect { x: (w - 23) as u16, y: (h - 9) as u16, width: 23, height: 7 }),
        rects_disjoint(t.moves, t.stats),
        rects_disjoint(t.moves, t.species),
        rects_disjoint(t.stats, t.species),
        rects_disjoint(t.input_bar, t.moves),
        rects_disjoint(t.input_bar, t.stats),
        rects_disjoint(t.input_bar, t.species),
{
    Layout {
        input_bar: PanelRect { x: w - 59, y: 0, width: 59, height: 2 },
        moves: PanelRect { x: w - 23, y: h - 21, width: 23, height: 12 },
        stats: PanelRect { x: 0, y: h - 21, width: 24, height: 19 },
        species: PanelRect { x: w - 23, y: h - 9, width: 23, height: 7 },
    }
}

/// A top-bar title row: a left corner, a run of horizontal bars, the
/// label, one bar, and the right corner, 59 characters in all.
pub fn top_title_row(label: &str) -> (r: String)
    requires
        label@.len() <= 56,
    ensures
        r@ == "\u{250c}"@ + repeated("\u{2500}"@, (56 - label@.len()) as nat) + label@
            + "\u{2500}\u{2510}"@,
        r@.len() == 59,
{
    proof {
        reveal_strlit("\u{250c}");
        reveal_strlit("\u{2500}");
        reveal_strlit("");
        reveal_strlit("\u{2500}\u{2510}");
        lemma_repeated_len("\u{2500}"@, (56 - label@.len()) as nat);
    }
    let n = label.unicode_len();
    let mut s = fill_row("\u{250c}", "\u{2500}", "", 56 - n);
    s.append(label);
    s.append("\u{2500}\u{2510}");
    proof {
        assert(s@ =~= "\u{250c}"@ + repeated("\u{2500}"@, (56 - label@.len()) as nat) + label@
            + "\u{2500}\u{2510}"@);
    }
    s
}

/// The top bar title shown in lookup mode.
pub fn lookup_title_write(w: u16) -> (t: TextWrite)
    requires
        w >= 59,
    ensures
        t.x == w - 59 && t.y == 0 && t.text@.len() == 59,
{
    proof {
        reveal_strlit("Enter\u{2500}Pokemon");
    }
    TextWrite { x: w - 59, y: 0, text: top_title_row("Enter\u{2500}Pokemon") }
}

/// The top bar title shown in control mode.
pub fn control_title_write(w: u16) -> (t: TextWrite)
    requires
        w >= 59,
    ensures
        t.x == w - 59 && t.y == 0 && t.text@.len() == 59,
{
    proof {
        reveal_strlit("UI\u{2500}Control\u{2500}Mode");
    }
    TextWrite { x: w - 59, y: 0, text: top_title_row("UI\u{2500}Control\u{2500}Mode") }
}

/// The write that clears the input row under the top bar title.
pub fn input_clear_write(w: u16) -> (t: TextWrite)
    requires
        w >= 59,
    ensures
        t.x == w - 59 && t.y == 1 && t.text@.len() == 59,
        t.text@ == "\u{2502}"@ + repeated(" "@, 57) + "\u{2502}"@,
{
    proof {
        reveal_strlit("\u{2502}");
        reveal_strlit(" ");
        lemma_repeated_len(" "@, 57);
    }
    TextWrite { x: w - 59, y: 1, text: fill_row("\u{2502}", " ", "\u{2502}", 57) }
}

/// The shape of the full menu redraw: three bordered panels drawn row by
/// row, and the two top-bar rows, so that every cell of every panel is
/// repainted.
pub open spec fn menu_shape(ws: Seq<TextWrite>, w: int, h: int) -> bool {
    &&& ws.len() == 46
    &&& row_block(ws, 0, w - 23, h - 21, 23, 12)
    &&& row_block(ws, 12, 0, h - 21, 24, 19)
    &&& row_block(ws, 31, w - 23, h - 9, 23, 7)
    &&& row_block(ws, 44, w - 59, 0, 59, 2)
}

/// The writes of the full menu: the moves, stats and species panel
/// frames with their titles and field labels, the lookup-mode top bar,
/// and a cleared input row.
pub fn main_menu_writes(w: u16, h: u16) -> (ws: Vec<TextWrite>)
    requires
        w >= 59,
        h >= 23,
    ensures
        menu_shape(ws@, w as int, h as int),
        ws@[38].x == w - 23 && ws@[38].y == h - 21 && ws@[38].text@.len() == 23,
        ws@[39].x == w - 23 && ws@[39].y == h - 20 && ws@[39].text@ == moves_title_of(1),
        ws@[40].x == 0 && ws@[40].y == h - 21 && ws@[40].text@.len() == 24,
        ws@[41].x == w - 23 && ws@[41].y == h - 9 && ws@[41].text@.len() == 23,
        ws@[42].x == w - 23 && ws@[42].y == h - 7 && ws@[42].text@.len() == 23,
        ws@[43].x == w - 23 && ws@[43].y == h - 5 && ws@[43].text@.len() == 23,
{
    proof {
        reveal_strlit("\u{250c}\u{2500}\u{2500}\u{2500}Change\u{2500}Page\u{2500}\u{2500}\u{25c4} \u{25ba}\u{2500}\u{2500}\u{2510}");
        reveal_strlit("\u{250c}\u{2500}\u{2500}\u{2500}\u{2500}\u{2500}\u{2500}\u{2500}\u{2500}Stats\u{2500}\u{2500}\u{2500}\u{2500}\u{2500}\u{2500}\u{2500}\u{2500}\u{2500}\u{2510}");
        reveal_strlit("\u{250c}\u{2500}\u{2500}\u{2500}\u{2500}\u{2500}\u{2500}\u{2500}Species\u{2500}\u{2500}\u{2500}\u{2500}\u{2500}\u{2500}\u{2500}\u{2510}");
        reveal_strlit("\u{2502} Name:");
        reveal_strlit("\u{2502} ID:");
        reveal_strlit("\u{2502}");
        reveal_strlit(" ");
        reveal_strlit("\u{251c}\u{2500}\u{2500}\u{2500}\u{2500}\u{2500}\u{2500}\u{2500}Moves\u{2500}");
        reveal_strlit("\u{2500}\u{2500}\u{2500}\u{2500}\u{2500}\u{2500}\u{2500}\u{2524}");
        lemma_repeated_len(" "@, 15);
        lemma_repeated_len(" "@, 17);
    }
    let mut ws = box_writes(w - 23, h - 21, 23, 12);
    let mut b2 = box_writes(0, h - 21, 24, 19);
    let ghost g2 = b2@;
    ws.append(&mut b2);
    let mut b3 = box_writes(w - 23, h - 9, 23, 7);
    let ghost g3 = b3@;
    ws.append(&mut b3);
    proof {
        assert(ws@.len() == 38);
        assert forall|k: int| 0 <= k < 19 implies #[trigger] ws@[12 + k] == g2[0 + k] by {
            assert(ws@[12 + k] == g2[k]);
        }
        assert forall|k: int| 0 <= k < 7 implies #[trigger] ws@[31 + k] == g3[0 + k] by {
            assert(ws@[31 + k] == g3[k]);
        }
        assert(row_block(ws@, 0, w - 23, h - 21, 23, 12));
        assert(row_block(ws@, 12, 0, h - 21, 24, 19));
        assert(row_block(ws@, 31, w - 23, h - 9, 23, 7));
    }
    let ghost base = ws@;
    ws.push(
        TextWrite {
            x: w - 23,
            y: h - 21,
            text: "\u{250c}\u{2500}\u{2500}\u{2500}Change\u{2500}Page\u{2500}\u{2500}\u{25c4} \u{25ba}\u{2500}\u{2500}\u{2510}".to_owned(),
        },
    );
    ws.push(TextWrite { x: w - 23, y: h - 20, text: moves_title_row(1) });
    ws.push(
        TextWrite {
            x: 0,
            y: h - 21,
            text: "\u{250c}\u{2500}\u{2500}\u{2500}\u{2500}\u{2500}\u{2500}\u{2500}\u{2500}Stats\u{2500}\u{2500}\u{2500}\u{2500}\u{2500}\u{2500}\u{2500}\u{2500}\u{2500}\u{2510}".to_owned(),
        },
    );
    ws.push(
        TextWrite {
            x: w - 23,
            y: h - 9,
            text: "\u{250c}\u{2500}\u{2500}\u{2500}\u{2500}\u{2500}\u{2500}\u{2500}Species\u{2500}\u{2500}\u{2500}\u{2500}\u{2500}\u{2500}\u{2500}\u{2510}".to_owned(),
        },
    );
    ws.push(TextWrite { x: w - 23, y: h - 7, text: fill_row("\u{2502} Name:", " ", "\u{2502}", 15) });
    ws.push(TextWrite { x: w - 23, y: h - 5, text: fill_row("\u{2502} ID:", " ", "\u{2502}", 17) });
    ws.push(lookup_title_write(w));
    ws.push(input_clear_write(w));
    proof {
        assert(ws@.len() == 46);
        assert(forall|i: int| 0 <= i < 38 ==> #[trigger] ws@[i] == base[i]);
        assert(row_block(ws@, 0, w - 23, h - 21, 23, 12));
        assert(row_block(ws@, 12, 0, h - 21, 24, 19));
        assert(row_block(ws@, 31, w - 23, h - 9, 23, 7));
        assert forall|k: int| 0 <= k < 2 implies (#[trigger] ws@[44 + k]).x == w - 59 && ws@[44
            + k].y == 0 + k && ws@[44 + k].text@.len() == 59 by {
            if k == 0 {
                assert(ws@[44].text@.len() == 59);
            } else {
                assert(ws@[45].text@.len() == 59);
            }
        }
        assert(row_block(ws@, 44, w - 59, 0, 59, 2));
    }
    ws
}

/// Redrawing the menu over any prior screen leaves no residual characters
/// inside any of the four panels: every cell of every panel rectangle is
/// repainted, so two screens agree there afterwards whatever they held.
pub proof fn lemma_menu_no_residual(
    s1: Map<(int, int), char>,
    s2: Map<(int, int), char>,
    ws: Seq<TextWrite>,
    w: int,
    h: int,
    x: int,
    y: int,
)
    requires
        menu_shape(ws, w, h),
        (w - 23 <= x < w && h - 21 <= y < h - 9) || (0 <= x < 24 && h - 21 <= y < h - 2) || (w - 23
            <= x < w && h - 9 <= y < h - 2) || (w - 59 <= x < w && 0 <= y < 2),
    ensures
        cell_after(s1, ws, x, y) == cell_after(s2, ws, x, y),
{
    if w - 23 <= x < w && h - 21 <= y < h - 9 {
        lemma_row_block_covers(ws, 0, w - 23, h - 21, 23, 12, x, y);
    } else if 0 <= x < 24 && h - 21 <= y < h - 2 {
        lemma_row_block_covers(ws, 12, 0, h - 21, 24, 19, x, y);
    } else if w - 23 <= x < w && h - 9 <= y < h - 2 {
        lemma_row_block_covers(ws, 31, w - 23, h - 9, 23, 7, x, y);
    } else {
        lemma_row_block_covers(ws, 44, w - 59, 0, 59, 2, x, y);
    }
    lemma_covered_cell_independent(s1, s2, ws, x, y);
}

/// The writes of one rendered moves page: the title row carrying the page
/// number, then the three visible moves, each blank-padded before its
/// values are written.
pub fn moves_page_writes(
    w: u16,
    h: u16,
    moves: &Vec<MoveEntry>,
    page: u64,
    i1: usize,
    i2: usize,
    i3: usize,
) -> (ws: Vec<TextWrite>)
    requires
        w >= 23,
        h >= 23,
        i1 < moves@.len(),
        i2 < moves@.len(),
        i3 < moves@.len(),
    ensures
        ws@.len() == 13,
        ws@[0].x == w - 23 && ws@[0].y == h - 20 && ws@[0].text@ == moves_title_of(page as nat),
        move_info_writes_rel(
            ws@.subrange(1, 5),
            w as int,
            h as int,
            18,
            moves@[i1 as int].name@,
            moves@[i1 as int].learn_method@,
            moves@[i1 as int].level_learned_at as nat,
        ),
        move_info_writes_rel(
            ws@.subrange(5, 9),
            w as int,
            h as int,
            15,
            moves@[i2 as int].name@,
            moves@[i2 as int].learn_method@,
            moves@[i2 as int].level_learned_at as nat,
        ),
        move_info_writes_rel(
            ws@.subrange(9, 13),
            w as int,
            h as int,
            12,
            moves@[i3 as int].name@,
            moves@[i3 as int].learn_method@,
            moves@[i3 as int].level_learned_at as nat,
        ),
{
    let mut ws: Vec<TextWrite> = Vec::new();
    ws.push(TextWrite { x: w - 23, y: h - 20, text: moves_title_row(page) });
    let mut m1 = print_move_info(w, h, 18, moves[i1].name.as_str(), &moves[i1]);
    let ghost g1 = m1@;
    ws.append(&mut m1);
    let mut m2 = print_move_info(w, h, 15, moves[i2].name.as_str(), &moves[i2]);
    let ghost g2 = m2@;
    ws.append(&mut m2);
    let mut m3 = print_move_info(w, h, 12, moves[i3].name.as_str(), &moves[i3]);
    let ghost g3 = m3@;
    ws.append(&mut m3);
    proof {
        assert(ws@.subrange(1, 5) =~= g1);
        assert(ws@.subrange(5, 9) =~= g2);
        assert(ws@.subrange(9, 13) =~= g3);
    }
    ws
}

/// The length of `n` concatenated copies of a piece.
pub proof fn lemma_repeated_len(piece: Seq<char>, n: nat)
    ensures
        repeated(piece, n).len() == n * piece.len(),
    decreases n,
{
    if n == 0 {
        assert(n * piece.len() == 0) by (nonlinear_arith)
            requires n == 0,
        ;
    } else {
        lemma_repeated_len(piece, (n - 1) as nat);
        assert((n - 1) * piece.len() + piece.len() == n * piece.len()) by (nonlinear_arith);
    }
}

} // verus!
