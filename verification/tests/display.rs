use termdex::record::{MoveEntry, StatEntry, StatLabel};
use termdex::render::{
    layout, main_menu_writes, moves_page_writes, moves_title_row, print_move_info, species_writes,
    stat_rows_writes, translate_stat, TextWrite,
};
use termdex::text::{blanks, str_eq, u64_to_string};

fn mv(name: &str, method: &str, level: u32) -> MoveEntry {
    MoveEntry {
        name: name.to_string(),
        learn_method: method.to_string(),
        level_learned_at: level,
        version_group: "red-blue".to_string(),
    }
}

/// A small character grid standing for the terminal screen.
struct Grid {
    cells: Vec<Vec<char>>,
}

impl Grid {
    fn new(w: usize, h: usize, fill: char) -> Grid {
        Grid { cells: vec![vec![fill; w]; h] }
    }

    fn apply(&mut self, writes: &[TextWrite]) {
        for wr in writes {
            for (i, ch) in wr.text.chars().enumerate() {
                self.cells[wr.y as usize][wr.x as usize + i] = ch;
            }
        }
    }

    fn row(&self, y: usize, x0: usize, x1: usize) -> String {
        self.cells[y][x0..x1].iter().collect()
    }
}

#[test]
fn u64_to_string_renders_decimal() {
    assert_eq!(u64_to_string(0), "0");
    assert_eq!(u64_to_string(7), "7");
    assert_eq!(u64_to_string(907), "907");
}

#[test]
fn blanks_are_spaces() {
    assert_eq!(blanks(5), "     ");
}

#[test]
fn str_eq_compares_characters() {
    assert!(str_eq("level-up", "level-up"));
    assert!(!str_eq("level-up", "machine"));
    assert!(!str_eq("ab", "abc"));
}

#[test]
fn moves_title_carries_page_number() {
    assert_eq!(moves_title_row(3), "├───────Moves─3───────┤");
    assert_eq!(moves_title_row(12), "├───────Moves─12───────┤");
}

#[test]
fn move_row_level_up() {
    let m = mv("thunderbolt", "level-up", 30);
    let ws = print_move_info(80, 24, 18, "thunderbolt", &m);
    assert_eq!(ws.len(), 4);
    assert_eq!((ws[0].x, ws[0].y), (58, 6));
    assert_eq!(ws[0].text, "                     ");
    assert_eq!((ws[1].x, ws[1].y), (60, 6));
    assert_eq!(ws[1].text, "thunderbolt: ");
    assert_eq!((ws[2].x, ws[2].y), (58, 5));
    assert_eq!(ws[2].text, "                     ");
    assert_eq!((ws[3].x, ws[3].y), (60, 5));
    assert_eq!(ws[3].text, "  Learn At: 30");
}

#[test]
fn move_row_other_method() {
    let m = mv("cut", "machine", 0);
    let ws = print_move_info(80, 24, 12, "cut", &m);
    assert_eq!(ws[3].text, "  machine");
}

#[test]
fn rerender_leaves_no_residual() {
    // Render a long move name, then a short one over it: the field must
    // show only the new name and blanks.
    let mut g = Grid::new(80, 24, '.');
    let a = print_move_info(80, 24, 18, "thunderbolt", &mv("thunderbolt", "level-up", 30));
    g.apply(&a);
    let b = print_move_info(80, 24, 18, "pound", &mv("pound", "machine", 0));
    g.apply(&b);
    // The cleared field spans columns 58..79 of the name row (row 6).
    assert_eq!(g.row(6, 58, 79), format!("  pound: {}", " ".repeat(12)));
    assert_eq!(g.row(5, 58, 79), format!("    machine{}", " ".repeat(10)));
}

#[test]
fn species_panel_fields() {
    let ws = species_writes(80, 24, "pikachu", 25);
    assert_eq!(ws.len(), 4);
    assert_eq!((ws[0].x, ws[0].y), (65, 17));
    assert_eq!(ws[0].text, "             ");
    assert_eq!(ws[1].text, "pikachu");
    assert_eq!((ws[2].x, ws[2].y), (65, 19));
    assert_eq!(ws[2].text, "    ");
    assert_eq!(ws[3].text, "25");
}

#[test]
fn stat_rows_list_all_stats() {
    let stats = vec![
        StatEntry { stat_key: "hp".to_string(), base_stat: 35 },
        StatEntry { stat_key: "speed".to_string(), base_stat: 90 },
    ];
    let labels = vec![
        StatLabel { key: "hp".to_string(), label: "HP".to_string() },
        StatLabel { key: "speed".to_string(), label: "Speed".to_string() },
    ];
    let ws = stat_rows_writes(24, &stats, &labels);
    assert_eq!(ws.len(), 8);
    assert_eq!((ws[0].x, ws[0].y), (2, 4));
    assert_eq!(ws[1].text, "Name: HP");
    assert_eq!((ws[2].x, ws[2].y), (2, 5));
    assert_eq!(ws[3].text, "Base Stat: 35");
    assert_eq!((ws[4].x, ws[4].y), (2, 7));
    assert_eq!(ws[5].text, "Name: Speed");
    assert_eq!(ws[7].text, "Base Stat: 90");
}

#[test]
fn unknown_stat_key_shows_raw_key() {
    let stats = vec![StatEntry { stat_key: "special-attack".to_string(), base_stat: 50 }];
    let labels: Vec<StatLabel> = Vec::new();
    let ws = stat_rows_writes(24, &stats, &labels);
    assert_eq!(ws[1].text, "Name: special-attack");
}

#[test]
fn translate_stat_finds_first_match() {
    let labels = vec![
        StatLabel { key: "hp".to_string(), label: "HP".to_string() },
        StatLabel { key: "hp".to_string(), label: "Hit Points".to_string() },
    ];
    assert_eq!(translate_stat("hp", &labels), Some("HP".to_string()));
    assert_eq!(translate_stat("attack", &labels), None);
}

#[test]
fn layout_table_positions() {
    let t = layout(80, 24);
    assert_eq!((t.input_bar.x, t.input_bar.y, t.input_bar.width, t.input_bar.height), (21, 0, 59, 2));
    assert_eq!((t.moves.x, t.moves.y, t.moves.width, t.moves.height), (57, 3, 23, 12));
    assert_eq!((t.stats.x, t.stats.y, t.stats.width, t.stats.height), (0, 3, 24, 19));
    assert_eq!((t.species.x, t.species.y, t.species.width, t.species.height), (57, 15, 23, 7));
}

#[test]
fn menu_covers_every_panel_cell() {
    let ws = main_menu_writes(80, 24);
    assert_eq!(ws.len(), 46);
    let mut g = Grid::new(80, 24, '.');
    g.apply(&ws);
    // No cell of any panel keeps the prior screen content.
    let t = layout(80, 24);
    for r in [t.input_bar, t.moves, t.stats, t.species] {
        for y in r.y..r.y + r.height {
            for x in r.x..r.x + r.width {
                assert_ne!(g.cells[y as usize][x as usize], '.');
            }
        }
    }
    // Spot checks of the frame content.
    assert_eq!(g.row(3, 57, 80), "┌───Change─Page──◄ ►──┐");
    assert_eq!(g.row(4, 57, 80), "├───────Moves─1───────┤");
    assert_eq!(g.row(3, 0, 24), "┌────────Stats─────────┐");
    assert_eq!(g.row(15, 57, 80), "┌───────Species───────┐");
    assert_eq!(g.row(17, 57, 80), "│ Name:               │");
    assert_eq!(g.row(19, 57, 80), "│ ID:                 │");
    assert_eq!(g.row(14, 57, 80), "└─────────────────────┘");
    assert_eq!(g.row(0, 21, 80), "┌───────────────────────────────────────────Enter─Pokemon─┐");
}

#[test]
fn moves_page_writes_compose_three_rows() {
    let moves = vec![
        mv("m0", "level-up", 1),
        mv("m1", "level-up", 2),
        mv("m2", "machine", 0),
        mv("m3", "level-up", 4),
    ];
    let ws = moves_page_writes(80, 24, &moves, 1, 1, 2, 3);
    assert_eq!(ws.len(), 13);
    assert_eq!((ws[0].x, ws[0].y), (57, 4));
    assert_eq!(ws[0].text, "├───────Moves─1───────┤");
    assert_eq!(ws[2].text, "m1: ");
    assert_eq!(ws[4].text, "  Learn At: 2");
    assert_eq!(ws[6].text, "m2: ");
    assert_eq!(ws[8].text, "  machine");
    assert_eq!(ws[10].text, "m3: ");
    assert_eq!(ws[12].text, "  Learn At: 4");
}
