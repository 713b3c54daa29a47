use termdex::input::{line_step, KeyInput, LineStep};
use termdex::mode::{Action, Session, SessionMode};
use termdex::pagination::{nearest_valid_page, visible_indices, PageState};
use termdex::record::{CatalogEntry, MoveEntry, Pokemon, StatEntry};
use termdex::resolver::{normalize_query, resolve, Resolution};

fn entry(name: &str, ident: &str) -> CatalogEntry {
    CatalogEntry { name: name.to_string(), ident: ident.to_string() }
}

fn catalog() -> Vec<CatalogEntry> {
    vec![entry("bulbasaur", "1"), entry("pikachu", "25"), entry("onix", "95")]
}

fn mv(name: &str, method: &str, level: u32) -> MoveEntry {
    MoveEntry {
        name: name.to_string(),
        learn_method: method.to_string(),
        level_learned_at: level,
        version_group: "red-blue".to_string(),
    }
}

fn record_with_moves(n: usize) -> Pokemon {
    let mut moves = Vec::new();
    for i in 0..n {
        moves.push(mv(&format!("move{}", i), "level-up", i as u32));
    }
    Pokemon {
        id: 25,
        name: "pikachu".to_string(),
        sprite: "sprite-url".to_string(),
        stats: vec![
            StatEntry { stat_key: "hp".to_string(), base_stat: 35 },
            StatEntry { stat_key: "speed".to_string(), base_stat: 90 },
        ],
        moves,
    }
}

#[test]
fn visible_indices_page_one() {
    assert_eq!(visible_indices(1, 0, 0, 0, 10), Ok((1, 2, 3)));
}

#[test]
fn visible_indices_page_two() {
    assert_eq!(visible_indices(2, 0, 0, 0, 10), Ok((4, 5, 6)));
}

#[test]
fn visible_indices_boundary_short_list() {
    // Page 1 needs index 3; a three-move list has none.
    assert!(visible_indices(1, 0, 0, 0, 3).is_err());
}

#[test]
fn visible_indices_boundary_page_two_of_four() {
    // Page 2 would need index 6 of a four-move list.
    assert!(visible_indices(2, 0, 0, 0, 4).is_err());
}

#[test]
fn visible_indices_with_offsets() {
    assert_eq!(visible_indices(1, -1, -1, -1, 3), Ok((0, 1, 2)));
}

#[test]
fn visible_indices_negative_is_boundary() {
    assert!(visible_indices(1, -2, 0, 0, 10).is_err());
}

#[test]
fn prev_page_never_below_one() {
    let mut p = PageState::new();
    p.prev_page();
    p.prev_page();
    assert_eq!(p.current_page, 1);
    p.next_page();
    p.next_page();
    p.prev_page();
    p.prev_page();
    p.prev_page();
    assert_eq!(p.current_page, 1);
}

#[test]
fn reset_clears_offsets() {
    let mut p = PageState { current_page: 7, offset1: 1, offset2: -1, offset3: 2 };
    p.reset();
    assert_eq!(p.current_page, 1);
    assert_eq!((p.offset1, p.offset2, p.offset3), (0, 0, 0));
}

#[test]
fn nearest_valid_page_clamps_down() {
    assert_eq!(nearest_valid_page(5, 10), Some(3));
}

#[test]
fn nearest_valid_page_keeps_valid_page() {
    assert_eq!(nearest_valid_page(2, 10), Some(2));
    assert_eq!(nearest_valid_page(7, 22), Some(7));
}

#[test]
fn nearest_valid_page_short_list() {
    assert_eq!(nearest_valid_page(1, 3), None);
}

#[test]
fn resolve_exact_name() {
    match resolve("pikachu", &catalog()) {
        Resolution::Match { name, ident } => {
            assert_eq!(name, "pikachu");
            assert_eq!(ident, "25");
        }
        Resolution::NoMatch => panic!("expected a match"),
    }
}

#[test]
fn resolve_is_case_insensitive() {
    match resolve("PIKACHU", &catalog()) {
        Resolution::Match { ident, .. } => assert_eq!(ident, "25"),
        Resolution::NoMatch => panic!("expected a match"),
    }
}

#[test]
fn resolve_fuzzy_query() {
    match resolve("pika", &catalog()) {
        Resolution::Match { ident, .. } => assert_eq!(ident, "25"),
        Resolution::NoMatch => panic!("expected a match"),
    }
}

#[test]
fn resolve_no_match_is_explicit() {
    match resolve("zzz", &catalog()) {
        Resolution::Match { .. } => panic!("expected no match"),
        Resolution::NoMatch => {}
    }
}

#[test]
fn resolve_tie_break_takes_earlier_entry() {
    let cat = vec![entry("abc", "first"), entry("abc", "second")];
    match resolve("abc", &cat) {
        Resolution::Match { ident, .. } => assert_eq!(ident, "first"),
        Resolution::NoMatch => panic!("expected a match"),
    }
}

#[test]
fn normalize_query_lowercases() {
    assert_eq!(normalize_query("PiKaChU"), "pikachu");
}

#[test]
fn fresh_session_is_lookup_page_one() {
    let s = Session::new();
    assert_eq!(s.mode, SessionMode::Lookup);
    assert_eq!(s.page.current_page, 1);
}

#[test]
fn quit_from_lookup_terminates() {
    // Scenario: "q" in lookup mode ends the session; the input loop then
    // restores the terminal.
    let mut s = Session::new();
    let a = s.handle_line("q", &catalog());
    assert!(matches!(a, Action::Quit));
    assert_eq!(s.mode, SessionMode::Terminated);
}

#[test]
fn quit_from_control_terminates() {
    let mut s = Session::new();
    s.handle_line("r", &catalog());
    let a = s.handle_line("q", &catalog());
    assert!(matches!(a, Action::Quit));
    assert_eq!(s.mode, SessionMode::Terminated);
}

#[test]
fn mode_round_trip_resets_page() {
    let mut s = Session::new();
    let a1 = s.handle_line("r", &catalog());
    assert!(matches!(a1, Action::EnterControl));
    assert_eq!(s.mode, SessionMode::Control);
    s.on_fetch(record_with_moves(10));
    s.handle_line("n", &catalog());
    assert_eq!(s.page.current_page, 2);
    let a2 = s.handle_line("search", &catalog());
    assert!(matches!(a2, Action::BackToLookup));
    assert_eq!(s.mode, SessionMode::Lookup);
    assert_eq!(s.page.current_page, 1);
}

#[test]
fn lookup_query_starts_fetch() {
    let mut s = Session::new();
    match s.handle_line("pikachu", &catalog()) {
        Action::Fetch { ident, display_name } => {
            assert_eq!(ident, "25");
            assert_eq!(display_name, "pikachu");
        }
        _ => panic!("expected a fetch"),
    }
    assert_eq!(s.mode, SessionMode::Lookup);
}

#[test]
fn lookup_no_match_is_reported() {
    let mut s = Session::new();
    let a = s.handle_line("zzz", &catalog());
    assert!(matches!(a, Action::NotFound));
    assert_eq!(s.mode, SessionMode::Lookup);
}

#[test]
fn next_page_boundary_keeps_page() {
    // Scenario: a four-move list on page 1; "n" would need index 6, so a
    // boundary is reported and the displayed page does not change.
    let mut s = Session::new();
    s.handle_line("pikachu", &catalog());
    s.on_fetch(record_with_moves(4));
    s.handle_line("r", &catalog());
    let a = s.handle_line("n", &catalog());
    assert!(matches!(a, Action::NoFurtherPages));
    assert_eq!(s.page.current_page, 1);
}

#[test]
fn next_page_advances_when_valid() {
    let mut s = Session::new();
    s.handle_line("pikachu", &catalog());
    s.on_fetch(record_with_moves(10));
    s.handle_line("r", &catalog());
    match s.handle_line("n", &catalog()) {
        Action::ShowPage { page, i1, i2, i3 } => {
            assert_eq!(page, 2);
            assert_eq!((i1, i2, i3), (4, 5, 6));
        }
        _ => panic!("expected a page"),
    }
    assert_eq!(s.page.current_page, 2);
}

#[test]
fn prev_page_refetches_and_clamps() {
    let mut s = Session::new();
    s.handle_line("pikachu", &catalog());
    s.on_fetch(record_with_moves(10));
    s.handle_line("r", &catalog());
    s.handle_line("n", &catalog());
    match s.handle_line("p", &catalog()) {
        Action::Refetch { ident, .. } => assert_eq!(ident, "25"),
        _ => panic!("expected a refetch"),
    }
    assert_eq!(s.page.current_page, 1);
    // A further "p" still re-fetches but the page stays clamped at 1.
    match s.handle_line("p", &catalog()) {
        Action::Refetch { .. } => {}
        _ => panic!("expected a refetch"),
    }
    assert_eq!(s.page.current_page, 1);
}

#[test]
fn control_unknown_input_is_ignored() {
    let mut s = Session::new();
    s.handle_line("r", &catalog());
    let a = s.handle_line("hello", &catalog());
    assert!(matches!(a, Action::Idle));
    assert_eq!(s.mode, SessionMode::Control);
}

#[test]
fn terminated_session_stays_terminated() {
    let mut s = Session::new();
    s.handle_line("q", &catalog());
    let a = s.handle_line("pikachu", &catalog());
    assert!(matches!(a, Action::Idle));
    assert_eq!(s.mode, SessionMode::Terminated);
}

#[test]
fn empty_query_never_yields_empty_identifier() {
    match resolve("", &catalog()) {
        Resolution::Match { ident, .. } => assert!(!ident.is_empty()),
        Resolution::NoMatch => {}
    }
}

#[test]
fn huge_page_is_clamped_or_boundary() {
    assert!(visible_indices(u64::MAX, 0, 0, 0, 10).is_err());
    assert_eq!(nearest_valid_page(u64::MAX, 10), Some(3));
}

#[test]
fn control_paging_without_record_is_ignored() {
    let mut s = Session::new();
    s.handle_line("r", &catalog());
    let a = s.handle_line("n", &catalog());
    assert!(matches!(a, Action::Idle));
    assert_eq!(s.page.current_page, 1);
}

#[test]
fn line_step_accumulates_until_enter() {
    let mut buf: Vec<char> = Vec::new();
    assert!(matches!(line_step(&mut buf, KeyInput::Char('h')), LineStep::Pending));
    assert!(matches!(line_step(&mut buf, KeyInput::Other), LineStep::Pending));
    assert!(matches!(line_step(&mut buf, KeyInput::Char('i')), LineStep::Pending));
    assert!(matches!(line_step(&mut buf, KeyInput::Enter), LineStep::Done));
    let line: String = buf.iter().collect();
    assert_eq!(line, "hi");
}

#[test]
fn displayed_page_clamps_after_refetch() {
    let mut s = Session::new();
    s.handle_line("pikachu", &catalog());
    s.on_fetch(record_with_moves(10));
    s.handle_line("r", &catalog());
    s.handle_line("n", &catalog());
    s.handle_line("n", &catalog());
    assert_eq!(s.page.current_page, 3);
    // The record shrinks on a re-fetch: the display clamps to page 1.
    s.on_fetch(record_with_moves(5));
    assert_eq!(s.displayed_page(), Some((1, 1, 2, 3)));
    // A record too short to page at all yields no page.
    s.on_fetch(record_with_moves(2));
    assert_eq!(s.displayed_page(), None);
}
