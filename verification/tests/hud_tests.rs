use tomb_of_the_moon::draw::{Color, Command, Draw, Point};
use tomb_of_the_moon::hud::{draw_tooltips, draw_ui, NamedPosition, Vitals};

fn text_at(d: &Draw) -> (i32, i32, Color, Color, String) {
    match d {
        Command::PrintColor { x, y, fg, bg, text } => (*x, *y, *fg, *bg, text.clone()),
        other => panic!("not a text: {:?}", other),
    }
}

fn named(name: &str, x: i32, y: i32) -> NamedPosition {
    NamedPosition { name: name.to_string(), x, y }
}

#[test]
fn tooltip_outside_map_draws_nothing() {
    let entities = vec![named("Orc", 90, 5)];
    assert!(draw_tooltips(80, 43, true, &entities, Point { x: 90, y: 5 }).is_empty());
    assert!(draw_tooltips(80, 43, true, &entities, Point { x: 5, y: 43 }).is_empty());
}

#[test]
fn tooltip_of_unseen_or_empty_cell_draws_nothing() {
    let entities = vec![named("Orc", 10, 5)];
    assert!(draw_tooltips(80, 43, false, &entities, Point { x: 10, y: 5 }).is_empty());
    assert!(draw_tooltips(80, 43, true, &entities, Point { x: 11, y: 5 }).is_empty());
}

#[test]
fn tooltip_right_of_mouse() {
    let entities = vec![named("Orc", 10, 5), named("Rat", 3, 3), named("Goblin King", 10, 5)];
    let screen = draw_tooltips(80, 43, true, &entities, Point { x: 10, y: 5 });
    // width 11 + 3 = 14; "Orc" gets 10 blanks, "Goblin King" 2, then the arrow.
    assert_eq!(screen.len(), 1 + 10 + 1 + 2 + 1);
    assert_eq!(text_at(&screen[0]), (14, 5, Color::White, Color::Grey, "Orc".to_string()));
    assert_eq!(text_at(&screen[1]), (12, 5, Color::White, Color::Grey, " ".to_string()));
    assert_eq!(text_at(&screen[10]), (21, 5, Color::White, Color::Grey, " ".to_string()));
    assert_eq!(text_at(&screen[11]), (14, 6, Color::White, Color::Grey, "Goblin King".to_string()));
    assert_eq!(text_at(&screen[13]).0, 13);
    assert_eq!(text_at(&screen[14]), (11, 5, Color::White, Color::Grey, "<-".to_string()));
}

#[test]
fn tooltip_left_of_mouse() {
    let entities = vec![named("Orc", 50, 7)];
    let screen = draw_tooltips(80, 43, true, &entities, Point { x: 50, y: 7 });
    // width 3 + 3 = 6: the name at 50 - 6, two blanks leftwards from 48, the arrow at 48.
    assert_eq!(screen.len(), 1 + 2 + 1);
    assert_eq!(text_at(&screen[0]), (44, 7, Color::White, Color::Grey, "Orc".to_string()));
    assert_eq!(text_at(&screen[1]).0, 48);
    assert_eq!(text_at(&screen[2]).0, 47);
    assert_eq!(text_at(&screen[3]), (48, 7, Color::White, Color::Grey, "->".to_string()));
}

#[test]
fn tooltip_width_counts_bytes() {
    // "Café" is four characters and five bytes.
    let entities = vec![named("Café", 41, 2)];
    let screen = draw_tooltips(80, 43, true, &entities, Point { x: 41, y: 2 });
    assert_eq!(text_at(&screen[0]).0, 41 - 8);
    assert_eq!(screen.len(), 1 + 2 + 1);
}

#[test]
fn status_panel() {
    let players = vec![Vitals { hp: 10, max_hp: 30 }];
    let log: Vec<String> = ["one", "two", "three", "four", "five", "six"].iter().map(|s| s.to_string()).collect();
    let screen = draw_ui(&players, 3, &log, Point { x: 5, y: 5 }, 80, 43, true, &vec![]);
    assert_eq!(screen.len(), 2 + 2 + 2 + 5 + 1);
    match &screen[0] {
        Command::FillRegion { x1: 0, y1: 43, x2: 79, y2: 49, glyph, fg, bg } => {
            assert_eq!(*glyph, 32);
            assert_eq!((*fg, *bg), (Color::Panel, Color::Panel));
        }
        other => panic!("{:?}", other),
    }
    match &screen[1] {
        Command::DrawHollowBox { x: 0, y: 43, width: 79, height: 6, fg, bg } => {
            assert_eq!((*fg, *bg), (Color::Black, Color::Panel))
        }
        other => panic!("{:?}", other),
    }
    match &screen[2] {
        Command::DrawBarHorizontal { x: 39, y: 44, width: 20, n: 10, max: 30, fg, bg } => {
            assert_eq!((*fg, *bg), (Color::Red, Color::Panel))
        }
        other => panic!("{:?}", other),
    }
    assert_eq!(text_at(&screen[3]), (39, 45, Color::White, Color::Panel, "HP: 10/30".to_string()));
    assert_eq!(text_at(&screen[4]), (39, 47, Color::White, Color::Panel, "Depth: 3".to_string()));
    match &screen[5] {
        Command::FillRegion { x1: 2, y1: 44, x2: 38, y2: 49, glyph: 32, fg, bg } => {
            assert_eq!((*fg, *bg), (Color::White, Color::Black))
        }
        other => panic!("{:?}", other),
    }
    assert_eq!(text_at(&screen[6]), (2, 44, Color::White, Color::Black, "six".to_string()));
    assert_eq!(text_at(&screen[10]), (2, 48, Color::White, Color::Black, "two".to_string()));
    match &screen[11] {
        Command::SetBg { x: 5, y: 5, bg } => assert_eq!(*bg, Color::White),
        other => panic!("{:?}", other),
    }
}

#[test]
fn status_panel_with_short_log_and_tooltip() {
    let players = vec![Vitals { hp: -4, max_hp: 16 }];
    let log = vec!["You hit.".to_string()];
    let entities = vec![named("Bat", 20, 20)];
    let screen = draw_ui(&players, 12, &log, Point { x: 20, y: 20 }, 80, 43, true, &entities);
    assert_eq!(text_at(&screen[3]).4, "HP: -4/16");
    assert_eq!(text_at(&screen[4]).4, "Depth: 12");
    assert_eq!(text_at(&screen[6]), (2, 44, Color::White, Color::Black, "You hit.".to_string()));
    // the tooltip follows the mouse cursor: name, two blanks, arrow
    assert_eq!(screen.len(), 8 + 4);
    assert_eq!(text_at(&screen[8]).4, "Bat");
    assert_eq!(text_at(&screen[11]).4, "<-");
}

#[test]
fn status_panel_without_players() {
    let screen = draw_ui(&vec![], 1, &vec![], Point { x: 0, y: 0 }, 80, 43, false, &vec![]);
    assert_eq!(screen.len(), 2 + 2 + 1);
}
