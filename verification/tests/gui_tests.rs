use specs::{Builder, Entity, World, WorldExt};
use tomb_of_the_moon::draw::{Color, Command, Draw, Point};
use tomb_of_the_moon::gui::MainMenuSelection::{LoadGame, NewGame, Quit};
use tomb_of_the_moon::gui::{
    drop_item_menu, game_over, main_menu, ranged_target, remove_item_menu, show_inventory,
    GameOverResult, ItemMenuResult, Key, MainMenuResult, MainMenuSelection, OwnedItem,
};

fn centered(d: &Draw) -> (i32, Color, String) {
    match d {
        Command::PrintColorCentered { y, fg, text, .. } => (*y, *fg, text.clone()),
        other => panic!("not a centred text: {:?}", other),
    }
}

fn selected_after(start: MainMenuSelection, save: bool, key: Key) -> MainMenuSelection {
    match main_menu(Some(start), save, Some(key)).0 {
        MainMenuResult::NoSelection { selected } => selected,
        MainMenuResult::Selected { selected } => selected,
    }
}

#[test]
fn main_menu_outside_menu_state_shows_title_only() {
    let (result, screen) = main_menu(None, true, Some(Key::Return));
    assert_eq!(result, MainMenuResult::NoSelection { selected: MainMenuSelection::NewGame });
    assert_eq!(screen.len(), 1);
    assert_eq!(centered(&screen[0]), (15, Color::Yellow, "Tomb Of The Moon".to_string()));
}

#[test]
fn main_menu_highlights_selection() {
    let (_, screen) = main_menu(Some(MainMenuSelection::Quit), true, None);
    assert_eq!(screen.len(), 4);
    assert_eq!(centered(&screen[1]), (24, Color::White, "Begin New Game".to_string()));
    assert_eq!(centered(&screen[2]), (25, Color::White, "Load Game".to_string()));
    assert_eq!(centered(&screen[3]), (26, Color::Cyan, "Quit".to_string()));
}

#[test]
fn main_menu_marks_missing_save() {
    let (_, screen) = main_menu(Some(MainMenuSelection::NewGame), false, None);
    assert_eq!(centered(&screen[1]), (24, Color::Cyan, "Begin New Game".to_string()));
    assert_eq!(centered(&screen[2]), (25, Color::Gray, "Load Game [NO SAVE FILE!]".to_string()));
    let (_, screen) = main_menu(Some(MainMenuSelection::LoadGame), false, None);
    assert_eq!(centered(&screen[2]), (25, Color::Cyan, "Load Game".to_string()));
}

#[test]
fn main_menu_no_key_keeps_selection() {
    let (result, _) = main_menu(Some(MainMenuSelection::LoadGame), true, None);
    assert_eq!(result, MainMenuResult::NoSelection { selected: MainMenuSelection::LoadGame });
}

#[test]
fn main_menu_moves_with_save() {
    assert_eq!(selected_after(NewGame, true, Key::Down), LoadGame);
    assert_eq!(selected_after(LoadGame, true, Key::Down), Quit);
    assert_eq!(selected_after(Quit, true, Key::Down), NewGame);
    assert_eq!(selected_after(NewGame, true, Key::Up), Quit);
    assert_eq!(selected_after(Quit, true, Key::Up), LoadGame);
    assert_eq!(selected_after(LoadGame, true, Key::Up), NewGame);
}

#[test]
fn main_menu_skips_load_without_save() {
    assert_eq!(selected_after(NewGame, false, Key::Down), Quit);
    assert_eq!(selected_after(Quit, false, Key::Up), NewGame);
    assert_eq!(selected_after(Quit, false, Key::Down), NewGame);
    assert_eq!(selected_after(NewGame, false, Key::Up), Quit);
}

#[test]
fn main_menu_up_then_down_returns() {
    for save in [true, false] {
        for s in [NewGame, LoadGame, Quit] {
            if !save && s == LoadGame {
                continue;
            }
            assert_eq!(selected_after(selected_after(s, save, Key::Up), save, Key::Down), s);
            assert_eq!(selected_after(selected_after(s, save, Key::Down), save, Key::Up), s);
        }
    }
}

#[test]
fn main_menu_three_downs_go_round() {
    for s in [NewGame, LoadGame, Quit] {
        let once = selected_after(s, true, Key::Down);
        let twice = selected_after(once, true, Key::Down);
        assert_eq!(selected_after(twice, true, Key::Down), s);
    }
}

#[test]
fn main_menu_return_chooses_and_escape_quits() {
    let (result, _) = main_menu(Some(MainMenuSelection::LoadGame), true, Some(Key::Return));
    assert_eq!(result, MainMenuResult::Selected { selected: MainMenuSelection::LoadGame });
    let (result, _) = main_menu(Some(MainMenuSelection::NewGame), true, Some(Key::Escape));
    assert_eq!(result, MainMenuResult::NoSelection { selected: MainMenuSelection::Quit });
    let (result, _) = main_menu(Some(MainMenuSelection::NewGame), true, Some(Key::Letter(3)));
    assert_eq!(result, MainMenuResult::NoSelection { selected: MainMenuSelection::NewGame });
}

#[test]
fn game_over_waits_for_a_key() {
    let (result, screen) = game_over(None);
    assert_eq!(result, GameOverResult::NoSelection);
    assert_eq!(screen.len(), 4);
    assert_eq!(centered(&screen[0]), (15, Color::Yellow, "You Died!".to_string()));
    assert_eq!(
        centered(&screen[3]),
        (21, Color::Cyan, "Press any key to return to the menu.".to_string())
    );
    assert_eq!(game_over(Some(Key::Other)).0, GameOverResult::QuitToMenu);
    assert_eq!(game_over(Some(Key::Letter(0))).0, GameOverResult::QuitToMenu);
}

struct Pack {
    player: Entity,
    dagger: Entity,
    rope: Entity,
    entries: Vec<OwnedItem>,
}

fn pack() -> Pack {
    let mut world = World::new();
    let player = world.create_entity().build();
    let other = world.create_entity().build();
    let dagger = world.create_entity().build();
    let gem = world.create_entity().build();
    let rope = world.create_entity().build();
    let entries = vec![
        OwnedItem { item: dagger, owner: player, name: "Dagger".to_string() },
        OwnedItem { item: gem, owner: other, name: "Gem".to_string() },
        OwnedItem { item: rope, owner: player, name: "Rope".to_string() },
    ];
    Pack { player, dagger, rope, entries }
}

#[test]
fn inventory_lists_only_the_players_items() {
    let p = pack();
    let (result, chosen, screen) = show_inventory(p.player, &p.entries, None);
    assert_eq!(result, ItemMenuResult::NoResponse);
    assert!(chosen.is_none());
    // box, title, hint, then four commands per item
    assert_eq!(screen.len(), 3 + 2 * 4);
    match &screen[0] {
        Command::DrawBox { x, y, width, height, fg, bg } => {
            assert_eq!((*x, *y, *width, *height), (15, 22, 31, 5));
            assert_eq!((*fg, *bg), (Color::Black, Color::Panel));
        }
        other => panic!("{:?}", other),
    }
    match &screen[1] {
        Command::PrintColor { x, y, text, .. } => assert_eq!((*x, *y, text.as_str()), (18, 22, "Inventory")),
        other => panic!("{:?}", other),
    }
    match &screen[2] {
        Command::PrintColor { x, y, text, .. } => assert_eq!((*x, *y, text.as_str()), (18, 27, "ESC to cancel")),
        other => panic!("{:?}", other),
    }
    match (&screen[3], &screen[4], &screen[5], &screen[6]) {
        (
            Command::SetGlyph { x: 17, y: 24, glyph: open, .. },
            Command::SetGlyph { x: 18, y: 24, glyph: letter, .. },
            Command::SetGlyph { x: 19, y: 24, glyph: close, .. },
            Command::PrintColor { x: 21, y: 24, text, .. },
        ) => {
            assert_eq!((*open, *letter, *close), (91, 97, 93));
            assert_eq!(text, "Dagger");
        }
        other => panic!("{:?}", other),
    }
    match (&screen[8], &screen[10]) {
        (Command::SetGlyph { y: 25, glyph: 98, .. }, Command::PrintColor { y: 25, text, .. }) => {
            assert_eq!(text, "Rope")
        }
        other => panic!("{:?}", other),
    }
}

#[test]
fn inventory_letter_chooses_item() {
    let p = pack();
    let (result, chosen, _) = show_inventory(p.player, &p.entries, Some(Key::Letter(0)));
    assert_eq!(result, ItemMenuResult::Selected);
    assert_eq!(chosen, Some(p.dagger));
    let (result, chosen, _) = show_inventory(p.player, &p.entries, Some(Key::Letter(1)));
    assert_eq!(result, ItemMenuResult::Selected);
    assert_eq!(chosen, Some(p.rope));
}

#[test]
fn inventory_letter_past_the_list_does_nothing() {
    let p = pack();
    let (result, chosen, _) = show_inventory(p.player, &p.entries, Some(Key::Letter(2)));
    assert_eq!(result, ItemMenuResult::NoResponse);
    assert!(chosen.is_none());
    let (result, _, _) = show_inventory(p.player, &p.entries, Some(Key::Up));
    assert_eq!(result, ItemMenuResult::NoResponse);
}

#[test]
fn inventory_escape_cancels() {
    let p = pack();
    let (result, chosen, _) = show_inventory(p.player, &p.entries, Some(Key::Escape));
    assert_eq!(result, ItemMenuResult::Cancel);
    assert!(chosen.is_none());
}

#[test]
fn drop_and_remove_menus_print_plain_names() {
    let p = pack();
    let (result, chosen, screen) = drop_item_menu(p.player, &p.entries, Some(Key::Letter(1)));
    assert_eq!((result, chosen), (ItemMenuResult::Selected, Some(p.rope)));
    match &screen[1] {
        Command::PrintColor { text, .. } => assert_eq!(text, "Drop Which Item?"),
        other => panic!("{:?}", other),
    }
    match &screen[6] {
        Command::Print { x: 21, y: 24, text } => assert_eq!(text, "Dagger"),
        other => panic!("{:?}", other),
    }
    let (result, _, screen) = remove_item_menu(p.player, &p.entries, Some(Key::Escape));
    assert_eq!(result, ItemMenuResult::Cancel);
    match &screen[1] {
        Command::PrintColor { text, .. } => assert_eq!(text, "Remove Which Item?"),
        other => panic!("{:?}", other),
    }
}

#[test]
fn empty_inventory_and_full_inventory() {
    let mut world = World::new();
    let player = world.create_entity().build();
    let (result, chosen, screen) = show_inventory(player, &vec![], Some(Key::Letter(0)));
    assert_eq!((result, chosen), (ItemMenuResult::NoResponse, None));
    assert_eq!(screen.len(), 3);
    let mut entries = Vec::new();
    for i in 0..51 {
        let item = world.create_entity().build();
        entries.push(OwnedItem { item, owner: player, name: format!("item {}", i) });
    }
    let (_, _, screen) = show_inventory(player, &entries, None);
    match &screen[0] {
        Command::DrawBox { y, height, .. } => assert_eq!((*y, *height), (-2, 54)),
        other => panic!("{:?}", other),
    }
    let (result, chosen, _) = show_inventory(player, &entries, Some(Key::Letter(25)));
    assert_eq!((result, chosen), (ItemMenuResult::Selected, Some(entries[25].item)));
}

fn targets() -> Vec<Point> {
    vec![Point { x: 1, y: 1 }, Point { x: 2, y: 1 }, Point { x: 3, y: 2 }]
}

#[test]
fn ranged_target_without_view_cancels() {
    let (result, chosen, screen) = ranged_target(None, Point { x: 1, y: 1 }, false);
    assert_eq!((result, chosen), (ItemMenuResult::Cancel, None));
    assert_eq!(screen.len(), 1);
    match &screen[0] {
        Command::PrintColor { x: 5, y: 0, fg, text, .. } => {
            assert_eq!(*fg, Color::Yellow);
            assert_eq!(text, "Select Target:");
        }
        other => panic!("{:?}", other),
    }
}

#[test]
fn ranged_target_click_on_target_selects_it() {
    let (result, chosen, screen) = ranged_target(Some(targets()), Point { x: 2, y: 1 }, true);
    assert_eq!((result, chosen), (ItemMenuResult::Selected, Some(Point { x: 2, y: 1 })));
    assert_eq!(screen.len(), 5);
    match &screen[2] {
        Command::SetBg { x: 2, y: 1, bg } => assert_eq!(*bg, Color::Blue),
        other => panic!("{:?}", other),
    }
    match &screen[4] {
        Command::SetBg { x: 2, y: 1, bg } => assert_eq!(*bg, Color::Cyan),
        other => panic!("{:?}", other),
    }
}

#[test]
fn ranged_target_click_elsewhere_cancels() {
    let (result, chosen, screen) = ranged_target(Some(targets()), Point { x: 9, y: 9 }, true);
    assert_eq!((result, chosen), (ItemMenuResult::Cancel, None));
    match &screen[4] {
        Command::SetBg { x: 9, y: 9, bg } => assert_eq!(*bg, Color::Red),
        other => panic!("{:?}", other),
    }
}

#[test]
fn ranged_target_without_click_waits() {
    let (result, chosen, _) = ranged_target(Some(targets()), Point { x: 3, y: 2 }, false);
    assert_eq!((result, chosen), (ItemMenuResult::NoResponse, None));
    let (result, chosen, _) = ranged_target(Some(vec![]), Point { x: 3, y: 2 }, false);
    assert_eq!((result, chosen), (ItemMenuResult::NoResponse, None));
}
