//! The menus of the game: the main menu, the game-over screen, the three item
//! menus and the targeting cursor. Each computes, from what the player sees and the
//! key or click of this frame, the commands that draw the menu and the menu's answer.

use crate::draw::{drawn, emit, print_color, print_color_centered, Color, Command, Draw, DrawView, Point};
use crate::outside::{cp437, same_entity, to_cp437};
use specs::Entity;
use vstd::prelude::*;

verus! {

/// The entries of the main menu.
#[derive(PartialEq, Eq, Copy, Clone, Debug, Structural)]
pub enum MainMenuSelection {
    NewGame,
    LoadGame,
    Quit,
}

/// What the main menu answers: the highlighted entry, and whether it was chosen.
#[derive(PartialEq, Eq, Copy, Clone, Debug, Structural)]
pub enum MainMenuResult {
    NoSelection { selected: MainMenuSelection },
    Selected { selected: MainMenuSelection },
}

/// What an item menu or the targeting cursor answers.
#[derive(PartialEq, Eq, Copy, Clone, Debug, Structural)]
pub enum ItemMenuResult {
    Cancel,
    NoResponse,
    Selected,
}

/// What the game-over screen answers.
#[derive(PartialEq, Eq, Copy, Clone, Debug, Structural)]
pub enum GameOverResult {
    NoSelection,
    QuitToMenu,
}

/// A key pressed in this frame, as far as the menus tell keys apart. `Letter(i)` is
/// the letter key that the terminal's `letter_to_option` numbers `i` (A is 0, Z is 25).
#[derive(PartialEq, Eq, Copy, Clone, Debug, Structural)]
pub enum Key {
    Escape,
    Up,
    Down,
    Return,
    Letter(i32),
    Other,
}

/// The number that `letter_to_option` gives a key: its letter's place, or -1.
pub open spec fn letter_option(key: Key) -> int {
    match key {
        Key::Letter(i) => i as int,
        _ => -1,
    }
}

// ---------------------------------------------------------------- main menu

/// The entry above `s`, wrapping from the first to the last.
pub open spec fn entry_above(s: MainMenuSelection) -> MainMenuSelection {
    match s {
        MainMenuSelection::NewGame => MainMenuSelection::Quit,
        MainMenuSelection::LoadGame => MainMenuSelection::NewGame,
        MainMenuSelection::Quit => MainMenuSelection::LoadGame,
    }
}

/// The entry below `s`, wrapping from the last to the first.
pub open spec fn entry_below(s: MainMenuSelection) -> MainMenuSelection {
    match s {
        MainMenuSelection::NewGame => MainMenuSelection::LoadGame,
        MainMenuSelection::LoadGame => MainMenuSelection::Quit,
        MainMenuSelection::Quit => MainMenuSelection::NewGame,
    }
}

/// The entry a move lands on: `target`, or `skip_to` where `target` is "Load Game"
/// and there is no saved game to load.
pub open spec fn land_on(
    target: MainMenuSelection,
    skip_to: MainMenuSelection,
    save_exists: bool,
) -> MainMenuSelection {
    if target == MainMenuSelection::LoadGame && !save_exists {
        skip_to
    } else {
        target
    }
}

/// The answer of the main menu with `selection` highlighted, after `key`.
pub open spec fn menu_after_key(
    selection: MainMenuSelection,
    save_exists: bool,
    key: Option<Key>,
) -> MainMenuResult {
    match key {
        None => MainMenuResult::NoSelection { selected: selection },
        Some(Key::Escape) => MainMenuResult::NoSelection { selected: MainMenuSelection::Quit },
        Some(Key::Up) => MainMenuResult::NoSelection {
            selected: land_on(entry_above(selection), MainMenuSelection::NewGame, save_exists),
        },
        Some(Key::Down) => MainMenuResult::NoSelection {
            selected: land_on(entry_below(selection), MainMenuSelection::Quit, save_exists),
        },
        Some(Key::Return) => MainMenuResult::Selected { selected: selection },
        Some(_) => MainMenuResult::NoSelection { selected: selection },
    }
}

/// The answer of the main menu. `current` is the highlighted entry where the game is
/// in its main-menu state, and `None` where it is not.
pub open spec fn main_menu_outcome(
    current: Option<MainMenuSelection>,
    save_exists: bool,
    key: Option<Key>,
) -> MainMenuResult {
    match current {
        Some(selection) => menu_after_key(selection, save_exists, key),
        None => MainMenuResult::NoSelection { selected: MainMenuSelection::NewGame },
    }
}

/// The entry that a main-menu answer highlights or chooses.
pub open spec fn chosen_entry(r: MainMenuResult) -> MainMenuSelection {
    match r {
        MainMenuResult::NoSelection { selected } => selected,
        MainMenuResult::Selected { selected } => selected,
    }
}

/// Cyan for the highlighted entry, white for the others.
pub open spec fn entry_color(highlighted: bool) -> Color {
    if highlighted {
        Color::Cyan
    } else {
        Color::White
    }
}

/// What the main menu draws.
pub open spec fn main_menu_screen(
    current: Option<MainMenuSelection>,
    save_exists: bool,
) -> Seq<DrawView> {
    let title = Command::PrintColorCentered {
        y: 15,
        fg: Color::Yellow,
        bg: Color::Black,
        text: "Tomb Of The Moon"@,
    };
    match current {
        None => seq![title],
        Some(s) => seq![
            title,
            Command::PrintColorCentered {
                y: 24,
                fg: entry_color(s == MainMenuSelection::NewGame),
                bg: Color::Black,
                text: "Begin New Game"@,
            },
            if s == MainMenuSelection::LoadGame {
                Command::PrintColorCentered { y: 25, fg: Color::Cyan, bg: Color::Black, text: "Load Game"@ }
            } else if !save_exists {
                Command::PrintColorCentered {
                    y: 25,
                    fg: Color::Gray,
                    bg: Color::Black,
                    text: "Load Game [NO SAVE FILE!]"@,
                }
            } else {
                Command::PrintColorCentered { y: 25, fg: Color::White, bg: Color::Black, text: "Load Game"@ }
            },
            Command::PrintColorCentered {
                y: 26,
                fg: entry_color(s == MainMenuSelection::Quit),
                bg: Color::Black,
                text: "Quit"@,
            },
        ],
    }
}

/// One frame of the main menu: draws the title and, in the main-menu state, the three
/// entries, and answers the key. `current` is the highlighted entry of the game's
/// main-menu state (`None` in any other state); `save_exists` tells whether a saved
/// game can be loaded.
pub fn main_menu(
    current: Option<MainMenuSelection>,
    save_exists: bool,
    key: Option<Key>,
) -> (r: (MainMenuResult, Vec<Draw>))
    ensures
        r.0 == main_menu_outcome(current, save_exists, key),
        drawn(r.1@) == main_menu_screen(current, save_exists),
{
    let mut screen: Vec<Draw> = Vec::new();
    emit(&mut screen, print_color_centered(15, Color::Yellow, Color::Black, "Tomb Of The Moon"));
    let selection = match current {
        None => {
            assert(drawn(screen@) =~= main_menu_screen(current, save_exists));
            return (MainMenuResult::NoSelection { selected: MainMenuSelection::NewGame }, screen);
        },
        Some(s) => s,
    };
    if selection == MainMenuSelection::NewGame {
        emit(&mut screen, print_color_centered(24, Color::Cyan, Color::Black, "Begin New Game"));
    } else {
        emit(&mut screen, print_color_centered(24, Color::White, Color::Black, "Begin New Game"));
    }
    if selection == MainMenuSelection::LoadGame {
        emit(&mut screen, print_color_centered(25, Color::Cyan, Color::Black, "Load Game"));
    } else {
        if !save_exists {
            emit(
                &mut screen,
                print_color_centered(25, Color::Gray, Color::Black, "Load Game [NO SAVE FILE!]"),
            );
        } else {
            emit(&mut screen, print_color_centered(25, Color::White, Color::Black, "Load Game"));
        }
    }
    if selection == MainMenuSelection::Quit {
        emit(&mut screen, print_color_centered(26, Color::Cyan, Color::Black, "Quit"));
    } else {
        emit(&mut screen, print_color_centered(26, Color::White, Color::Black, "Quit"));
    }
    assert(drawn(screen@) =~= main_menu_screen(current, save_exists));
    let result = match key {
        None => MainMenuResult::NoSelection { selected: selection },
        Some(k) => match k {
            Key::Escape => MainMenuResult::NoSelection { selected: MainMenuSelection::Quit },
            Key::Up => {
                let mut next = match selection {
                    MainMenuSelection::NewGame => MainMenuSelection::Quit,
                    MainMenuSelection::LoadGame => MainMenuSelection::NewGame,
                    MainMenuSelection::Quit => MainMenuSelection::LoadGame,
                };
                if next == MainMenuSelection::LoadGame && !save_exists {
                    next = MainMenuSelection::NewGame;
                }
                MainMenuResult::NoSelection { selected: next }
            },
            Key::Down => {
                let mut next = match selection {
                    MainMenuSelection::NewGame => MainMenuSelection::LoadGame,
                    MainMenuSelection::LoadGame => MainMenuSelection::Quit,
                    MainMenuSelection::Quit => MainMenuSelection::NewGame,
                };
                if next == MainMenuSelection::LoadGame && !save_exists {
                    next = MainMenuSelection::Quit;
                }
                MainMenuResult::NoSelection { selected: next }
            },
            Key::Return => MainMenuResult::Selected { selected: selection },
            _ => MainMenuResult::NoSelection { selected: selection },
        },
    };
    (result, screen)
}

/// Moving up and then down leads back to the entry one started on, and so does moving
/// down and then up, wherever one starts on an entry that can be highlighted: with a
/// saved game on any entry, without one on any entry but "Load Game".
pub proof fn law_up_down_inverse(s: MainMenuSelection, save_exists: bool)
    requires
        save_exists || s != MainMenuSelection::LoadGame,
    ensures
        chosen_entry(
            menu_after_key(
                chosen_entry(menu_after_key(s, save_exists, Some(Key::Up))),
                save_exists,
                Some(Key::Down),
            ),
        ) == s,
        chosen_entry(
            menu_after_key(
                chosen_entry(menu_after_key(s, save_exists, Some(Key::Down))),
                save_exists,
                Some(Key::Up),
            ),
        ) == s,
{
}

/// With a saved game, three moves down (or three moves up) go once round the menu.
pub proof fn law_three_moves_go_round(s: MainMenuSelection)
    ensures
        chosen_entry(
            menu_after_key(
                chosen_entry(
                    menu_after_key(
                        chosen_entry(menu_after_key(s, true, Some(Key::Down))),
                        true,
                        Some(Key::Down),
                    ),
                ),
                true,
                Some(Key::Down),
            ),
        ) == s,
        chosen_entry(
            menu_after_key(
                chosen_entry(
                    menu_after_key(
                        chosen_entry(menu_after_key(s, true, Some(Key::Up))),
                        true,
                        Some(Key::Up),
                    ),
                ),
                true,
                Some(Key::Up),
            ),
        ) == s,
{
}

/// Without a saved game, no move up or down lands on "Load Game".
pub proof fn law_no_load_without_save(s: MainMenuSelection, key: Key)
    requires
        key == Key::Up || key == Key::Down,
    ensures
        chosen_entry(menu_after_key(s, false, Some(key))) != MainMenuSelection::LoadGame,
{
}

/// Only Return chooses, and it chooses the highlighted entry; Escape highlights "Quit";
/// a frame without a key, or with a key that the menu does not use, changes nothing.
pub proof fn law_menu_keys(s: MainMenuSelection, save_exists: bool, key: Option<Key>)
    ensures
        (menu_after_key(s, save_exists, key) is Selected) <==> key == Some(Key::Return),
        key == Some(Key::Return) ==> chosen_entry(menu_after_key(s, save_exists, key)) == s,
        key == Some(Key::Escape) ==> menu_after_key(s, save_exists, key)
            == (MainMenuResult::NoSelection { selected: MainMenuSelection::Quit }),
        (key is None || key == Some(Key::Other) || key matches Some(Key::Letter(_)))
            ==> menu_after_key(s, save_exists, key) == (MainMenuResult::NoSelection { selected: s }),
{
}

/// Whether `c` is a line of text centred on row `row`, reading `text`.
pub open spec fn centered_line(c: DrawView, row: int, text: Seq<char>) -> bool {
    c matches Command::PrintColorCentered { y, text: t, .. } && y == row && t == text
}

/// Whether `c` is a line of text centred on its row and drawn in cyan.
pub open spec fn cyan_line(c: DrawView) -> bool {
    c matches Command::PrintColorCentered { fg, .. } && fg == Color::Cyan
}

/// In the main-menu state the menu draws the title and then "Begin New Game" on row 24,
/// the "Load Game" entry on row 25 and "Quit" on row 26, and exactly one of these lines
/// is cyan: the highlighted entry's.
pub proof fn law_one_entry_highlighted(s: MainMenuSelection, save_exists: bool)
    ensures
        main_menu_screen(Some(s), save_exists).len() == 4,
        !cyan_line(main_menu_screen(Some(s), save_exists)[0]),
        centered_line(main_menu_screen(Some(s), save_exists)[1], 24, "Begin New Game"@),
        main_menu_screen(Some(s), save_exists)[2] matches Command::PrintColorCentered { y, .. } && y == 25,
        centered_line(main_menu_screen(Some(s), save_exists)[3], 26, "Quit"@),
        cyan_line(main_menu_screen(Some(s), save_exists)[1]) <==> s == MainMenuSelection::NewGame,
        cyan_line(main_menu_screen(Some(s), save_exists)[2]) <==> s == MainMenuSelection::LoadGame,
        cyan_line(main_menu_screen(Some(s), save_exists)[3]) <==> s == MainMenuSelection::Quit,
{
}

// ---------------------------------------------------------------- game over

/// The answer of the game-over screen: any key leads back to the menu.
pub open spec fn game_over_outcome(key: Option<Key>) -> GameOverResult {
    match key {
        None => GameOverResult::NoSelection,
        Some(_) => GameOverResult::QuitToMenu,
    }
}

/// What the game-over screen draws.
pub open spec fn game_over_screen() -> Seq<DrawView> {
    seq![
        Command::PrintColorCentered { y: 15, fg: Color::Yellow, bg: Color::Black, text: "You Died!"@ },
        Command::PrintColorCentered {
            y: 17,
            fg: Color::White,
            bg: Color::Black,
            text: "Now your corpse will roten in the darkness."@,
        },
        Command::PrintColorCentered {
            y: 19,
            fg: Color::Red,
            bg: Color::Black,
            text: "The future is still gloom and doom..."@,
        },
        Command::PrintColorCentered {
            y: 21,
            fg: Color::Cyan,
            bg: Color::Black,
            text: "Press any key to return to the menu."@,
        },
    ]
}

/// The game-over screen waits for a key, and any key at all leads back to the menu.
pub proof fn law_game_over_any_key(key: Option<Key>)
    ensures
        key is None <==> game_over_outcome(key) == GameOverResult::NoSelection,
        key is Some <==> game_over_outcome(key) == GameOverResult::QuitToMenu,
{
}

/// One frame of the game-over screen.
pub fn game_over(key: Option<Key>) -> (r: (GameOverResult, Vec<Draw>))
    ensures
        r.0 == game_over_outcome(key),
        drawn(r.1@) == game_over_screen(),
{
    let mut screen: Vec<Draw> = Vec::new();
    emit(&mut screen, print_color_centered(15, Color::Yellow, Color::Black, "You Died!"));
    emit(
        &mut screen,
        print_color_centered(17, Color::White, Color::Black, "Now your corpse will roten in the darkness."),
    );
    emit(
        &mut screen,
        print_color_centered(19, Color::Red, Color::Black, "The future is still gloom and doom..."),
    );
    emit(
        &mut screen,
        print_color_centered(21, Color::Cyan, Color::Black, "Press any key to return to the menu."),
    );
    assert(drawn(screen@) =~= game_over_screen());
    let result = match key {
        None => GameOverResult::NoSelection,
        Some(_) => GameOverResult::QuitToMenu,
    };
    (result, screen)
}

} // verus!

verus! {

// ---------------------------------------------------------------- item menus

/// An item that some entity carries (in its backpack, or equipped), with its name.
pub struct OwnedItem {
    pub item: Entity,
    pub owner: Entity,
    pub name: String,
}

/// The entries that `player` owns, in their order.
pub open spec fn owned_by(entries: Seq<OwnedItem>, player: Entity) -> Seq<OwnedItem>
    decreases entries.len(),
{
    if entries.len() == 0 {
        Seq::empty()
    } else {
        let rest = owned_by(entries.drop_last(), player);
        if entries.last().owner == player {
            rest.push(entries.last())
        } else {
            rest
        }
    }
}

/// The answer of an item menu that lists `items`: Escape cancels, the letter of a
/// listed item chooses that item, anything else leaves the menu open.
pub open spec fn item_menu_outcome(items: Seq<OwnedItem>, key: Option<Key>) -> (
    ItemMenuResult,
    Option<Entity>,
) {
    match key {
        None => (ItemMenuResult::NoResponse, None),
        Some(Key::Escape) => (ItemMenuResult::Cancel, None),
        Some(k) => if 0 <= letter_option(k) < items.len() {
            (ItemMenuResult::Selected, Some(items[letter_option(k)].item))
        } else {
            (ItemMenuResult::NoResponse, None)
        },
    }
}

/// What an item menu answers: nothing without a key; Escape cancels; the letter of place
/// `i` (A is 0) chooses the `i`-th listed item where at least `i + 1` are listed; every
/// other key (Return, Up, Down, a letter past the list, any other key) leaves the menu
/// open. So an item is chosen only by its own letter, and `i` may be any letter place.
pub proof fn law_item_menu_keys(items: Seq<OwnedItem>, key: Option<Key>, i: i32)
    ensures
        key is None ==> item_menu_outcome(items, key) == (ItemMenuResult::NoResponse, None::<Entity>),
        key == Some(Key::Escape) ==> item_menu_outcome(items, key) == (ItemMenuResult::Cancel, None::<Entity>),
        (key matches Some(k) && !(k is Letter) && k != Key::Escape) ==> item_menu_outcome(items, key) == (
            ItemMenuResult::NoResponse,
            None::<Entity>,
        ),
        key == Some(Key::Letter(i)) && 0 <= i < items.len() ==> item_menu_outcome(items, key) == (
            ItemMenuResult::Selected,
            Some(items[i as int].item),
        ),
        key == Some(Key::Letter(i)) && !(0 <= i < items.len()) ==> item_menu_outcome(items, key) == (
            ItemMenuResult::NoResponse,
            None::<Entity>,
        ),
        item_menu_outcome(items, key).0 == ItemMenuResult::Selected ==> exists|j: i32|
            key == Some(Key::Letter(j)) && 0 <= j < items.len() && item_menu_outcome(items, key).1 == Some(
                #[trigger] items[j as int].item,
            ),
        item_menu_outcome(items, key).0 != ItemMenuResult::Selected ==> item_menu_outcome(items, key).1 is None,
{
    if let Some(Key::Letter(j)) = key {
        if 0 <= j < items.len() {
            assert(items[j as int].item == items[j as int].item);
        }
    }
}

/// The row on which the first of `count` listed items stands.
pub open spec fn first_row(count: int) -> int {
    25 - count / 2
}

/// The row of item `j`: its letter in brackets, then its name.
pub open spec fn item_row(j: int, y: int, name: Seq<char>, colored: bool) -> Seq<DrawView> {
    seq![
        Command::SetGlyph { x: 17, y: y as i32, fg: Color::White, bg: Color::Black, glyph: cp437('[') },
        Command::SetGlyph { x: 18, y: y as i32, fg: Color::Yellow, bg: Color::Black, glyph: (97 + j) as u16 },
        Command::SetGlyph { x: 19, y: y as i32, fg: Color::White, bg: Color::Black, glyph: cp437(']') },
        if colored {
            Command::PrintColor { x: 21, y: y as i32, fg: Color::White, bg: Color::Black, text: name }
        } else {
            Command::Print { x: 21, y: y as i32, text: name }
        },
    ]
}

/// The rows of `items`, the first on row `top`.
pub open spec fn item_rows(items: Seq<OwnedItem>, top: int, colored: bool) -> Seq<DrawView>
    decreases items.len(),
{
    if items.len() == 0 {
        Seq::empty()
    } else {
        item_rows(items.drop_last(), top, colored) + item_row(
            items.len() - 1,
            top + items.len() - 1,
            items.last().name@,
            colored,
        )
    }
}

/// What an item menu with `title` draws: a box, the title, the hint, and one row per item.
pub open spec fn item_menu_screen(title: Seq<char>, items: Seq<OwnedItem>, colored: bool) -> Seq<
    DrawView,
> {
    let n = items.len() as int;
    let top = first_row(n);
    seq![
        Command::DrawBox {
            x: 15,
            y: (top - 2) as i32,
            width: 31,
            height: (n + 3) as i32,
            fg: Color::Black,
            bg: Color::Panel,
        },
        Command::PrintColor { x: 18, y: (top - 2) as i32, fg: Color::Yellow, bg: Color::Panel, text: title },
        Command::PrintColor {
            x: 18,
            y: (top + n + 1) as i32,
            fg: Color::Yellow,
            bg: Color::Panel,
            text: "ESC to cancel"@,
        },
    ] + item_rows(items, top, colored)
}

proof fn lemma_item_rows(items: Seq<OwnedItem>, top: int, colored: bool)
    ensures
        item_rows(items, top, colored).len() == 4 * items.len(),
        forall|j: int, m: int|
            0 <= j < items.len() && 0 <= m < 4 ==> #[trigger] item_rows(items, top, colored)[4 * j + m]
                == item_row(j, top + j, items[j].name@, colored)[m],
    decreases items.len(),
{
    if items.len() > 0 {
        let rest = items.drop_last();
        lemma_item_rows(rest, top, colored);
        let n = items.len() - 1;
        assert forall|j: int, m: int|
            0 <= j < items.len() && 0 <= m < 4 implies #[trigger] item_rows(items, top, colored)[4 * j + m]
                == item_row(j, top + j, items[j].name@, colored)[m] by {
            if j < n {
                assert(rest[j] == items[j]);
                assert(item_rows(rest, top, colored)[4 * j + m] == item_row(j, top + j, rest[j].name@, colored)[m]);
            }
        }
    }
}

/// An item menu lists its items one per row, the first on row 25 less half their
/// number, under its box, title and hint: the row of the `j`-th item shows the `j`-th
/// letter (`a` for the first) in yellow at column 18 and the item's name at column 21;
/// and that letter is the key that chooses the item.
pub proof fn law_item_menu_rows(title: Seq<char>, items: Seq<OwnedItem>, colored: bool, j: int)
    requires
        0 <= j < items.len(),
        items.len() <= 51,
    ensures
        item_menu_screen(title, items, colored).len() == 3 + 4 * items.len(),
        item_menu_screen(title, items, colored)[3 + 4 * j + 1] == (Command::<Seq<char>>::SetGlyph {
            x: 18,
            y: (25 - items.len() / 2 + j) as i32,
            fg: Color::Yellow,
            bg: Color::Black,
            glyph: (97 + j) as u16,
        }),
        item_menu_screen(title, items, colored)[3 + 4 * j + 3] matches Command::Print { x, y, text }
            ==> x == 21 && y == 25 - items.len() / 2 + j && text == items[j].name@,
        item_menu_screen(title, items, colored)[3 + 4 * j + 3] matches Command::PrintColor { x, y, text, .. }
            ==> x == 21 && y == 25 - items.len() / 2 + j && text == items[j].name@,
        colored <==> item_menu_screen(title, items, colored)[3 + 4 * j + 3] is PrintColor,
        !colored <==> item_menu_screen(title, items, colored)[3 + 4 * j + 3] is Print,
        item_menu_outcome(items, Some(Key::Letter(j as i32))) == (ItemMenuResult::Selected, Some(items[j].item)),
{
    let top = first_row(items.len() as int);
    lemma_item_rows(items, top, colored);
    let rows = item_rows(items, top, colored);
    let screen = item_menu_screen(title, items, colored);
    assert(screen[3 + 4 * j + 1] == rows[4 * j + 1]);
    assert(screen[3 + 4 * j + 3] == rows[4 * j + 3]);
}

/// The places in `entries` of the items that `player` owns.
fn owned_places(player: &Entity, entries: &Vec<OwnedItem>) -> (places: Vec<usize>)
    ensures
        forall|k: int| 0 <= k < places@.len() ==> places@[k] < entries@.len(),
        places@.map_values(|j: usize| entries@[j as int]) == owned_by(entries@, *player),
{
    let mut places: Vec<usize> = Vec::new();
    let n = entries.len();
    for i in 0..n
        invariant
            n == entries@.len(),
            forall|k: int| 0 <= k < places@.len() ==> places@[k] < i,
            places@.map_values(|j: usize| entries@[j as int]) == owned_by(entries@.take(i as int), *player),
    {
        let ghost before = places@;
        if same_entity(&entries[i].owner, player) {
            places.push(i);
        }
        proof {
            assert(entries@.take(i + 1).drop_last() =~= entries@.take(i as int));
            assert(entries@.take(i + 1).last() == entries@[i as int]);
            if entries@[i as int].owner == *player {
                assert(places@.map_values(|j: usize| entries@[j as int]) =~= before.map_values(
                    |j: usize| entries@[j as int],
                ).push(entries@[i as int]));
            } else {
                assert(places@ == before);
            }
        }
    }
    assert(entries@.take(n as int) =~= entries@);
    places
}

/// One frame of an item menu listing what `player` owns among `entries`.
fn item_menu(
    title: &str,
    colored: bool,
    player: Entity,
    entries: &Vec<OwnedItem>,
    key: Option<Key>,
) -> (r: (ItemMenuResult, Option<Entity>, Vec<Draw>))
    requires
        owned_by(entries@, player).len() <= 51,
    ensures
        (r.0, r.1) == item_menu_outcome(owned_by(entries@, player), key),
        drawn(r.2@) == item_menu_screen(title@, owned_by(entries@, player), colored),
{
    let places = owned_places(&player, entries);
    let ghost items = owned_by(entries@, player);
    let count = places.len();
    assert(places@.map_values(|j: usize| entries@[j as int]).len() == count);
    let top: i32 = (25 - count / 2) as i32;
    let mut screen: Vec<Draw> = Vec::new();
    emit(
        &mut screen,
        Command::DrawBox {
            x: 15,
            y: top - 2,
            width: 31,
            height: (count + 3) as i32,
            fg: Color::Black,
            bg: Color::Panel,
        },
    );
    emit(&mut screen, print_color(18, top - 2, Color::Yellow, Color::Panel, title));
    emit(
        &mut screen,
        print_color(18, top + count as i32 + 1, Color::Yellow, Color::Panel, "ESC to cancel"),
    );
    let ghost header = drawn(screen@);
    for j in 0..count
        invariant
            count == places@.len(),
            count <= 51,
            top == first_row(count as int),
            items == owned_by(entries@, player),
            items == places@.map_values(|p: usize| entries@[p as int]),
            forall|k: int| 0 <= k < places@.len() ==> places@[k] < entries@.len(),
            drawn(screen@) == header + item_rows(items.take(j as int), top as int, colored),
    {
        let entry = &entries[places[j]];
        let y = top + j as i32;
        let open = to_cp437('[');
        emit(
            &mut screen,
            Command::SetGlyph { x: 17, y, fg: Color::White, bg: Color::Black, glyph: open },
        );
        emit(
            &mut screen,
            Command::SetGlyph {
                x: 18,
                y,
                fg: Color::Yellow,
                bg: Color::Black,
                glyph: 97 + j as u16,
            },
        );
        let close = to_cp437(']');
        emit(
            &mut screen,
            Command::SetGlyph { x: 19, y, fg: Color::White, bg: Color::Black, glyph: close },
        );
        if colored {
            emit(
                &mut screen,
                print_color(21, y, Color::White, Color::Black, entry.name.as_str()),
            );
        } else {
            emit(
                &mut screen,
                Command::Print { x: 21, y, text: String::from_str(entry.name.as_str()) },
            );
        }
        proof {
            let t = items.take(j + 1);
            assert(t.drop_last() =~= items.take(j as int));
            assert(t.last() == items[j as int]);
            assert(items[j as int] == entries@[places@[j as int] as int]);
            assert(item_rows(t, top as int, colored) == item_rows(items.take(j as int), top as int, colored)
                + item_row(j as int, top + j, entries@[places@[j as int] as int].name@, colored));
            assert(drawn(screen@) =~= header + item_rows(t, top as int, colored));
        }
    }
    assert(items.take(count as int) =~= items);
    assert(drawn(screen@) =~= item_menu_screen(title@, items, colored));
    match key {
        None => (ItemMenuResult::NoResponse, None, screen),
        Some(k) => match k {
            Key::Escape => (ItemMenuResult::Cancel, None, screen),
            _ => {
                let selection: i32 = match k {
                    Key::Letter(i) => i,
                    _ => -1,
                };
                if selection > -1 && selection < count as i32 {
                    let chosen = entries[places[selection as usize]].item;
                    return (ItemMenuResult::Selected, Some(chosen), screen);
                }
                (ItemMenuResult::NoResponse, None, screen)
            },
        },
    }
}

/// One frame of the inventory: lists what the player carries in its backpack
/// (`entries` are the backpack entries of every owner) and answers the key.
pub fn show_inventory(player: Entity, entries: &Vec<OwnedItem>, key: Option<Key>) -> (r: (
    ItemMenuResult,
    Option<Entity>,
    Vec<Draw>,
))
    requires
        owned_by(entries@, player).len() <= 51,
    ensures
        (r.0, r.1) == item_menu_outcome(owned_by(entries@, player), key),
        drawn(r.2@) == item_menu_screen("Inventory"@, owned_by(entries@, player), true),
{
    item_menu("Inventory", true, player, entries, key)
}

/// One frame of the menu that asks which carried item to drop.
pub fn drop_item_menu(player: Entity, entries: &Vec<OwnedItem>, key: Option<Key>) -> (r: (
    ItemMenuResult,
    Option<Entity>,
    Vec<Draw>,
))
    requires
        owned_by(entries@, player).len() <= 51,
    ensures
        (r.0, r.1) == item_menu_outcome(owned_by(entries@, player), key),
        drawn(r.2@) == item_menu_screen("Drop Which Item?"@, owned_by(entries@, player), false),
{
    item_menu("Drop Which Item?", false, player, entries, key)
}

/// One frame of the menu that asks which equipped item to take off (`entries` are the
/// equipped items of every owner).
pub fn remove_item_menu(player: Entity, entries: &Vec<OwnedItem>, key: Option<Key>) -> (r: (
    ItemMenuResult,
    Option<Entity>,
    Vec<Draw>,
))
    requires
        owned_by(entries@, player).len() <= 51,
    ensures
        (r.0, r.1) == item_menu_outcome(owned_by(entries@, player), key),
        drawn(r.2@) == item_menu_screen("Remove Which Item?"@, owned_by(entries@, player), false),
{
    item_menu("Remove Which Item?", false, player, entries, key)
}

} // verus!

verus! {

// ---------------------------------------------------------------- targeting

/// The cells a list of targets stands for, where there is a list.
pub open spec fn targets_view(targets: Option<Vec<Point>>) -> Option<Seq<Point>> {
    match targets {
        Some(v) => Some(v@),
        None => None,
    }
}

/// The blue background that marks a target cell.
pub open spec fn target_mark(p: Point) -> DrawView {
    Command::SetBg { x: p.x, y: p.y, bg: Color::Blue }
}

/// The answer of the targeting cursor. `targets` are the cells in range that the
/// player sees (`None` where the player has no field of view): a click on one of
/// them chooses it, a click elsewhere cancels, no click leaves the cursor open.
pub open spec fn ranged_target_outcome(targets: Option<Seq<Point>>, mouse: Point, left_click: bool) -> (
    ItemMenuResult,
    Option<Point>,
) {
    match targets {
        None => (ItemMenuResult::Cancel, None),
        Some(t) => if left_click {
            if t.contains(mouse) {
                (ItemMenuResult::Selected, Some(mouse))
            } else {
                (ItemMenuResult::Cancel, None)
            }
        } else {
            (ItemMenuResult::NoResponse, None)
        },
    }
}

/// What the targeting cursor draws: the prompt, every target cell in blue, and the
/// mouse cell in cyan where it is a target and in red where it is not.
pub open spec fn ranged_target_screen(targets: Option<Seq<Point>>, mouse: Point) -> Seq<DrawView> {
    let prompt = Command::PrintColor {
        x: 5,
        y: 0,
        fg: Color::Yellow,
        bg: Color::Black,
        text: "Select Target:"@,
    };
    match targets {
        None => seq![prompt],
        Some(t) => seq![prompt] + t.map_values(|p: Point| target_mark(p)) + seq![
            Command::SetBg {
                x: mouse.x,
                y: mouse.y,
                bg: if t.contains(mouse) {
                    Color::Cyan
                } else {
                    Color::Red
                },
            },
        ],
    }
}

/// One frame of the targeting cursor. `targets` are the cells of the player's field of
/// view within the range of the item being aimed, in the order of the field of view,
/// and `None` where the player has no field of view; `mouse` is the cell under the
/// mouse and `left_click` tells whether the left button was clicked.
pub fn ranged_target(targets: Option<Vec<Point>>, mouse: Point, left_click: bool) -> (r: (
    ItemMenuResult,
    Option<Point>,
    Vec<Draw>,
))
    ensures
        (r.0, r.1) == ranged_target_outcome(targets_view(targets), mouse, left_click),
        drawn(r.2@) == ranged_target_screen(targets_view(targets), mouse),
{
    let ghost tv = targets_view(targets);
    let mut screen: Vec<Draw> = Vec::new();
    emit(&mut screen, print_color(5, 0, Color::Yellow, Color::Black, "Select Target:"));
    let available = match targets {
        Some(v) => v,
        None => {
            assert(drawn(screen@) =~= ranged_target_screen(tv, mouse));
            return (ItemMenuResult::Cancel, None, screen);
        },
    };
    let ghost t = available@;
    let ghost prompt = drawn(screen@);
    let n = available.len();
    for i in 0..n
        invariant
            n == t.len(),
            t == available@,
            drawn(screen@) == prompt + t.take(i as int).map_values(
                |p: Point| target_mark(p),
            ),
    {
        let p = available[i];
        emit(&mut screen, Command::SetBg { x: p.x, y: p.y, bg: Color::Blue });
        assert(t.take(i + 1) =~= t.take(i as int).push(p));
        assert(t.take(i + 1).map_values(|p: Point| target_mark(p))
            =~= t.take(i as int).map_values(|p: Point| target_mark(p)).push(target_mark(p)));
    }
    assert(t.take(n as int) =~= t);
    let mut valid_target = false;
    for i in 0..n
        invariant
            n == t.len(),
            t == available@,
            valid_target == (exists|k: int| 0 <= k < i && t[k] == mouse),
    {
        if available[i].x == mouse.x && available[i].y == mouse.y {
            valid_target = true;
        }
        assert(available[i as int] == mouse <==> (available[i as int].x == mouse.x
            && available[i as int].y == mouse.y));
    }
    assert(valid_target == t.contains(mouse));
    if valid_target {
        emit(&mut screen, Command::SetBg { x: mouse.x, y: mouse.y, bg: Color::Cyan });
    } else {
        emit(&mut screen, Command::SetBg { x: mouse.x, y: mouse.y, bg: Color::Red });
    }
    assert(drawn(screen@) =~= ranged_target_screen(tv, mouse));
    if valid_target {
        if left_click {
            return (ItemMenuResult::Selected, Some(Point { x: mouse.x, y: mouse.y }), screen);
        }
    } else {
        if left_click {
            return (ItemMenuResult::Cancel, None, screen);
        }
    }
    (ItemMenuResult::NoResponse, None, screen)
}


/// More target cells never lose a choice: where a click with the targets `fewer` chooses
/// a cell, it chooses the same cell with any targets `more` that hold every cell of
/// `fewer` (as the targets of a wider range hold those of a narrower one).
pub proof fn law_more_targets_keep_choice(fewer: Seq<Point>, more: Seq<Point>, mouse: Point, left_click: bool)
    requires
        forall|p: Point| fewer.contains(p) ==> more.contains(p),
        ranged_target_outcome(Some(fewer), mouse, left_click).0 == ItemMenuResult::Selected,
    ensures
        ranged_target_outcome(Some(more), mouse, left_click) == ranged_target_outcome(Some(fewer), mouse, left_click),
{
}

/// What the targeting cursor answers: without a field of view it cancels; with one,
/// it stays open (no response) until a click, wherever the mouse rests; a click on a
/// target cell chooses that cell, and a click anywhere else cancels.
pub proof fn law_targeting_answers(targets: Seq<Point>, mouse: Point, left_click: bool)
    ensures
        ranged_target_outcome(None, mouse, left_click) == (ItemMenuResult::Cancel, None::<Point>),
        !left_click ==> ranged_target_outcome(Some(targets), mouse, left_click) == (
            ItemMenuResult::NoResponse,
            None::<Point>,
        ),
        left_click && targets.contains(mouse) ==> ranged_target_outcome(Some(targets), mouse, left_click) == (
            ItemMenuResult::Selected,
            Some(mouse),
        ),
        left_click && !targets.contains(mouse) ==> ranged_target_outcome(Some(targets), mouse, left_click)
            == (ItemMenuResult::Cancel, None::<Point>),
        ranged_target_outcome(Some(targets), mouse, left_click).0 == ItemMenuResult::Selected ==> left_click
            && targets.contains(mouse),
{
}

} // verus!
