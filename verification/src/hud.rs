//! The status panel under the map, and the tooltip that names what stands under the
//! mouse.

use crate::draw::{drawn, emit, print_color, Color, Command, Draw, DrawView, Point};
use crate::outside::{cp437, to_cp437};
use crate::text::{decimal, int_decimal};
use vstd::prelude::*;
use vstd::utf8::encode_utf8;

verus! {

/// The hit points of an entity that the player controls.
#[derive(Clone, Copy, Debug, PartialEq, Eq, Structural)]
pub struct Vitals {
    pub hp: i32,
    pub max_hp: i32,
}

/// A named entity and the map cell on which it stands.
pub struct NamedPosition {
    pub name: String,
    pub x: i32,
    pub y: i32,
}

/// The number of bytes of a text in UTF-8, which is what `str::len` counts.
pub open spec fn byte_len(text: Seq<char>) -> int {
    encode_utf8(text).len() as int
}

// ---------------------------------------------------------------- tooltips

/// The names of the entities that stand on the mouse cell, in their order.
pub open spec fn names_at(named: Seq<NamedPosition>, mouse: Point) -> Seq<Seq<char>>
    decreases named.len(),
{
    if named.len() == 0 {
        Seq::empty()
    } else {
        let rest = names_at(named.drop_last(), mouse);
        if named.last().x == mouse.x && named.last().y == mouse.y {
            rest.push(named.last().name@)
        } else {
            rest
        }
    }
}

/// The byte length of the longest of `names`, 0 for none.
pub open spec fn widest(names: Seq<Seq<char>>) -> int
    decreases names.len(),
{
    if names.len() == 0 {
        0
    } else {
        let w = widest(names.drop_last());
        if w < byte_len(names.last()) {
            byte_len(names.last())
        } else {
            w
        }
    }
}

/// A tooltip text cell: white on grey.
pub open spec fn tip(x: int, y: int, text: Seq<char>) -> DrawView {
    Command::PrintColor { x: x as i32, y: y as i32, fg: Color::White, bg: Color::Grey, text }
}

/// Where the mouse is right of column 40 the tooltip stands to the left of the mouse.
pub open spec fn tip_on_left(mouse: Point) -> bool {
    mouse.x > 40
}

/// The line of tooltip `k`, `width` cells wide: the name, then blanks up to the arrow.
pub open spec fn tooltip_line(name: Seq<char>, k: int, width: int, mouse: Point) -> Seq<DrawView> {
    let y = mouse.y + k;
    let padding = width - byte_len(name) - 1;
    if tip_on_left(mouse) {
        seq![tip(mouse.x - width, y, name)] + Seq::new(
            padding as nat,
            |i: int| tip(mouse.x - 2 - i, y, " "@),
        )
    } else {
        seq![tip(mouse.x + 4, y, name)] + Seq::new(
            padding as nat,
            |i: int| tip(mouse.x + 2 + i, y, " "@),
        )
    }
}

/// The lines of the tooltips `names`, one under another.
pub open spec fn tooltip_lines(names: Seq<Seq<char>>, width: int, mouse: Point) -> Seq<DrawView>
    decreases names.len(),
{
    if names.len() == 0 {
        Seq::empty()
    } else {
        tooltip_lines(names.drop_last(), width, mouse) + tooltip_line(
            names.last(),
            names.len() - 1,
            width,
            mouse,
        )
    }
}

/// The arrow that points from the tooltip at the mouse.
pub open spec fn tooltip_arrow(mouse: Point) -> DrawView {
    if tip_on_left(mouse) {
        tip(mouse.x - 2, mouse.y as int, "->"@)
    } else {
        tip(mouse.x + 1, mouse.y as int, "<-"@)
    }
}

/// The names that the tooltip shows: those on the mouse cell where the player sees it.
pub open spec fn tooltip_names(mouse_visible: bool, named: Seq<NamedPosition>, mouse: Point) -> Seq<Seq<char>> {
    if mouse_visible {
        names_at(named, mouse)
    } else {
        Seq::empty()
    }
}

/// What the tooltip draws: nothing where the mouse is beyond the map's right or
/// bottom edge or where nothing it shows stands there, else one line per name, all as
/// wide as the longest name and three cells more, and the arrow.
pub open spec fn tooltip_screen(
    map_width: i32,
    map_height: i32,
    mouse_visible: bool,
    named: Seq<NamedPosition>,
    mouse: Point,
) -> Seq<DrawView> {
    let names = tooltip_names(mouse_visible, named, mouse);
    if mouse.x >= map_width || mouse.y >= map_height || names.len() == 0 {
        Seq::empty()
    } else {
        tooltip_lines(names, widest(names) + 3, mouse) + seq![tooltip_arrow(mouse)]
    }
}

/// The bounds under which the tooltip's columns and rows fit an `i32`: where the mouse
/// is on the map, the width (the longest name shown and three cells more) fits, the
/// blanks that run rightwards from the mouse up to the width fit, and the rows from the
/// mouse's down, one per name shown, fit.
pub open spec fn tooltip_fits(
    map_width: i32,
    map_height: i32,
    mouse_visible: bool,
    named: Seq<NamedPosition>,
    mouse: Point,
) -> bool {
    let names = tooltip_names(mouse_visible, named, mouse);
    mouse.x < map_width && mouse.y < map_height ==> {
        &&& widest(names) <= i32::MAX - 3
        &&& !tip_on_left(mouse) ==> forall|k: int|
            0 <= k < names.len() ==> mouse.x + widest(names) + 3 - byte_len(#[trigger] names[k]) <= i32::MAX
        &&& mouse.y + names.len() <= i32::MAX
    }
}

proof fn lemma_widest_at_most(names: Seq<Seq<char>>, bound: int)
    requires
        0 <= bound,
        forall|k: int| 0 <= k < names.len() ==> byte_len(#[trigger] names[k]) <= bound,
    ensures
        0 <= widest(names) <= bound,
    decreases names.len(),
{
    if names.len() > 0 {
        let rest = names.drop_last();
        assert forall|k: int| 0 <= k < rest.len() implies byte_len(#[trigger] rest[k]) <= bound by {
            assert(rest[k] == names[k]);
        }
        lemma_widest_at_most(rest, bound);
        assert(byte_len(names[names.len() - 1]) <= bound);
    }
}

proof fn lemma_widest_bounds(names: Seq<Seq<char>>, k: int)
    requires
        0 <= k < names.len(),
    ensures
        byte_len(names[k]) <= widest(names),
    decreases names.len(),
{
    if k < names.len() - 1 {
        lemma_widest_bounds(names.drop_last(), k);
    }
}

proof fn lemma_names_at(named: Seq<NamedPosition>, mouse: Point)
    ensures
        forall|k: int|
            #![trigger names_at(named, mouse)[k]]
            0 <= k < names_at(named, mouse).len() ==> exists|i: int|
                0 <= i < named.len() && named[i].x == mouse.x && named[i].y == mouse.y && #[trigger] named[i].name@
                    == names_at(named, mouse)[k],
        forall|i: int|
            0 <= i < named.len() && named[i].x == mouse.x && named[i].y == mouse.y ==> names_at(
                named,
                mouse,
            ).contains(#[trigger] named[i].name@),
    decreases named.len(),
{
    if named.len() > 0 {
        let rest = named.drop_last();
        lemma_names_at(rest, mouse);
        let r = names_at(rest, mouse);
        let all = names_at(named, mouse);
        assert forall|k: int| #![trigger all[k]] 0 <= k < all.len() implies exists|i: int|
            0 <= i < named.len() && named[i].x == mouse.x && named[i].y == mouse.y && #[trigger] named[i].name@
                == all[k] by {
            if k < r.len() {
                assert(all[k] == r[k]);
                let i = choose|i: int|
                    0 <= i < rest.len() && rest[i].x == mouse.x && rest[i].y == mouse.y && #[trigger] rest[i].name@
                        == r[k];
                assert(named[i] == rest[i]);
            } else {
                assert(named[named.len() - 1].name@ == all[k]);
            }
        }
        assert forall|i: int|
            0 <= i < named.len() && named[i].x == mouse.x && named[i].y == mouse.y implies all.contains(
                #[trigger] named[i].name@,
            ) by {
            if i < rest.len() {
                assert(named[i] == rest[i]);
                let k = choose|k: int| 0 <= k < r.len() && r[k] == rest[i].name@;
                assert(all[k] == r[k]);
            } else {
                assert(all[all.len() - 1] == named[i].name@);
            }
        }
    }
}

/// The tooltip names what stands under the mouse, and nothing else: it draws nothing
/// where the player does not see the mouse cell, where the mouse is beyond the map's
/// right or bottom edge, or where no named entity stands on the mouse cell; else it names
/// every entity that stands there, and only those, and ends with the arrow on the mouse's
/// row, left of the mouse (`->`) right of column 40 and right of it (`<-`) elsewhere.
pub proof fn law_tooltip_names_the_mouse_cell(
    map_width: i32,
    map_height: i32,
    mouse_visible: bool,
    named: Seq<NamedPosition>,
    mouse: Point,
)
    ensures
        !mouse_visible || mouse.x >= map_width || mouse.y >= map_height ==> tooltip_screen(
            map_width,
            map_height,
            mouse_visible,
            named,
            mouse,
        ).len() == 0,
        (forall|i: int| 0 <= i < named.len() ==> !(named[i].x == mouse.x && #[trigger] named[i].y == mouse.y))
            ==> tooltip_screen(map_width, map_height, mouse_visible, named, mouse).len() == 0,
        mouse_visible ==> forall|i: int|
            0 <= i < named.len() && named[i].x == mouse.x && named[i].y == mouse.y ==> tooltip_names(
                mouse_visible,
                named,
                mouse,
            ).contains(#[trigger] named[i].name@),
        forall|k: int|
            #![trigger tooltip_names(mouse_visible, named, mouse)[k]]
            0 <= k < tooltip_names(mouse_visible, named, mouse).len() ==> exists|i: int|
                0 <= i < named.len() && named[i].x == mouse.x && named[i].y == mouse.y && #[trigger] named[i].name@
                    == tooltip_names(mouse_visible, named, mouse)[k],
        tooltip_screen(map_width, map_height, mouse_visible, named, mouse).len() > 0 ==> tooltip_screen(
            map_width,
            map_height,
            mouse_visible,
            named,
            mouse,
        ).last() == if mouse.x > 40 {
            Command::PrintColor { x: (mouse.x - 2) as i32, y: mouse.y, fg: Color::White, bg: Color::Grey, text: "->"@ }
        } else {
            Command::PrintColor { x: (mouse.x + 1) as i32, y: mouse.y, fg: Color::White, bg: Color::Grey, text: "<-"@ }
        },
{
    lemma_names_at(named, mouse);
    let names = names_at(named, mouse);
    if names.len() > 0 {
        let k = 0int;
        let i = choose|i: int|
            0 <= i < named.len() && named[i].x == mouse.x && named[i].y == mouse.y && #[trigger] named[i].name@
                == names[k];
        assert(named[i].y == mouse.y);
    }
}

/// Draws the tooltip of the mouse cell. `map_width` and `map_height` are the map's
/// size, `mouse_visible` tells whether the player sees the mouse cell, and `named` are
/// the named entities with their positions.
pub fn draw_tooltips(
    map_width: i32,
    map_height: i32,
    mouse_visible: bool,
    named: &Vec<NamedPosition>,
    mouse: Point,
) -> (screen: Vec<Draw>)
    requires
        tooltip_fits(map_width, map_height, mouse_visible, named@, mouse),
    ensures
        drawn(screen@) == tooltip_screen(map_width, map_height, mouse_visible, named@, mouse),
{
    let mut screen: Vec<Draw> = Vec::new();
    if mouse.x >= map_width || mouse.y >= map_height {
        assert(drawn(screen@) =~= Seq::<DrawView>::empty());
        return screen;
    }
    // The places in `named` of what the tooltip shows.
    let mut shown: Vec<usize> = Vec::new();
    let n = named.len();
    for i in 0..n
        invariant
            n == named@.len(),
            forall|k: int| 0 <= k < shown@.len() ==> shown@[k] < i,
            shown@.map_values(|p: usize| named@[p as int].name@) == tooltip_names(
                mouse_visible,
                named@.take(i as int),
                mouse,
            ),
    {
        let ghost before = shown@;
        let entry = &named[i];
        if entry.x == mouse.x && entry.y == mouse.y && mouse_visible {
            shown.push(i);
        }
        proof {
            let t = named@.take(i + 1);
            assert(t.drop_last() =~= named@.take(i as int));
            assert(t.last() == named@[i as int]);
            if mouse_visible && named@[i as int].x == mouse.x && named@[i as int].y == mouse.y {
                assert(shown@.map_values(|p: usize| named@[p as int].name@) =~= before.map_values(
                    |p: usize| named@[p as int].name@,
                ).push(named@[i as int].name@));
            } else {
                assert(shown@ == before);
            }
        }
    }
    assert(named@.take(n as int) =~= named@);
    let ghost names = tooltip_names(mouse_visible, named@, mouse);
    let count = shown.len();
    assert(shown@.map_values(|p: usize| named@[p as int].name@).len() == count);
    if count == 0 {
        assert(drawn(screen@) =~= Seq::<DrawView>::empty());
        return screen;
    }
    proof {
        assert forall|k: int| 0 <= k < names.len() implies byte_len(#[trigger] names[k]) <= widest(names) by {
            lemma_widest_bounds(names, k);
        }
        lemma_widest_at_most(names, i32::MAX - 3);
    }
    let mut width: i32 = 0;
    for j in 0..count
        invariant
            count == shown@.len(),
            count == names.len(),
            names == shown@.map_values(|p: usize| named@[p as int].name@),
            forall|k: int| 0 <= k < shown@.len() ==> shown@[k] < named@.len(),
            forall|k: int| 0 <= k < names.len() ==> 0 <= byte_len(#[trigger] names[k]) <= widest(names),
            widest(names) <= i32::MAX - 3,
            width == widest(names.take(j as int)),
    {
        let len = named[shown[j]].name.as_str().len();
        proof {
            assert(names[j as int] == named@[shown@[j as int] as int].name@);
            assert(names.take(j + 1).drop_last() =~= names.take(j as int));
            assert(names.take(j + 1).last() == names[j as int]);
        }
        if width < len as i32 {
            width = len as i32;
        }
    }
    assert(names.take(count as int) =~= names);
    width = width + 3;
    let ghost w = width as int;
    let ghost lines_start = drawn(screen@);
    let mut y = mouse.y;
    for k in 0..count
        invariant
            count == shown@.len(),
            count == names.len(),
            names == shown@.map_values(|p: usize| named@[p as int].name@),
            forall|k: int| 0 <= k < shown@.len() ==> shown@[k] < named@.len(),
            forall|k: int| 0 <= k < names.len() ==> 0 <= byte_len(#[trigger] names[k]) <= widest(names),
            w == widest(names) + 3,
            width == w,
            3 <= w <= i32::MAX,
            !tip_on_left(mouse) ==> forall|k: int|
                0 <= k < names.len() ==> mouse.x + w - byte_len(#[trigger] names[k]) <= i32::MAX,
            mouse.y < map_height,
            mouse.y + count <= i32::MAX,
            y == mouse.y + k,
            lines_start.len() == 0,
            drawn(screen@) == tooltip_lines(names.take(k as int), w, mouse),
    {
        let name = named[shown[k]].name.as_str();
        proof {
            assert(names[k as int] == named@[shown@[k as int] as int].name@);
            lemma_widest_bounds(names, k as int);
        }
        let ghost before = drawn(screen@);
        let padding = (width - name.len() as i32) - 1;
        assert(!tip_on_left(mouse) ==> mouse.x + w - byte_len(names[k as int]) <= i32::MAX);
        if mouse.x > 40 {
            emit(&mut screen, print_color(mouse.x - width, y, Color::White, Color::Grey, name));
            let ghost row_start = drawn(screen@);
            for i in 0..padding
                invariant
                    drawn(screen@) == row_start + Seq::new(
                        i as nat,
                        |c: int| tip(mouse.x - 2 - c, y as int, " "@),
                    ),
                    mouse.x > 40,
                    padding <= width,
                    width <= i32::MAX,
            {
                emit(&mut screen, print_color(mouse.x - 2 - i, y, Color::White, Color::Grey, " "));
                assert(drawn(screen@) =~= row_start + Seq::new(
                    (i + 1) as nat,
                    |c: int| tip(mouse.x - 2 - c, y as int, " "@),
                ));
            }
        } else {
            emit(&mut screen, print_color(mouse.x + 3 + 1, y, Color::White, Color::Grey, name));
            let ghost row_start = drawn(screen@);
            for i in 0..padding
                invariant
                    drawn(screen@) == row_start + Seq::new(
                        i as nat,
                        |c: int| tip(mouse.x + 2 + c, y as int, " "@),
                    ),
                    mouse.x <= 40,
                    mouse.x + 1 + padding <= i32::MAX,
            {
                emit(&mut screen, print_color(mouse.x + 1 + 1 + i, y, Color::White, Color::Grey, " "));
                assert(drawn(screen@) =~= row_start + Seq::new(
                    (i + 1) as nat,
                    |c: int| tip(mouse.x + 2 + c, y as int, " "@),
                ));
            }
        }
        proof {
            let t = names.take(k + 1);
            assert(t.drop_last() =~= names.take(k as int));
            assert(t.last() == names[k as int]);
            assert(drawn(screen@) =~= before + tooltip_line(names[k as int], k as int, w, mouse));
        }
        y = y + 1;
    }
    assert(names.take(count as int) =~= names);
    if mouse.x > 40 {
        emit(&mut screen, print_color(mouse.x - 2, mouse.y, Color::White, Color::Grey, "->"));
    } else {
        emit(&mut screen, print_color(mouse.x + 1, mouse.y, Color::White, Color::Grey, "<-"));
    }
    assert(drawn(screen@) =~= tooltip_screen(map_width, map_height, mouse_visible, named@, mouse));
    screen
}

} // verus!

verus! {

// ---------------------------------------------------------------- status panel

/// The health line of the panel: `HP: hp/max_hp`.
pub open spec fn health_text(v: Vitals) -> Seq<char> {
    "HP: "@ + int_decimal(v.hp as int) + "/"@ + int_decimal(v.max_hp as int)
}

/// The health bar and health line of each entity the player controls.
pub open spec fn vitals_rows(players: Seq<Vitals>) -> Seq<DrawView>
    decreases players.len(),
{
    if players.len() == 0 {
        Seq::empty()
    } else {
        let v = players.last();
        vitals_rows(players.drop_last()) + seq![
            Command::DrawBarHorizontal {
                x: 39,
                y: 44,
                width: 20,
                n: v.hp,
                max: v.max_hp,
                fg: Color::Red,
                bg: Color::Panel,
            },
            Command::PrintColor { x: 39, y: 45, fg: Color::White, bg: Color::Panel, text: health_text(v) },
        ]
    }
}

/// The messages of the log that the panel shows: the newest first, at most five.
pub open spec fn log_lines(log: Seq<Seq<char>>) -> Seq<DrawView> {
    let shown = if log.len() < 5 {
        log.len() as int
    } else {
        5
    };
    Seq::new(
        shown as nat,
        |k: int|
            Command::PrintColor {
                x: 2,
                y: (44 + k) as i32,
                fg: Color::White,
                bg: Color::Black,
                text: log[log.len() - 1 - k],
            },
    )
}

/// The texts of the log.
pub open spec fn log_texts(log: Seq<String>) -> Seq<Seq<char>> {
    log.map_values(|s: String| s@)
}

/// The panel shows the newest messages of the log, at most five, the newest on row 44
/// and each older one on the row below, in white on black from column 2.
pub proof fn law_log_newest_first(log: Seq<Seq<char>>, k: int)
    ensures
        log_lines(log).len() == if log.len() < 5 {
            log.len() as int
        } else {
            5
        },
        0 <= k < log_lines(log).len() ==> log_lines(log)[k] == (Command::<Seq<char>>::PrintColor {
            x: 2,
            y: (44 + k) as i32,
            fg: Color::White,
            bg: Color::Black,
            text: log.reverse()[k],
        }),
        log.len() > 0 ==> (log_lines(log)[0] matches Command::PrintColor { y, text, .. } && y == 44 && text
            == log.last()),
{
}

/// What the status panel draws, the tooltip last.
pub open spec fn draw_ui_screen(
    players: Seq<Vitals>,
    depth: i32,
    log: Seq<Seq<char>>,
    mouse: Point,
    map_width: i32,
    map_height: i32,
    mouse_visible: bool,
    named: Seq<NamedPosition>,
) -> Seq<DrawView> {
    seq![
        Command::FillRegion {
            x1: 0,
            y1: 43,
            x2: 79,
            y2: 49,
            glyph: cp437(' '),
            fg: Color::Panel,
            bg: Color::Panel,
        },
        Command::DrawHollowBox { x: 0, y: 43, width: 79, height: 6, fg: Color::Black, bg: Color::Panel },
    ] + vitals_rows(players) + seq![
        Command::PrintColor {
            x: 39,
            y: 47,
            fg: Color::White,
            bg: Color::Panel,
            text: "Depth: "@ + int_decimal(depth as int),
        },
        Command::FillRegion {
            x1: 2,
            y1: 44,
            x2: 38,
            y2: 49,
            glyph: cp437(' '),
            fg: Color::White,
            bg: Color::Black,
        },
    ] + log_lines(log) + seq![Command::SetBg { x: mouse.x, y: mouse.y, bg: Color::White }]
        + tooltip_screen(map_width, map_height, mouse_visible, named, mouse)
}

/// Draws the status panel: the health of each entity the player controls (`players`),
/// the depth of the dungeon, the newest messages of `log`, the mouse cursor, and the
/// tooltip of the mouse cell (see `draw_tooltips`).
pub fn draw_ui(
    players: &Vec<Vitals>,
    depth: i32,
    log: &Vec<String>,
    mouse: Point,
    map_width: i32,
    map_height: i32,
    mouse_visible: bool,
    named: &Vec<NamedPosition>,
) -> (screen: Vec<Draw>)
    requires
        tooltip_fits(map_width, map_height, mouse_visible, named@, mouse),
    ensures
        drawn(screen@) == draw_ui_screen(
            players@,
            depth,
            log_texts(log@),
            mouse,
            map_width,
            map_height,
            mouse_visible,
            named@,
        ),
{
    let mut screen: Vec<Draw> = Vec::new();
    let blank = to_cp437(' ');
    emit(
        &mut screen,
        Command::FillRegion {
            x1: 0,
            y1: 43,
            x2: 79,
            y2: 49,
            glyph: blank,
            fg: Color::Panel,
            bg: Color::Panel,
        },
    );
    emit(
        &mut screen,
        Command::DrawHollowBox { x: 0, y: 43, width: 79, height: 6, fg: Color::Black, bg: Color::Panel },
    );
    let ghost frame = drawn(screen@);
    let np = players.len();
    for i in 0..np
        invariant
            np == players@.len(),
            drawn(screen@) == frame + vitals_rows(players@.take(i as int)),
    {
        let v = players[i];
        emit(
            &mut screen,
            Command::DrawBarHorizontal {
                x: 39,
                y: 44,
                width: 20,
                n: v.hp,
                max: v.max_hp,
                fg: Color::Red,
                bg: Color::Panel,
            },
        );
        let mut health = String::from_str("HP: ");
        health.append(decimal(v.hp).as_str());
        health.append("/");
        health.append(decimal(v.max_hp).as_str());
        emit(&mut screen, Command::PrintColor { x: 39, y: 45, fg: Color::White, bg: Color::Panel, text: health });
        proof {
            let t = players@.take(i + 1);
            assert(t.drop_last() =~= players@.take(i as int));
            assert(t.last() == v);
            assert(health@ =~= health_text(v));
            assert(drawn(screen@) =~= frame + vitals_rows(t));
        }
    }
    assert(players@.take(np as int) =~= players@);
    let mut depth_text = String::from_str("Depth: ");
    depth_text.append(decimal(depth).as_str());
    emit(&mut screen, Command::PrintColor { x: 39, y: 47, fg: Color::White, bg: Color::Panel, text: depth_text });
    let blank = to_cp437(' ');
    emit(
        &mut screen,
        Command::FillRegion {
            x1: 2,
            y1: 44,
            x2: 38,
            y2: 49,
            glyph: blank,
            fg: Color::White,
            bg: Color::Black,
        },
    );
    let ghost before_log = drawn(screen@);
    let ghost texts = log_texts(log@);
    let nl = log.len();
    let shown: usize = if nl < 5 {
        nl
    } else {
        5
    };
    for k in 0..shown
        invariant
            nl == log@.len(),
            shown <= nl,
            shown <= 5,
            shown == (if nl < 5 { nl } else { 5 }),
            texts == log_texts(log@),
            drawn(screen@) == before_log + log_lines(texts).take(k as int),
    {
        let entry = log[nl - 1 - k].as_str();
        emit(&mut screen, print_color(2, 44 + k as i32, Color::White, Color::Black, entry));
        assert(texts[nl - 1 - k] == log@[nl - 1 - k]@);
        assert(log_lines(texts).take(k + 1) =~= log_lines(texts).take(k as int).push(
            log_lines(texts)[k as int],
        ));
    }
    assert(log_lines(texts).take(shown as int) =~= log_lines(texts));
    emit(&mut screen, Command::SetBg { x: mouse.x, y: mouse.y, bg: Color::White });
    let ghost panel = screen@;
    let mut tips = draw_tooltips(map_width, map_height, mouse_visible, named, mouse);
    let ghost tip_cmds = tips@;
    screen.append(&mut tips);
    assert(drawn(screen@) =~= drawn(panel) + drawn(tip_cmds));
    assert(drawn(screen@) =~= draw_ui_screen(
        players@,
        depth,
        texts,
        mouse,
        map_width,
        map_height,
        mouse_visible,
        named@,
    ));
    screen
}

} // verus!
