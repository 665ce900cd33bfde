use std::collections::HashMap;
use bracket_lib::prelude::RandomNumberGenerator;
use tomb_of_the_moon::dice::Dice;
use tomb_of_the_moon::draw::Color;
use tomb_of_the_moon::random_table::RandomTable;
use tomb_of_the_moon::spawner::{
    bat, cell_for_rolls, confusion_scroll, fireball_scroll, health_potion, item_for_roll, knife,
    longsword, magic_missile_scroll, monster_for_roll, place_spawns, placement_step, player, random_item, random_monster, room_table, shield,
    skeleton, spawn_at, spawn_count, spawn_parts, spawn_room, tower_shield, Component, EquipmentSlot, Part,
    Rect, SpawnKind,
};

fn name_of(parts: &[Component]) -> String {
    parts
        .iter()
        .find_map(|p| match p {
            Part::Name { name } => Some(name.clone()),
            _ => None,
        })
        .expect("a name")
}

fn glyph_of(parts: &[Component]) -> u16 {
    parts
        .iter()
        .find_map(|p| match p {
            Part::Renderable { glyph, .. } => Some(*glyph),
            _ => None,
        })
        .expect("a renderable")
}

#[test]
fn player_components() {
    let parts = player(3, 4);
    assert_eq!(parts.len(), 6);
    assert!(matches!(parts[0], Part::Position { x: 3, y: 4 }));
    match &parts[1] {
        Part::Renderable { glyph, fg, bg, render_order } => {
            // code page 437 puts the black smiling face at 2
            assert_eq!(*glyph, 2);
            assert_eq!((*fg, *bg, *render_order), (Color::Yellow, Color::Black, 0));
        }
        other => panic!("{:?}", other),
    }
    assert!(matches!(parts[2], Part::Player));
    assert!(matches!(parts[3], Part::Viewshed { range: 8, dirty: true }));
    assert_eq!(name_of(&parts), "Player");
    assert!(matches!(parts[5], Part::CombatStats { max_hp: 30, hp: 30, defense: 2, power: 5 }));
}

#[test]
fn monsters() {
    let parts = bat(1, 2);
    assert_eq!(parts.len(), 7);
    assert_eq!(glyph_of(&parts), 98);
    assert_eq!(name_of(&parts), "Bat");
    assert!(matches!(parts[1], Part::Renderable { fg: Color::Red, render_order: 1, .. }));
    assert!(matches!(parts[3], Part::Monster));
    assert!(matches!(parts[5], Part::BlocksTile));
    assert!(matches!(parts[6], Part::CombatStats { max_hp: 16, hp: 16, defense: 1, power: 4 }));
    let parts = skeleton(1, 2);
    assert_eq!(glyph_of(&parts), 115);
    assert_eq!(name_of(&parts), "Skeleton");
}

#[test]
fn consumables() {
    let potion = health_potion(5, 6);
    assert_eq!(glyph_of(&potion), 147);
    assert_eq!(name_of(&potion), "Red Glowing Potion");
    assert!(matches!(potion[1], Part::Renderable { fg: Color::Magenta, render_order: 2, .. }));
    assert!(matches!(potion[3], Part::Item));
    assert!(matches!(potion[4], Part::Consumable));
    assert!(matches!(potion[5], Part::ProvidesHealing { heal_amount: 8 }));

    let missile = magic_missile_scroll(0, 0);
    assert_eq!(glyph_of(&missile), 126);
    assert!(matches!(missile[5], Part::Ranged { range: 6 }));
    assert!(matches!(missile[6], Part::InflictsDamage { damage: 8 }));

    let fireball = fireball_scroll(0, 0);
    assert_eq!(name_of(&fireball), "Fireball Scroll");
    assert!(matches!(fireball[6], Part::InflictsDamage { damage: 20 }));
    assert!(matches!(fireball[7], Part::AreaOfEffect { radius: 3 }));

    let confusion = confusion_scroll(0, 0);
    assert_eq!(name_of(&confusion), "Dizzily Scroll");
    assert!(matches!(confusion[6], Part::Confusion { turns: 4 }));
}

#[test]
fn equipment() {
    let k = knife(0, 0);
    assert_eq!(glyph_of(&k), 47);
    assert!(matches!(k[1], Part::Renderable { fg: Color::Green, .. }));
    assert!(matches!(k[4], Part::Equippable { slot: EquipmentSlot::Melee }));
    assert!(matches!(k[5], Part::MeleePowerBonus { power: 2 }));
    let s = shield(0, 0);
    assert_eq!(glyph_of(&s), 40);
    assert!(matches!(s[4], Part::Equippable { slot: EquipmentSlot::Shield }));
    assert!(matches!(s[5], Part::DefenseBonus { defense: 1 }));
    assert!(matches!(longsword(0, 0)[5], Part::MeleePowerBonus { power: 4 }));
    assert!(matches!(tower_shield(0, 0)[5], Part::DefenseBonus { defense: 3 }));
    assert_eq!(name_of(&tower_shield(0, 0)), "Tower Shield");
}

#[test]
fn spawn_parts_follow_kind_names() {
    let kinds = [
        SpawnKind::Bat,
        SpawnKind::Skeleton,
        SpawnKind::HealthPotion,
        SpawnKind::FireballScroll,
        SpawnKind::ConfusionScroll,
        SpawnKind::MagicMissileScroll,
        SpawnKind::Knife,
        SpawnKind::Shield,
        SpawnKind::Longsword,
        SpawnKind::TowerShield,
    ];
    for kind in kinds {
        let parts = spawn_parts(kind, 7, 8);
        assert_eq!(name_of(&parts), kind.name());
        assert!(matches!(parts[0], Part::Position { x: 7, y: 8 }));
    }
}

#[test]
fn rolls_choose_monsters_and_items() {
    assert_eq!(monster_for_roll(1), SpawnKind::Bat);
    assert_eq!(monster_for_roll(2), SpawnKind::Skeleton);
    assert_eq!(item_for_roll(1), SpawnKind::HealthPotion);
    assert_eq!(item_for_roll(2), SpawnKind::FireballScroll);
    assert_eq!(item_for_roll(3), SpawnKind::ConfusionScroll);
    assert_eq!(item_for_roll(4), SpawnKind::MagicMissileScroll);
}

#[test]
fn random_monster_and_item() {
    let mut rng = Dice::new(RandomNumberGenerator::seeded(7));
    for _ in 0..20 {
        let name = name_of(&random_monster(&mut rng, 1, 1));
        assert!(name == "Bat" || name == "Skeleton");
        let name = name_of(&random_item(&mut rng, 1, 1));
        assert!(["Red Glowing Potion", "Fireball Scroll", "Dizzily Scroll", "Magic Missile Scroll"]
            .contains(&name.as_str()));
    }
}

#[test]
fn random_table_picks_by_weight() {
    let table = RandomTable::new().add(SpawnKind::Bat, 2).add(SpawnKind::Knife, 0).add(SpawnKind::Shield, 3);
    assert_eq!(table.total(), 5);
    assert_eq!(table.pick(0), SpawnKind::Bat);
    assert_eq!(table.pick(1), SpawnKind::Bat);
    assert_eq!(table.pick(2), SpawnKind::Shield);
    assert_eq!(table.pick(4), SpawnKind::Shield);
}

#[test]
fn random_table_empty_rolls_nothing() {
    let table: RandomTable<SpawnKind> = RandomTable::new().add(SpawnKind::Bat, -3);
    let mut rng = Dice::new(RandomNumberGenerator::seeded(1));
    assert_eq!(table.total(), 0);
    assert_eq!(table.roll(&mut rng), None);
}

#[test]
fn random_table_roll_lands_on_entries() {
    let table = RandomTable::new().add(SpawnKind::Bat, 1).add(SpawnKind::Skeleton, 1);
    let mut rng = Dice::new(RandomNumberGenerator::seeded(3));
    let mut seen_bat = false;
    let mut seen_skeleton = false;
    for _ in 0..200 {
        match table.roll(&mut rng) {
            Some(SpawnKind::Bat) => seen_bat = true,
            Some(SpawnKind::Skeleton) => seen_skeleton = true,
            other => panic!("{:?}", other),
        }
    }
    assert!(seen_bat && seen_skeleton);
}

#[test]
fn room_table_weights() {
    let shallow = room_table(1);
    // bats 10, skeletons 2, potions 7, fireball 3, confusion 3, missile 4, knife 3, shield 3
    assert_eq!(shallow.total(), 35);
    assert_eq!(shallow.pick(0), SpawnKind::Bat);
    assert_eq!(shallow.pick(9), SpawnKind::Bat);
    assert_eq!(shallow.pick(10), SpawnKind::Skeleton);
    assert_eq!(shallow.pick(34), SpawnKind::Shield);
    let deeper = room_table(2);
    assert_eq!(deeper.total(), 40);
    assert_eq!(deeper.pick(37), SpawnKind::Shield);
    assert_eq!(deeper.pick(38), SpawnKind::Longsword);
    assert_eq!(deeper.pick(39), SpawnKind::TowerShield);
}

#[test]
fn room_helpers() {
    let room = Rect { x1: 10, y1: 10, x2: 20, y2: 15 };
    assert_eq!(spawn_count(1, 1), -2);
    assert_eq!(spawn_count(7, 1), 4);
    assert_eq!(spawn_count(7, 5), 8);
    assert_eq!(cell_for_rolls(&room, 80, 1, 1), 11 * 80 + 11);
    assert_eq!(cell_for_rolls(&room, 80, 10, 5), 15 * 80 + 20);
    let s = spawn_at(891, 80, SpawnKind::Knife);
    assert_eq!((s.idx, s.x, s.y, s.kind), (891, 11, 11, SpawnKind::Knife));
}

#[test]
fn room_with_reversed_corners() {
    let room = Rect { x1: 20, y1: 15, x2: 10, y2: 10 };
    assert_eq!(cell_for_rolls(&room, 80, 1, 1), 16 * 80 + 21);
}

#[test]
fn spawn_room_places_distinct_cells_inside() {
    let room = Rect { x1: 10, y1: 10, x2: 20, y2: 15 };
    for seed in 0..30u64 {
        let mut rng = Dice::new(RandomNumberGenerator::seeded(seed));
        let fill = spawn_room(&mut rng, &room, 1, 80);
        assert!(1 <= fill.count_roll && fill.count_roll <= 7);
        let allowed = (fill.count_roll + 1 - 4).max(0) as usize;
        assert!(fill.spawns.len() <= allowed);
        assert!(fill.attempts <= 20 * allowed as u64);
        for (&idx, &kind) in fill.spawns.iter() {
            let s = spawn_at(idx, 80, kind);
            assert!(11 <= s.x && s.x <= 20, "{:?}", s);
            assert!(11 <= s.y && s.y <= 15, "{:?}", s);
            assert_eq!(s.idx, (s.y * 80 + s.x) as usize);
            assert!(s.kind != SpawnKind::Longsword && s.kind != SpawnKind::TowerShield);
        }
    }
}

#[test]
fn deep_rooms_fill_up() {
    let room = Rect { x1: 0, y1: 0, x2: 30, y2: 30 };
    let mut total = 0;
    for seed in 0..10u64 {
        let mut rng = Dice::new(RandomNumberGenerator::seeded(seed));
        let fill = spawn_room(&mut rng, &room, 10, 80);
        let spawns = fill.spawns;
        assert!(spawns.len() as i32 <= fill.count_roll + 10 - 4);
        assert!(spawns.len() <= 13);
        // at least 1 + 10 - 4 spawns are tried, and a 30 by 30 room has room for all
        assert!(spawns.len() >= 7);
        total += spawns.len();
    }
    assert!(total > 0);
}

#[test]
fn one_cell_room_holds_one_spawn() {
    let room = Rect { x1: 5, y1: 5, x2: 6, y2: 6 };
    let mut rng = Dice::new(RandomNumberGenerator::seeded(11));
    let fill = spawn_room(&mut rng, &room, 10, 80);
    let spawns = fill.spawns;
    assert_eq!(spawns.len(), 1);
    // every spawn after the first finds its only cell taken and gives up after twenty tries
    assert_eq!(fill.attempts, 1 + 20 * (fill.count_roll as u64 + 10 - 4 - 1));
    // the only cell is column 6 of row 6
    assert_eq!(spawns.keys().copied().collect::<Vec<usize>>(), vec![6 * 80 + 6]);
}

#[test]
fn no_spawns_for_a_count_of_zero_or_less() {
    let room = Rect { x1: 10, y1: 10, x2: 20, y2: 15 };
    let table = room_table(1);
    let mut rng = Dice::new(RandomNumberGenerator::seeded(5));
    for n in [-3, 0] {
        let (spawns, attempts) = place_spawns(&mut rng, &room, &table, n, 80);
        assert!(spawns.is_empty());
        assert_eq!(attempts, 0);
    }
    let (spawns, attempts) = place_spawns(&mut rng, &room, &table, 3, 80);
    assert!(1 <= spawns.len() && spawns.len() <= 3);
    assert!(spawns.len() as u64 <= attempts && attempts <= 60);
}

#[test]
fn shallow_rooms_stay_empty_on_low_count_rolls() {
    let room = Rect { x1: 10, y1: 10, x2: 20, y2: 15 };
    for seed in 0..40u64 {
        let mut rng = Dice::new(RandomNumberGenerator::seeded(seed));
        let fill = spawn_room(&mut rng, &room, 1, 80);
        if fill.count_roll <= 3 {
            assert!(fill.spawns.is_empty());
            assert_eq!(fill.attempts, 0);
        }
    }
}

#[test]
fn room_with_corner_outside_the_map() {
    let room = Rect { x1: -1, y1: -1, x2: 1, y2: 1 };
    assert_eq!(cell_for_rolls(&room, 80, 1, 1), 0);
    let mut rng = Dice::new(RandomNumberGenerator::seeded(9));
    let fill = spawn_room(&mut rng, &room, 8, 80);
    assert!(!fill.spawns.is_empty());
    for (&idx, &kind) in fill.spawns.iter() {
        let s = spawn_at(idx, 80, kind);
        assert!(0 <= s.x && s.x <= 1 && 0 <= s.y && s.y <= 1);
    }
}

#[test]
fn room_table_grows_with_depth() {
    // from depth 2 on, five kinds gain one weight per level
    assert_eq!(room_table(3).total(), room_table(2).total() + 5);
    let t = room_table(3);
    // bats 10, skeletons 4, potions 7, fireball 5, confusion 5, missile 4, knife 3, shield 3, longsword 2, tower 2
    assert_eq!(t.pick(10), SpawnKind::Skeleton);
    assert_eq!(t.pick(13), SpawnKind::Skeleton);
    assert_eq!(t.pick(14), SpawnKind::HealthPotion);
    assert_eq!(t.pick(42), SpawnKind::Longsword);
    assert_eq!(t.pick(43), SpawnKind::TowerShield);
}

#[test]
fn placement_step_places_on_free_cells_only() {
    let table = room_table(1);
    let mut dice = Dice::new(RandomNumberGenerator::seeded(21));
    let mut spawns = HashMap::new();
    assert!(placement_step(&mut spawns, 891, &table, &mut dice));
    assert_eq!(spawns.len(), 1);
    let first = spawns[&891];
    assert!(!placement_step(&mut spawns, 891, &table, &mut dice));
    assert_eq!(spawns.len(), 1);
    assert_eq!(spawns[&891], first);
    assert!(placement_step(&mut spawns, 892, &table, &mut dice));
    assert_eq!(spawns.len(), 2);
    assert!(spawns.contains_key(&892));
}

#[test]
fn failed_spawns_use_all_twenty_tries() {
    // a two-cell room with four spawns to place: two succeed, two give up after twenty picks
    let room = Rect { x1: 0, y1: 0, x2: 2, y2: 1 };
    let table = room_table(1);
    let mut dice = Dice::new(RandomNumberGenerator::seeded(4));
    let (spawns, attempts) = place_spawns(&mut dice, &room, &table, 4, 80);
    assert_eq!(spawns.len(), 2);
    assert!(attempts >= 2 + 40);
    assert!(attempts <= 80);
}

#[test]
fn dice_keep_the_generator() {
    let mut dice = Dice::new(RandomNumberGenerator::seeded(8));
    let first = dice.roll(3, 6);
    assert!((3..=18).contains(&first));
    assert_eq!(dice.roll(0, 6), 0);
    let mut rng = dice.into_rng();
    let r = rng.roll_dice(1, 6);
    assert!((1..=6).contains(&r));
}

#[test]
fn placement_replays_the_throws() {
    // the same throws, read back one by one, give the same spawn points
    let room = Rect { x1: 3, y1: 4, x2: 9, y2: 7 };
    let table = room_table(4);
    for seed in 0..20u64 {
        let mut dice = Dice::new(RandomNumberGenerator::seeded(seed));
        let (spawns, attempts) = place_spawns(&mut dice, &room, &table, 6, 80);
        let mut again = Dice::new(RandomNumberGenerator::seeded(seed));
        let mut expected: HashMap<usize, SpawnKind> = HashMap::new();
        let mut picks = 0u64;
        for _ in 0..6 {
            let mut tries = 0;
            while tries < 20 {
                let rx = again.roll(1, 6);
                let ry = again.roll(1, 3);
                picks += 1;
                let idx = ((4 + ry) * 80 + 3 + rx) as usize;
                if expected.contains_key(&idx) {
                    tries += 1;
                } else {
                    let r = again.roll(1, table.total());
                    expected.insert(idx, table.pick(r - 1));
                    break;
                }
            }
        }
        assert_eq!(spawns, expected);
        assert_eq!(attempts, picks);
    }
}
