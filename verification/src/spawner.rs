//! What the dungeon is populated with: the player, the monsters and the items, each as
//! the list of components that its entity is built from, and which of them a room
//! receives and where.

use crate::draw::Color;
use crate::dice::{Dice, Throw};
use crate::outside::{cp437, to_cp437};
use crate::random_table::{chosen, table_throw, total_weight, RandomEntry, RandomTable};
use std::collections::HashMap;
use vstd::prelude::*;

verus! {

/// The most monsters a room is meant to hold, before the depth is added.
pub const MAX_MONSTERS: i32 = 4;

/// The most items a room is meant to hold.
pub const MAX_ITEMS: i32 = 2;

/// The slot an item of equipment occupies.
#[derive(Clone, Copy, Debug, PartialEq, Eq, Structural)]
pub enum EquipmentSlot {
    Melee,
    Shield,
}

/// One component of an entity. `T` is the name's type: `String` in the components that
/// are built, its characters in their view.
#[derive(Debug)]
pub enum Part<T> {
    Position { x: i32, y: i32 },
    Renderable { glyph: u16, fg: Color, bg: Color, render_order: i32 },
    Player,
    /// A field of view of `range` cells, to be computed (`dirty`) before use.
    Viewshed { range: i32, dirty: bool },
    Name { name: T },
    CombatStats { max_hp: i32, hp: i32, defense: i32, power: i32 },
    Monster,
    BlocksTile,
    Item,
    Consumable,
    ProvidesHealing { heal_amount: i32 },
    Ranged { range: i32 },
    InflictsDamage { damage: i32 },
    AreaOfEffect { radius: i32 },
    Confusion { turns: i32 },
    Equippable { slot: EquipmentSlot },
    MeleePowerBonus { power: i32 },
    DefenseBonus { defense: i32 },
}

/// A component to build.
pub type Component = Part<String>;

/// What a component holds, with the name as characters.
pub type PartView = Part<Seq<char>>;

impl View for Part<String> {
    type V = Part<Seq<char>>;

    open spec fn view(&self) -> Part<Seq<char>> {
        match *self {
            Part::Position { x, y } => Part::Position { x, y },
            Part::Renderable { glyph, fg, bg, render_order } =>
                Part::Renderable { glyph, fg, bg, render_order },
            Part::Player => Part::Player,
            Part::Viewshed { range, dirty } => Part::Viewshed { range, dirty },
            Part::Name { name } => Part::Name { name: name@ },
            Part::CombatStats { max_hp, hp, defense, power } =>
                Part::CombatStats { max_hp, hp, defense, power },
            Part::Monster => Part::Monster,
            Part::BlocksTile => Part::BlocksTile,
            Part::Item => Part::Item,
            Part::Consumable => Part::Consumable,
            Part::ProvidesHealing { heal_amount } => Part::ProvidesHealing { heal_amount },
            Part::Ranged { range } => Part::Ranged { range },
            Part::InflictsDamage { damage } => Part::InflictsDamage { damage },
            Part::AreaOfEffect { radius } => Part::AreaOfEffect { radius },
            Part::Confusion { turns } => Part::Confusion { turns },
            Part::Equippable { slot } => Part::Equippable { slot },
            Part::MeleePowerBonus { power } => Part::MeleePowerBonus { power },
            Part::DefenseBonus { defense } => Part::DefenseBonus { defense },
        }
    }
}

/// What a list of components holds.
pub open spec fn built(parts: Seq<Component>) -> Seq<PartView> {
    parts.map_values(|p: Component| p@)
}

fn put(parts: &mut Vec<Component>, part: Component)
    ensures
        built(final(parts)@) == built(old(parts)@).push(part@),
{
    parts.push(part);
    assert(built(parts@) =~= built(old(parts)@).push(part@));
}

/// The kinds of entity that a room can receive.
#[derive(Clone, Copy, Debug, PartialEq, Eq, Structural)]
pub enum SpawnKind {
    Bat,
    Skeleton,
    HealthPotion,
    FireballScroll,
    ConfusionScroll,
    MagicMissileScroll,
    Knife,
    Shield,
    Longsword,
    TowerShield,
}

/// The name that an entity of each kind carries.
pub open spec fn kind_name(kind: SpawnKind) -> Seq<char> {
    match kind {
        SpawnKind::Bat => "Bat"@,
        SpawnKind::Skeleton => "Skeleton"@,
        SpawnKind::HealthPotion => "Red Glowing Potion"@,
        SpawnKind::FireballScroll => "Fireball Scroll"@,
        SpawnKind::ConfusionScroll => "Dizzily Scroll"@,
        SpawnKind::MagicMissileScroll => "Magic Missile Scroll"@,
        SpawnKind::Knife => "Knife"@,
        SpawnKind::Shield => "Shield"@,
        SpawnKind::Longsword => "Longsword"@,
        SpawnKind::TowerShield => "Tower Shield"@,
    }
}

impl SpawnKind {
    /// The name that an entity of this kind carries.
    pub fn name(&self) -> (name: &'static str)
        ensures
            name@ == kind_name(*self),
    {
        match self {
            SpawnKind::Bat => "Bat",
            SpawnKind::Skeleton => "Skeleton",
            SpawnKind::HealthPotion => "Red Glowing Potion",
            SpawnKind::FireballScroll => "Fireball Scroll",
            SpawnKind::ConfusionScroll => "Dizzily Scroll",
            SpawnKind::MagicMissileScroll => "Magic Missile Scroll",
            SpawnKind::Knife => "Knife",
            SpawnKind::Shield => "Shield",
            SpawnKind::Longsword => "Longsword",
            SpawnKind::TowerShield => "Tower Shield",
        }
    }
}

// ---------------------------------------------------------------- the player

/// The components of the player at `(x, y)`.
pub open spec fn player_parts(x: i32, y: i32) -> Seq<PartView> {
    seq![
        Part::Position { x, y },
        Part::Renderable { glyph: cp437('\u{263b}'), fg: Color::Yellow, bg: Color::Black, render_order: 0 },
        Part::Player,
        Part::Viewshed { range: 8, dirty: true },
        Part::Name { name: "Player"@ },
        Part::CombatStats { max_hp: 30, hp: 30, defense: 2, power: 5 },
    ]
}

/// The components of the player at `(x, y)`: drawn as a yellow smiling face, seeing 8
/// cells far, with 30 hit points, defense 2 and power 5.
pub fn player(x: i32, y: i32) -> (parts: Vec<Component>)
    ensures
        built(parts@) == player_parts(x, y),
{
    let mut parts: Vec<Component> = Vec::new();
    put(&mut parts, Part::Position { x, y });
    let glyph = to_cp437('\u{263b}');
    put(
        &mut parts,
        Part::Renderable { glyph, fg: Color::Yellow, bg: Color::Black, render_order: 0 },
    );
    put(&mut parts, Part::Player);
    put(&mut parts, Part::Viewshed { range: 8, dirty: true });
    put(&mut parts, Part::Name { name: String::from_str("Player") });
    put(&mut parts, Part::CombatStats { max_hp: 30, hp: 30, defense: 2, power: 5 });
    assert(built(parts@) =~= player_parts(x, y));
    parts
}

// ---------------------------------------------------------------- monsters

/// The components of a monster at `(x, y)` drawn with `glyph` and named `name`.
pub open spec fn monster_parts(x: i32, y: i32, glyph: u16, name: Seq<char>) -> Seq<PartView> {
    seq![
        Part::Position { x, y },
        Part::Renderable { glyph, fg: Color::Red, bg: Color::Black, render_order: 1 },
        Part::Viewshed { range: 8, dirty: true },
        Part::Monster,
        Part::Name { name },
        Part::BlocksTile,
        Part::CombatStats { max_hp: 16, hp: 16, defense: 1, power: 4 },
    ]
}

/// The components of a monster: red, seeing 8 cells far, blocking its cell, with 16
/// hit points, defense 1 and power 4.
pub fn monster(x: i32, y: i32, glyph: u16, name: String) -> (parts: Vec<Component>)
    ensures
        built(parts@) == monster_parts(x, y, glyph, name@),
{
    let ghost name_view = name@;
    let mut parts: Vec<Component> = Vec::new();
    put(&mut parts, Part::Position { x, y });
    put(&mut parts, Part::Renderable { glyph, fg: Color::Red, bg: Color::Black, render_order: 1 });
    put(&mut parts, Part::Viewshed { range: 8, dirty: true });
    put(&mut parts, Part::Monster);
    put(&mut parts, Part::Name { name });
    put(&mut parts, Part::BlocksTile);
    put(&mut parts, Part::CombatStats { max_hp: 16, hp: 16, defense: 1, power: 4 });
    assert(built(parts@) =~= monster_parts(x, y, glyph, name_view));
    parts
}

/// A bat: a monster drawn as `b`.
pub fn bat(x: i32, y: i32) -> (parts: Vec<Component>)
    ensures
        built(parts@) == monster_parts(x, y, cp437('b'), "Bat"@),
{
    monster(x, y, to_cp437('b'), String::from_str("Bat"))
}

/// A skeleton: a monster drawn as `s`.
pub fn skeleton(x: i32, y: i32) -> (parts: Vec<Component>)
    ensures
        built(parts@) == monster_parts(x, y, cp437('s'), "Skeleton"@),
{
    monster(x, y, to_cp437('s'), String::from_str("Skeleton"))
}

} // verus!

verus! {

// ---------------------------------------------------------------- items

/// The components every item begins with: where it lies, how it is drawn, its name,
/// and that it is an item.
pub open spec fn item_base(x: i32, y: i32, glyph: u16, fg: Color, name: Seq<char>) -> Seq<PartView> {
    seq![
        Part::Position { x, y },
        Part::Renderable { glyph, fg, bg: Color::Black, render_order: 2 },
        Part::Name { name },
        Part::Item,
    ]
}

fn put_item_base(parts: &mut Vec<Component>, x: i32, y: i32, glyph: u16, fg: Color, name: &str)
    requires
        old(parts)@.len() == 0,
    ensures
        built(final(parts)@) == item_base(x, y, glyph, fg, name@),
{
    put(parts, Part::Position { x, y });
    put(parts, Part::Renderable { glyph, fg, bg: Color::Black, render_order: 2 });
    put(parts, Part::Name { name: String::from_str(name) });
    put(parts, Part::Item);
    assert(built(parts@) =~= item_base(x, y, glyph, fg, name@));
}

/// A health potion: a magenta `ô`, used up when drunk, healing 8 hit points.
pub open spec fn health_potion_parts(x: i32, y: i32) -> Seq<PartView> {
    item_base(x, y, cp437('\u{f4}'), Color::Magenta, "Red Glowing Potion"@) + seq![
        Part::Consumable,
        Part::ProvidesHealing { heal_amount: 8 },
    ]
}

/// A scroll of magic missile: a cyan `~`, used up when read, reaching 6 cells and
/// dealing 8 damage.
pub open spec fn magic_missile_scroll_parts(x: i32, y: i32) -> Seq<PartView> {
    item_base(x, y, cp437('~'), Color::Cyan, "Magic Missile Scroll"@) + seq![
        Part::Consumable,
        Part::Ranged { range: 6 },
        Part::InflictsDamage { damage: 8 },
    ]
}

/// A scroll of fireball: a cyan `~`, used up when read, reaching 6 cells and dealing
/// 20 damage to everything within 3 cells of the target.
pub open spec fn fireball_scroll_parts(x: i32, y: i32) -> Seq<PartView> {
    item_base(x, y, cp437('~'), Color::Cyan, "Fireball Scroll"@) + seq![
        Part::Consumable,
        Part::Ranged { range: 6 },
        Part::InflictsDamage { damage: 20 },
        Part::AreaOfEffect { radius: 3 },
    ]
}

/// A scroll of confusion: a cyan `~`, used up when read, reaching 6 cells and
/// confusing its target for 4 turns.
pub open spec fn confusion_scroll_parts(x: i32, y: i32) -> Seq<PartView> {
    item_base(x, y, cp437('~'), Color::Cyan, "Dizzily Scroll"@) + seq![
        Part::Consumable,
        Part::Ranged { range: 6 },
        Part::Confusion { turns: 4 },
    ]
}

/// A piece of equipment: a green glyph, worn in `slot`, with its bonus.
pub open spec fn equipment_parts(
    x: i32,
    y: i32,
    glyph: u16,
    name: Seq<char>,
    slot: EquipmentSlot,
    bonus: PartView,
) -> Seq<PartView> {
    item_base(x, y, glyph, Color::Green, name) + seq![Part::Equippable { slot }, bonus]
}

/// A knife: a melee weapon `/` adding 2 to power.
pub open spec fn knife_parts(x: i32, y: i32) -> Seq<PartView> {
    equipment_parts(x, y, cp437('/'), "Knife"@, EquipmentSlot::Melee, Part::MeleePowerBonus { power: 2 })
}

/// A shield: `(` adding 1 to defense.
pub open spec fn shield_parts(x: i32, y: i32) -> Seq<PartView> {
    equipment_parts(x, y, cp437('('), "Shield"@, EquipmentSlot::Shield, Part::DefenseBonus { defense: 1 })
}

/// A longsword: a melee weapon `/` adding 4 to power.
pub open spec fn longsword_parts(x: i32, y: i32) -> Seq<PartView> {
    equipment_parts(x, y, cp437('/'), "Longsword"@, EquipmentSlot::Melee, Part::MeleePowerBonus { power: 4 })
}

/// A tower shield: `(` adding 3 to defense.
pub open spec fn tower_shield_parts(x: i32, y: i32) -> Seq<PartView> {
    equipment_parts(
        x,
        y,
        cp437('('),
        "Tower Shield"@,
        EquipmentSlot::Shield,
        Part::DefenseBonus { defense: 3 },
    )
}

/// The components of a health potion at `(x, y)`.
pub fn health_potion(x: i32, y: i32) -> (parts: Vec<Component>)
    ensures
        built(parts@) == health_potion_parts(x, y),
{
    let mut parts: Vec<Component> = Vec::new();
    put_item_base(&mut parts, x, y, to_cp437('\u{f4}'), Color::Magenta, "Red Glowing Potion");
    put(&mut parts, Part::Consumable);
    put(&mut parts, Part::ProvidesHealing { heal_amount: 8 });
    assert(built(parts@) =~= health_potion_parts(x, y));
    parts
}

/// The components of a scroll of magic missile at `(x, y)`.
pub fn magic_missile_scroll(x: i32, y: i32) -> (parts: Vec<Component>)
    ensures
        built(parts@) == magic_missile_scroll_parts(x, y),
{
    let mut parts: Vec<Component> = Vec::new();
    put_item_base(&mut parts, x, y, to_cp437('~'), Color::Cyan, "Magic Missile Scroll");
    put(&mut parts, Part::Consumable);
    put(&mut parts, Part::Ranged { range: 6 });
    put(&mut parts, Part::InflictsDamage { damage: 8 });
    assert(built(parts@) =~= magic_missile_scroll_parts(x, y));
    parts
}

/// The components of a scroll of fireball at `(x, y)`.
pub fn fireball_scroll(x: i32, y: i32) -> (parts: Vec<Component>)
    ensures
        built(parts@) == fireball_scroll_parts(x, y),
{
    let mut parts: Vec<Component> = Vec::new();
    put_item_base(&mut parts, x, y, to_cp437('~'), Color::Cyan, "Fireball Scroll");
    put(&mut parts, Part::Consumable);
    put(&mut parts, Part::Ranged { range: 6 });
    put(&mut parts, Part::InflictsDamage { damage: 20 });
    put(&mut parts, Part::AreaOfEffect { radius: 3 });
    assert(built(parts@) =~= fireball_scroll_parts(x, y));
    parts
}

/// The components of a scroll of confusion at `(x, y)`.
pub fn confusion_scroll(x: i32, y: i32) -> (parts: Vec<Component>)
    ensures
        built(parts@) == confusion_scroll_parts(x, y),
{
    let mut parts: Vec<Component> = Vec::new();
    put_item_base(&mut parts, x, y, to_cp437('~'), Color::Cyan, "Dizzily Scroll");
    put(&mut parts, Part::Consumable);
    put(&mut parts, Part::Ranged { range: 6 });
    put(&mut parts, Part::Confusion { turns: 4 });
    assert(built(parts@) =~= confusion_scroll_parts(x, y));
    parts
}

/// The components of a knife at `(x, y)`.
pub fn knife(x: i32, y: i32) -> (parts: Vec<Component>)
    ensures
        built(parts@) == knife_parts(x, y),
{
    let mut parts: Vec<Component> = Vec::new();
    put_item_base(&mut parts, x, y, to_cp437('/'), Color::Green, "Knife");
    put(&mut parts, Part::Equippable { slot: EquipmentSlot::Melee });
    put(&mut parts, Part::MeleePowerBonus { power: 2 });
    assert(built(parts@) =~= knife_parts(x, y));
    parts
}

/// The components of a shield at `(x, y)`.
pub fn shield(x: i32, y: i32) -> (parts: Vec<Component>)
    ensures
        built(parts@) == shield_parts(x, y),
{
    let mut parts: Vec<Component> = Vec::new();
    put_item_base(&mut parts, x, y, to_cp437('('), Color::Green, "Shield");
    put(&mut parts, Part::Equippable { slot: EquipmentSlot::Shield });
    put(&mut parts, Part::DefenseBonus { defense: 1 });
    assert(built(parts@) =~= shield_parts(x, y));
    parts
}

/// The components of a longsword at `(x, y)`.
pub fn longsword(x: i32, y: i32) -> (parts: Vec<Component>)
    ensures
        built(parts@) == longsword_parts(x, y),
{
    let mut parts: Vec<Component> = Vec::new();
    put_item_base(&mut parts, x, y, to_cp437('/'), Color::Green, "Longsword");
    put(&mut parts, Part::Equippable { slot: EquipmentSlot::Melee });
    put(&mut parts, Part::MeleePowerBonus { power: 4 });
    assert(built(parts@) =~= longsword_parts(x, y));
    parts
}

/// The components of a tower shield at `(x, y)`.
pub fn tower_shield(x: i32, y: i32) -> (parts: Vec<Component>)
    ensures
        built(parts@) == tower_shield_parts(x, y),
{
    let mut parts: Vec<Component> = Vec::new();
    put_item_base(&mut parts, x, y, to_cp437('('), Color::Green, "Tower Shield");
    put(&mut parts, Part::Equippable { slot: EquipmentSlot::Shield });
    put(&mut parts, Part::DefenseBonus { defense: 3 });
    assert(built(parts@) =~= tower_shield_parts(x, y));
    parts
}

/// The components of an entity of `kind` at `(x, y)`.
pub open spec fn kind_parts(kind: SpawnKind, x: i32, y: i32) -> Seq<PartView> {
    match kind {
        SpawnKind::Bat => monster_parts(x, y, cp437('b'), "Bat"@),
        SpawnKind::Skeleton => monster_parts(x, y, cp437('s'), "Skeleton"@),
        SpawnKind::HealthPotion => health_potion_parts(x, y),
        SpawnKind::FireballScroll => fireball_scroll_parts(x, y),
        SpawnKind::ConfusionScroll => confusion_scroll_parts(x, y),
        SpawnKind::MagicMissileScroll => magic_missile_scroll_parts(x, y),
        SpawnKind::Knife => knife_parts(x, y),
        SpawnKind::Shield => shield_parts(x, y),
        SpawnKind::Longsword => longsword_parts(x, y),
        SpawnKind::TowerShield => tower_shield_parts(x, y),
    }
}

/// The components of an entity of `kind` at `(x, y)`.
pub fn spawn_parts(kind: SpawnKind, x: i32, y: i32) -> (parts: Vec<Component>)
    ensures
        built(parts@) == kind_parts(kind, x, y),
{
    match kind {
        SpawnKind::Bat => bat(x, y),
        SpawnKind::Skeleton => skeleton(x, y),
        SpawnKind::HealthPotion => health_potion(x, y),
        SpawnKind::FireballScroll => fireball_scroll(x, y),
        SpawnKind::ConfusionScroll => confusion_scroll(x, y),
        SpawnKind::MagicMissileScroll => magic_missile_scroll(x, y),
        SpawnKind::Knife => knife(x, y),
        SpawnKind::Shield => shield(x, y),
        SpawnKind::Longsword => longsword(x, y),
        SpawnKind::TowerShield => tower_shield(x, y),
    }
}

} // verus!

verus! {

// ---------------------------------------------------------------- random choices

/// The monster that a roll of one two-sided die brings: a bat on 1, else a skeleton.
pub open spec fn monster_for_roll_spec(roll: i32) -> SpawnKind {
    if roll == 1 {
        SpawnKind::Bat
    } else {
        SpawnKind::Skeleton
    }
}

/// The monster that a roll of one two-sided die brings.
pub fn monster_for_roll(roll: i32) -> (kind: SpawnKind)
    ensures
        kind == monster_for_roll_spec(roll),
{
    match roll {
        1 => SpawnKind::Bat,
        _ => SpawnKind::Skeleton,
    }
}

/// The item that a roll of one four-sided die brings: a health potion on 1, a scroll
/// of fireball on 2, one of confusion on 3, else one of magic missile.
pub open spec fn item_for_roll_spec(roll: i32) -> SpawnKind {
    if roll == 1 {
        SpawnKind::HealthPotion
    } else if roll == 2 {
        SpawnKind::FireballScroll
    } else if roll == 3 {
        SpawnKind::ConfusionScroll
    } else {
        SpawnKind::MagicMissileScroll
    }
}

/// The item that a roll of one four-sided die brings.
pub fn item_for_roll(roll: i32) -> (kind: SpawnKind)
    ensures
        kind == item_for_roll_spec(roll),
{
    match roll {
        1 => SpawnKind::HealthPotion,
        2 => SpawnKind::FireballScroll,
        3 => SpawnKind::ConfusionScroll,
        _ => SpawnKind::MagicMissileScroll,
    }
}

/// The record `after` is `before` with one more throw of one die of `sides` sides.
pub open spec fn one_throw(before: Seq<(i32, i32, i32)>, after: Seq<(i32, i32, i32)>, sides: i32) -> bool {
    &&& after == before.push(after.last())
    &&& after.last().0 == 1
    &&& after.last().1 == sides
    &&& 1 <= after.last().2 <= sides
}

/// A monster at `(x, y)`, chosen by one throw of a two-sided die.
pub fn random_monster(dice: &mut Dice, x: i32, y: i32) -> (parts: Vec<Component>)
    ensures
        one_throw(old(dice).thrown(), final(dice).thrown(), 2),
        built(parts@) == kind_parts(monster_for_roll_spec(final(dice).thrown().last().2), x, y),
{
    let roll = dice.roll(1, 2);
    spawn_parts(monster_for_roll(roll), x, y)
}

/// An item at `(x, y)`, chosen by one throw of a four-sided die.
pub fn random_item(dice: &mut Dice, x: i32, y: i32) -> (parts: Vec<Component>)
    ensures
        one_throw(old(dice).thrown(), final(dice).thrown(), 4),
        built(parts@) == kind_parts(item_for_roll_spec(final(dice).thrown().last().2), x, y),
{
    let roll = dice.roll(1, 4);
    spawn_parts(item_for_roll(roll), x, y)
}

// ---------------------------------------------------------------- rooms

/// `entries` with `item` added at the end where `weight` is positive.
pub open spec fn push_weighted(
    entries: Seq<RandomEntry<SpawnKind>>,
    item: SpawnKind,
    weight: int,
) -> Seq<RandomEntry<SpawnKind>> {
    if weight > 0 {
        entries.push(RandomEntry { item, weight: weight as i32 })
    } else {
        entries
    }
}

/// The weight that the room table of `depth` gives `kind`: bats 10, skeletons one more
/// than the depth, health potions 7, scrolls of fireball and of confusion two more than
/// the depth, scrolls of magic missile 4, knives and shields 3, longswords and tower
/// shields one less than the depth.
pub open spec fn room_weight(depth: int, kind: SpawnKind) -> int {
    match kind {
        SpawnKind::Bat => 10,
        SpawnKind::Skeleton => 1 + depth,
        SpawnKind::HealthPotion => 7,
        SpawnKind::FireballScroll => 2 + depth,
        SpawnKind::ConfusionScroll => 2 + depth,
        SpawnKind::MagicMissileScroll => 4,
        SpawnKind::Knife => 3,
        SpawnKind::Shield => 3,
        SpawnKind::Longsword => depth - 1,
        SpawnKind::TowerShield => depth - 1,
    }
}

/// How much a kind's weight in the room table grows from one depth to the next.
pub open spec fn depth_growth(kind: SpawnKind) -> int {
    match kind {
        SpawnKind::Skeleton | SpawnKind::FireballScroll | SpawnKind::ConfusionScroll
        | SpawnKind::Longsword | SpawnKind::TowerShield => 1,
        _ => 0,
    }
}

/// The kinds of the room table, in the order the table lists them.
pub open spec fn room_kinds() -> Seq<SpawnKind> {
    seq![
        SpawnKind::Bat,
        SpawnKind::Skeleton,
        SpawnKind::HealthPotion,
        SpawnKind::FireballScroll,
        SpawnKind::ConfusionScroll,
        SpawnKind::MagicMissileScroll,
        SpawnKind::Knife,
        SpawnKind::Shield,
        SpawnKind::Longsword,
        SpawnKind::TowerShield,
    ]
}

/// What the rooms at `depth` can receive: the kinds of `room_kinds` in their order, each
/// with its `room_weight`, where that weight is positive.
pub open spec fn room_entries(depth: int) -> Seq<RandomEntry<SpawnKind>> {
    let t = Seq::empty();
    let t = push_weighted(t, SpawnKind::Bat, room_weight(depth, SpawnKind::Bat));
    let t = push_weighted(t, SpawnKind::Skeleton, room_weight(depth, SpawnKind::Skeleton));
    let t = push_weighted(t, SpawnKind::HealthPotion, room_weight(depth, SpawnKind::HealthPotion));
    let t = push_weighted(t, SpawnKind::FireballScroll, room_weight(depth, SpawnKind::FireballScroll));
    let t = push_weighted(t, SpawnKind::ConfusionScroll, room_weight(depth, SpawnKind::ConfusionScroll));
    let t = push_weighted(
        t,
        SpawnKind::MagicMissileScroll,
        room_weight(depth, SpawnKind::MagicMissileScroll),
    );
    let t = push_weighted(t, SpawnKind::Knife, room_weight(depth, SpawnKind::Knife));
    let t = push_weighted(t, SpawnKind::Shield, room_weight(depth, SpawnKind::Shield));
    let t = push_weighted(t, SpawnKind::Longsword, room_weight(depth, SpawnKind::Longsword));
    push_weighted(t, SpawnKind::TowerShield, room_weight(depth, SpawnKind::TowerShield))
}

/// The depths at which the weights of the room table and their sum fit below `i32::MAX`.
pub open spec fn depth_in_range(depth: i32) -> bool {
    i32::MIN + 3 <= depth && 5 * depth + 30 < i32::MAX
}

fn add_weighted(table: RandomTable<SpawnKind>, item: SpawnKind, weight: i32) -> (t: RandomTable<SpawnKind>)
    requires
        total_weight(table.view()) + weight < i32::MAX,
    ensures
        t.view() == push_weighted(table.view(), item, weight as int),
        total_weight(t.view()) == total_weight(table.view()) + (if weight > 0 {
            weight as int
        } else {
            0
        }),
{
    let ghost before = table.view();
    let t = table.add(item, weight);
    proof {
        if weight > 0 {
            crate::random_table::lemma_total_push(before, RandomEntry { item, weight });
        }
    }
    t
}

/// The table that the rooms at `depth` are filled from.
pub fn room_table(map_depth: i32) -> (table: RandomTable<SpawnKind>)
    requires
        depth_in_range(map_depth),
    ensures
        table.view() == room_entries(map_depth as int),
{
    let t = RandomTable::new();
    assert(total_weight(t.view()) == 0);
    let t = add_weighted(t, SpawnKind::Bat, 10);
    let t = add_weighted(t, SpawnKind::Skeleton, 1 + map_depth);
    let t = add_weighted(t, SpawnKind::HealthPotion, 7);
    let t = add_weighted(t, SpawnKind::FireballScroll, 2 + map_depth);
    let t = add_weighted(t, SpawnKind::ConfusionScroll, 2 + map_depth);
    let t = add_weighted(t, SpawnKind::MagicMissileScroll, 4);
    let t = add_weighted(t, SpawnKind::Knife, 3);
    let t = add_weighted(t, SpawnKind::Shield, 3);
    let t = add_weighted(t, SpawnKind::Longsword, map_depth - 1);
    let t = add_weighted(t, SpawnKind::TowerShield, map_depth - 1);
    t
}

} // verus!

verus! {

/// A rectangle of the map from `(x1, y1)` to `(x2, y2)`.
#[derive(Clone, Copy, Debug, PartialEq, Eq, Structural)]
pub struct Rect {
    pub x1: i32,
    pub y1: i32,
    pub x2: i32,
    pub y2: i32,
}

/// An entity to place: on map cell `idx`, which is column `x` of row `y`.
#[derive(Clone, Copy, Debug, PartialEq, Eq, Structural)]
pub struct Spawn {
    pub idx: usize,
    pub x: i32,
    pub y: i32,
    pub kind: SpawnKind,
}

/// The distance from `a` to `b`.
pub open spec fn span(a: i32, b: i32) -> int {
    if b >= a {
        b - a
    } else {
        a - b
    }
}

/// The number of the cell in column `x` of row `y` of a map `width` cells wide.
pub open spec fn cell_index(x: int, y: int, width: int) -> int {
    y * width + x
}

/// Whether `idx` numbers a cell that a room's spawns may take: one of the `span`
/// columns right of `x1` and one of the `span` rows below `y1`.
pub open spec fn room_cell(room: Rect, map_width: usize, idx: int) -> bool {
    exists|cx: int, cy: int|
        room.x1 + 1 <= cx <= room.x1 + span(room.x1, room.x2) && room.y1 + 1 <= cy <= room.y1 + span(
            room.y1,
            room.y2,
        ) && idx == #[trigger] cell_index(cx, cy, map_width as int)
}

/// The rooms that can be filled: every cell a roll can pick (right of and below the
/// first corner) lies at a column and row of 0 or more that fit an `i32`, the room is at
/// least a cell wide and high (a die of its width and one of its height can be thrown),
/// and every cell number it gives fits a `usize`.
pub open spec fn room_fits(room: Rect, map_width: usize) -> bool {
    &&& -1 <= room.x1
    &&& -1 <= room.y1
    &&& room.x1 != room.x2
    &&& room.y1 != room.y2
    &&& span(room.x1, room.x2) < i32::MAX
    &&& span(room.y1, room.y2) < i32::MAX
    &&& room.x1 + span(room.x1, room.x2) <= i32::MAX
    &&& room.y1 + span(room.y1, room.y2) <= i32::MAX
    &&& 1 <= map_width
    &&& cell_index(
        room.x1 + span(room.x1, room.x2),
        room.y1 + span(room.y1, room.y2),
        map_width as int,
    ) <= usize::MAX
}

/// What a spawn point drawn from a table with `entries` holds: its cell `idx` is a cell
/// of the room, and its `kind` one that the table can draw.
pub open spec fn spawn_point_in(
    idx: usize,
    kind: SpawnKind,
    room: Rect,
    map_width: usize,
    entries: Seq<RandomEntry<SpawnKind>>,
) -> bool {
    &&& room_cell(room, map_width, idx as int)
    &&& exists|r: int| 0 <= r < total_weight(entries) && chosen(entries, r) == Some(kind)
}

/// What a spawn point of a room at `depth` holds: a cell of the room, and a kind that the
/// room table of the depth can draw.
pub open spec fn spawn_point_ok(idx: usize, kind: SpawnKind, room: Rect, map_width: usize, depth: int) -> bool {
    spawn_point_in(idx, kind, room, map_width, room_entries(depth))
}

/// The number of spawns a room at `depth` receives for a roll of its seven-sided die.
pub fn spawn_count(roll: i32, map_depth: i32) -> (count: i32)
    requires
        1 <= roll <= MAX_MONSTERS + 3,
        depth_in_range(map_depth),
    ensures
        count == roll + map_depth - 4,
{
    roll + (map_depth - 1) - 3
}

/// The cell that the rolls `rx` and `ry` pick in `room`: `rx` columns right of its
/// left corner and `ry` rows below it.
pub fn cell_for_rolls(room: &Rect, map_width: usize, rx: i32, ry: i32) -> (idx: usize)
    requires
        room_fits(*room, map_width),
        1 <= rx <= span(room.x1, room.x2),
        1 <= ry <= span(room.y1, room.y2),
    ensures
        idx == cell_index(room.x1 + rx, room.y1 + ry, map_width as int),
        room_cell(*room, map_width, idx as int),
{
    proof {
        let bottom = room.y1 + span(room.y1, room.y2);
        vstd::arithmetic::mul::lemma_mul_inequality((room.y1 + ry) as int, bottom, map_width as int);
    }
    let cx = room.x1 + rx;
    let cy = room.y1 + ry;
    let x = cx as usize;
    let y = cy as usize;
    let idx = y * map_width + x;
    assert(idx == cell_index(cx as int, cy as int, map_width as int));
    idx
}

/// Whether `t` is a throw of one die of `sides` sides.
pub open spec fn throw_of(t: Throw, sides: int) -> bool {
    t.0 == 1 && t.1 == sides
}

/// The cell that the throws `a` (for the column) and `b` (for the row) pick in `room`.
pub open spec fn picked_cell(room: Rect, map_width: usize, a: Throw, b: Throw) -> usize {
    cell_index(room.x1 + a.2, room.y1 + b.2, map_width as int) as usize
}

/// What placing spawns in `room` from a table of `entries` gives for the throws
/// `throws`, with `n` spawns still to place, `tries` cells already picked in vain for the
/// current one, and the spawn points `points` (cell to kind) placed so far; `None` where
/// the throws are not those that placing makes. Each pick is a throw of one die as wide
/// as the room, for the column right of the first corner, and one as high, for the row
/// below it. Where the picked cell holds a spawn point, the pick is spent, and after
/// twenty spent picks the spawn is given up. Else one throw of one die with as many
/// sides as the total weight follows, and the cell receives the kind that it picks
/// (counted from 0).
pub open spec fn replay(
    room: Rect,
    map_width: usize,
    entries: Seq<RandomEntry<SpawnKind>>,
    n: int,
    tries: int,
    points: Map<usize, SpawnKind>,
    throws: Seq<Throw>,
) -> Option<Map<usize, SpawnKind>>
    decreases throws.len(),
{
    if n <= 0 {
        if throws.len() == 0 {
            Some(points)
        } else {
            None
        }
    } else if throws.len() < 2 || !throw_of(throws[0], span(room.x1, room.x2)) || !throw_of(
        throws[1],
        span(room.y1, room.y2),
    ) {
        None
    } else {
        let idx = picked_cell(room, map_width, throws[0], throws[1]);
        let rest = throws.skip(2);
        if points.contains_key(idx) {
            if tries + 1 >= MAX_TRIES {
                replay(room, map_width, entries, n - 1, 0, points, rest)
            } else {
                replay(room, map_width, entries, n, tries + 1, points, rest)
            }
        } else if rest.len() == 0 || !throw_of(rest[0], total_weight(entries)) {
            None
        } else {
            match chosen(entries, rest[0].2 - 1) {
                Some(kind) => replay(
                    room,
                    map_width,
                    entries,
                    n - 1,
                    0,
                    points.insert(idx, kind),
                    rest.skip(1),
                ),
                None => None,
            }
        }
    }
}

proof fn lemma_replay_spent_pick(
    room: Rect,
    map_width: usize,
    entries: Seq<RandomEntry<SpawnKind>>,
    n: int,
    tries: int,
    points: Map<usize, SpawnKind>,
    a: Throw,
    b: Throw,
    c: Seq<Throw>,
)
    requires
        n >= 1,
        throw_of(a, span(room.x1, room.x2)),
        throw_of(b, span(room.y1, room.y2)),
        points.contains_key(picked_cell(room, map_width, a, b)),
    ensures
        replay(room, map_width, entries, n, tries, points, seq![a, b] + c) == (if tries + 1 >= MAX_TRIES {
            replay(room, map_width, entries, n - 1, 0, points, c)
        } else {
            replay(room, map_width, entries, n, tries + 1, points, c)
        }),
{
    let t = seq![a, b] + c;
    assert(t[0] == a);
    assert(t[1] == b);
    assert(t.skip(2) =~= c);
}

proof fn lemma_replay_placed(
    room: Rect,
    map_width: usize,
    entries: Seq<RandomEntry<SpawnKind>>,
    n: int,
    tries: int,
    points: Map<usize, SpawnKind>,
    a: Throw,
    b: Throw,
    d: Throw,
    kind: SpawnKind,
    c: Seq<Throw>,
)
    requires
        n >= 1,
        throw_of(a, span(room.x1, room.x2)),
        throw_of(b, span(room.y1, room.y2)),
        !points.contains_key(picked_cell(room, map_width, a, b)),
        throw_of(d, total_weight(entries)),
        chosen(entries, d.2 - 1) == Some(kind),
    ensures
        replay(room, map_width, entries, n, tries, points, seq![a, b, d] + c) == replay(
            room,
            map_width,
            entries,
            n - 1,
            0,
            points.insert(picked_cell(room, map_width, a, b), kind),
            c,
        ),
{
    let t = seq![a, b, d] + c;
    assert(t[0] == a);
    assert(t[1] == b);
    assert(t.skip(2)[0] == d);
    assert(t.skip(2).skip(1) =~= c);
}

/// Replaying `num_spawns` spawns from the throws `made` followed by any throws `c` comes
/// to the same as replaying from `c` alone, with `n` spawns still to place, `tries` picks
/// spent on the current one and the spawn points `points` placed.
pub open spec fn replays_as(
    room: Rect,
    map_width: usize,
    entries: Seq<RandomEntry<SpawnKind>>,
    num_spawns: int,
    made: Seq<Throw>,
    n: int,
    tries: int,
    points: Map<usize, SpawnKind>,
) -> bool {
    forall|c: Seq<Throw>|
        #[trigger] replay(room, map_width, entries, n, tries, points, c) == replay(
            room,
            map_width,
            entries,
            num_spawns,
            0,
            Map::empty(),
            made + c,
        )
}

proof fn lemma_replays_spent_pick(
    room: Rect,
    map_width: usize,
    entries: Seq<RandomEntry<SpawnKind>>,
    num_spawns: int,
    made: Seq<Throw>,
    n: int,
    tries: int,
    points: Map<usize, SpawnKind>,
    a: Throw,
    b: Throw,
)
    requires
        replays_as(room, map_width, entries, num_spawns, made, n, tries, points),
        n >= 1,
        throw_of(a, span(room.x1, room.x2)),
        throw_of(b, span(room.y1, room.y2)),
        points.contains_key(picked_cell(room, map_width, a, b)),
    ensures
        replays_as(
            room,
            map_width,
            entries,
            num_spawns,
            made.push(a).push(b),
            if tries + 1 >= MAX_TRIES {
                n - 1
            } else {
                n
            },
            if tries + 1 >= MAX_TRIES {
                0
            } else {
                tries + 1
            },
            points,
        ),
{
    let n2 = if tries + 1 >= MAX_TRIES {
        n - 1
    } else {
        n
    };
    let t2 = if tries + 1 >= MAX_TRIES {
        0
    } else {
        tries + 1
    };
    assert forall|c: Seq<Throw>|
        #[trigger] replay(room, map_width, entries, n2, t2, points, c) == replay(
            room,
            map_width,
            entries,
            num_spawns,
            0,
            Map::empty(),
            made.push(a).push(b) + c,
        ) by {
        lemma_replay_spent_pick(room, map_width, entries, n, tries, points, a, b, c);
        assert(replay(room, map_width, entries, n, tries, points, seq![a, b] + c) == replay(
            room,
            map_width,
            entries,
            num_spawns,
            0,
            Map::empty(),
            made + (seq![a, b] + c),
        ));
        assert(made.push(a).push(b) + c =~= made + (seq![a, b] + c));
    }
}

proof fn lemma_replays_placed(
    room: Rect,
    map_width: usize,
    entries: Seq<RandomEntry<SpawnKind>>,
    num_spawns: int,
    made: Seq<Throw>,
    n: int,
    tries: int,
    points: Map<usize, SpawnKind>,
    a: Throw,
    b: Throw,
    d: Throw,
    kind: SpawnKind,
)
    requires
        replays_as(room, map_width, entries, num_spawns, made, n, tries, points),
        n >= 1,
        throw_of(a, span(room.x1, room.x2)),
        throw_of(b, span(room.y1, room.y2)),
        !points.contains_key(picked_cell(room, map_width, a, b)),
        throw_of(d, total_weight(entries)),
        chosen(entries, d.2 - 1) == Some(kind),
    ensures
        replays_as(
            room,
            map_width,
            entries,
            num_spawns,
            made.push(a).push(b).push(d),
            n - 1,
            0,
            points.insert(picked_cell(room, map_width, a, b), kind),
        ),
{
    let placed = points.insert(picked_cell(room, map_width, a, b), kind);
    assert forall|c: Seq<Throw>|
        #[trigger] replay(room, map_width, entries, n - 1, 0, placed, c) == replay(
            room,
            map_width,
            entries,
            num_spawns,
            0,
            Map::empty(),
            made.push(a).push(b).push(d) + c,
        ) by {
        lemma_replay_placed(room, map_width, entries, n, tries, points, a, b, d, kind, c);
        assert(replay(room, map_width, entries, n, tries, points, seq![a, b, d] + c) == replay(
            room,
            map_width,
            entries,
            num_spawns,
            0,
            Map::empty(),
            made + (seq![a, b, d] + c),
        ));
        assert(made.push(a).push(b).push(d) + c =~= made + (seq![a, b, d] + c));
    }
}

/// The spawn of `kind` on cell `idx` of a map `map_width` cells wide: its column and row
/// are the remainder and the quotient of `idx` by the width, taken as `i32`.
pub open spec fn spawn_on(idx: usize, map_width: usize, kind: SpawnKind) -> Spawn {
    Spawn { idx, x: (idx % map_width) as i32, y: (idx / map_width) as i32, kind }
}

/// The spawn of `kind` on cell `idx` of a map `map_width` cells wide, with the column
/// and row of the cell.
pub fn spawn_at(idx: usize, map_width: usize, kind: SpawnKind) -> (s: Spawn)
    requires
        1 <= map_width,
    ensures
        s == spawn_on(idx, map_width, kind),
{
    Spawn { idx, x: (idx % map_width) as i32, y: (idx / map_width) as i32, kind }
}

/// One placement attempt on cell `idx`: where the cell already holds a spawn point
/// nothing changes and no die is thrown; else one roll of `table` gives the kind that the
/// cell receives.
pub fn placement_step(
    spawn_points: &mut HashMap<usize, SpawnKind>,
    idx: usize,
    table: &RandomTable<SpawnKind>,
    dice: &mut Dice,
) -> (added: bool)
    requires
        table.view().len() > 0,
    ensures
        added == !old(spawn_points)@.contains_key(idx),
        !added ==> final(spawn_points)@ == old(spawn_points)@ && final(dice).thrown() == old(dice).thrown(),
        added ==> table_throw(
            table.view(),
            old(dice).thrown(),
            final(dice).thrown(),
            Some(final(spawn_points)@[idx]),
        ),
        added ==> final(spawn_points)@ == old(spawn_points)@.insert(idx, final(spawn_points)@[idx]),
{
    if spawn_points.contains_key(&idx) {
        return false;
    }
    let kind = match table.roll(dice) {
        Some(k) => k,
        None => {
            assert(false);
            SpawnKind::Bat
        },
    };
    spawn_points.insert(idx, kind);
    true
}

fn distance(a: i32, b: i32) -> (d: i32)
    requires
        span(a, b) <= i32::MAX,
    ensures
        d == span(a, b),
{
    if b >= a {
        b - a
    } else {
        a - b
    }
}

/// The most placement attempts that one spawn makes.
pub const MAX_TRIES: i32 = 20;

/// The larger of `n` and 0.
pub open spec fn at_least_zero(n: int) -> int {
    if n > 0 {
        n
    } else {
        0
    }
}

/// Places `num_spawns` spawns in `room`, drawing their kinds from `table`: for each it
/// picks random cells of the room, at most twenty times, until it finds one that holds no
/// spawn point yet (see `placement_step`), and gives up on the spawn where all twenty
/// were taken. Returns the spawn points (cell to kind) and the number of cells it picked;
/// each pick is one throw for the column and one for the row, and each spawn one roll of
/// the table.
pub fn place_spawns(
    dice: &mut Dice,
    room: &Rect,
    table: &RandomTable<SpawnKind>,
    num_spawns: i32,
    map_width: usize,
) -> (placed: (HashMap<usize, SpawnKind>, u64))
    requires
        room_fits(*room, map_width),
        table.view().len() > 0,
    ensures
        placed.0@.len() <= at_least_zero(num_spawns as int),
        placed.0@.len() <= placed.1,
        placed.1 <= MAX_TRIES * at_least_zero(num_spawns as int),
        placed.1 >= placed.0@.len() + MAX_TRIES * (at_least_zero(num_spawns as int) - placed.0@.len()),
        final(dice).thrown().len() == old(dice).thrown().len() + 2 * placed.1 + placed.0@.len(),
        final(dice).thrown().subrange(0, old(dice).thrown().len() as int) == old(dice).thrown(),
        num_spawns <= 0 ==> placed.0@.len() == 0 && placed.1 == 0 && final(dice).thrown() == old(dice).thrown(),
        num_spawns >= 1 ==> placed.0@.len() >= 1,
        forall|idx: usize|
            #[trigger] placed.0@.contains_key(idx) ==> spawn_point_in(idx, placed.0@[idx], *room, map_width, table.view()),
        replay(
            *room,
            map_width,
            table.view(),
            num_spawns as int,
            0,
            Map::empty(),
            final(dice).thrown().skip(old(dice).thrown().len() as int),
        ) == Some(placed.0@),
{
    let ghost entries = table.view();
    let ghost start = dice.thrown();
    let mut spawn_points: HashMap<usize, SpawnKind> = HashMap::new();
    let mut attempts: u64 = 0;
    let dx = distance(room.x1, room.x2);
    let dy = distance(room.y1, room.y2);
    let mut i: i32 = 0;
    proof {
        assert(start.skip(start.len() as int) =~= Seq::<Throw>::empty());
        assert forall|c: Seq<Throw>|
            #[trigger] replay(*room, map_width, entries, num_spawns as int, 0, spawn_points@, c) == replay(
                *room,
                map_width,
                entries,
                num_spawns as int,
                0,
                Map::empty(),
                Seq::<Throw>::empty() + c,
            ) by {
            assert(Seq::<Throw>::empty() + c =~= c);
        }
    }
    while i < num_spawns
        invariant
            replays_as(
                *room,
                map_width,
                entries,
                num_spawns as int,
                dice.thrown().skip(start.len() as int),
                num_spawns - i,
                0,
                spawn_points@,
            ),
            table.view() == entries,
            entries.len() > 0,
            room_fits(*room, map_width),
            dx == span(room.x1, room.x2),
            dy == span(room.y1, room.y2),
            0 <= i,
            i == 0 || i <= num_spawns,
            spawn_points@.len() <= i,
            spawn_points@.len() <= attempts,
            attempts <= MAX_TRIES * i,
            attempts >= spawn_points@.len() + MAX_TRIES * (i - spawn_points@.len()),
            dice.thrown().len() == start.len() + 2 * attempts + spawn_points@.len(),
            dice.thrown().subrange(0, start.len() as int) == start,
            i == 0 ==> dice.thrown() == start,
            i >= 1 ==> spawn_points@.len() >= 1,
            forall|idx: usize|
                #[trigger] spawn_points@.contains_key(idx) ==> spawn_point_in(
                    idx,
                    spawn_points@[idx],
                    *room,
                    map_width,
                    entries,
                ),
        decreases num_spawns - i,
    {
        let mut added = false;
        let mut tries: i32 = 0;
        let ghost start_len = spawn_points@.len();
        let ghost start_attempts = attempts;
        while !added && tries < MAX_TRIES
            invariant
                replays_as(
                    *room,
                    map_width,
                    entries,
                    num_spawns as int,
                    dice.thrown().skip(start.len() as int),
                    num_spawns - i - (if added || tries >= MAX_TRIES {
                        1int
                    } else {
                        0
                    }),
                    if added || tries >= MAX_TRIES {
                        0
                    } else {
                        tries as int
                    },
                    spawn_points@,
                ),
                spawn_points@.len() >= start_len,
                !added ==> spawn_points@.len() == start_len,
                added ==> spawn_points@.len() == start_len + 1,
                start_len == 0 && !added ==> tries == 0,
                added ==> tries < MAX_TRIES,
                start_len <= i,
                i < num_spawns,
                start_len <= start_attempts,
                start_attempts <= MAX_TRIES * i,
                start_attempts >= start_len + MAX_TRIES * (i - start_len),
                attempts == start_attempts + tries + (if added {
                    1int
                } else {
                    0
                }),
                dice.thrown().len() == start.len() + 2 * attempts + spawn_points@.len(),
                dice.thrown().subrange(0, start.len() as int) == start,
                table.view() == entries,
                entries.len() > 0,
                room_fits(*room, map_width),
                dx == span(room.x1, room.x2),
                dy == span(room.y1, room.y2),
                0 <= tries <= MAX_TRIES,
                forall|idx: usize|
                    #[trigger] spawn_points@.contains_key(idx) ==> spawn_point_in(
                        idx,
                        spawn_points@[idx],
                        *room,
                        map_width,
                        entries,
                    ),
            decreases MAX_TRIES + 1 - tries - (if added {
                1int
            } else {
                0
            }),
        {
            let ghost thrown0 = dice.thrown();
            let rx = dice.roll(1, dx);
            let ry = dice.roll(1, dy);
            attempts = attempts + 1;
            let idx = cell_for_rolls(room, map_width, rx, ry);
            let ghost before = spawn_points@;
            let ghost thrown1 = dice.thrown();
            let ghost a: Throw = (1i32, dx, rx);
            let ghost b: Throw = (1i32, dy, ry);
            let ghost made0 = thrown0.skip(start.len() as int);
            assert(thrown1.subrange(0, start.len() as int) =~= start) by {
                assert(thrown1.subrange(0, start.len() as int) =~= thrown0.subrange(0, start.len() as int));
            }
            assert(thrown1.skip(start.len() as int) =~= made0.push(a).push(b));
            assert(picked_cell(*room, map_width, a, b) == idx);
            if placement_step(&mut spawn_points, idx, table, dice) {
                proof {
                    let d = dice.thrown().last();
                    let kind = spawn_points@[idx];
                    lemma_replays_placed(
                        *room,
                        map_width,
                        entries,
                        num_spawns as int,
                        made0,
                        num_spawns - i,
                        tries as int,
                        before,
                        a,
                        b,
                        d,
                        kind,
                    );
                    assert(dice.thrown().skip(start.len() as int) =~= made0.push(a).push(b).push(d));
                    assert(dice.thrown().subrange(0, start.len() as int) =~= thrown1.subrange(0, start.len() as int));
                    assert(before.dom().finite()) by {
                        assert(thrown0.len() >= 0);
                    }
                    assert(spawn_points@.dom() =~= before.dom().insert(idx));
                    assert(chosen(entries, d.2 - 1) == Some(kind));
                    assert(0 <= d.2 - 1 < total_weight(entries));
                    assert forall|k: usize| #[trigger] spawn_points@.contains_key(k) implies spawn_point_in(
                        k,
                        spawn_points@[k],
                        *room,
                        map_width,
                        entries,
                    ) by {
                        if k != idx {
                            assert(before.contains_key(k));
                            assert(spawn_points@[k] == before[k]);
                        }
                    }
                }
                added = true;
            } else {
                proof {
                    lemma_replays_spent_pick(
                        *room,
                        map_width,
                        entries,
                        num_spawns as int,
                        made0,
                        num_spawns - i,
                        tries as int,
                        before,
                        a,
                        b,
                    );
                }
                tries = tries + 1;
            }
        }
        i = i + 1;
    }
    proof {
        let made = dice.thrown().skip(start.len() as int);
        assert(made + Seq::<Throw>::empty() =~= made);
        assert(replay(*room, map_width, entries, num_spawns - i, 0, spawn_points@, Seq::<Throw>::empty()) == replay(
            *room,
            map_width,
            entries,
            num_spawns as int,
            0,
            Map::empty(),
            made + Seq::<Throw>::empty(),
        ));
    }
    (spawn_points, attempts)
}

/// What filling a room gave: the roll of its count die, the number of cells picked,
/// and the spawn points (cell to kind).
pub struct RoomFill {
    pub count_roll: i32,
    pub attempts: u64,
    pub spawns: HashMap<usize, SpawnKind>,
}

/// Fills a room: throws the count die (seven-sided; the room receives its roll plus the
/// depth, less four, spawns), and places them with `place_spawns`, drawing their kinds
/// from the room table of `map_depth`. `map_width` is the width of the map whose cells
/// the room numbers.
pub fn spawn_room(dice: &mut Dice, room: &Rect, map_depth: i32, map_width: usize) -> (fill: RoomFill)
    requires
        depth_in_range(map_depth),
        room_fits(*room, map_width),
    ensures
        final(dice).thrown().len() == old(dice).thrown().len() + 1 + 2 * fill.attempts + fill.spawns@.len(),
        final(dice).thrown()[old(dice).thrown().len() as int] == (1i32, 7i32, fill.count_roll),
        forall|k: int| 0 <= k < old(dice).thrown().len() ==> final(dice).thrown()[k] == old(dice).thrown()[k],
        1 <= fill.count_roll <= MAX_MONSTERS + 3,
        fill.spawns@.len() <= at_least_zero(fill.count_roll + map_depth - 4),
        fill.spawns@.len() <= fill.attempts,
        fill.attempts <= MAX_TRIES * at_least_zero(fill.count_roll + map_depth - 4),
        fill.attempts >= fill.spawns@.len() + MAX_TRIES * (at_least_zero(fill.count_roll + map_depth - 4)
            - fill.spawns@.len()),
        fill.count_roll + map_depth - 4 <= 0 ==> fill.spawns@.len() == 0 && fill.attempts == 0,
        fill.count_roll + map_depth - 4 >= 1 ==> fill.spawns@.len() >= 1,
        forall|idx: usize|
            #[trigger] fill.spawns@.contains_key(idx) ==> spawn_point_ok(
                idx,
                fill.spawns@[idx],
                *room,
                map_width,
                map_depth as int,
            ),
        replay(
            *room,
            map_width,
            room_entries(map_depth as int),
            fill.count_roll + map_depth - 4,
            0,
            Map::empty(),
            final(dice).thrown().skip(old(dice).thrown().len() as int + 1),
        ) == Some(fill.spawns@),
{
    let spawn_table = room_table(map_depth);
    proof {
        assert(room_entries(map_depth as int).len() > 0);
    }
    let ghost before = dice.thrown();
    let count_roll = dice.roll(1, MAX_MONSTERS + 3);
    let ghost after_count = dice.thrown();
    let num_spawns = spawn_count(count_roll, map_depth);
    let (spawns, attempts) = place_spawns(dice, room, &spawn_table, num_spawns, map_width);
    proof {
        assert(after_count[before.len() as int] == (1i32, 7i32, count_roll));
        assert(dice.thrown().subrange(0, after_count.len() as int) == after_count);
        assert(dice.thrown()[before.len() as int] == dice.thrown().subrange(0, after_count.len() as int)[before.len() as int]);
        assert forall|k: int| 0 <= k < before.len() implies dice.thrown()[k] == before[k] by {
            assert(dice.thrown().subrange(0, after_count.len() as int)[k] == dice.thrown()[k]);
            assert(after_count[k] == before[k]);
        }
    }
    RoomFill { count_roll, attempts, spawns }
}

} // verus!

verus! {

proof fn lemma_push_weighted_total(entries: Seq<RandomEntry<SpawnKind>>, item: SpawnKind, weight: int)
    requires
        weight <= i32::MAX,
    ensures
        total_weight(push_weighted(entries, item, weight)) == total_weight(entries) + (if weight > 0 {
            weight
        } else {
            0
        }),
{
    if weight > 0 {
        crate::random_table::lemma_total_push(entries, RandomEntry { item, weight: weight as i32 });
    }
}

/// From depth 2 on, the weights of the room table sum to thirty and five times the
/// depth.
pub proof fn law_room_total_weight(depth: int)
    requires
        2 <= depth,
        5 * depth + 30 < i32::MAX,
    ensures
        total_weight(room_entries(depth)) == 30 + 5 * depth,
{
    let t0 = Seq::<RandomEntry<SpawnKind>>::empty();
    assert(total_weight(t0) == 0);
    let t1 = push_weighted(t0, SpawnKind::Bat, 10);
    lemma_push_weighted_total(t0, SpawnKind::Bat, 10);
    let t2 = push_weighted(t1, SpawnKind::Skeleton, 1 + depth);
    lemma_push_weighted_total(t1, SpawnKind::Skeleton, 1 + depth);
    let t3 = push_weighted(t2, SpawnKind::HealthPotion, 7);
    lemma_push_weighted_total(t2, SpawnKind::HealthPotion, 7);
    let t4 = push_weighted(t3, SpawnKind::FireballScroll, 2 + depth);
    lemma_push_weighted_total(t3, SpawnKind::FireballScroll, 2 + depth);
    let t5 = push_weighted(t4, SpawnKind::ConfusionScroll, 2 + depth);
    lemma_push_weighted_total(t4, SpawnKind::ConfusionScroll, 2 + depth);
    let t6 = push_weighted(t5, SpawnKind::MagicMissileScroll, 4);
    lemma_push_weighted_total(t5, SpawnKind::MagicMissileScroll, 4);
    let t7 = push_weighted(t6, SpawnKind::Knife, 3);
    lemma_push_weighted_total(t6, SpawnKind::Knife, 3);
    let t8 = push_weighted(t7, SpawnKind::Shield, 3);
    lemma_push_weighted_total(t7, SpawnKind::Shield, 3);
    let t9 = push_weighted(t8, SpawnKind::Longsword, depth - 1);
    lemma_push_weighted_total(t8, SpawnKind::Longsword, depth - 1);
    lemma_push_weighted_total(t9, SpawnKind::TowerShield, depth - 1);
}

/// Rooms at depth 1 or less never receive longswords or tower shields: their weight
/// is not positive, so the table leaves them out.
pub proof fn law_no_heavy_gear_above_depth_two(depth: int, r: int)
    requires
        depth <= 1,
    ensures
        chosen(room_entries(depth), r) != Some(SpawnKind::Longsword),
        chosen(room_entries(depth), r) != Some(SpawnKind::TowerShield),
{
    let entries = room_entries(depth);
    assert forall|k: int| 0 <= k < entries.len() implies #[trigger] entries[k].item != SpawnKind::Longsword
        && entries[k].item != SpawnKind::TowerShield by {
    }
    if chosen(entries, r) is Some {
        crate::random_table::law_roll_lands_on_entry(entries, r);
    }
}

/// From one depth to the next, the weight of skeletons, of both scrolls of fireball and
/// of confusion, of longswords and of tower shields grows by one; the others stay.
pub proof fn law_room_weight_growth(depth: int, kind: SpawnKind)
    ensures
        room_weight(depth + 1, kind) == room_weight(depth, kind) + depth_growth(kind),
{
}

/// From depth 2 on, the room table lists all ten kinds in the same order, each with its
/// weight of the depth; so from one such depth to the next the table keeps its kinds and
/// each weight grows by the kind's `depth_growth`.
pub proof fn law_room_entries_by_depth(depth: int)
    requires
        2 <= depth,
        5 * (depth + 1) + 30 < i32::MAX,
    ensures
        room_entries(depth).len() == 10,
        room_entries(depth + 1).len() == 10,
        forall|i: int|
            0 <= i < 10 ==> (#[trigger] room_entries(depth)[i]).item == room_kinds()[i]
                && room_entries(depth)[i].weight == room_weight(depth, room_kinds()[i]),
        forall|i: int|
            0 <= i < 10 ==> (#[trigger] room_entries(depth + 1)[i]).item == room_entries(depth)[i].item
                && room_entries(depth + 1)[i].weight == room_entries(depth)[i].weight
                + depth_growth(room_entries(depth)[i].item),
{
    let full = |d: int|
        seq![
            RandomEntry { item: SpawnKind::Bat, weight: room_weight(d, SpawnKind::Bat) as i32 },
            RandomEntry { item: SpawnKind::Skeleton, weight: room_weight(d, SpawnKind::Skeleton) as i32 },
            RandomEntry { item: SpawnKind::HealthPotion, weight: room_weight(d, SpawnKind::HealthPotion) as i32 },
            RandomEntry {
                item: SpawnKind::FireballScroll,
                weight: room_weight(d, SpawnKind::FireballScroll) as i32,
            },
            RandomEntry {
                item: SpawnKind::ConfusionScroll,
                weight: room_weight(d, SpawnKind::ConfusionScroll) as i32,
            },
            RandomEntry {
                item: SpawnKind::MagicMissileScroll,
                weight: room_weight(d, SpawnKind::MagicMissileScroll) as i32,
            },
            RandomEntry { item: SpawnKind::Knife, weight: room_weight(d, SpawnKind::Knife) as i32 },
            RandomEntry { item: SpawnKind::Shield, weight: room_weight(d, SpawnKind::Shield) as i32 },
            RandomEntry { item: SpawnKind::Longsword, weight: room_weight(d, SpawnKind::Longsword) as i32 },
            RandomEntry {
                item: SpawnKind::TowerShield,
                weight: room_weight(d, SpawnKind::TowerShield) as i32,
            },
        ];
    assert(room_entries(depth) =~= full(depth));
    assert(room_entries(depth + 1) =~= full(depth + 1));
}

/// Health potions have weight 7 and scrolls of magic missile weight 4 in the room table
/// of every depth: each is listed once with that weight. From depth 0 on (where skeletons
/// are listed) the potion is the third entry and the scroll the sixth, so the potion is
/// drawn by the seven rolls from eleven plus the depth, and the scroll by the four rolls
/// from twenty-two plus three times the depth (at depth 1: rolls 12 to 18, and 25 to 28).
pub proof fn law_potion_and_missile_weights(depth: int, r: int)
    requires
        i32::MIN + 3 <= depth,
        5 * depth + 30 < i32::MAX,
    ensures
        exists|k: int|
            0 <= k < room_entries(depth).len() && #[trigger] room_entries(depth)[k] == (RandomEntry {
                item: SpawnKind::HealthPotion,
                weight: 7i32,
            }),
        exists|k: int|
            0 <= k < room_entries(depth).len() && #[trigger] room_entries(depth)[k] == (RandomEntry {
                item: SpawnKind::MagicMissileScroll,
                weight: 4i32,
            }),
        forall|k: int|
            0 <= k < room_entries(depth).len() && (#[trigger] room_entries(depth)[k]).item
                == SpawnKind::HealthPotion ==> room_entries(depth)[k].weight == 7,
        forall|k: int|
            0 <= k < room_entries(depth).len() && (#[trigger] room_entries(depth)[k]).item
                == SpawnKind::MagicMissileScroll ==> room_entries(depth)[k].weight == 4,
        0 <= depth ==> room_entries(depth)[2] == (RandomEntry { item: SpawnKind::HealthPotion, weight: 7i32 }),
        0 <= depth ==> room_entries(depth)[5] == (RandomEntry {
            item: SpawnKind::MagicMissileScroll,
            weight: 4i32,
        }),
        0 <= depth && 11 + depth <= r < 18 + depth ==> chosen(room_entries(depth), r) == Some(
            SpawnKind::HealthPotion,
        ),
        0 <= depth && 22 + 3 * depth <= r < 26 + 3 * depth ==> chosen(room_entries(depth), r) == Some(
            SpawnKind::MagicMissileScroll,
        ),
{
    let entries = room_entries(depth);
    let bat = RandomEntry { item: SpawnKind::Bat, weight: 10i32 };
    let skeleton = RandomEntry { item: SpawnKind::Skeleton, weight: (1 + depth) as i32 };
    let potion = RandomEntry { item: SpawnKind::HealthPotion, weight: 7i32 };
    let fireball = RandomEntry { item: SpawnKind::FireballScroll, weight: (2 + depth) as i32 };
    let confusion = RandomEntry { item: SpawnKind::ConfusionScroll, weight: (2 + depth) as i32 };
    let missile = RandomEntry { item: SpawnKind::MagicMissileScroll, weight: 4i32 };
    let knife = RandomEntry { item: SpawnKind::Knife, weight: 3i32 };
    let shield = RandomEntry { item: SpawnKind::Shield, weight: 3i32 };
    let longsword = RandomEntry { item: SpawnKind::Longsword, weight: (depth - 1) as i32 };
    let tower = RandomEntry { item: SpawnKind::TowerShield, weight: (depth - 1) as i32 };
    let tail = seq![missile, knife, shield];
    let full = if depth >= 2 {
        seq![bat, skeleton, potion, fireball, confusion] + tail + seq![longsword, tower]
    } else if depth >= 0 {
        seq![bat, skeleton, potion, fireball, confusion] + tail
    } else if depth == -1 {
        seq![bat, potion, fireball, confusion] + tail
    } else {
        seq![bat, potion] + tail
    };
    assert(entries =~= full);
    let p: int = if depth >= 0 {
        2
    } else {
        1
    };
    let m: int = if depth >= 0 {
        5
    } else if depth == -1 {
        4
    } else {
        2
    };
    assert(entries[p] == potion);
    assert(entries[m] == missile);
    if 0 <= depth {
        assert(crate::random_table::all_positive(entries));
        reveal_with_fuel(total_weight, 6);
        if 11 + depth <= r < 18 + depth {
            assert(entries.take(2) =~= seq![bat, skeleton]);
            crate::random_table::law_weights_honored(entries, 2, r);
        }
        if 22 + 3 * depth <= r < 26 + 3 * depth {
            assert(entries.take(5) =~= seq![bat, skeleton, potion, fireball, confusion]);
            crate::random_table::law_weights_honored(entries, 5, r);
        }
    }
}

/// The room table of a depth of 0 or more lists, in this order: bats at weight 10,
/// skeletons at one more than the depth, health potions at 7, scrolls of fireball and of
/// confusion at two more than the depth, scrolls of magic missile at 4, knives and
/// shields at 3, and, from depth 2 on, longswords and tower shields at one less than the
/// depth.
pub proof fn law_room_table_listing(depth: int)
    requires
        0 <= depth,
        5 * depth + 30 < i32::MAX,
    ensures
        room_entries(depth).len() == if depth >= 2 {
            10int
        } else {
            8int
        },
        room_entries(depth)[0] == (RandomEntry { item: SpawnKind::Bat, weight: 10i32 }),
        room_entries(depth)[1] == (RandomEntry { item: SpawnKind::Skeleton, weight: (depth + 1) as i32 }),
        room_entries(depth)[2] == (RandomEntry { item: SpawnKind::HealthPotion, weight: 7i32 }),
        room_entries(depth)[3] == (RandomEntry { item: SpawnKind::FireballScroll, weight: (depth + 2) as i32 }),
        room_entries(depth)[4] == (RandomEntry { item: SpawnKind::ConfusionScroll, weight: (depth + 2) as i32 }),
        room_entries(depth)[5] == (RandomEntry { item: SpawnKind::MagicMissileScroll, weight: 4i32 }),
        room_entries(depth)[6] == (RandomEntry { item: SpawnKind::Knife, weight: 3i32 }),
        room_entries(depth)[7] == (RandomEntry { item: SpawnKind::Shield, weight: 3i32 }),
        depth >= 2 ==> room_entries(depth)[8] == (RandomEntry {
            item: SpawnKind::Longsword,
            weight: (depth - 1) as i32,
        }),
        depth >= 2 ==> room_entries(depth)[9] == (RandomEntry {
            item: SpawnKind::TowerShield,
            weight: (depth - 1) as i32,
        }),
{
}

/// What every spawned entity is made of: it stands where it was spawned and carries its
/// kind's name; bats and skeletons, and only they, are monsters, which block their cell
/// and fight with the same 16 hit points, defense 1 and power 4; everything else is an
/// item, which blocks nothing; potions and scrolls, and only they, are used up; the three
/// scrolls, and only they, reach 6 cells.
pub proof fn law_spawned_entities(kind: SpawnKind, x: i32, y: i32)
    ensures
        kind_parts(kind, x, y)[0] == (Part::<Seq<char>>::Position { x, y }),
        kind_parts(kind, x, y).contains(Part::<Seq<char>>::Name { name: kind_name(kind) }),
        (kind == SpawnKind::Bat || kind == SpawnKind::Skeleton) <==> kind_parts(kind, x, y).contains(
            Part::<Seq<char>>::Monster,
        ),
        (kind == SpawnKind::Bat || kind == SpawnKind::Skeleton) <==> kind_parts(kind, x, y).contains(
            Part::<Seq<char>>::BlocksTile,
        ),
        (kind == SpawnKind::Bat || kind == SpawnKind::Skeleton) ==> kind_parts(kind, x, y).contains(
            Part::<Seq<char>>::CombatStats { max_hp: 16, hp: 16, defense: 1, power: 4 },
        ),
        !(kind == SpawnKind::Bat || kind == SpawnKind::Skeleton) <==> kind_parts(kind, x, y).contains(
            Part::<Seq<char>>::Item,
        ),
        (kind == SpawnKind::HealthPotion || kind == SpawnKind::FireballScroll || kind
            == SpawnKind::ConfusionScroll || kind == SpawnKind::MagicMissileScroll) <==> kind_parts(
            kind,
            x,
            y,
        ).contains(Part::<Seq<char>>::Consumable),
        (kind == SpawnKind::FireballScroll || kind == SpawnKind::ConfusionScroll || kind
            == SpawnKind::MagicMissileScroll) <==> kind_parts(kind, x, y).contains(Part::<Seq<char>>::Ranged { range: 6 }),
{
    let parts = kind_parts(kind, x, y);
    if kind == SpawnKind::Bat || kind == SpawnKind::Skeleton {
        assert(parts[3] == Part::<Seq<char>>::Monster);
        assert(parts[4] == Part::Name { name: kind_name(kind) });
        assert(parts[5] == Part::<Seq<char>>::BlocksTile);
        assert(parts[6] == Part::<Seq<char>>::CombatStats { max_hp: 16, hp: 16, defense: 1, power: 4 });
    } else {
        assert(parts[2] == Part::Name { name: kind_name(kind) });
        assert(parts[3] == Part::<Seq<char>>::Item);
        assert(parts[4] is Consumable || parts[4] is Equippable);
        if kind != SpawnKind::HealthPotion && parts[4] is Consumable {
            assert(parts[5] == Part::<Seq<char>>::Ranged { range: 6 });
        }
    }
}

/// What the items do: the health potion, and only it, heals, by 8; the scroll of
/// fireball, and only it, strikes an area, of radius 3, for 20 damage; the scroll of
/// magic missile strikes one target for 8; the scroll of confusion, and only it,
/// confuses, for 4 turns; a knife adds 2 and a longsword 4 to power; a shield adds 1 and
/// a tower shield 3 to defense.
pub proof fn law_item_effects(kind: SpawnKind, x: i32, y: i32)
    ensures
        kind == SpawnKind::HealthPotion <==> kind_parts(kind, x, y).contains(
            Part::<Seq<char>>::ProvidesHealing { heal_amount: 8 },
        ),
        kind == SpawnKind::FireballScroll <==> kind_parts(kind, x, y).contains(
            Part::<Seq<char>>::AreaOfEffect { radius: 3 },
        ),
        kind == SpawnKind::FireballScroll <==> kind_parts(kind, x, y).contains(
            Part::<Seq<char>>::InflictsDamage { damage: 20 },
        ),
        kind == SpawnKind::MagicMissileScroll <==> kind_parts(kind, x, y).contains(
            Part::<Seq<char>>::InflictsDamage { damage: 8 },
        ),
        kind == SpawnKind::ConfusionScroll <==> kind_parts(kind, x, y).contains(
            Part::<Seq<char>>::Confusion { turns: 4 },
        ),
        kind == SpawnKind::Knife <==> kind_parts(kind, x, y).contains(Part::<Seq<char>>::MeleePowerBonus { power: 2 }),
        kind == SpawnKind::Longsword <==> kind_parts(kind, x, y).contains(
            Part::<Seq<char>>::MeleePowerBonus { power: 4 },
        ),
        kind == SpawnKind::Shield <==> kind_parts(kind, x, y).contains(Part::<Seq<char>>::DefenseBonus { defense: 1 }),
        kind == SpawnKind::TowerShield <==> kind_parts(kind, x, y).contains(
            Part::<Seq<char>>::DefenseBonus { defense: 3 },
        ),
{
    let parts = kind_parts(kind, x, y);
    match kind {
        SpawnKind::HealthPotion => assert(parts[5] == Part::<Seq<char>>::ProvidesHealing { heal_amount: 8 }),
        SpawnKind::FireballScroll => {
            assert(parts[6] == Part::<Seq<char>>::InflictsDamage { damage: 20 });
            assert(parts[7] == Part::<Seq<char>>::AreaOfEffect { radius: 3 });
        },
        SpawnKind::MagicMissileScroll => assert(parts[6] == Part::<Seq<char>>::InflictsDamage { damage: 8 }),
        SpawnKind::ConfusionScroll => assert(parts[6] == Part::<Seq<char>>::Confusion { turns: 4 }),
        SpawnKind::Knife => assert(parts[5] == Part::<Seq<char>>::MeleePowerBonus { power: 2 }),
        SpawnKind::Longsword => assert(parts[5] == Part::<Seq<char>>::MeleePowerBonus { power: 4 }),
        SpawnKind::Shield => assert(parts[5] == Part::<Seq<char>>::DefenseBonus { defense: 1 }),
        SpawnKind::TowerShield => assert(parts[5] == Part::<Seq<char>>::DefenseBonus { defense: 3 }),
        _ => {},
    }
}

/// The random picks: the two faces of the monster die bring the two monsters, a bat on
/// 1 and a skeleton on 2; the four faces of the item die bring four different items, all
/// used up when used: a health potion on 1, scrolls of fireball on 2, of confusion on 3
/// and of magic missile on 4.
pub proof fn law_random_picks(r: i32, s: i32)
    ensures
        1 <= r <= 2 ==> kind_parts(monster_for_roll_spec(r), 0, 0).contains(Part::<Seq<char>>::Monster),
        1 <= r <= 2 && 1 <= s <= 2 && r != s ==> monster_for_roll_spec(r) != monster_for_roll_spec(s),
        monster_for_roll_spec(1) == SpawnKind::Bat,
        1 <= r <= 4 ==> kind_parts(item_for_roll_spec(r), 0, 0).contains(Part::<Seq<char>>::Consumable),
        1 <= r <= 4 && 1 <= s <= 4 && r != s ==> item_for_roll_spec(r) != item_for_roll_spec(s),
        item_for_roll_spec(1) == SpawnKind::HealthPotion,
        item_for_roll_spec(2) == SpawnKind::FireballScroll,
        item_for_roll_spec(3) == SpawnKind::ConfusionScroll,
        item_for_roll_spec(4) == SpawnKind::MagicMissileScroll,
{
    law_spawned_entities(monster_for_roll_spec(r), 0, 0);
    law_spawned_entities(item_for_roll_spec(r), 0, 0);
}

/// The player stands where it is placed, is the player and no monster, blocks no cell,
/// sees 8 cells far, and starts with 30 of 30 hit points, defense 2 and power 5: more
/// hit points, defense and power than a monster.
pub proof fn law_player(x: i32, y: i32)
    ensures
        player_parts(x, y)[0] == (Part::<Seq<char>>::Position { x, y }),
        player_parts(x, y).contains(Part::<Seq<char>>::Player),
        !player_parts(x, y).contains(Part::<Seq<char>>::Monster),
        !player_parts(x, y).contains(Part::<Seq<char>>::BlocksTile),
        player_parts(x, y).contains(Part::<Seq<char>>::Viewshed { range: 8, dirty: true }),
        player_parts(x, y).contains(Part::<Seq<char>>::CombatStats { max_hp: 30, hp: 30, defense: 2, power: 5 }),
{
    let parts = player_parts(x, y);
    assert(parts[2] == Part::<Seq<char>>::Player);
    assert(parts[3] == Part::<Seq<char>>::Viewshed { range: 8, dirty: true });
    assert(parts[5] == Part::<Seq<char>>::CombatStats { max_hp: 30, hp: 30, defense: 2, power: 5 });
}

/// Every piece of equipment a room can receive is worn in the slot its bonus calls for:
/// an entity built with a bonus to melee power (knife, longsword) is equippable in the
/// melee slot only, one with a bonus to defense (shield, tower shield) in the shield slot
/// only, and each entity with either bonus is equippable.
pub proof fn law_bonus_slots(kind: SpawnKind, x: i32, y: i32, i: int, j: int)
    requires
        0 <= i < kind_parts(kind, x, y).len(),
        0 <= j < kind_parts(kind, x, y).len(),
    ensures
        kind_parts(kind, x, y)[i] is MeleePowerBonus && kind_parts(kind, x, y)[j] is Equippable
            ==> kind_parts(kind, x, y)[j]->slot == EquipmentSlot::Melee,
        kind_parts(kind, x, y)[i] is DefenseBonus && kind_parts(kind, x, y)[j] is Equippable
            ==> kind_parts(kind, x, y)[j]->slot == EquipmentSlot::Shield,
        kind_parts(kind, x, y)[i] is MeleePowerBonus || kind_parts(kind, x, y)[i] is DefenseBonus
            ==> exists|k: int| 0 <= k < kind_parts(kind, x, y).len() && #[trigger] kind_parts(kind, x, y)[k] is Equippable,
{
    let parts = kind_parts(kind, x, y);
    match kind {
        SpawnKind::Knife | SpawnKind::Shield | SpawnKind::Longsword | SpawnKind::TowerShield => {
            assert(parts.len() == 6);
            assert(parts[4] is Equippable);
            assert(!(parts[0] is Equippable) && !(parts[1] is Equippable) && !(parts[2] is Equippable)
                && !(parts[3] is Equippable) && !(parts[5] is Equippable));
        },
        _ => {
            assert forall|k: int| 0 <= k < parts.len() implies !(#[trigger] parts[k] is MeleePowerBonus)
                && !(parts[k] is DefenseBonus) by {
            }
        },
    }
}

/// Every room table can draw bats, on the first ten rolls.
pub proof fn law_bats_everywhere(depth: int, r: int)
    requires
        0 <= r < 10,
    ensures
        chosen(room_entries(depth), r) == Some(SpawnKind::Bat),
{
    let entries = room_entries(depth);
    assert(entries[0] == RandomEntry { item: SpawnKind::Bat, weight: 10i32 });
}

} // verus!
