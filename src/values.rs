//! The values that fill a statement's parameter slots.
//!
//! Numbers are held as their decimal text, exactly as they appear in the
//! serialized output; the library reads them no further.
use vstd::prelude::*;

verus! {

/// A number, held as the decimal text that the output carries.
pub type DFNum = String;

/// A number of double precision, held as its decimal text.
pub type DFNumPrecise = String;

/// The 27 parameter slots of a statement, indices 0 to 26.
pub type ParameterList = [Option<Value>; 27];

/// A value that can fill one parameter slot.
///
/// Particle effects and items have no serialized form; they cannot be put
/// into a slot, so a slot never holds one.
pub enum Value {
    Text(Text),
    Number(Number),
    Location(Location),
    Vector(Vector),
    Sound(Sound),
    Potion(Potion),
    Variable(Variable),
    GameValue(GameValue),
    Tag(Tag),
}

/// Text, written into the output as it is (the caller escapes it).
pub struct Text(pub String);

pub struct Number(pub DFNum);

/// A point in the world; never a block location.
pub struct Location {
    pub x: DFNum,
    pub y: DFNum,
    pub z: DFNum,
    pub pitch: DFNum,
    pub yaw: DFNum,
}

pub struct Vector {
    pub x: DFNumPrecise,
    pub y: DFNumPrecise,
    pub z: DFNumPrecise,
}

/// A particle effect. It has no serialized form and no slot takes it.
pub struct Particle {
    pub particle: String,
    pub amount: u64,
    pub color: Option<(u8, u8, u8)>,
    pub variation_color: Option<DFNum>,
    pub material: Option<String>,
    pub motion: Option<Vector>,
    pub variation_motion: Option<DFNum>,
    pub roll: Option<DFNum>,
    pub size: Option<DFNum>,
    pub variation_size: Option<DFNum>,
    pub spread: (DFNum, DFNum),
}

pub struct Potion {
    pub effect: PotionEffect,
    pub ticks: u64,
    pub level: i16,
}

pub enum PotionEffect {
    Absorption,
    ConduitPower,
    DolphinGrace,
    FireResistance,
    Haste,
    HealthBoost,
    HeroOfTheVillage,
    InstantHealth,
    Invisibility,
    JumpBoost,
    Luck,
    NightVision,
    Regeneration,
    Resistance,
    Saturation,
    SlowFalling,
    Speed,
    Strength,
    WaterBreathing,
    BadLuck,
    BadOmen,
    Blindness,
    Darkness,
    Glowing,
    Hunger,
    InstantDamage,
    Levitation,
    MiningFatigue,
    Nausea,
    Poison,
    Slowness,
    Weakness,
    Wither,
}

pub struct Variable {
    pub name: String,
    pub scope: VariableScope,
}

pub enum VariableScope {
    Local,
    Global,
    Saved,
}

pub struct GameValue {
    pub name: String,
    pub selector: Option<Selector>,
}

/// Whom a statement or a game value is about.
#[derive(Copy, Clone)]
pub enum Selector {
    Selection,
    Default,
    Killer,
    Damager,
    Victim,
    Shooter,
    Projectile,
    LastEntity,
    AllPlayers,
    AllEntities,
    AllMobs,
}

impl Default for Selector {
    fn default() -> (r: Self)
        ensures
            r == Selector::Default,
    {
        Selector::Default
    }
}

/// A named option of the statement that holds it. What it serializes to
/// depends on that statement.
pub struct Tag {
    pub name: String,
    pub option: String,
    pub var: Option<Variable>,
}

pub struct Sound {
    pub sound: String,
    pub pitch: DFNum,
    pub volume: DFNum,
}

/// An item. It has no serialized form and no slot takes it.
pub struct Item {
    pub material: String,
    pub count: i32,
    pub attributes: Option<Vec<Attribute>>,
    pub flags: Option<u16>,
    pub lore: Option<Vec<String>>,
    pub modeldata: Option<i64>,
    pub name: Option<String>,
    pub unbreakable: bool,
    pub string_tags: Vec<(String, String)>,
    pub num_tags: Vec<(String, DFNum)>,
}

pub struct Attribute {
    pub uuid: String,
    pub amount: DFNum,
    pub operation: AttributeOperation,
    pub name: String,
    pub slot: String,
}

pub enum AttributeOperation {
    AddModifier,
    MultiplyBase,
    MultiplyModifier,
}

/// The name under which the game knows a potion effect.
pub open spec fn effect_name(x: PotionEffect) -> Seq<char> {
    match x {
        PotionEffect::Absorption => "Absorption"@,
        PotionEffect::ConduitPower => "Conduit Power"@,
        PotionEffect::DolphinGrace => "Dolphin's Grace"@,
        PotionEffect::FireResistance => "Fire Resistance"@,
        PotionEffect::Haste => "Haste"@,
        PotionEffect::HealthBoost => "Health Boost"@,
        PotionEffect::HeroOfTheVillage => "Hero of the Village"@,
        PotionEffect::InstantHealth => "Instant Health"@,
        PotionEffect::Invisibility => "Invisibility"@,
        PotionEffect::JumpBoost => "Jump Boost"@,
        PotionEffect::Luck => "Luck"@,
        PotionEffect::NightVision => "Night Vision"@,
        PotionEffect::Regeneration => "Regeneration"@,
        PotionEffect::Resistance => "Resistance"@,
        PotionEffect::Saturation => "Saturation"@,
        PotionEffect::SlowFalling => "Slow Falling"@,
        PotionEffect::Speed => "Speed"@,
        PotionEffect::Strength => "Strength"@,
        PotionEffect::WaterBreathing => "Water Breathing"@,
        PotionEffect::BadLuck => "Bad Luck"@,
        PotionEffect::BadOmen => "Bad Omen"@,
        PotionEffect::Blindness => "Blindness"@,
        PotionEffect::Darkness => "Darkness"@,
        PotionEffect::Glowing => "Glowing"@,
        PotionEffect::Hunger => "Hunger"@,
        PotionEffect::InstantDamage => "Instant Damage"@,
        PotionEffect::Levitation => "Levitation"@,
        PotionEffect::MiningFatigue => "Mining Fatigue"@,
        PotionEffect::Nausea => "Nausea"@,
        PotionEffect::Poison => "Poison"@,
        PotionEffect::Slowness => "Slowness"@,
        PotionEffect::Weakness => "Weakness"@,
        PotionEffect::Wither => "Wither"@,
    }
}

impl PotionEffect {
    /// The name under which the game knows this effect.
    pub fn name(&self) -> (r: &'static str)
        ensures
            r@ == effect_name(*self),
    {
        match self {
            PotionEffect::Absorption => "Absorption",
            PotionEffect::ConduitPower => "Conduit Power",
            PotionEffect::DolphinGrace => "Dolphin's Grace",
            PotionEffect::FireResistance => "Fire Resistance",
            PotionEffect::Haste => "Haste",
            PotionEffect::HealthBoost => "Health Boost",
            PotionEffect::HeroOfTheVillage => "Hero of the Village",
            PotionEffect::InstantHealth => "Instant Health",
            PotionEffect::Invisibility => "Invisibility",
            PotionEffect::JumpBoost => "Jump Boost",
            PotionEffect::Luck => "Luck",
            PotionEffect::NightVision => "Night Vision",
            PotionEffect::Regeneration => "Regeneration",
            PotionEffect::Resistance => "Resistance",
            PotionEffect::Saturation => "Saturation",
            PotionEffect::SlowFalling => "Slow Falling",
            PotionEffect::Speed => "Speed",
            PotionEffect::Strength => "Strength",
            PotionEffect::WaterBreathing => "Water Breathing",
            PotionEffect::BadLuck => "Bad Luck",
            PotionEffect::BadOmen => "Bad Omen",
            PotionEffect::Blindness => "Blindness",
            PotionEffect::Darkness => "Darkness",
            PotionEffect::Glowing => "Glowing",
            PotionEffect::Hunger => "Hunger",
            PotionEffect::InstantDamage => "Instant Damage",
            PotionEffect::Levitation => "Levitation",
            PotionEffect::MiningFatigue => "Mining Fatigue",
            PotionEffect::Nausea => "Nausea",
            PotionEffect::Poison => "Poison",
            PotionEffect::Slowness => "Slowness",
            PotionEffect::Weakness => "Weakness",
            PotionEffect::Wither => "Wither",
        }
    }
}

/// The scope word of the output format.
pub open spec fn scope_name(x: VariableScope) -> Seq<char> {
    match x {
        VariableScope::Local => "local"@,
        VariableScope::Global => "unsaved"@,
        VariableScope::Saved => "saved"@,
    }
}

impl VariableScope {
    /// The scope word of the output format.
    pub fn name(&self) -> (r: &'static str)
        ensures
            r@ == scope_name(*self),
    {
        match self {
            VariableScope::Local => "local",
            VariableScope::Global => "unsaved",
            VariableScope::Saved => "saved",
        }
    }
}

/// The target word of the output format.
pub open spec fn selector_name(x: Selector) -> Seq<char> {
    match x {
        Selector::Selection => "Selection"@,
        Selector::Default => "Default"@,
        Selector::Killer => "Killer"@,
        Selector::Damager => "Damager"@,
        Selector::Victim => "Victim"@,
        Selector::Shooter => "Shooter"@,
        Selector::Projectile => "Projectile"@,
        Selector::LastEntity => "LastEntity"@,
        Selector::AllPlayers => "AllPlayers"@,
        Selector::AllEntities => "AllEntities"@,
        Selector::AllMobs => "AllMobs"@,
    }
}

impl Selector {
    /// The target word of the output format.
    pub fn name(&self) -> (r: &'static str)
        ensures
            r@ == selector_name(*self),
    {
        match self {
            Selector::Selection => "Selection",
            Selector::Default => "Default",
            Selector::Killer => "Killer",
            Selector::Damager => "Damager",
            Selector::Victim => "Victim",
            Selector::Shooter => "Shooter",
            Selector::Projectile => "Projectile",
            Selector::LastEntity => "LastEntity",
            Selector::AllPlayers => "AllPlayers",
            Selector::AllEntities => "AllEntities",
            Selector::AllMobs => "AllMobs",
        }
    }
}

} // verus!
