//! The record of a custom biome definition, found in
//! `data/<namespace>/worldgen/biome/*.json`, and how it is read from a JSON
//! document tree.
//!
//! Floating-point quantities are held as the number written in the document.

use vstd::prelude::*;
use crate::json::{JsonKind, JsonNumber};

verus! {

/// The bits of `-0.0`, which compares equal to zero.
pub const NEGATIVE_ZERO_BITS: u64 = 0x8000_0000_0000_0000;

/// The bits of the largest admitted creature spawn probability, `0.9999999`.
pub const MAX_SPAWN_PROBABILITY_BITS: u64 = 0x3fef_ffff_ca50_1acb;

/// Modification applied to temperature before the height adjusted temperature
/// is calculated.
#[derive(Debug, Clone, Copy, PartialEq, Eq, Structural)]
pub enum TemperatureModifier {
    /// No modification.
    Unmodified,
    /// Makes some places' temperature high enough to rain (0.2).
    Frozen,
}

/// Modification applied to grass color.
#[derive(Debug, Clone, Copy, PartialEq, Eq, Structural)]
pub enum EffectsGrassColorModifier {
    /// No modification.
    Unmodified,
    /// As in a dark forest.
    DarkForest,
    /// As in a swamp.
    Swamp,
}

/// The particle used throughout a biome; its settings are not modelled, and
/// whatever an object of them holds is dropped.
#[derive(Debug, Clone, Copy, PartialEq, Eq, Structural)]
pub struct EffectsParticle {}

/// The carvers of a biome; not modelled, content is dropped.
#[derive(Debug, Clone, Copy, PartialEq, Eq, Structural, Default)]
pub struct Carvers {}

/// The entity spawning settings of a biome; not modelled, content is dropped.
#[derive(Debug, Clone, Copy, PartialEq, Eq, Structural, Default)]
pub struct Spawners {}

/// The spawn cost settings of a biome; not modelled, content is dropped.
#[derive(Debug, Clone, Copy, PartialEq, Eq, Structural, Default)]
pub struct SpawnCosts {}

/// The settings for the mood sound of a biome.
#[derive(Debug, Clone, PartialEq)]
pub struct EffectsMoodSound {
    /// The namespace ID of the sound event to use.
    pub sound: String,
    /// The minimum delay between two plays.
    pub tick_delay: u32,
    /// Half the edge length of the cube searched for a place to play the sound.
    pub block_search_extent: u32,
    /// How far from the player the sound source is moved.
    pub offset: JsonNumber,
}

/// The settings for the additions sound of a biome.
#[derive(Debug, Clone, PartialEq)]
pub struct EffectsAdditionsSound {
    /// The namespace ID of the sound event to use.
    pub sound: String,
    /// The probability to start playing the sound per tick.
    pub tick_chance: JsonNumber,
}

/// The music played in a biome.
#[derive(Debug, Clone, PartialEq)]
pub struct EffectsMusic {
    /// The namespace ID of the sound event to use.
    pub sound: String,
    /// The minimum delay between two plays.
    pub min_delay: u32,
    /// The maximum delay between two plays.
    pub max_delay: u32,
    /// Whether music already playing is replaced.
    pub replace_current_music: bool,
}

/// Ambient effects of a biome. Colors are packed RGB integers.
#[derive(Debug, Clone, PartialEq)]
pub struct Effects {
    pub fog_color: u32,
    pub sky_color: u32,
    pub water_color: u32,
    pub water_fog_color: u32,
    /// Absent: derived from downfall and temperature.
    pub foliage_color: Option<u32>,
    /// Absent: derived from downfall and temperature.
    pub grass_color: Option<u32>,
    pub grass_color_modifier: EffectsGrassColorModifier,
    pub particle: Option<EffectsParticle>,
    /// The namespace ID of the sound event for ambient sound.
    pub ambient_sound: Option<String>,
    pub mood_sound: Option<EffectsMoodSound>,
    pub additions_sound: Option<EffectsAdditionsSound>,
    pub music: Option<EffectsMusic>,
    pub spawners: Spawners,
    pub spawn_costs: SpawnCosts,
}

/// A custom biome.
#[derive(Debug, Clone, PartialEq)]
pub struct CustomeBiome {
    pub has_precipitation: bool,
    pub temperature: JsonNumber,
    pub temperature_modifier: TemperatureModifier,
    pub downfall: JsonNumber,
    pub effects: Effects,
    pub carvers: Carvers,
    /// For each generation step, the placed feature IDs applied in order.
    pub features: Vec<Vec<String>>,
    /// Within `[0.0, 0.9999999]`.
    pub creature_spawn_probability: Option<JsonNumber>,
    pub spawners: Spawners,
}

/// A custom biome, with its feature lists as sequences.
pub struct BiomeView {
    pub has_precipitation: bool,
    pub temperature: JsonNumber,
    pub temperature_modifier: TemperatureModifier,
    pub downfall: JsonNumber,
    pub effects: Effects,
    pub carvers: Carvers,
    pub features: Seq<Seq<String>>,
    pub creature_spawn_probability: Option<JsonNumber>,
    pub spawners: Spawners,
}

impl CustomeBiome {
    /// Whether the creature spawn probability, when present, is admitted.
    pub open spec fn wf(&self) -> bool {
        self.creature_spawn_probability matches Some(n) ==> spawn_probability_in_range(n)
    }
}

impl View for CustomeBiome {
    type V = BiomeView;

    open spec fn view(&self) -> BiomeView {
        BiomeView {
            has_precipitation: self.has_precipitation,
            temperature: self.temperature,
            temperature_modifier: self.temperature_modifier,
            downfall: self.downfall,
            effects: self.effects,
            carvers: self.carvers,
            features: self.features@.map_values(|step: Vec<String>| step@),
            creature_spawn_probability: self.creature_spawn_probability,
            spawners: self.spawners,
        }
    }
}

/// A field of the biome record, as named in error reports.
#[derive(Debug, Clone, Copy, PartialEq, Eq, Structural)]
pub enum Field {
    /// The document itself.
    Document,
    HasPrecipitation,
    Temperature,
    TemperatureModifier,
    Downfall,
    Effects,
    Carvers,
    Features,
    CreatureSpawnProbability,
    Spawners,
    FogColor,
    SkyColor,
    WaterColor,
    WaterFogColor,
    FoliageColor,
    GrassColor,
    GrassColorModifier,
    Particle,
    AmbientSound,
    MoodSound,
    AdditionsSound,
    Music,
    EffectsSpawners,
    EffectsSpawnCosts,
    MoodSoundSound,
    MoodSoundTickDelay,
    MoodSoundBlockSearchExtent,
    MoodSoundOffset,
    AdditionsSoundSound,
    AdditionsSoundTickChance,
    MusicSound,
    MusicMinDelay,
    MusicMaxDelay,
    MusicReplaceCurrentMusic,
}

/// What a field holds, as named in error reports.
#[derive(Debug, Clone, Copy, PartialEq, Eq, Structural)]
pub enum Expected {
    Bool,
    Number,
    /// A non-negative integer that fits in 32 bits.
    U32,
    Str,
    Array,
    Object,
    /// One of `none`, `frozen`.
    TemperatureModifierName,
    /// One of `none`, `dark_forest`, `swamp`.
    GrassColorModifierName,
}

/// Why a document is not a biome.
#[derive(Debug, Clone, Copy, PartialEq, Eq, Structural)]
pub enum ParseError {
    /// The bytes are not a JSON document.
    MalformedSyntax,
    /// A required field is absent.
    MissingField(Field),
    /// A field holds a value of another shape.
    TypeMismatch { field: Field, expected: Expected, actual: JsonKind },
    /// A number lies outside the range its field admits.
    OutOfRange { field: Field, value: JsonNumber },
}

/// Whether a number lies in `[0.0, 0.9999999]`. Of the integers only zero
/// does. Of the doubles both zeros do; other non-negative doubles order as
/// their bits do, and all others (negative, infinite or not a number) have
/// bits above the bound.
pub open spec fn spawn_probability_in_range(n: JsonNumber) -> bool {
    match n {
        JsonNumber::PosInt(u) => u == 0,
        JsonNumber::NegInt(i) => i == 0,
        JsonNumber::Float(bits) => bits == NEGATIVE_ZERO_BITS || bits <= MAX_SPAWN_PROBABILITY_BITS,
    }
}

/// Returns whether a creature spawn probability is admitted.
pub fn is_spawn_probability_in_range(n: JsonNumber) -> (r: bool)
    ensures
        r == spawn_probability_in_range(n),
{
    match n {
        JsonNumber::PosInt(u) => u == 0,
        JsonNumber::NegInt(i) => i == 0,
        JsonNumber::Float(bits) => bits == NEGATIVE_ZERO_BITS || bits <= MAX_SPAWN_PROBABILITY_BITS,
    }
}

/// The modifier that a name denotes.
pub open spec fn temperature_modifier_named(s: Seq<char>) -> Option<TemperatureModifier> {
    if s == "none"@ {
        Some(TemperatureModifier::Unmodified)
    } else if s == "frozen"@ {
        Some(TemperatureModifier::Frozen)
    } else {
        None
    }
}

/// The name of a modifier.
pub open spec fn temperature_modifier_name(m: TemperatureModifier) -> Seq<char> {
    match m {
        TemperatureModifier::Unmodified => "none"@,
        TemperatureModifier::Frozen => "frozen"@,
    }
}

/// The modifier that a name denotes.
pub open spec fn grass_color_modifier_named(s: Seq<char>) -> Option<EffectsGrassColorModifier> {
    if s == "none"@ {
        Some(EffectsGrassColorModifier::Unmodified)
    } else if s == "dark_forest"@ {
        Some(EffectsGrassColorModifier::DarkForest)
    } else if s == "swamp"@ {
        Some(EffectsGrassColorModifier::Swamp)
    } else {
        None
    }
}

/// The name of a modifier.
pub open spec fn grass_color_modifier_name(m: EffectsGrassColorModifier) -> Seq<char> {
    match m {
        EffectsGrassColorModifier::Unmodified => "none"@,
        EffectsGrassColorModifier::DarkForest => "dark_forest"@,
        EffectsGrassColorModifier::Swamp => "swamp"@,
    }
}

impl Default for TemperatureModifier {
    fn default() -> (r: Self)
        ensures
            r == TemperatureModifier::Unmodified,
    {
        TemperatureModifier::Unmodified
    }
}

impl Default for EffectsGrassColorModifier {
    fn default() -> (r: Self)
        ensures
            r == EffectsGrassColorModifier::Unmodified,
    {
        EffectsGrassColorModifier::Unmodified
    }
}

impl TemperatureModifier {
    /// Returns the modifier that `s` names, if any.
    pub fn from_name(s: &str) -> (r: Option<Self>)
        ensures
            r == temperature_modifier_named(s@),
    {
        let s = s.to_owned();
        if s == "none".to_owned() {
            Some(TemperatureModifier::Unmodified)
        } else if s == "frozen".to_owned() {
            Some(TemperatureModifier::Frozen)
        } else {
            None
        }
    }

    /// Returns the name of this modifier in a document.
    pub fn name(&self) -> (r: &'static str)
        ensures
            r@ == temperature_modifier_name(*self),
    {
        match self {
            TemperatureModifier::Unmodified => "none",
            TemperatureModifier::Frozen => "frozen",
        }
    }
}

impl EffectsGrassColorModifier {
    /// Returns the modifier that `s` names, if any.
    pub fn from_name(s: &str) -> (r: Option<Self>)
        ensures
            r == grass_color_modifier_named(s@),
    {
        let s = s.to_owned();
        if s == "none".to_owned() {
            Some(EffectsGrassColorModifier::Unmodified)
        } else if s == "dark_forest".to_owned() {
            Some(EffectsGrassColorModifier::DarkForest)
        } else if s == "swamp".to_owned() {
            Some(EffectsGrassColorModifier::Swamp)
        } else {
            None
        }
    }

    /// Returns the name of this modifier in a document.
    pub fn name(&self) -> (r: &'static str)
        ensures
            r@ == grass_color_modifier_name(*self),
    {
        match self {
            EffectsGrassColorModifier::Unmodified => "none",
            EffectsGrassColorModifier::DarkForest => "dark_forest",
            EffectsGrassColorModifier::Swamp => "swamp",
        }
    }
}

/// Each modifier is read back from its own name.
pub proof fn lemma_temperature_modifier_name(m: TemperatureModifier)
    ensures
        temperature_modifier_named(temperature_modifier_name(m)) == Some(m),
{
    reveal_strlit("none");
    reveal_strlit("frozen");
    assert("none"@.len() != "frozen"@.len());
}

/// Each modifier is read back from its own name.
pub proof fn lemma_grass_color_modifier_name(m: EffectsGrassColorModifier)
    ensures
        grass_color_modifier_named(grass_color_modifier_name(m)) == Some(m),
{
    reveal_strlit("none");
    reveal_strlit("dark_forest");
    reveal_strlit("swamp");
    assert("none"@.len() != "dark_forest"@.len());
    assert("none"@[0] != "swamp"@[0]);
    assert("dark_forest"@.len() != "swamp"@.len());
}

} // verus!
