//! Reading a biome record out of a JSON document tree.
//!
//! Fields are read in the order in which the record declares them, and the
//! first field that fails decides the error. Keys that the record does not
//! know are ignored.

use vstd::prelude::*;
use crate::biome::{
    spawn_probability_in_range, temperature_modifier_named, grass_color_modifier_named,
    is_spawn_probability_in_range, BiomeView, Carvers, CustomeBiome, Effects,
    EffectsAdditionsSound, EffectsGrassColorModifier, EffectsMoodSound, EffectsMusic,
    EffectsParticle, Expected, Field, ParseError, SpawnCosts, Spawners, TemperatureModifier,
};
use crate::json::{JsonKind, JsonNumber, JsonValue, kind_of, lookup, get, lemma_lookup_push};

verus! {

/// The value that an optional reference points to.
pub open spec fn deref_value(v: Option<&JsonValue>) -> Option<JsonValue> {
    match v {
        Some(x) => Some(*x),
        None => None,
    }
}

/// The error for a value of the wrong shape.
pub open spec fn mismatch(f: Field, expected: Expected, v: JsonValue) -> ParseError {
    ParseError::TypeMismatch { field: f, expected, actual: kind_of(v) }
}

/// Whether a value stands for an absent optional field.
pub open spec fn is_absent(v: Option<JsonValue>) -> bool {
    v is None || v == Some(JsonValue::Null)
}

/// A required boolean.
pub open spec fn spec_bool(f: Field, v: Option<JsonValue>) -> Result<bool, ParseError> {
    match v {
        None => Err(ParseError::MissingField(f)),
        Some(JsonValue::Bool(b)) => Ok(b),
        Some(o) => Err(mismatch(f, Expected::Bool, o)),
    }
}

/// A required integer in `0..=u32::MAX`.
pub open spec fn spec_u32(f: Field, v: Option<JsonValue>) -> Result<u32, ParseError> {
    match v {
        None => Err(ParseError::MissingField(f)),
        Some(JsonValue::Number(JsonNumber::PosInt(u))) if u <= u32::MAX => Ok(u as u32),
        Some(o) => Err(mismatch(f, Expected::U32, o)),
    }
}

/// A required number.
pub open spec fn spec_number(f: Field, v: Option<JsonValue>) -> Result<JsonNumber, ParseError> {
    match v {
        None => Err(ParseError::MissingField(f)),
        Some(JsonValue::Number(n)) => Ok(n),
        Some(o) => Err(mismatch(f, Expected::Number, o)),
    }
}

/// A required string.
pub open spec fn spec_string(f: Field, v: Option<JsonValue>) -> Result<String, ParseError> {
    match v {
        None => Err(ParseError::MissingField(f)),
        Some(JsonValue::Str(s)) => Ok(s),
        Some(o) => Err(mismatch(f, Expected::Str, o)),
    }
}

/// An optional integer in `0..=u32::MAX`.
pub open spec fn spec_opt_u32(f: Field, v: Option<JsonValue>) -> Result<Option<u32>, ParseError> {
    if is_absent(v) {
        Ok(None)
    } else {
        match spec_u32(f, v) {
            Ok(x) => Ok(Some(x)),
            Err(e) => Err(e),
        }
    }
}

/// An optional string.
pub open spec fn spec_opt_string(f: Field, v: Option<JsonValue>) -> Result<Option<String>, ParseError> {
    if is_absent(v) {
        Ok(None)
    } else {
        match spec_string(f, v) {
            Ok(x) => Ok(Some(x)),
            Err(e) => Err(e),
        }
    }
}

/// An optional creature spawn probability.
pub open spec fn spec_probability(f: Field, v: Option<JsonValue>) -> Result<Option<JsonNumber>, ParseError> {
    if is_absent(v) {
        Ok(None)
    } else {
        match spec_number(f, v) {
            Ok(n) => if spawn_probability_in_range(n) {
                Ok(Some(n))
            } else {
                Err(ParseError::OutOfRange { field: f, value: n })
            },
            Err(e) => Err(e),
        }
    }
}

/// A required object, whose content is not read.
pub open spec fn spec_placeholder(f: Field, v: Option<JsonValue>) -> Result<(), ParseError> {
    match v {
        None => Err(ParseError::MissingField(f)),
        Some(JsonValue::Object(_)) => Ok(()),
        Some(o) => Err(mismatch(f, Expected::Object, o)),
    }
}

/// An object whose content is not read, empty when absent.
pub open spec fn spec_default_placeholder(f: Field, v: Option<JsonValue>) -> Result<(), ParseError> {
    if v is None {
        Ok(())
    } else {
        spec_placeholder(f, v)
    }
}

/// An optional particle, whose settings are not read.
pub open spec fn spec_particle(f: Field, v: Option<JsonValue>) -> Result<Option<EffectsParticle>, ParseError> {
    if is_absent(v) {
        Ok(None)
    } else {
        match spec_placeholder(f, v) {
            Ok(_) => Ok(Some(EffectsParticle {})),
            Err(e) => Err(e),
        }
    }
}

/// A temperature modifier, `none` when absent.
pub open spec fn spec_temperature_modifier(f: Field, v: Option<JsonValue>) -> Result<TemperatureModifier, ParseError> {
    match v {
        None => Ok(TemperatureModifier::Unmodified),
        Some(JsonValue::Str(s)) => match temperature_modifier_named(s@) {
            Some(m) => Ok(m),
            None => Err(mismatch(f, Expected::TemperatureModifierName, JsonValue::Str(s))),
        },
        Some(o) => Err(mismatch(f, Expected::TemperatureModifierName, o)),
    }
}

/// A grass color modifier, `none` when absent.
pub open spec fn spec_grass_color_modifier(f: Field, v: Option<JsonValue>) -> Result<EffectsGrassColorModifier, ParseError> {
    match v {
        None => Ok(EffectsGrassColorModifier::Unmodified),
        Some(JsonValue::Str(s)) => match grass_color_modifier_named(s@) {
            Some(m) => Ok(m),
            None => Err(mismatch(f, Expected::GrassColorModifierName, JsonValue::Str(s))),
        },
        Some(o) => Err(mismatch(f, Expected::GrassColorModifierName, o)),
    }
}

fn read_bool(f: Field, v: Option<&JsonValue>) -> (r: Result<bool, ParseError>)
    ensures
        r == spec_bool(f, deref_value(v)),
{
    match v {
        None => Err(ParseError::MissingField(f)),
        Some(JsonValue::Bool(b)) => Ok(*b),
        Some(o) => Err(ParseError::TypeMismatch { field: f, expected: Expected::Bool, actual: o.kind() }),
    }
}

fn read_u32(f: Field, v: Option<&JsonValue>) -> (r: Result<u32, ParseError>)
    ensures
        r == spec_u32(f, deref_value(v)),
{
    match v {
        None => Err(ParseError::MissingField(f)),
        Some(JsonValue::Number(JsonNumber::PosInt(u))) if *u <= 0xffff_ffff => Ok(*u as u32),
        Some(o) => Err(ParseError::TypeMismatch { field: f, expected: Expected::U32, actual: o.kind() }),
    }
}

fn read_number(f: Field, v: Option<&JsonValue>) -> (r: Result<JsonNumber, ParseError>)
    ensures
        r == spec_number(f, deref_value(v)),
{
    match v {
        None => Err(ParseError::MissingField(f)),
        Some(JsonValue::Number(n)) => Ok(*n),
        Some(o) => Err(ParseError::TypeMismatch { field: f, expected: Expected::Number, actual: o.kind() }),
    }
}

fn read_string(f: Field, v: Option<&JsonValue>) -> (r: Result<String, ParseError>)
    ensures
        r == spec_string(f, deref_value(v)),
{
    match v {
        None => Err(ParseError::MissingField(f)),
        Some(JsonValue::Str(s)) => Ok(s.clone()),
        Some(o) => Err(ParseError::TypeMismatch { field: f, expected: Expected::Str, actual: o.kind() }),
    }
}

fn absent(v: Option<&JsonValue>) -> (r: bool)
    ensures
        r == is_absent(deref_value(v)),
{
    match v {
        None => true,
        Some(JsonValue::Null) => true,
        Some(_) => false,
    }
}

fn read_opt_u32(f: Field, v: Option<&JsonValue>) -> (r: Result<Option<u32>, ParseError>)
    ensures
        r == spec_opt_u32(f, deref_value(v)),
{
    if absent(v) {
        Ok(None)
    } else {
        match read_u32(f, v) {
            Ok(x) => Ok(Some(x)),
            Err(e) => Err(e),
        }
    }
}

fn read_opt_string(f: Field, v: Option<&JsonValue>) -> (r: Result<Option<String>, ParseError>)
    ensures
        r == spec_opt_string(f, deref_value(v)),
{
    if absent(v) {
        Ok(None)
    } else {
        match read_string(f, v) {
            Ok(x) => Ok(Some(x)),
            Err(e) => Err(e),
        }
    }
}

fn read_probability(f: Field, v: Option<&JsonValue>) -> (r: Result<Option<JsonNumber>, ParseError>)
    ensures
        r == spec_probability(f, deref_value(v)),
{
    if absent(v) {
        Ok(None)
    } else {
        match read_number(f, v) {
            Ok(n) => if is_spawn_probability_in_range(n) {
                Ok(Some(n))
            } else {
                Err(ParseError::OutOfRange { field: f, value: n })
            },
            Err(e) => Err(e),
        }
    }
}

fn read_placeholder(f: Field, v: Option<&JsonValue>) -> (r: Result<(), ParseError>)
    ensures
        r == spec_placeholder(f, deref_value(v)),
{
    match v {
        None => Err(ParseError::MissingField(f)),
        Some(JsonValue::Object(_)) => Ok(()),
        Some(o) => Err(ParseError::TypeMismatch { field: f, expected: Expected::Object, actual: o.kind() }),
    }
}

fn read_default_placeholder(f: Field, v: Option<&JsonValue>) -> (r: Result<(), ParseError>)
    ensures
        r == spec_default_placeholder(f, deref_value(v)),
{
    if v.is_none() {
        Ok(())
    } else {
        read_placeholder(f, v)
    }
}

fn read_particle(f: Field, v: Option<&JsonValue>) -> (r: Result<Option<EffectsParticle>, ParseError>)
    ensures
        r == spec_particle(f, deref_value(v)),
{
    if absent(v) {
        Ok(None)
    } else {
        match read_placeholder(f, v) {
            Ok(_) => Ok(Some(EffectsParticle {})),
            Err(e) => Err(e),
        }
    }
}

fn read_temperature_modifier(f: Field, v: Option<&JsonValue>) -> (r: Result<TemperatureModifier, ParseError>)
    ensures
        r == spec_temperature_modifier(f, deref_value(v)),
{
    match v {
        None => Ok(TemperatureModifier::Unmodified),
        Some(JsonValue::Str(s)) => match TemperatureModifier::from_name(s.as_str()) {
            Some(m) => Ok(m),
            None => Err(ParseError::TypeMismatch { field: f, expected: Expected::TemperatureModifierName, actual: JsonKind::Str }),
        },
        Some(o) => Err(ParseError::TypeMismatch { field: f, expected: Expected::TemperatureModifierName, actual: o.kind() }),
    }
}

fn read_grass_color_modifier(f: Field, v: Option<&JsonValue>) -> (r: Result<EffectsGrassColorModifier, ParseError>)
    ensures
        r == spec_grass_color_modifier(f, deref_value(v)),
{
    match v {
        None => Ok(EffectsGrassColorModifier::Unmodified),
        Some(JsonValue::Str(s)) => match EffectsGrassColorModifier::from_name(s.as_str()) {
            Some(m) => Ok(m),
            None => Err(ParseError::TypeMismatch { field: f, expected: Expected::GrassColorModifierName, actual: JsonKind::Str }),
        },
        Some(o) => Err(ParseError::TypeMismatch { field: f, expected: Expected::GrassColorModifierName, actual: o.kind() }),
    }
}


/// The index of the first value of `items` that is not a string.
pub open spec fn first_non_string(items: Seq<JsonValue>) -> int {
    choose|j: int|
        0 <= j < items.len() && !(items[j] is Str) && forall|k: int|
            0 <= k < j ==> items[k] is Str
}

/// Whether a generation step is a list of feature IDs.
pub open spec fn step_ok(step: JsonValue) -> bool {
    step matches JsonValue::Array(items) && forall|k: int|
        0 <= k < items@.len() ==> #[trigger] items@[k] is Str
}

/// The feature IDs of a generation step.
pub open spec fn step_strings(step: JsonValue) -> Seq<String> {
    match step {
        JsonValue::Array(items) => items@.map_values(|x: JsonValue| x->Str_0),
        _ => Seq::empty(),
    }
}

/// Why a generation step is not a list of feature IDs.
pub open spec fn step_error(step: JsonValue) -> ParseError {
    match step {
        JsonValue::Array(items) => mismatch(Field::Features, Expected::Str, items@[first_non_string(items@)]),
        _ => mismatch(Field::Features, Expected::Array, step),
    }
}

/// The index of the first generation step that is not a list of feature IDs.
pub open spec fn first_bad_step(steps: Seq<JsonValue>) -> int {
    choose|j: int|
        0 <= j < steps.len() && !step_ok(steps[j]) && forall|k: int|
            0 <= k < j ==> step_ok(steps[k])
}

/// The feature lists of a biome.
pub open spec fn spec_features(v: Option<JsonValue>) -> Result<Seq<Seq<String>>, ParseError> {
    match v {
        None => Err(ParseError::MissingField(Field::Features)),
        Some(JsonValue::Array(steps)) => if forall|k: int|
            0 <= k < steps@.len() ==> step_ok(#[trigger] steps@[k]) {
            Ok(steps@.map_values(|s: JsonValue| step_strings(s)))
        } else {
            Err(step_error(steps@[first_bad_step(steps@)]))
        },
        Some(o) => Err(mismatch(Field::Features, Expected::Array, o)),
    }
}

fn read_step(step: &JsonValue) -> (r: Result<Vec<String>, ParseError>)
    ensures
        match r {
            Ok(ids) => step_ok(*step) && ids@ == step_strings(*step),
            Err(e) => !step_ok(*step) && e == step_error(*step),
        },
{
    match step {
        JsonValue::Array(items) => {
            let mut ids: Vec<String> = Vec::new();
            let mut i: usize = 0;
            while i < items.len()
                invariant
                    *step == JsonValue::Array(*items),
                    0 <= i <= items@.len(),
                    forall|k: int| 0 <= k < i ==> #[trigger] items@[k] is Str,
                    ids@ == items@.subrange(0, i as int).map_values(|x: JsonValue| x->Str_0),
                decreases items@.len() - i,
            {
                match &items[i] {
                    JsonValue::Str(s) => {
                        ids.push(s.clone());
                        assert(items@.subrange(0, i + 1).map_values(|x: JsonValue| x->Str_0)
                            =~= items@.subrange(0, i as int).map_values(|x: JsonValue| x->Str_0).push(*s));
                    },
                    other => {
                        assert(!(items@[i as int] is Str));
                        assert(0 <= i < items@.len() && !(items@[i as int] is Str) && forall|k: int|
                            0 <= k < i ==> items@[k] is Str);
                        let ghost j = first_non_string(items@);
                        assert(j == i as int) by {
                            if j > i {
                                assert(items@[i as int] is Str);
                            }
                        }
                        return Err(ParseError::TypeMismatch { field: Field::Features, expected: Expected::Str, actual: other.kind() });
                    },
                }
                i = i + 1;
            }
            assert(items@.subrange(0, i as int) =~= items@);
            Ok(ids)
        },
        other => Err(ParseError::TypeMismatch { field: Field::Features, expected: Expected::Array, actual: other.kind() }),
    }
}

fn read_features(v: Option<&JsonValue>) -> (r: Result<Vec<Vec<String>>, ParseError>)
    ensures
        match r {
            Ok(fs) => spec_features(deref_value(v)) == Ok::<Seq<Seq<String>>, ParseError>(fs@.map_values(|s: Vec<String>| s@)),
            Err(e) => spec_features(deref_value(v)) == Err::<Seq<Seq<String>>, ParseError>(e),
        },
{
    match v {
        None => Err(ParseError::MissingField(Field::Features)),
        Some(JsonValue::Array(steps)) => {
            let mut fs: Vec<Vec<String>> = Vec::new();
            let mut i: usize = 0;
            while i < steps.len()
                invariant
                    deref_value(v) == Some(JsonValue::Array(*steps)),
                    0 <= i <= steps@.len(),
                    forall|k: int| 0 <= k < i ==> step_ok(#[trigger] steps@[k]),
                    fs@.map_values(|s: Vec<String>| s@)
                        == steps@.subrange(0, i as int).map_values(|s: JsonValue| step_strings(s)),
                decreases steps@.len() - i,
            {
                match read_step(&steps[i]) {
                    Ok(ids) => {
                        let ghost before = fs@;
                        fs.push(ids);
                        assert(fs@ == before.push(ids));
                        assert(fs@.map_values(|s: Vec<String>| s@)
                            =~= before.map_values(|s: Vec<String>| s@).push(ids@));
                        assert(steps@.subrange(0, i + 1).map_values(|s: JsonValue| step_strings(s))
                            =~= steps@.subrange(0, i as int).map_values(|s: JsonValue| step_strings(s)).push(step_strings(steps@[i as int])));
                    },
                    Err(e) => {
                        assert(!step_ok(steps@[i as int]));
                        assert(0 <= i < steps@.len() && !step_ok(steps@[i as int]) && forall|k: int|
                            0 <= k < i ==> step_ok(steps@[k]));
                        let ghost j = first_bad_step(steps@);
                        assert(j == i as int) by {
                            if j > i {
                                assert(step_ok(steps@[i as int]));
                            }
                        }
                        return Err(e);
                    },
                }
                i = i + 1;
            }
            assert(steps@.subrange(0, i as int) =~= steps@);
            Ok(fs)
        },
        Some(o) => Err(ParseError::TypeMismatch { field: Field::Features, expected: Expected::Array, actual: o.kind() }),
    }
}


/// The mood sound settings that an object holds.
pub open spec fn spec_mood_sound_object(es: Seq<(String, JsonValue)>) -> Result<EffectsMoodSound, ParseError> {
    let sound = spec_string(Field::MoodSoundSound, lookup(es, "sound"@));
    let tick_delay = spec_u32(Field::MoodSoundTickDelay, lookup(es, "tick_delay"@));
    let extent = spec_u32(Field::MoodSoundBlockSearchExtent, lookup(es, "block_search_extent"@));
    let offset = spec_number(Field::MoodSoundOffset, lookup(es, "offset"@));
    if sound is Err {
        Err(sound->Err_0)
    } else if tick_delay is Err {
        Err(tick_delay->Err_0)
    } else if extent is Err {
        Err(extent->Err_0)
    } else if offset is Err {
        Err(offset->Err_0)
    } else {
        Ok(EffectsMoodSound {
            sound: sound->Ok_0,
            tick_delay: tick_delay->Ok_0,
            block_search_extent: extent->Ok_0,
            offset: offset->Ok_0,
        })
    }
}

/// The additions sound settings that an object holds.
pub open spec fn spec_additions_sound_object(es: Seq<(String, JsonValue)>) -> Result<EffectsAdditionsSound, ParseError> {
    let sound = spec_string(Field::AdditionsSoundSound, lookup(es, "sound"@));
    let tick_chance = spec_number(Field::AdditionsSoundTickChance, lookup(es, "tick_chance"@));
    if sound is Err {
        Err(sound->Err_0)
    } else if tick_chance is Err {
        Err(tick_chance->Err_0)
    } else {
        Ok(EffectsAdditionsSound { sound: sound->Ok_0, tick_chance: tick_chance->Ok_0 })
    }
}

/// The music settings that an object holds.
pub open spec fn spec_music_object(es: Seq<(String, JsonValue)>) -> Result<EffectsMusic, ParseError> {
    let sound = spec_string(Field::MusicSound, lookup(es, "sound"@));
    let min_delay = spec_u32(Field::MusicMinDelay, lookup(es, "min_delay"@));
    let max_delay = spec_u32(Field::MusicMaxDelay, lookup(es, "max_delay"@));
    let replace = spec_bool(Field::MusicReplaceCurrentMusic, lookup(es, "replace_current_music"@));
    if sound is Err {
        Err(sound->Err_0)
    } else if min_delay is Err {
        Err(min_delay->Err_0)
    } else if max_delay is Err {
        Err(max_delay->Err_0)
    } else if replace is Err {
        Err(replace->Err_0)
    } else {
        Ok(EffectsMusic {
            sound: sound->Ok_0,
            min_delay: min_delay->Ok_0,
            max_delay: max_delay->Ok_0,
            replace_current_music: replace->Ok_0,
        })
    }
}

/// An optional mood sound.
pub open spec fn spec_mood_sound(v: Option<JsonValue>) -> Result<Option<EffectsMoodSound>, ParseError> {
    if is_absent(v) {
        Ok(None)
    } else {
        match v {
            Some(JsonValue::Object(es)) => match spec_mood_sound_object(es@) {
                Ok(m) => Ok(Some(m)),
                Err(e) => Err(e),
            },
            _ => Err(mismatch(Field::MoodSound, Expected::Object, v->Some_0)),
        }
    }
}

/// An optional additions sound.
pub open spec fn spec_additions_sound(v: Option<JsonValue>) -> Result<Option<EffectsAdditionsSound>, ParseError> {
    if is_absent(v) {
        Ok(None)
    } else {
        match v {
            Some(JsonValue::Object(es)) => match spec_additions_sound_object(es@) {
                Ok(m) => Ok(Some(m)),
                Err(e) => Err(e),
            },
            _ => Err(mismatch(Field::AdditionsSound, Expected::Object, v->Some_0)),
        }
    }
}

/// An optional music.
pub open spec fn spec_music(v: Option<JsonValue>) -> Result<Option<EffectsMusic>, ParseError> {
    if is_absent(v) {
        Ok(None)
    } else {
        match v {
            Some(JsonValue::Object(es)) => match spec_music_object(es@) {
                Ok(m) => Ok(Some(m)),
                Err(e) => Err(e),
            },
            _ => Err(mismatch(Field::Music, Expected::Object, v->Some_0)),
        }
    }
}

fn read_mood_sound(v: Option<&JsonValue>) -> (r: Result<Option<EffectsMoodSound>, ParseError>)
    ensures
        r == spec_mood_sound(deref_value(v)),
{
    if absent(v) {
        return Ok(None);
    }
    match v {
        Some(JsonValue::Object(es)) => {
            let sound = match read_string(Field::MoodSoundSound, get(es, "sound")) {
                Ok(x) => x,
                Err(e) => return Err(e),
            };
            let tick_delay = match read_u32(Field::MoodSoundTickDelay, get(es, "tick_delay")) {
                Ok(x) => x,
                Err(e) => return Err(e),
            };
            let block_search_extent = match read_u32(Field::MoodSoundBlockSearchExtent, get(es, "block_search_extent")) {
                Ok(x) => x,
                Err(e) => return Err(e),
            };
            let offset = match read_number(Field::MoodSoundOffset, get(es, "offset")) {
                Ok(x) => x,
                Err(e) => return Err(e),
            };
            Ok(Some(EffectsMoodSound { sound, tick_delay, block_search_extent, offset }))
        },
        Some(o) => Err(ParseError::TypeMismatch { field: Field::MoodSound, expected: Expected::Object, actual: o.kind() }),
        None => Ok(None),
    }
}

fn read_additions_sound(v: Option<&JsonValue>) -> (r: Result<Option<EffectsAdditionsSound>, ParseError>)
    ensures
        r == spec_additions_sound(deref_value(v)),
{
    if absent(v) {
        return Ok(None);
    }
    match v {
        Some(JsonValue::Object(es)) => {
            let sound = match read_string(Field::AdditionsSoundSound, get(es, "sound")) {
                Ok(x) => x,
                Err(e) => return Err(e),
            };
            let tick_chance = match read_number(Field::AdditionsSoundTickChance, get(es, "tick_chance")) {
                Ok(x) => x,
                Err(e) => return Err(e),
            };
            Ok(Some(EffectsAdditionsSound { sound, tick_chance }))
        },
        Some(o) => Err(ParseError::TypeMismatch { field: Field::AdditionsSound, expected: Expected::Object, actual: o.kind() }),
        None => Ok(None),
    }
}

fn read_music(v: Option<&JsonValue>) -> (r: Result<Option<EffectsMusic>, ParseError>)
    ensures
        r == spec_music(deref_value(v)),
{
    if absent(v) {
        return Ok(None);
    }
    match v {
        Some(JsonValue::Object(es)) => {
            let sound = match read_string(Field::MusicSound, get(es, "sound")) {
                Ok(x) => x,
                Err(e) => return Err(e),
            };
            let min_delay = match read_u32(Field::MusicMinDelay, get(es, "min_delay")) {
                Ok(x) => x,
                Err(e) => return Err(e),
            };
            let max_delay = match read_u32(Field::MusicMaxDelay, get(es, "max_delay")) {
                Ok(x) => x,
                Err(e) => return Err(e),
            };
            let replace_current_music = match read_bool(Field::MusicReplaceCurrentMusic, get(es, "replace_current_music")) {
                Ok(x) => x,
                Err(e) => return Err(e),
            };
            Ok(Some(EffectsMusic { sound, min_delay, max_delay, replace_current_music }))
        },
        Some(o) => Err(ParseError::TypeMismatch { field: Field::Music, expected: Expected::Object, actual: o.kind() }),
        None => Ok(None),
    }
}


/// The ambient effects that an object holds.
pub open spec fn spec_effects_object(es: Seq<(String, JsonValue)>) -> Result<Effects, ParseError> {
    let fog_color = spec_u32(Field::FogColor, lookup(es, "fog_color"@));
    let sky_color = spec_u32(Field::SkyColor, lookup(es, "sky_color"@));
    let water_color = spec_u32(Field::WaterColor, lookup(es, "water_color"@));
    let water_fog_color = spec_u32(Field::WaterFogColor, lookup(es, "water_fog_color"@));
    let foliage_color = spec_opt_u32(Field::FoliageColor, lookup(es, "foliage_color"@));
    let grass_color = spec_opt_u32(Field::GrassColor, lookup(es, "grass_color"@));
    let modifier = spec_grass_color_modifier(Field::GrassColorModifier, lookup(es, "grass_color_modifier"@));
    let particle = spec_particle(Field::Particle, lookup(es, "particle"@));
    let ambient_sound = spec_opt_string(Field::AmbientSound, lookup(es, "ambient_sound"@));
    let mood_sound = spec_mood_sound(lookup(es, "mood_sound"@));
    let additions_sound = spec_additions_sound(lookup(es, "additions_sound"@));
    let music = spec_music(lookup(es, "music"@));
    let spawners = spec_default_placeholder(Field::EffectsSpawners, lookup(es, "spawners"@));
    let spawn_costs = spec_default_placeholder(Field::EffectsSpawnCosts, lookup(es, "spawn_costs"@));
    if fog_color is Err {
        Err(fog_color->Err_0)
    } else if sky_color is Err {
        Err(sky_color->Err_0)
    } else if water_color is Err {
        Err(water_color->Err_0)
    } else if water_fog_color is Err {
        Err(water_fog_color->Err_0)
    } else if foliage_color is Err {
        Err(foliage_color->Err_0)
    } else if grass_color is Err {
        Err(grass_color->Err_0)
    } else if modifier is Err {
        Err(modifier->Err_0)
    } else if particle is Err {
        Err(particle->Err_0)
    } else if ambient_sound is Err {
        Err(ambient_sound->Err_0)
    } else if mood_sound is Err {
        Err(mood_sound->Err_0)
    } else if additions_sound is Err {
        Err(additions_sound->Err_0)
    } else if music is Err {
        Err(music->Err_0)
    } else if spawners is Err {
        Err(spawners->Err_0)
    } else if spawn_costs is Err {
        Err(spawn_costs->Err_0)
    } else {
        Ok(Effects {
            fog_color: fog_color->Ok_0,
            sky_color: sky_color->Ok_0,
            water_color: water_color->Ok_0,
            water_fog_color: water_fog_color->Ok_0,
            foliage_color: foliage_color->Ok_0,
            grass_color: grass_color->Ok_0,
            grass_color_modifier: modifier->Ok_0,
            particle: particle->Ok_0,
            ambient_sound: ambient_sound->Ok_0,
            mood_sound: mood_sound->Ok_0,
            additions_sound: additions_sound->Ok_0,
            music: music->Ok_0,
            spawners: Spawners {},
            spawn_costs: SpawnCosts {},
        })
    }
}

/// The required ambient effects of a biome.
pub open spec fn spec_effects(v: Option<JsonValue>) -> Result<Effects, ParseError> {
    match v {
        None => Err(ParseError::MissingField(Field::Effects)),
        Some(JsonValue::Object(es)) => spec_effects_object(es@),
        Some(o) => Err(mismatch(Field::Effects, Expected::Object, o)),
    }
}

/// The biome that an object holds.
pub open spec fn spec_biome_object(es: Seq<(String, JsonValue)>) -> Result<BiomeView, ParseError> {
    let has_precipitation = spec_bool(Field::HasPrecipitation, lookup(es, "has_precipitation"@));
    let temperature = spec_number(Field::Temperature, lookup(es, "temperature"@));
    let modifier = spec_temperature_modifier(Field::TemperatureModifier, lookup(es, "temperature_modifier"@));
    let downfall = spec_number(Field::Downfall, lookup(es, "downfall"@));
    let effects = spec_effects(lookup(es, "effects"@));
    let carvers = spec_placeholder(Field::Carvers, lookup(es, "carvers"@));
    let features = spec_features(lookup(es, "features"@));
    let probability = spec_probability(Field::CreatureSpawnProbability, lookup(es, "creature_spawn_probability"@));
    let spawners = spec_placeholder(Field::Spawners, lookup(es, "spawners"@));
    if has_precipitation is Err {
        Err(has_precipitation->Err_0)
    } else if temperature is Err {
        Err(temperature->Err_0)
    } else if modifier is Err {
        Err(modifier->Err_0)
    } else if downfall is Err {
        Err(downfall->Err_0)
    } else if effects is Err {
        Err(effects->Err_0)
    } else if carvers is Err {
        Err(carvers->Err_0)
    } else if features is Err {
        Err(features->Err_0)
    } else if probability is Err {
        Err(probability->Err_0)
    } else if spawners is Err {
        Err(spawners->Err_0)
    } else {
        Ok(BiomeView {
            has_precipitation: has_precipitation->Ok_0,
            temperature: temperature->Ok_0,
            temperature_modifier: modifier->Ok_0,
            downfall: downfall->Ok_0,
            effects: effects->Ok_0,
            carvers: Carvers {},
            features: features->Ok_0,
            creature_spawn_probability: probability->Ok_0,
            spawners: Spawners {},
        })
    }
}

/// The biome that a document holds.
pub open spec fn spec_biome(j: JsonValue) -> Result<BiomeView, ParseError> {
    match j {
        JsonValue::Object(es) => spec_biome_object(es@),
        _ => Err(mismatch(Field::Document, Expected::Object, j)),
    }
}

fn read_effects(v: Option<&JsonValue>) -> (r: Result<Effects, ParseError>)
    ensures
        r == spec_effects(deref_value(v)),
{
    let es = match v {
        None => return Err(ParseError::MissingField(Field::Effects)),
        Some(JsonValue::Object(es)) => es,
        Some(o) => return Err(ParseError::TypeMismatch { field: Field::Effects, expected: Expected::Object, actual: o.kind() }),
    };
    let fog_color = match read_u32(Field::FogColor, get(es, "fog_color")) {
        Ok(x) => x,
        Err(e) => return Err(e),
    };
    let sky_color = match read_u32(Field::SkyColor, get(es, "sky_color")) {
        Ok(x) => x,
        Err(e) => return Err(e),
    };
    let water_color = match read_u32(Field::WaterColor, get(es, "water_color")) {
        Ok(x) => x,
        Err(e) => return Err(e),
    };
    let water_fog_color = match read_u32(Field::WaterFogColor, get(es, "water_fog_color")) {
        Ok(x) => x,
        Err(e) => return Err(e),
    };
    let foliage_color = match read_opt_u32(Field::FoliageColor, get(es, "foliage_color")) {
        Ok(x) => x,
        Err(e) => return Err(e),
    };
    let grass_color = match read_opt_u32(Field::GrassColor, get(es, "grass_color")) {
        Ok(x) => x,
        Err(e) => return Err(e),
    };
    let grass_color_modifier = match read_grass_color_modifier(Field::GrassColorModifier, get(es, "grass_color_modifier")) {
        Ok(x) => x,
        Err(e) => return Err(e),
    };
    let particle = match read_particle(Field::Particle, get(es, "particle")) {
        Ok(x) => x,
        Err(e) => return Err(e),
    };
    let ambient_sound = match read_opt_string(Field::AmbientSound, get(es, "ambient_sound")) {
        Ok(x) => x,
        Err(e) => return Err(e),
    };
    let mood_sound = match read_mood_sound(get(es, "mood_sound")) {
        Ok(x) => x,
        Err(e) => return Err(e),
    };
    let additions_sound = match read_additions_sound(get(es, "additions_sound")) {
        Ok(x) => x,
        Err(e) => return Err(e),
    };
    let music = match read_music(get(es, "music")) {
        Ok(x) => x,
        Err(e) => return Err(e),
    };
    match read_default_placeholder(Field::EffectsSpawners, get(es, "spawners")) {
        Ok(_) => {},
        Err(e) => return Err(e),
    }
    match read_default_placeholder(Field::EffectsSpawnCosts, get(es, "spawn_costs")) {
        Ok(_) => {},
        Err(e) => return Err(e),
    }
    Ok(Effects {
        fog_color,
        sky_color,
        water_color,
        water_fog_color,
        foliage_color,
        grass_color,
        grass_color_modifier,
        particle,
        ambient_sound,
        mood_sound,
        additions_sound,
        music,
        spawners: Spawners {},
        spawn_costs: SpawnCosts {},
    })
}

impl CustomeBiome {
    /// Reads a biome out of a JSON document tree. Fields the record does not
    /// know are ignored, and the content of the placeholder records is
    /// dropped.
    pub fn from_json(j: &JsonValue) -> (r: Result<CustomeBiome, ParseError>)
        ensures
            match r {
                Ok(b) => spec_biome(*j) == Ok::<BiomeView, ParseError>(b@) && b.wf(),
                Err(e) => spec_biome(*j) == Err::<BiomeView, ParseError>(e),
            },
    {
        let es = match j {
            JsonValue::Object(es) => es,
            other => return Err(ParseError::TypeMismatch { field: Field::Document, expected: Expected::Object, actual: other.kind() }),
        };
        let has_precipitation = match read_bool(Field::HasPrecipitation, get(es, "has_precipitation")) {
            Ok(x) => x,
            Err(e) => return Err(e),
        };
        let temperature = match read_number(Field::Temperature, get(es, "temperature")) {
            Ok(x) => x,
            Err(e) => return Err(e),
        };
        let temperature_modifier = match read_temperature_modifier(Field::TemperatureModifier, get(es, "temperature_modifier")) {
            Ok(x) => x,
            Err(e) => return Err(e),
        };
        let downfall = match read_number(Field::Downfall, get(es, "downfall")) {
            Ok(x) => x,
            Err(e) => return Err(e),
        };
        let effects = match read_effects(get(es, "effects")) {
            Ok(x) => x,
            Err(e) => return Err(e),
        };
        match read_placeholder(Field::Carvers, get(es, "carvers")) {
            Ok(_) => {},
            Err(e) => return Err(e),
        }
        let features = match read_features(get(es, "features")) {
            Ok(x) => x,
            Err(e) => return Err(e),
        };
        let creature_spawn_probability = match read_probability(Field::CreatureSpawnProbability, get(es, "creature_spawn_probability")) {
            Ok(x) => x,
            Err(e) => return Err(e),
        };
        match read_placeholder(Field::Spawners, get(es, "spawners")) {
            Ok(_) => {},
            Err(e) => return Err(e),
        }
        Ok(CustomeBiome {
            has_precipitation,
            temperature,
            temperature_modifier,
            downfall,
            effects,
            carvers: Carvers {},
            features,
            creature_spawn_probability,
            spawners: Spawners {},
        })
    }
}

/// Whether a key is one that a biome document's top level gives meaning to.
pub open spec fn is_biome_key(key: Seq<char>) -> bool {
    key == "has_precipitation"@ || key == "temperature"@ || key == "temperature_modifier"@
        || key == "downfall"@ || key == "effects"@ || key == "carvers"@ || key == "features"@
        || key == "creature_spawn_probability"@ || key == "spawners"@
}

/// A top-level entry whose key the biome does not know changes nothing in
/// what a document decodes to, be it a biome or an error.
pub proof fn lemma_unknown_key_ignored(entries: Seq<(String, JsonValue)>, extra: (String, JsonValue))
    requires
        !is_biome_key(extra.0@),
    ensures
        spec_biome_object(entries.push(extra)) == spec_biome_object(entries),
{
    broadcast use lemma_lookup_push;
}

/// A document that leaves out the temperature modifier, or the grass color
/// modifier of its effects, decodes to the modifier that modifies nothing.
pub proof fn lemma_omitted_modifiers(entries: Seq<(String, JsonValue)>)
    ensures
        spec_biome_object(entries) matches Ok(b) ==> {
            &&& lookup(entries, "temperature_modifier"@) is None
                ==> b.temperature_modifier == TemperatureModifier::Unmodified
            &&& (lookup(entries, "effects"@) matches Some(JsonValue::Object(es))
                && lookup(es@, "grass_color_modifier"@) is None)
                ==> b.effects.grass_color_modifier == EffectsGrassColorModifier::Unmodified
        },
{
}

} // verus!
