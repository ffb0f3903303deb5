//! Writing a biome record as a JSON document tree.
//!
//! Required fields are always written. Optional fields that are absent, and
//! modifiers that modify nothing, are left out.

use vstd::prelude::*;
use crate::biome::{
    lemma_grass_color_modifier_name, lemma_temperature_modifier_name, BiomeView,
    CustomeBiome, Effects, EffectsAdditionsSound, EffectsParticle, EffectsGrassColorModifier, EffectsMoodSound,
    EffectsMusic, ParseError, TemperatureModifier,
};
use crate::decode::{
    spec_additions_sound_object, spec_biome, spec_effects_object, spec_features,
    spec_mood_sound_object, spec_music_object, step_ok, step_strings,
};
use crate::json::{JsonNumber, JsonValue, lookup, lemma_lookup_push, lemma_lookup_empty};

verus! {

fn entry(key: &str, value: JsonValue) -> (r: (String, JsonValue))
    ensures
        r.0@ == key@,
        r.1 == value,
{
    (key.to_owned(), value)
}

fn unsigned(x: u32) -> (r: JsonValue)
    ensures
        r == JsonValue::Number(JsonNumber::PosInt(x as u64)),
{
    JsonValue::Number(JsonNumber::PosInt(x as u64))
}

impl EffectsMoodSound {
    /// Writes these settings as a JSON object.
    pub fn to_json(&self) -> (r: JsonValue)
        ensures
            r matches JsonValue::Object(es) && spec_mood_sound_object(es@) == Ok::<EffectsMoodSound, ParseError>(*self),
    {
        broadcast use lemma_lookup_push;
        let mut es: Vec<(String, JsonValue)> = Vec::new();
        proof {
            lemma_lookup_empty("sound"@);
            lemma_lookup_empty("tick_delay"@);
            lemma_lookup_empty("block_search_extent"@);
            lemma_lookup_empty("offset"@);
        }
        es.push(entry("sound", JsonValue::Str(self.sound.clone())));
        es.push(entry("tick_delay", unsigned(self.tick_delay)));
        es.push(entry("block_search_extent", unsigned(self.block_search_extent)));
        es.push(entry("offset", JsonValue::Number(self.offset)));
        proof {
            reveal_strlit("sound");
            reveal_strlit("tick_delay");
            reveal_strlit("block_search_extent");
            reveal_strlit("offset");
            assert("sound"@.len() == 5);
            assert("tick_delay"@.len() == 10);
            assert("block_search_extent"@.len() == 19);
            assert("offset"@.len() == 6);
        }
        JsonValue::Object(es)
    }
}

impl EffectsAdditionsSound {
    /// Writes these settings as a JSON object.
    pub fn to_json(&self) -> (r: JsonValue)
        ensures
            r matches JsonValue::Object(es) && spec_additions_sound_object(es@) == Ok::<EffectsAdditionsSound, ParseError>(*self),
    {
        broadcast use lemma_lookup_push;
        let mut es: Vec<(String, JsonValue)> = Vec::new();
        proof {
            lemma_lookup_empty("sound"@);
            lemma_lookup_empty("tick_chance"@);
        }
        es.push(entry("sound", JsonValue::Str(self.sound.clone())));
        es.push(entry("tick_chance", JsonValue::Number(self.tick_chance)));
        proof {
            reveal_strlit("sound");
            reveal_strlit("tick_chance");
            assert("sound"@.len() == 5);
            assert("tick_chance"@.len() == 11);
        }
        JsonValue::Object(es)
    }
}

impl EffectsMusic {
    /// Writes these settings as a JSON object.
    pub fn to_json(&self) -> (r: JsonValue)
        ensures
            r matches JsonValue::Object(es) && spec_music_object(es@) == Ok::<EffectsMusic, ParseError>(*self),
    {
        broadcast use lemma_lookup_push;
        let mut es: Vec<(String, JsonValue)> = Vec::new();
        proof {
            lemma_lookup_empty("sound"@);
            lemma_lookup_empty("min_delay"@);
            lemma_lookup_empty("max_delay"@);
            lemma_lookup_empty("replace_current_music"@);
        }
        es.push(entry("sound", JsonValue::Str(self.sound.clone())));
        es.push(entry("min_delay", unsigned(self.min_delay)));
        es.push(entry("max_delay", unsigned(self.max_delay)));
        es.push(entry("replace_current_music", JsonValue::Bool(self.replace_current_music)));
        proof {
            reveal_strlit("sound");
            reveal_strlit("min_delay");
            reveal_strlit("max_delay");
            reveal_strlit("replace_current_music");
            assert("sound"@.len() == 5);
            assert("min_delay"@.len() == 9);
            assert("max_delay"@.len() == 9);
            assert("min_delay"@[1] == 'i');
            assert("max_delay"@[1] == 'a');
            assert("replace_current_music"@.len() == 21);
        }
        JsonValue::Object(es)
    }
}

fn empty_object() -> (r: JsonValue)
    ensures
        r matches JsonValue::Object(c) && c@.len() == 0,
{
    JsonValue::Object(Vec::new())
}

impl Effects {
    /// Writes these effects as a JSON object.
    #[verifier::rlimit(60)]
    pub fn to_json(&self) -> (r: JsonValue)
        ensures
            r matches JsonValue::Object(es) && spec_effects_object(es@) == Ok::<Effects, ParseError>(*self)
                && (lookup(es@, "foliage_color"@) is None <==> self.foliage_color is None)
                && (lookup(es@, "grass_color"@) is None <==> self.grass_color is None)
                && (lookup(es@, "grass_color_modifier"@) is None
                    <==> self.grass_color_modifier == EffectsGrassColorModifier::Unmodified)
                && (lookup(es@, "particle"@) is None <==> self.particle is None)
                && (lookup(es@, "ambient_sound"@) is None <==> self.ambient_sound is None)
                && (lookup(es@, "mood_sound"@) is None <==> self.mood_sound is None)
                && (lookup(es@, "additions_sound"@) is None <==> self.additions_sound is None)
                && (lookup(es@, "music"@) is None <==> self.music is None),
    {
        broadcast use lemma_lookup_push;
        let mut es: Vec<(String, JsonValue)> = Vec::new();
        proof {
            reveal_strlit("fog_color");
            reveal_strlit("sky_color");
            reveal_strlit("water_color");
            reveal_strlit("water_fog_color");
            reveal_strlit("foliage_color");
            reveal_strlit("grass_color");
            reveal_strlit("grass_color_modifier");
            reveal_strlit("particle");
            reveal_strlit("ambient_sound");
            reveal_strlit("mood_sound");
            reveal_strlit("additions_sound");
            reveal_strlit("music");
            reveal_strlit("spawners");
            reveal_strlit("spawn_costs");
            assert("fog_color"@.len() == 9 && "fog_color"@[0] == 'f');
            assert("sky_color"@.len() == 9 && "sky_color"@[0] == 's');
            assert("water_color"@.len() == 11 && "water_color"@[0] == 'w');
            assert("water_fog_color"@.len() == 15 && "water_fog_color"@[0] == 'w');
            assert("foliage_color"@.len() == 13 && "foliage_color"@[0] == 'f');
            assert("grass_color"@.len() == 11 && "grass_color"@[0] == 'g');
            assert("grass_color_modifier"@.len() == 20);
            assert("particle"@.len() == 8 && "particle"@[0] == 'p');
            assert("ambient_sound"@.len() == 13 && "ambient_sound"@[0] == 'a');
            assert("mood_sound"@.len() == 10);
            assert("additions_sound"@.len() == 15 && "additions_sound"@[0] == 'a');
            assert("music"@.len() == 5);
            assert("spawners"@.len() == 8 && "spawners"@[0] == 's');
            assert("spawn_costs"@.len() == 11 && "spawn_costs"@[0] == 's');
            lemma_lookup_empty("fog_color"@);
            lemma_lookup_empty("sky_color"@);
            lemma_lookup_empty("water_color"@);
            lemma_lookup_empty("water_fog_color"@);
            lemma_lookup_empty("foliage_color"@);
            lemma_lookup_empty("grass_color"@);
            lemma_lookup_empty("grass_color_modifier"@);
            lemma_lookup_empty("particle"@);
            lemma_lookup_empty("ambient_sound"@);
            lemma_lookup_empty("mood_sound"@);
            lemma_lookup_empty("additions_sound"@);
            lemma_lookup_empty("music"@);
            lemma_lookup_empty("spawners"@);
            lemma_lookup_empty("spawn_costs"@);
        }
        es.push(entry("fog_color", unsigned(self.fog_color)));
        es.push(entry("sky_color", unsigned(self.sky_color)));
        es.push(entry("water_color", unsigned(self.water_color)));
        es.push(entry("water_fog_color", unsigned(self.water_fog_color)));
        if let Some(c) = self.foliage_color {
            es.push(entry("foliage_color", unsigned(c)));
        }
        if let Some(c) = self.grass_color {
            es.push(entry("grass_color", unsigned(c)));
        }
        match self.grass_color_modifier {
            EffectsGrassColorModifier::Unmodified => {},
            m => {
                proof {
                    lemma_grass_color_modifier_name(m);
                }
                es.push(entry("grass_color_modifier", JsonValue::Str(m.name().to_owned())));
            },
        }
        if let Some(p) = self.particle {
            proof {
                assert(p == EffectsParticle {});
            }
            es.push(entry("particle", empty_object()));
        }
        if let Some(s) = &self.ambient_sound {
            es.push(entry("ambient_sound", JsonValue::Str(s.clone())));
        }
        if let Some(m) = &self.mood_sound {
            es.push(entry("mood_sound", m.to_json()));
        }
        if let Some(m) = &self.additions_sound {
            es.push(entry("additions_sound", m.to_json()));
        }
        if let Some(m) = &self.music {
            es.push(entry("music", m.to_json()));
        }
        es.push(entry("spawners", empty_object()));
        es.push(entry("spawn_costs", empty_object()));
        JsonValue::Object(es)
    }
}

fn features_to_json(fs: &Vec<Vec<String>>) -> (r: JsonValue)
    ensures
        spec_features(Some(r)) == Ok::<Seq<Seq<String>>, ParseError>(fs@.map_values(|s: Vec<String>| s@)),
{
    let mut steps: Vec<JsonValue> = Vec::new();
    let mut i: usize = 0;
    while i < fs.len()
        invariant
            0 <= i <= fs@.len(),
            steps@.len() == i,
            forall|k: int| 0 <= k < i ==> step_ok(#[trigger] steps@[k]) && step_strings(steps@[k]) == fs@[k]@,
        decreases fs@.len() - i,
    {
        let ids = &fs[i];
        let mut items: Vec<JsonValue> = Vec::new();
        let mut j: usize = 0;
        while j < ids.len()
            invariant
                0 <= j <= ids@.len(),
                items@.len() == j,
                forall|k: int| 0 <= k < j ==> #[trigger] items@[k] == JsonValue::Str(ids@[k]),
            decreases ids@.len() - j,
        {
            items.push(JsonValue::Str(ids[j].clone()));
            j = j + 1;
        }
        let ghost step = JsonValue::Array(items);
        assert(step_ok(step));
        assert(step_strings(step) =~= ids@);
        steps.push(JsonValue::Array(items));
        i = i + 1;
    }
    assert(steps@.map_values(|s: JsonValue| step_strings(s)) =~= fs@.map_values(|s: Vec<String>| s@));
    JsonValue::Array(steps)
}

impl CustomeBiome {
    /// Writes this biome as a JSON document tree. A well-formed biome is
    /// read back from it unchanged. The placeholder records are written as
    /// empty objects, whatever the document they were read from held.
    #[verifier::rlimit(60)]
    pub fn to_json(&self) -> (r: JsonValue)
        ensures
            self.wf() ==> spec_biome(r) == Ok::<BiomeView, ParseError>(self@),
            r is Object,
            r matches JsonValue::Object(es) ==> {
                &&& (lookup(es@, "temperature_modifier"@) is None
                    <==> self.temperature_modifier == TemperatureModifier::Unmodified)
                &&& (lookup(es@, "creature_spawn_probability"@) is None
                    <==> self.creature_spawn_probability is None)
                &&& (lookup(es@, "carvers"@) matches Some(JsonValue::Object(c)) && c@.len() == 0)
                &&& (lookup(es@, "spawners"@) matches Some(JsonValue::Object(s)) && s@.len() == 0)
            },
    {
        broadcast use lemma_lookup_push;
        let mut es: Vec<(String, JsonValue)> = Vec::new();
        proof {
            reveal_strlit("has_precipitation");
            reveal_strlit("temperature");
            reveal_strlit("temperature_modifier");
            reveal_strlit("downfall");
            reveal_strlit("effects");
            reveal_strlit("carvers");
            reveal_strlit("features");
            reveal_strlit("creature_spawn_probability");
            reveal_strlit("spawners");
            assert("has_precipitation"@.len() == 17);
            assert("temperature"@.len() == 11);
            assert("temperature_modifier"@.len() == 20);
            assert("downfall"@.len() == 8 && "downfall"@[0] == 'd');
            assert("effects"@.len() == 7 && "effects"@[0] == 'e');
            assert("carvers"@.len() == 7 && "carvers"@[0] == 'c');
            assert("features"@.len() == 8 && "features"@[0] == 'f');
            assert("creature_spawn_probability"@.len() == 26);
            assert("spawners"@.len() == 8 && "spawners"@[0] == 's');
            lemma_lookup_empty("has_precipitation"@);
            lemma_lookup_empty("temperature"@);
            lemma_lookup_empty("temperature_modifier"@);
            lemma_lookup_empty("downfall"@);
            lemma_lookup_empty("effects"@);
            lemma_lookup_empty("carvers"@);
            lemma_lookup_empty("features"@);
            lemma_lookup_empty("creature_spawn_probability"@);
            lemma_lookup_empty("spawners"@);
        }
        es.push(entry("has_precipitation", JsonValue::Bool(self.has_precipitation)));
        es.push(entry("temperature", JsonValue::Number(self.temperature)));
        match self.temperature_modifier {
            TemperatureModifier::Unmodified => {},
            m => {
                proof {
                    lemma_temperature_modifier_name(m);
                }
                es.push(entry("temperature_modifier", JsonValue::Str(m.name().to_owned())));
            },
        }
        es.push(entry("downfall", JsonValue::Number(self.downfall)));
        es.push(entry("effects", self.effects.to_json()));
        es.push(entry("carvers", empty_object()));
        es.push(entry("features", features_to_json(&self.features)));
        if let Some(p) = self.creature_spawn_probability {
            es.push(entry("creature_spawn_probability", JsonValue::Number(p)));
        }
        es.push(entry("spawners", empty_object()));
        JsonValue::Object(es)
    }
}

} // verus!
