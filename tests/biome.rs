use minecraft_assets::biome::{
    is_spawn_probability_in_range, CustomeBiome, EffectsGrassColorModifier, Expected, Field,
    ParseError, TemperatureModifier, MAX_SPAWN_PROBABILITY_BITS,
};
use minecraft_assets::json::{JsonKind, JsonNumber, JsonValue};

fn tree_of(v: &serde_json::Value) -> JsonValue {
    match v {
        serde_json::Value::Null => JsonValue::Null,
        serde_json::Value::Bool(b) => JsonValue::Bool(*b),
        serde_json::Value::Number(n) => JsonValue::Number(if let Some(u) = n.as_u64() {
            JsonNumber::PosInt(u)
        } else if let Some(i) = n.as_i64() {
            JsonNumber::NegInt(i)
        } else {
            JsonNumber::Float(n.as_f64().unwrap().to_bits())
        }),
        serde_json::Value::String(s) => JsonValue::Str(s.clone()),
        serde_json::Value::Array(a) => JsonValue::Array(a.iter().map(tree_of).collect()),
        serde_json::Value::Object(o) => {
            JsonValue::Object(o.iter().map(|(k, v)| (k.clone(), tree_of(v))).collect())
        }
    }
}

fn value_of(t: &JsonValue) -> serde_json::Value {
    match t {
        JsonValue::Null => serde_json::Value::Null,
        JsonValue::Bool(b) => serde_json::Value::Bool(*b),
        JsonValue::Number(JsonNumber::PosInt(u)) => serde_json::Value::from(*u),
        JsonValue::Number(JsonNumber::NegInt(i)) => serde_json::Value::from(*i),
        JsonValue::Number(JsonNumber::Float(b)) => serde_json::Value::from(f64::from_bits(*b)),
        JsonValue::Str(s) => serde_json::Value::String(s.clone()),
        JsonValue::Array(a) => serde_json::Value::Array(a.iter().map(value_of).collect()),
        JsonValue::Object(o) => serde_json::Value::Object(
            o.iter().map(|(k, v)| (k.clone(), value_of(v))).collect(),
        ),
    }
}

fn parse(text: &str) -> Result<CustomeBiome, ParseError> {
    match serde_json::from_str::<serde_json::Value>(text) {
        Ok(v) => CustomeBiome::from_json(&tree_of(&v)),
        Err(_) => Err(ParseError::MalformedSyntax),
    }
}

fn serialize(b: &CustomeBiome) -> String {
    serde_json::to_string(&value_of(&b.to_json())).unwrap()
}

fn float(x: f64) -> JsonNumber {
    JsonNumber::Float(x.to_bits())
}

const EFFECTS: &str =
    r#"{"fog_color": 12638463, "sky_color": 7907327, "water_color": 4159204, "water_fog_color": 329011}"#;

fn document(extra: &str) -> String {
    format!(
        r#"{{"has_precipitation": true, "temperature": 0.8, "downfall": 0.4, "effects": {}, "carvers": {{}}, "features": [], "spawners": {{}}{}}}"#,
        EFFECTS, extra
    )
}

const PLAINS_1_18: &str = r#"{
    "has_precipitation": true,
    "temperature": 0.8,
    "downfall": 0.4,
    "effects": {
        "mood_sound": {
            "sound": "minecraft:ambient.cave",
            "tick_delay": 6000,
            "block_search_extent": 8,
            "offset": 2.0
        },
        "sky_color": 7907327,
        "fog_color": 12638463,
        "water_color": 4159204,
        "water_fog_color": 329011
    },
    "spawners": {
        "monster": [{"type": "minecraft:spider", "weight": 100, "minCount": 4, "maxCount": 4}],
        "creature": [{"type": "minecraft:sheep", "weight": 12, "minCount": 4, "maxCount": 4}]
    },
    "spawn_costs": {},
    "carvers": {"air": ["minecraft:cave", "minecraft:cave_extra_underground", "minecraft:canyon"]},
    "features": [
        [],
        ["minecraft:lake_lava_underground", "minecraft:lake_lava_surface"],
        ["minecraft:amethyst_geode"],
        ["minecraft:monster_room", "minecraft:monster_room_deep"],
        [],
        [],
        ["minecraft:ore_dirt", "minecraft:ore_gravel", "minecraft:ore_granite_upper"],
        [],
        ["minecraft:spring_water", "minecraft:spring_lava"],
        ["minecraft:glow_lichen", "minecraft:patch_tall_grass_2", "minecraft:trees_plains"],
        ["minecraft:freeze_top_layer"]
    ]
}"#;

#[test]
fn can_parse_all_worldgen_biome_1_18() {
    let b = parse(PLAINS_1_18).unwrap();
    assert!(b.has_precipitation);
    assert_eq!(b.temperature, float(0.8));
    assert_eq!(b.downfall, float(0.4));
    assert_eq!(b.features.len(), 11);
    assert_eq!(b.features[6][1], "minecraft:ore_gravel");
    let mood = b.effects.mood_sound.as_ref().unwrap();
    assert_eq!(mood.sound, "minecraft:ambient.cave");
    assert_eq!(mood.tick_delay, 6000);
    assert_eq!(mood.block_search_extent, 8);
    assert_eq!(mood.offset, float(2.0));
}

#[test]
fn minimal_document_round_trips() {
    let first = parse(&document("")).unwrap();
    let second = parse(&serialize(&first)).unwrap();
    assert_eq!(first, second);
    assert_eq!(first.temperature, float(0.8));
    assert_eq!(first.effects.fog_color, 12638463);
    assert!(first.features.is_empty());
}

#[test]
fn spawn_probability_upper_bound_is_admitted() {
    let b = parse(&document(r#", "creature_spawn_probability": 0.9999999"#)).unwrap();
    assert_eq!(b.creature_spawn_probability, Some(float(0.9999999)));
}

#[test]
fn spawn_probability_of_one_is_out_of_range() {
    let r = parse(&document(r#", "creature_spawn_probability": 1.0"#));
    assert_eq!(
        r,
        Err(ParseError::OutOfRange { field: Field::CreatureSpawnProbability, value: float(1.0) })
    );
    let r = parse(&document(r#", "creature_spawn_probability": 1"#));
    assert_eq!(
        r,
        Err(ParseError::OutOfRange {
            field: Field::CreatureSpawnProbability,
            value: JsonNumber::PosInt(1)
        })
    );
    let r = parse(&document(r#", "creature_spawn_probability": -0.5"#));
    assert!(matches!(r, Err(ParseError::OutOfRange { .. })));
}

#[test]
fn spawn_probability_of_zero_is_admitted() {
    let b = parse(&document(r#", "creature_spawn_probability": 0.0"#)).unwrap();
    assert_eq!(b.creature_spawn_probability, Some(float(0.0)));
    let b = parse(&document(r#", "creature_spawn_probability": 0"#)).unwrap();
    assert_eq!(b.creature_spawn_probability, Some(JsonNumber::PosInt(0)));
}

#[test]
fn absent_spawn_probability_is_absent() {
    let b = parse(&document("")).unwrap();
    assert_eq!(b.creature_spawn_probability, None);
    let b = parse(&document(r#", "creature_spawn_probability": null"#)).unwrap();
    assert_eq!(b.creature_spawn_probability, None);
}

#[test]
fn spawn_probability_bounds_on_bits() {
    assert!(is_spawn_probability_in_range(float(0.0)));
    assert!(is_spawn_probability_in_range(float(-0.0)));
    assert!(is_spawn_probability_in_range(float(0.5)));
    assert!(is_spawn_probability_in_range(JsonNumber::Float(MAX_SPAWN_PROBABILITY_BITS)));
    assert_eq!(MAX_SPAWN_PROBABILITY_BITS, 0.9999999f64.to_bits());
    assert!(!is_spawn_probability_in_range(JsonNumber::Float(MAX_SPAWN_PROBABILITY_BITS + 1)));
    assert!(!is_spawn_probability_in_range(float(1.0)));
    assert!(!is_spawn_probability_in_range(float(-0.1)));
    assert!(!is_spawn_probability_in_range(float(f64::NAN)));
    assert!(!is_spawn_probability_in_range(float(f64::INFINITY)));
    assert!(!is_spawn_probability_in_range(JsonNumber::NegInt(-1)));
}

#[test]
fn omitted_modifiers_default_to_unmodified() {
    let b = parse(&document("")).unwrap();
    assert_eq!(b.temperature_modifier, TemperatureModifier::Unmodified);
    assert_eq!(b.effects.grass_color_modifier, EffectsGrassColorModifier::Unmodified);
    assert_eq!(TemperatureModifier::default(), TemperatureModifier::Unmodified);
    assert_eq!(EffectsGrassColorModifier::default(), EffectsGrassColorModifier::Unmodified);
}

#[test]
fn unknown_keys_are_ignored() {
    let b = parse(&document(r#", "future_setting": {"anything": [1, 2, 3]}"#)).unwrap();
    assert_eq!(b, parse(&document("")).unwrap());
}

#[test]
fn placeholder_content_is_dropped() {
    let text = document("").replace(r#""carvers": {}"#, r#""carvers": {"air": ["minecraft:cave"]}"#);
    let b = parse(&text).unwrap();
    let out: serde_json::Value = serde_json::from_str(&serialize(&b)).unwrap();
    assert_eq!(out["carvers"], serde_json::Value::Object(serde_json::Map::new()));
    assert_eq!(out["spawners"], serde_json::Value::Object(serde_json::Map::new()));
}

const REALISTIC: &str = r#"{
    "has_precipitation": true,
    "temperature": 0.25,
    "temperature_modifier": "frozen",
    "downfall": 0.8,
    "effects": {
        "fog_color": 12638463,
        "sky_color": 8103167,
        "water_color": 4020182,
        "water_fog_color": 329011,
        "foliage_color": 6975545,
        "grass_color": 8564853,
        "grass_color_modifier": "dark_forest",
        "particle": {},
        "ambient_sound": "minecraft:ambient.crimson_forest.loop",
        "mood_sound": {"sound": "minecraft:ambient.cave", "tick_delay": 6000, "block_search_extent": 8, "offset": 2.0},
        "additions_sound": {"sound": "minecraft:ambient.crimson_forest.additions", "tick_chance": 0.0111},
        "music": {"sound": "minecraft:music.overworld.forest", "min_delay": 12000, "max_delay": 24000, "replace_current_music": false}
    },
    "carvers": {},
    "features": [["minecraft:ore_dirt", "minecraft:ore_gravel"], ["minecraft:spring_water", "minecraft:spring_lava"]],
    "creature_spawn_probability": 0.5,
    "spawners": {}
}"#;

#[test]
fn realistic_document_keeps_every_field() {
    let b = parse(REALISTIC).unwrap();
    assert!(b.has_precipitation);
    assert_eq!(b.temperature, float(0.25));
    assert_eq!(b.temperature_modifier, TemperatureModifier::Frozen);
    assert_eq!(b.downfall, float(0.8));
    assert_eq!(b.creature_spawn_probability, Some(float(0.5)));
    assert_eq!(
        b.features,
        vec![
            vec!["minecraft:ore_dirt".to_string(), "minecraft:ore_gravel".to_string()],
            vec!["minecraft:spring_water".to_string(), "minecraft:spring_lava".to_string()],
        ]
    );
    let e = &b.effects;
    assert_eq!(
        (e.fog_color, e.sky_color, e.water_color, e.water_fog_color),
        (12638463, 8103167, 4020182, 329011)
    );
    assert_eq!(e.foliage_color, Some(6975545));
    assert_eq!(e.grass_color, Some(8564853));
    assert_eq!(e.grass_color_modifier, EffectsGrassColorModifier::DarkForest);
    assert!(e.particle.is_some());
    assert_eq!(e.ambient_sound.as_deref(), Some("minecraft:ambient.crimson_forest.loop"));
    let additions = e.additions_sound.as_ref().unwrap();
    assert_eq!(additions.sound, "minecraft:ambient.crimson_forest.additions");
    assert_eq!(additions.tick_chance, float(0.0111));
    let music = e.music.as_ref().unwrap();
    assert_eq!(music.sound, "minecraft:music.overworld.forest");
    assert_eq!((music.min_delay, music.max_delay, music.replace_current_music), (12000, 24000, false));

    let out: serde_json::Value = serde_json::from_str(&serialize(&b)).unwrap();
    assert_eq!(out["temperature_modifier"], "frozen");
    assert_eq!(out["creature_spawn_probability"], 0.5);
    assert_eq!(out["effects"]["foliage_color"], 6975545);
    assert_eq!(out["effects"]["grass_color"], 8564853);
    assert_eq!(out["effects"]["grass_color_modifier"], "dark_forest");
    assert_eq!(out["effects"]["ambient_sound"], "minecraft:ambient.crimson_forest.loop");
    assert_eq!(out["effects"]["mood_sound"]["tick_delay"], 6000);
    assert_eq!(out["effects"]["additions_sound"]["tick_chance"], 0.0111);
    assert_eq!(out["effects"]["music"]["max_delay"], 24000);
    assert_eq!(out["features"][1][0], "minecraft:spring_water");
    assert_eq!(parse(&serialize(&b)).unwrap(), b);
}

#[test]
fn defaults_and_absent_fields_are_not_written() {
    let b = parse(&document("")).unwrap();
    let out: serde_json::Value = serde_json::from_str(&serialize(&b)).unwrap();
    let top = out.as_object().unwrap();
    assert!(!top.contains_key("temperature_modifier"));
    assert!(!top.contains_key("creature_spawn_probability"));
    let effects = out["effects"].as_object().unwrap();
    for key in ["foliage_color", "grass_color", "grass_color_modifier", "particle", "ambient_sound", "mood_sound", "additions_sound", "music"] {
        assert!(!effects.contains_key(key));
    }
    assert_eq!(out["effects"]["water_fog_color"], 329011);
}

#[test]
fn missing_required_field_is_reported() {
    let text = document("").replace(r#""downfall": 0.4, "#, "");
    assert_eq!(parse(&text), Err(ParseError::MissingField(Field::Downfall)));
    let text = document("").replace(r#""sky_color": 7907327, "#, "");
    assert_eq!(parse(&text), Err(ParseError::MissingField(Field::SkyColor)));
    let text = document("").replace(r#", "spawners": {}"#, "");
    assert_eq!(parse(&text), Err(ParseError::MissingField(Field::Spawners)));
}

#[test]
fn wrong_shapes_are_reported() {
    let text = document("").replace(r#""temperature": 0.8"#, r#""temperature": "warm""#);
    assert_eq!(
        parse(&text),
        Err(ParseError::TypeMismatch { field: Field::Temperature, expected: Expected::Number, actual: JsonKind::Str })
    );
    let text = document("").replace("12638463", "-1");
    assert_eq!(
        parse(&text),
        Err(ParseError::TypeMismatch { field: Field::FogColor, expected: Expected::U32, actual: JsonKind::Number })
    );
    let text = document("").replace("12638463", "4294967296");
    assert_eq!(
        parse(&text),
        Err(ParseError::TypeMismatch { field: Field::FogColor, expected: Expected::U32, actual: JsonKind::Number })
    );
    let text = document("").replace(r#""features": []"#, r#""features": [["a"], ["b", 3]]"#);
    assert_eq!(
        parse(&text),
        Err(ParseError::TypeMismatch { field: Field::Features, expected: Expected::Str, actual: JsonKind::Number })
    );
    let text = document("").replace(r#""features": []"#, r#""features": [null]"#);
    assert_eq!(
        parse(&text),
        Err(ParseError::TypeMismatch { field: Field::Features, expected: Expected::Array, actual: JsonKind::Null })
    );
    let text = document(r#", "temperature_modifier": "hot""#);
    assert_eq!(
        parse(&text),
        Err(ParseError::TypeMismatch {
            field: Field::TemperatureModifier,
            expected: Expected::TemperatureModifierName,
            actual: JsonKind::Str
        })
    );
    assert_eq!(
        parse("[1, 2]"),
        Err(ParseError::TypeMismatch { field: Field::Document, expected: Expected::Object, actual: JsonKind::Array })
    );
}

#[test]
fn malformed_text_is_reported() {
    assert_eq!(parse(r#"{"has_precipitation": tru"#), Err(ParseError::MalformedSyntax));
}

#[test]
fn modifier_names() {
    assert_eq!(TemperatureModifier::from_name("frozen"), Some(TemperatureModifier::Frozen));
    assert_eq!(TemperatureModifier::from_name("none"), Some(TemperatureModifier::Unmodified));
    assert_eq!(TemperatureModifier::from_name("Frozen"), None);
    assert_eq!(TemperatureModifier::Frozen.name(), "frozen");
    assert_eq!(EffectsGrassColorModifier::from_name("swamp"), Some(EffectsGrassColorModifier::Swamp));
    assert_eq!(EffectsGrassColorModifier::from_name("dark_forest"), Some(EffectsGrassColorModifier::DarkForest));
    assert_eq!(EffectsGrassColorModifier::from_name("darkforest"), None);
    assert_eq!(EffectsGrassColorModifier::DarkForest.name(), "dark_forest");
    assert_eq!(EffectsGrassColorModifier::Unmodified.name(), "none");
}
