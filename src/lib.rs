//! Resource kinds of a game resource pack and the typed record of a custom
//! biome definition, with their contracts.

pub mod biome;
pub mod decode;
pub mod encode;
pub mod json;
pub mod resource;
