//! The closed set of resource kinds and where their files live.

use vstd::prelude::*;

verus! {

/// Whether a resource lives under the `assets` or the `data` root.
#[derive(Debug, Clone, Copy, PartialEq, Eq, Hash, Structural)]
pub enum ResourceCategory {
    /// Resources under `assets/<namespace>/`.
    Assets,
    /// Resources under `data/<namespace>/`.
    Data,
}

/// The type of a resource.
#[allow(non_camel_case_types)]
#[derive(Debug, Clone, Copy, PartialEq, Eq, Hash, Structural)]
pub enum ResourceKind {
    /// Resources (`.json`) in `assets/<namespace>/blockstates/`.
    BlockStates,
    /// Resources (`.json`) in `assets/<namespace>/models/block/`.
    BlockModel,
    /// Resources (`.json`) in `assets/<namespace>/models/item/`.
    ItemModel,
    /// Resources (`.png`) in `assets/<namespace>/textures/`.
    Texture,
    /// Resources (`.png.mcmeta`) in `assets/<namespace>/textures/`.
    TextureMeta,
    /// Resources (`.json`) in `data/<namespace>/worldgen/biome/`.
    WorldGen_Biome,
}

/// The category of each kind: only biome definitions are data.
pub open spec fn category_of(k: ResourceKind) -> ResourceCategory {
    match k {
        ResourceKind::WorldGen_Biome => ResourceCategory::Data,
        _ => ResourceCategory::Assets,
    }
}

/// The file extension of each kind, without the leading dot.
pub open spec fn extension_of(k: ResourceKind) -> Seq<char> {
    match k {
        ResourceKind::Texture => "png"@,
        ResourceKind::TextureMeta => "png.mcmeta"@,
        _ => "json"@,
    }
}

/// The directory of each kind, relative to `<category>/<namespace>/`.
pub open spec fn directory_of(k: ResourceKind) -> Seq<char> {
    match k {
        ResourceKind::BlockStates => "blockstates"@,
        ResourceKind::BlockModel => "models/block"@,
        ResourceKind::ItemModel => "models/item"@,
        ResourceKind::Texture => "textures"@,
        ResourceKind::TextureMeta => "textures"@,
        ResourceKind::WorldGen_Biome => "worldgen/biome"@,
    }
}

/// The folder name of each category.
pub open spec fn category_folder_of(c: ResourceCategory) -> Seq<char> {
    match c {
        ResourceCategory::Assets => "assets"@,
        ResourceCategory::Data => "data"@,
    }
}

impl ResourceCategory {
    /// Returns the name of the root folder of this category.
    pub fn folder(&self) -> (r: &'static str)
        ensures
            r@ == category_folder_of(*self),
    {
        match self {
            ResourceCategory::Assets => "assets",
            ResourceCategory::Data => "data",
        }
    }
}

impl ResourceKind {
    /// Returns the category of this resource type (assets or data).
    pub fn category(&self) -> (r: ResourceCategory)
        ensures
            r == category_of(*self),
    {
        match self {
            ResourceKind::BlockStates
            | ResourceKind::BlockModel
            | ResourceKind::ItemModel
            | ResourceKind::Texture
            | ResourceKind::TextureMeta => ResourceCategory::Assets,
            ResourceKind::WorldGen_Biome => ResourceCategory::Data,
        }
    }

    /// Returns the file extension used for this resource's file.
    pub fn extension(&self) -> (r: &'static str)
        ensures
            r@ == extension_of(*self),
    {
        match self {
            ResourceKind::BlockStates
            | ResourceKind::BlockModel
            | ResourceKind::ItemModel
            | ResourceKind::WorldGen_Biome => "json",
            ResourceKind::Texture => "png",
            ResourceKind::TextureMeta => "png.mcmeta",
        }
    }

    /// Returns the path relative to `assets/<namespace>/` or
    /// `data/<namespace>/` in which resources of this type reside.
    pub fn directory(&self) -> (r: &'static str)
        ensures
            r@ == directory_of(*self),
    {
        match self {
            ResourceKind::BlockStates => "blockstates",
            ResourceKind::BlockModel => "models/block",
            ResourceKind::ItemModel => "models/item",
            ResourceKind::Texture | ResourceKind::TextureMeta => "textures",
            ResourceKind::WorldGen_Biome => "worldgen/biome",
        }
    }
}

} // verus!
