use minecraft_assets::resource::{ResourceCategory, ResourceKind};

#[test]
fn every_kind_maps_as_in_the_table() {
    let table = [
        (ResourceKind::BlockStates, ResourceCategory::Assets, "json", "blockstates"),
        (ResourceKind::BlockModel, ResourceCategory::Assets, "json", "models/block"),
        (ResourceKind::ItemModel, ResourceCategory::Assets, "json", "models/item"),
        (ResourceKind::Texture, ResourceCategory::Assets, "png", "textures"),
        (ResourceKind::TextureMeta, ResourceCategory::Assets, "png.mcmeta", "textures"),
        (ResourceKind::WorldGen_Biome, ResourceCategory::Data, "json", "worldgen/biome"),
    ];
    for (kind, category, extension, directory) in table {
        assert_eq!(kind.category(), category);
        assert_eq!(kind.extension(), extension);
        assert_eq!(kind.directory(), directory);
    }
}

#[test]
fn extension_examples() {
    assert_eq!(ResourceKind::BlockStates.extension(), "json");
    assert_eq!(ResourceKind::Texture.extension(), "png");
    assert_eq!(ResourceKind::TextureMeta.extension(), "png.mcmeta");
}

#[test]
fn category_folders() {
    assert_eq!(ResourceCategory::Assets.folder(), "assets");
    assert_eq!(ResourceCategory::Data.folder(), "data");
    assert_eq!(ResourceKind::WorldGen_Biome.category().folder(), "data");
}
