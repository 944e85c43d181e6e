//! Tests for the asset catalog: resolution and the per-category adders
//! that back the asset browser.

use scene_commands::doc::{
    AssetFile, LandscapeAsset, Level, PbrTextureSet, SceneDocument, StatAsset,
};

fn empty_doc() -> SceneDocument {
    SceneDocument {
        models: vec![],
        textures: vec![],
        pbr_textures: vec![],
        landscapes: vec![],
        stats: vec![],
        levels: vec![Level { components: vec![], sky: None }],
    }
}

fn file(id: &str, name: &str) -> AssetFile {
    AssetFile { id: id.to_string(), file_name: name.to_string() }
}

#[test]
fn adders_append_in_order() {
    let mut d = empty_doc();
    d.add_model_asset(file("m1", "chair.glb"));
    d.add_model_asset(file("m2", "table.glb"));
    d.add_texture_asset(file("t1", "wood.png"));
    d.add_pbr_texture_set(PbrTextureSet {
        id: "p1".to_string(),
        diff: Some(file("p1d", "d.png")),
        nor_gl: None,
        rough: None,
        metallic: None,
        ao: None,
    });
    d.add_landscape_asset(LandscapeAsset {
        id: "l1".to_string(),
        heightmap: Some(file("hf", "hm.png")),
        rockmap: None,
        soil: None,
    });
    d.add_stat(StatAsset { id: "s1".to_string(), name: "stats".to_string() });
    assert_eq!(d.models.len(), 2);
    assert_eq!(d.models[0].id, "m1");
    assert_eq!(d.models[1].id, "m2");
    assert_eq!(d.textures.len(), 1);
    assert_eq!(d.pbr_textures.len(), 1);
    assert_eq!(d.landscapes.len(), 1);
    assert_eq!(d.stats.len(), 1);
    assert!(d.levels[0].components.is_empty());
}

#[test]
fn resolution_takes_the_first_match_and_needs_a_file_name() {
    let mut d = empty_doc();
    d.add_model_asset(file("m1", ""));
    d.add_model_asset(file("m1", "late.glb"));
    d.add_model_asset(file("m2", "table.glb"));
    // the first entry for m1 wins, and its empty file name means failure
    assert_eq!(d.resolve_model_file(&"m1".to_string()), None);
    assert_eq!(d.resolve_model_file(&"m2".to_string()), Some("table.glb".to_string()));
    assert_eq!(d.resolve_model_file(&"m3".to_string()), None);
}

#[test]
fn first_stat_is_the_linked_template() {
    let mut d = empty_doc();
    assert_eq!(d.first_stat_id(), None);
    d.add_stat(StatAsset { id: "s1".to_string(), name: "a".to_string() });
    d.add_stat(StatAsset { id: "s2".to_string(), name: "b".to_string() });
    assert_eq!(d.first_stat_id(), Some("s1".to_string()));
}

#[test]
fn blade_density_truncates_and_saturates() {
    assert_eq!(scene_commands::doc::milli_to_count_exec(15500), 15);
    assert_eq!(scene_commands::doc::milli_to_count_exec(999), 0);
    assert_eq!(scene_commands::doc::milli_to_count_exec(-5000), 0);
    assert_eq!(scene_commands::doc::milli_to_count_exec(i64::MAX), u32::MAX);
}
