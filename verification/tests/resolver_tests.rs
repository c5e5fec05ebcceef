use flicker_core::color::Rgba;
use flicker_core::geometry::{Dims, Frac, Rect};
use flicker_core::resolve::{resolve, AssetStore, OverlayGeometry, Sprite, TextureAtlas};

fn as_f32(f: Frac) -> f32 {
    f.num as f32 / f.den as f32
}

fn white() -> Rgba {
    Rgba { red: 255, green: 255, blue: 255, alpha: 255 }
}

#[test]
fn atlas_geometry_is_exact() {
    // A (32,32) frame at offset (32,0) within a (128,128) sheet.
    let mut assets = AssetStore::new();
    assets.add_image(1, Dims { width: 128, height: 128 });
    assets.add_atlas_layout(
        2,
        vec![
            Rect { x: 0, y: 0, width: 32, height: 32 },
            Rect { x: 32, y: 0, width: 32, height: 32 },
        ],
    );
    let sprite = Sprite {
        image: 1,
        texture_atlas: Some(TextureAtlas { layout: 2, index: 1 }),
        custom_size: None,
    };
    let (material, geometry) = resolve(&assets, &Some(sprite), &None, white()).unwrap();
    assert_eq!(material.source_image, Some(1));
    assert_eq!(as_f32(material.offset.x), 0.25);
    assert_eq!(as_f32(material.offset.y), 0.0);
    assert_eq!(as_f32(material.size.x), 0.25);
    assert_eq!(as_f32(material.size.y), 0.25);
    assert_eq!(as_f32(material.ratio.x), 4.0);
    assert_eq!(as_f32(material.ratio.y), 4.0);
    assert_eq!(geometry, OverlayGeometry::Quad { size: Dims { width: 32, height: 32 } });
}

#[test]
fn full_image_sprite_resolves_to_natural_size() {
    let mut assets = AssetStore::new();
    assets.add_image(4, Dims { width: 64, height: 48 });
    let sprite = Sprite { image: 4, texture_atlas: None, custom_size: None };
    let (material, geometry) = resolve(&assets, &Some(sprite), &None, white()).unwrap();
    assert_eq!(material.source_image, Some(4));
    // Full-frame sampling: offset zero, size and ratio one.
    assert_eq!(as_f32(material.offset.x), 0.0);
    assert_eq!(as_f32(material.size.x), 1.0);
    assert_eq!(as_f32(material.ratio.y), 1.0);
    assert_eq!(geometry, OverlayGeometry::Quad { size: Dims { width: 64, height: 48 } });
}

#[test]
fn custom_size_overrides_natural_size() {
    let mut assets = AssetStore::new();
    assets.add_image(4, Dims { width: 64, height: 48 });
    let sprite = Sprite {
        image: 4,
        texture_atlas: None,
        custom_size: Some(Dims { width: 10, height: 20 }),
    };
    let (_, geometry) = resolve(&assets, &Some(sprite), &None, white()).unwrap();
    assert_eq!(geometry, OverlayGeometry::Quad { size: Dims { width: 10, height: 20 } });
}

#[test]
fn mesh_target_resolves_to_flat_color() {
    let mut assets = AssetStore::new();
    assets.add_mesh(31);
    let green = Rgba { red: 0, green: 255, blue: 0, alpha: 255 };
    let (material, geometry) = resolve(&assets, &None, &Some(31), green).unwrap();
    assert_eq!(material.source_image, None);
    assert_eq!(material.color, green);
    assert_eq!(geometry, OverlayGeometry::Mesh { mesh: 31 });
}

#[test]
fn sprite_takes_precedence_over_mesh() {
    // A target carrying leftover fields of both representations is
    // classified as image-backed.
    let mut assets = AssetStore::new();
    assets.add_image(4, Dims { width: 8, height: 8 });
    assets.add_mesh(31);
    let sprite = Sprite { image: 4, texture_atlas: None, custom_size: None };
    let (material, geometry) = resolve(&assets, &Some(sprite), &Some(31), white()).unwrap();
    assert_eq!(material.source_image, Some(4));
    assert!(matches!(geometry, OverlayGeometry::Quad { .. }));
}

#[test]
fn first_entry_with_a_handle_shadows_later_ones() {
    let mut assets = AssetStore::new();
    assets.add_image(4, Dims { width: 64, height: 48 });
    assets.add_image(4, Dims { width: 7, height: 7 });
    let sprite = Sprite { image: 4, texture_atlas: None, custom_size: None };
    let (_, geometry) = resolve(&assets, &Some(sprite), &None, white()).unwrap();
    assert_eq!(geometry, OverlayGeometry::Quad { size: Dims { width: 64, height: 48 } });
}

#[test]
fn bare_target_is_unresolvable() {
    let assets = AssetStore::new();
    assert!(resolve(&assets, &None, &None, white()).is_err());
}

#[test]
fn unloaded_image_is_unresolvable() {
    let assets = AssetStore::new();
    let sprite = Sprite { image: 9, texture_atlas: None, custom_size: None };
    assert!(resolve(&assets, &Some(sprite), &None, white()).is_err());
}

#[test]
fn unloaded_atlas_layout_is_unresolvable() {
    let mut assets = AssetStore::new();
    assets.add_image(1, Dims { width: 128, height: 128 });
    let sprite = Sprite {
        image: 1,
        texture_atlas: Some(TextureAtlas { layout: 2, index: 0 }),
        custom_size: None,
    };
    assert!(resolve(&assets, &Some(sprite), &None, white()).is_err());
}

#[test]
fn unknown_mesh_is_unresolvable() {
    let assets = AssetStore::new();
    assert!(resolve(&assets, &None, &Some(31), white()).is_err());
}

#[test]
fn out_of_range_atlas_index_degenerates_to_zero_frame() {
    let mut assets = AssetStore::new();
    assets.add_image(1, Dims { width: 128, height: 128 });
    assets.add_atlas_layout(2, vec![Rect { x: 0, y: 0, width: 32, height: 32 }]);
    let sprite = Sprite {
        image: 1,
        texture_atlas: Some(TextureAtlas { layout: 2, index: 99 }),
        custom_size: None,
    };
    let (material, geometry) = resolve(&assets, &Some(sprite), &None, white()).unwrap();
    assert_eq!(as_f32(material.offset.x), 0.0);
    assert_eq!(as_f32(material.size.x), 0.0);
    // The ratio against a zero-size frame is degenerate: denominator zero.
    assert_eq!(material.ratio.x.den, 0);
    assert_eq!(geometry, OverlayGeometry::Quad { size: Dims { width: 0, height: 0 } });
}

#[test]
fn zero_size_sheet_is_unresolvable_for_atlas_sampling() {
    let mut assets = AssetStore::new();
    assets.add_image(1, Dims { width: 0, height: 0 });
    assets.add_atlas_layout(2, vec![Rect { x: 0, y: 0, width: 32, height: 32 }]);
    let sprite = Sprite {
        image: 1,
        texture_atlas: Some(TextureAtlas { layout: 2, index: 0 }),
        custom_size: None,
    };
    assert!(resolve(&assets, &Some(sprite), &None, white()).is_err());
}
