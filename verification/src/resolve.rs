use vstd::prelude::*;

use crate::color::Rgba;
use crate::flicker::FlickerMaterial;
use crate::geometry::{Dims, Frac, FracPair, Rect};

verus! {

/// A loaded raster image, known to the store by its handle and its natural
/// pixel dimensions.
#[derive(Clone, Copy, Debug, PartialEq, Eq, Structural)]
pub struct ImageAsset {
    pub id: u64,
    pub size: Dims,
}

/// A loaded atlas layout: the table of sub-rectangles of a texture sheet,
/// known to the store by its handle.
#[derive(Clone, Debug)]
pub struct AtlasLayout {
    pub id: u64,
    pub textures: Vec<Rect>,
}

/// A reference from a sprite into an atlas layout: which layout, and which
/// frame of it is currently displayed.
#[derive(Clone, Copy, Debug, PartialEq, Eq, Structural)]
pub struct TextureAtlas {
    pub layout: u64,
    pub index: usize,
}

/// The sprite component of a visual target: the image it samples, an
/// optional atlas region of that image, and an optional custom display size.
#[derive(Clone, Copy, Debug, PartialEq, Eq, Structural)]
pub struct Sprite {
    pub image: u64,
    pub texture_atlas: Option<TextureAtlas>,
    pub custom_size: Option<Dims>,
}

/// The in-memory asset store the resolver reads: which image and atlas
/// handles are currently loaded, and which mesh handles are valid. Lookups
/// either succeed immediately or fail immediately; nothing blocks.
#[derive(Clone, Debug)]
pub struct AssetStore {
    pub images: Vec<ImageAsset>,
    pub atlas_layouts: Vec<AtlasLayout>,
    pub meshes: Vec<u64>,
}

/// The shape of an overlay visual: a flat rectangle of the given pixel size,
/// or a copy of the target's own mesh.
#[derive(Clone, Copy, Debug, PartialEq, Eq, Structural)]
pub enum OverlayGeometry {
    Quad { size: Dims },
    Mesh { mesh: u64 },
}

/// The target has no recognizable visual representation, or a referenced
/// resource is not currently loaded. Non-fatal: the request is dropped.
#[derive(Clone, Copy, Debug, PartialEq, Eq, Structural)]
pub struct Unresolvable;

/// The first image in the store with the given handle.
pub open spec fn spec_find_image(images: Seq<ImageAsset>, id: u64) -> Option<ImageAsset>
    decreases images.len(),
{
    if images.len() == 0 {
        None
    } else if images[0].id == id {
        Some(images[0])
    } else {
        spec_find_image(images.drop_first(), id)
    }
}

/// The first atlas layout in the store with the given handle.
pub open spec fn spec_find_atlas(layouts: Seq<AtlasLayout>, id: u64) -> Option<AtlasLayout>
    decreases layouts.len(),
{
    if layouts.len() == 0 {
        None
    } else if layouts[0].id == id {
        Some(layouts[0])
    } else {
        spec_find_atlas(layouts.drop_first(), id)
    }
}

pub fn find_image(images: &Vec<ImageAsset>, id: u64) -> (r: Option<ImageAsset>)
    ensures
        r == spec_find_image(images@, id),
{
    let n = images.len();
    let mut i: usize = 0;
    proof {
        assert(images@.skip(0) =~= images@);
    }
    while i < n
        invariant
            i <= n,
            n == images.len(),
            spec_find_image(images@, id) == spec_find_image(images@.skip(i as int), id),
        decreases n - i,
    {
        let img = images[i];
        if img.id == id {
            proof {
                assert(images@.skip(i as int)[0] == images@[i as int]);
            }
            return Some(img);
        }
        proof {
            assert(images@.skip(i as int).drop_first() =~= images@.skip(i as int + 1));
        }
        i = i + 1;
    }
    None
}

/// The position of the first atlas layout with the given handle, if any.
pub fn find_atlas_idx(layouts: &Vec<AtlasLayout>, id: u64) -> (r: Option<usize>)
    ensures
        match r {
            Some(i) => i < layouts.len() && spec_find_atlas(layouts@, id) == Some(layouts@[i as int]),
            None => spec_find_atlas(layouts@, id) is None,
        },
{
    let n = layouts.len();
    let mut i: usize = 0;
    proof {
        assert(layouts@.skip(0) =~= layouts@);
    }
    while i < n
        invariant
            i <= n,
            n == layouts.len(),
            spec_find_atlas(layouts@, id) == spec_find_atlas(layouts@.skip(i as int), id),
        decreases n - i,
    {
        if layouts[i].id == id {
            proof {
                assert(layouts@.skip(i as int)[0] == layouts@[i as int]);
            }
            return Some(i);
        }
        proof {
            assert(layouts@.skip(i as int).drop_first() =~= layouts@.skip(i as int + 1));
        }
        i = i + 1;
    }
    None
}

pub fn mesh_exists(meshes: &Vec<u64>, id: u64) -> (r: bool)
    ensures
        r == meshes@.contains(id),
{
    let n = meshes.len();
    let mut i: usize = 0;
    while i < n
        invariant
            i <= n,
            n == meshes.len(),
            forall|j: int| 0 <= j < i ==> meshes@[j] != id,
        decreases n - i,
    {
        if meshes[i] == id {
            return true;
        }
        i = i + 1;
    }
    false
}

impl AssetStore {
    pub fn new() -> (r: AssetStore)
        ensures
            r.images@ == Seq::<ImageAsset>::empty(),
            r.atlas_layouts@ == Seq::<AtlasLayout>::empty(),
            r.meshes@ == Seq::<u64>::empty(),
    {
        AssetStore { images: Vec::new(), atlas_layouts: Vec::new(), meshes: Vec::new() }
    }

    /// Record a loaded image and its natural pixel size. An earlier entry
    /// with the same handle shadows a later one.
    pub fn add_image(&mut self, id: u64, size: Dims)
        ensures
            final(self).images@ == old(self).images@.push(ImageAsset { id, size }),
            final(self).atlas_layouts@ == old(self).atlas_layouts@,
            final(self).meshes@ == old(self).meshes@,
    {
        self.images.push(ImageAsset { id, size });
    }

    /// Record a loaded atlas layout: its table of frames.
    pub fn add_atlas_layout(&mut self, id: u64, textures: Vec<Rect>)
        ensures
            final(self).atlas_layouts@ == old(self).atlas_layouts@.push(
                AtlasLayout { id, textures },
            ),
            final(self).images@ == old(self).images@,
            final(self).meshes@ == old(self).meshes@,
    {
        self.atlas_layouts.push(AtlasLayout { id, textures });
    }

    /// Record a valid mesh handle.
    pub fn add_mesh(&mut self, id: u64)
        ensures
            final(self).meshes@ == old(self).meshes@.push(id),
            final(self).images@ == old(self).images@,
            final(self).atlas_layouts@ == old(self).atlas_layouts@,
    {
        self.meshes.push(id);
    }
}

/// What the resolver computes for a target, from its components and the
/// asset store. Classification order is fixed: the sprite representation is
/// checked first (with its atlas region, if any), then the mesh one, so a
/// target carrying leftover fields of more than one representation is
/// classified deterministically.
///
/// For an atlas region, with `frame` the chosen sub-rectangle and `image`
/// the whole sheet, the material samples `offset = frame.min / image.size`,
/// `size = frame.size / image.size` and carries `ratio = image.size /
/// frame.size`, all component-wise exact fractions. An out-of-range atlas
/// index is treated as a zero-size frame rather than a failure: the overlay
/// is visually degenerate (its `ratio` denominators are zero) but well
/// defined. A zero-size sheet cannot define sub-rectangle sampling and is
/// treated as unresolvable.
pub open spec fn spec_resolve(
    assets: AssetStore,
    sprite: Option<Sprite>,
    mesh: Option<u64>,
    color: Rgba,
) -> Result<(FlickerMaterial, OverlayGeometry), Unresolvable> {
    if sprite is Some {
        let s = sprite->0;
        match spec_find_image(assets.images@, s.image) {
            Option::None => Err(Unresolvable),
            Option::Some(img) => {
                if s.texture_atlas is Some {
                    let ta = s.texture_atlas->0;
                    match spec_find_atlas(assets.atlas_layouts@, ta.layout) {
                        Option::None => Err(Unresolvable),
                        Option::Some(layout) => {
                            if img.size.width == 0 || img.size.height == 0 {
                                Err(Unresolvable)
                            } else {
                                let frame = if ta.index < layout.textures@.len() {
                                    layout.textures@[ta.index as int]
                                } else {
                                    Rect { x: 0, y: 0, width: 0, height: 0 }
                                };
                                Ok((
                                    FlickerMaterial {
                                        source_image: Some(s.image),
                                        offset: FracPair {
                                            x: Frac { num: frame.x, den: img.size.width },
                                            y: Frac { num: frame.y, den: img.size.height },
                                        },
                                        size: FracPair {
                                            x: Frac { num: frame.width, den: img.size.width },
                                            y: Frac { num: frame.height, den: img.size.height },
                                        },
                                        ratio: FracPair {
                                            x: Frac { num: img.size.width, den: frame.width },
                                            y: Frac { num: img.size.height, den: frame.height },
                                        },
                                        color,
                                    },
                                    OverlayGeometry::Quad {
                                        size: match s.custom_size {
                                            Option::Some(d) => d,
                                            Option::None => Dims {
                                                width: frame.width,
                                                height: frame.height,
                                            },
                                        },
                                    },
                                ))
                            }
                        }
                    }
                } else {
                    Ok((
                        FlickerMaterial {
                            source_image: Some(s.image),
                            ..FlickerMaterial::spec_default_with_color(color)
                        },
                        OverlayGeometry::Quad {
                            size: match s.custom_size {
                                Option::Some(d) => d,
                                Option::None => img.size,
                            },
                        },
                    ))
                }
            }
        }
    } else if mesh is Some {
        if assets.meshes@.contains(mesh->0) {
            Ok((
                FlickerMaterial::spec_default_with_color(color),
                OverlayGeometry::Mesh { mesh: mesh->0 },
            ))
        } else {
            Err(Unresolvable)
        }
    } else {
        Err(Unresolvable)
    }
}

/// Determine whether a target is image-backed, atlas-backed or mesh-backed,
/// and compute the material parameters and geometry of its overlay. See
/// [`spec_resolve`] for the exact result.
pub fn resolve(
    assets: &AssetStore,
    sprite: &Option<Sprite>,
    mesh: &Option<u64>,
    color: Rgba,
) -> (r: Result<(FlickerMaterial, OverlayGeometry), Unresolvable>)
    ensures
        r == spec_resolve(*assets, *sprite, *mesh, color),
{
    if let Some(s) = sprite {
        let img = match find_image(&assets.images, s.image) {
            Some(img) => img,
            None => {
                return Err(Unresolvable);
            }
        };
        if let Some(ta) = s.texture_atlas {
            let li = match find_atlas_idx(&assets.atlas_layouts, ta.layout) {
                Some(li) => li,
                None => {
                    return Err(Unresolvable);
                }
            };
            if img.size.width == 0 || img.size.height == 0 {
                return Err(Unresolvable);
            }
            let layout = &assets.atlas_layouts[li];
            let frame = if ta.index < layout.textures.len() {
                layout.textures[ta.index]
            } else {
                Rect::zero()
            };
            let mesh_size = match s.custom_size {
                Some(d) => d,
                None => Dims { width: frame.width, height: frame.height },
            };
            Ok((
                FlickerMaterial {
                    source_image: Some(s.image),
                    offset: FracPair {
                        x: Frac::new(frame.x, img.size.width),
                        y: Frac::new(frame.y, img.size.height),
                    },
                    size: FracPair {
                        x: Frac::new(frame.width, img.size.width),
                        y: Frac::new(frame.height, img.size.height),
                    },
                    ratio: FracPair {
                        x: Frac::new(img.size.width, frame.width),
                        y: Frac::new(img.size.height, frame.height),
                    },
                    color,
                },
                OverlayGeometry::Quad { size: mesh_size },
            ))
        } else {
            let mesh_size = match s.custom_size {
                Some(d) => d,
                None => img.size,
            };
            let mut material = FlickerMaterial::with_color(color);
            material.source_image = Some(s.image);
            Ok((material, OverlayGeometry::Quad { size: mesh_size }))
        }
    } else if let Some(m) = mesh {
        if mesh_exists(&assets.meshes, *m) {
            Ok((FlickerMaterial::with_color(color), OverlayGeometry::Mesh { mesh: *m }))
        } else {
            Err(Unresolvable)
        }
    } else {
        Err(Unresolvable)
    }
}

} // verus!
