//! Building a scene from a plain description. The description mirrors the
//! scene file one to one — optional sections, string type tags, numeric
//! leaves already carried as float bit patterns — and this module makes the
//! semantic decisions: dispatch on the type tags, uniqueness of material
//! names, resolution of material references, and the defaults. Success is
//! characterized exactly: a scene comes back precisely when every tag is
//! known, no material name repeats, and every shape names a material.

use crate::lights::{Light, PointLight};
use crate::materials::{Material, MatteMaterial};
use crate::pixel_buffer::TMOType;
use crate::scene::{RenderingAlgorithm, SceneData};
use crate::shapes::{Geometry, Shape};
use crate::vec::{ColorBits, Vec3Bits};
use vstd::prelude::*;

verus! {

/// The `global` section: image resolution, sample count, estimator,
/// tone map, output path and worker count, each optional.
pub struct GlobalDesc {
    pub resolution: Option<(usize, usize)>,
    pub spp: Option<usize>,
    pub rendering: Option<String>,
    pub tonemap: Option<String>,
    pub output: Option<String>,
    pub nthreads: Option<usize>,
}

/// The `camera` section; `hfov` and `vp_distance` are alternatives, and a
/// given `vp_distance` wins over a given `hfov` as it is applied last.
pub struct CameraDesc {
    pub eye: Option<Vec3Bits>,
    pub lookat: Option<Vec3Bits>,
    pub hfov: Option<u32>,
    pub vp_distance: Option<u32>,
}

/// One entry of the `materials` section.
pub struct MaterialDesc {
    pub name: String,
    pub typ: String,
    pub diffuse: ColorBits,
}

/// One entry of the `shapes` section.
pub struct ShapeDesc {
    pub typ: String,
    pub material: String,
    pub position: Vec3Bits,
    pub radius: u32,
}

/// One entry of the `lights` section.
pub struct LightDesc {
    pub typ: String,
    pub intensity: ColorBits,
    pub position: Vec3Bits,
}

/// The whole scene description.
pub struct SceneDesc {
    pub global: Option<GlobalDesc>,
    pub camera: Option<CameraDesc>,
    pub materials: Vec<MaterialDesc>,
    pub shapes: Vec<ShapeDesc>,
    pub lights: Vec<LightDesc>,
}

/// Why a description was rejected; each variant carries the offending tag
/// or name.
#[derive(Debug, PartialEq, Eq)]
pub enum SceneError {
    UnknownRenderingAlgorithm(String),
    UnknownToneMap(String),
    UnknownMaterialType(String),
    DuplicateMaterial(String),
    UnknownShapeType(String),
    UnknownMaterial(String),
    UnknownLightType(String),
}

pub open spec fn known_rendering(s: Seq<char>) -> bool {
    s == "ambient"@ || s == "direct_lighting"@ || s == "path_tracer"@
}

pub open spec fn rendering_of(s: Seq<char>) -> RenderingAlgorithm {
    if s == "ambient"@ {
        RenderingAlgorithm::AmbientOcclusion
    } else if s == "direct_lighting"@ {
        RenderingAlgorithm::DirectLighting
    } else {
        RenderingAlgorithm::PathTracer
    }
}

pub open spec fn known_tonemap(s: Seq<char>) -> bool {
    s == "linear"@ || s == "gamma"@ || s == "reinhard"@
}

pub open spec fn tonemap_of(s: Seq<char>) -> TMOType {
    if s == "linear"@ {
        TMOType::Linear
    } else if s == "gamma"@ {
        TMOType::Gamma
    } else {
        TMOType::Reinhard
    }
}

/// Whether some material of the description bears this name.
pub open spec fn resolves(mats: Seq<MaterialDesc>, name: Seq<char>) -> bool {
    exists|i: int| 0 <= i < mats.len() && (#[trigger] mats[i]).name@ == name
}

/// The material table the description denotes, in order.
pub open spec fn built_materials(mats: Seq<MaterialDesc>, n: int) -> Seq<Material>
    decreases n,
{
    if n <= 0 {
        Seq::empty()
    } else {
        built_materials(mats, n - 1).push(
            Material::Matte(MatteMaterial { reflectance: mats[n - 1].diffuse }),
        )
    }
}

/// The light table the description denotes, in order.
pub open spec fn built_lights(lights: Seq<LightDesc>, n: int) -> Seq<Light>
    decreases n,
{
    if n <= 0 {
        Seq::empty()
    } else {
        built_lights(lights, n - 1).push(
            Light::Point(
                PointLight { intensity: lights[n - 1].intensity, position: lights[n - 1].position },
            ),
        )
    }
}

/// The built material table has one entry per description entry.
proof fn lemma_built_materials_len(mats: Seq<MaterialDesc>, n: int)
    requires
        n >= 0,
    ensures
        built_materials(mats, n).len() == n,
    decreases n,
{
    if n > 0 {
        lemma_built_materials_len(mats, n - 1);
    }
}

/// The built light table has one entry per description entry.
proof fn lemma_built_lights_len(lights: Seq<LightDesc>, n: int)
    requires
        n >= 0,
    ensures
        built_lights(lights, n).len() == n,
    decreases n,
{
    if n > 0 {
        lemma_built_lights_len(lights, n - 1);
    }
}

/// A description is accepted exactly when every type tag is known, no two
/// materials share a name, and every shape's material reference resolves.
pub open spec fn desc_ok(desc: SceneDesc) -> bool {
    &&& (desc.global matches Some(g) ==> {
        &&& (g.rendering matches Some(r) ==> known_rendering(r@))
        &&& (g.tonemap matches Some(t) ==> known_tonemap(t@))
    })
    &&& (forall|i: int|
        0 <= i < desc.materials@.len() ==> (#[trigger] desc.materials@[i]).typ@ == "matte"@)
    &&& (forall|i: int, j: int|
        0 <= i < j < desc.materials@.len() ==> (#[trigger] desc.materials@[i]).name@ != (
        #[trigger] desc.materials@[j]).name@)
    &&& (forall|i: int|
        0 <= i < desc.shapes@.len() ==> (#[trigger] desc.shapes@[i]).typ@ == "sphere"@ && resolves(
            desc.materials@,
            desc.shapes@[i].material@,
        ))
    &&& (forall|i: int|
        0 <= i < desc.lights@.len() ==> (#[trigger] desc.lights@[i]).typ@ == "point"@)
}

/// Resolution the description denotes, with the default applied.
pub open spec fn desc_resolution(desc: SceneDesc) -> (usize, usize) {
    match desc.global {
        Some(g) => match g.resolution {
            Some(r) => r,
            None => (1024usize, 768usize),
        },
        None => (1024usize, 768usize),
    }
}

/// Samples per pixel the description denotes, with the default applied.
pub open spec fn desc_spp(desc: SceneDesc) -> usize {
    match desc.global {
        Some(g) => match g.spp {
            Some(n) => n,
            None => 1usize,
        },
        None => 1usize,
    }
}

/// Estimator the description denotes, with the default applied.
pub open spec fn desc_rendering(desc: SceneDesc) -> RenderingAlgorithm {
    match desc.global {
        Some(g) => match g.rendering {
            Some(r) => rendering_of(r@),
            None => RenderingAlgorithm::DirectLighting,
        },
        None => RenderingAlgorithm::DirectLighting,
    }
}

/// Tone map the description denotes, with the default applied.
pub open spec fn desc_tonemap(desc: SceneDesc) -> TMOType {
    match desc.global {
        Some(g) => match g.tonemap {
            Some(t) => tonemap_of(t@),
            None => TMOType::Gamma,
        },
        None => TMOType::Gamma,
    }
}

/// Output path the description denotes, with the default applied.
pub open spec fn desc_output(desc: SceneDesc) -> Seq<char> {
    match desc.global {
        Some(g) => match g.output {
            Some(o) => o@,
            None => "output.png"@,
        },
        None => "output.png"@,
    }
}

/// Camera eye point the description denotes, with the default applied.
pub open spec fn desc_eye(desc: SceneDesc) -> Vec3Bits {
    match desc.camera {
        Some(c) => match c.eye {
            Some(e) => e,
            None => Vec3Bits { x: 0, y: 0, z: 0 },
        },
        None => Vec3Bits { x: 0, y: 0, z: 0 },
    }
}

/// Camera look-at point the description denotes, with the default applied.
pub open spec fn desc_lookat(desc: SceneDesc) -> Vec3Bits {
    match desc.camera {
        Some(c) => match c.lookat {
            Some(l) => l,
            None => Vec3Bits { x: 0, y: 0, z: crate::scene::F32_FIVE_BITS },
        },
        None => Vec3Bits { x: 0, y: 0, z: crate::scene::F32_FIVE_BITS },
    }
}

/// The settings and tables of a built scene, as functions of the
/// description (the worker count falls back to the machine's CPU count, so
/// without an explicit `nthreads` only a lower bound is stated).
pub open spec fn scene_matches(desc: SceneDesc, s: SceneData) -> bool {
    &&& s.width == desc_resolution(desc).0 && s.height == desc_resolution(desc).1
    &&& s.samples_per_pixel == desc_spp(desc)
    &&& (match desc.global {
        Some(g) => match g.nthreads {
            Some(n) => s.nthreads == n,
            None => s.nthreads >= 1,
        },
        None => s.nthreads >= 1,
    })
    &&& s.rendering_algorithm == desc_rendering(desc)
    &&& s.tmo_type == desc_tonemap(desc)
    &&& s.output@ == desc_output(desc)
    &&& s.camera.eye == desc_eye(desc)
    &&& s.camera.look_at == desc_lookat(desc)
    &&& s.materials@ == built_materials(desc.materials@, desc.materials@.len() as int)
    &&& s.lights@ == built_lights(desc.lights@, desc.lights@.len() as int)
    &&& s.shapes@.len() == desc.shapes@.len()
    &&& (forall|k: int|
        0 <= k < desc.shapes@.len() ==> {
            let shp = #[trigger] s.shapes@[k];
            &&& shp.geometry == Geometry::Sphere {
                position: desc.shapes@[k].position,
                radius: desc.shapes@[k].radius,
            }
            &&& shp.material_id < desc.materials@.len()
            &&& desc.materials@[shp.material_id as int].name@ == desc.shapes@[k].material@
        })
    &&& s.material_ids_ok()
}

/// The cause a returned error names is real: the offending tag or name
/// occurs in the description and is indeed unknown or duplicated.
pub open spec fn error_matches(desc: SceneDesc, e: SceneError) -> bool {
    match e {
        SceneError::UnknownRenderingAlgorithm(s) => desc.global matches Some(g) && g.rendering
            matches Some(r) && r@ == s@ && !known_rendering(s@),
        SceneError::UnknownToneMap(s) => desc.global matches Some(g) && g.tonemap matches Some(t)
            && t@ == s@ && !known_tonemap(s@),
        SceneError::UnknownMaterialType(s) => (exists|i: int|
            0 <= i < desc.materials@.len() && (#[trigger] desc.materials@[i]).typ@ == s@) && s@
            != "matte"@,
        SceneError::DuplicateMaterial(s) => exists|i: int, j: int|
            0 <= i < j < desc.materials@.len() && (#[trigger] desc.materials@[i]).name@ == s@ && (
            #[trigger] desc.materials@[j]).name@ == s@,
        SceneError::UnknownShapeType(s) => (exists|i: int|
            0 <= i < desc.shapes@.len() && (#[trigger] desc.shapes@[i]).typ@ == s@) && s@
            != "sphere"@,
        SceneError::UnknownMaterial(s) => (exists|i: int|
            0 <= i < desc.shapes@.len() && (#[trigger] desc.shapes@[i]).material@ == s@)
            && !resolves(desc.materials@, s@),
        SceneError::UnknownLightType(s) => (exists|i: int|
            0 <= i < desc.lights@.len() && (#[trigger] desc.lights@[i]).typ@ == s@) && s@
            != "point"@,
    }
}

/// Index of the first name equal to `name`, if any.
fn find_name_index(names: &Vec<String>, name: &String) -> (r: Option<usize>)
    ensures
        r is None ==> forall|j: int| 0 <= j < names@.len() ==> (#[trigger] names@[j])@ != name@,
        r matches Some(i) ==> i < names@.len() && names@[i as int]@ == name@ && forall|j: int|
            0 <= j < i ==> (#[trigger] names@[j])@ != name@,
{
    let mut i: usize = 0;
    while i < names.len()
        invariant
            i <= names@.len(),
            forall|j: int| 0 <= j < i ==> (#[trigger] names@[j])@ != name@,
        decreases names@.len() - i,
    {
        if names[i] == *name {
            return Some(i);
        }
        i = i + 1;
    }
    None
}

/// Interpret a scene description. Returns the scene exactly when the
/// description is acceptable (`desc_ok`); otherwise the error names a real
/// offending tag or name (`error_matches`). On success the scene's
/// settings and tables are the ones the description denotes
/// (`scene_matches`); area lights are not built here but by `prepare`.
#[verifier::rlimit(60)]
pub fn build_scene(desc: &SceneDesc) -> (r: Result<SceneData, SceneError>)
    ensures
        r is Ok <==> desc_ok(*desc),
        r matches Ok(s) ==> scene_matches(*desc, s),
        r matches Err(e) ==> error_matches(*desc, e),
{
    let mut scene = SceneData::default();
    if let Some(g) = &desc.global {
        if let Some(resolution) = g.resolution {
            scene.set_image_size(resolution.0, resolution.1);
        }
        if let Some(spp) = g.spp {
            scene.set_samples_per_pixel(spp);
        }
        if let Some(rendering) = &g.rendering {
            if *rendering == "ambient".to_owned() {
                scene.set_rendering_algorithm(RenderingAlgorithm::AmbientOcclusion);
            } else if *rendering == "direct_lighting".to_owned() {
                scene.set_rendering_algorithm(RenderingAlgorithm::DirectLighting);
            } else if *rendering == "path_tracer".to_owned() {
                scene.set_rendering_algorithm(RenderingAlgorithm::PathTracer);
            } else {
                return Err(SceneError::UnknownRenderingAlgorithm(rendering.clone()));
            }
        }
        if let Some(tonemap) = &g.tonemap {
            if *tonemap == "linear".to_owned() {
                scene.set_tmo_type(TMOType::Linear);
            } else if *tonemap == "gamma".to_owned() {
                scene.set_tmo_type(TMOType::Gamma);
            } else if *tonemap == "reinhard".to_owned() {
                scene.set_tmo_type(TMOType::Reinhard);
            } else {
                return Err(SceneError::UnknownToneMap(tonemap.clone()));
            }
        }
        if let Some(output) = &g.output {
            scene.set_output_file(output.clone());
        }
        if let Some(nthreads) = g.nthreads {
            scene.set_nthreads(nthreads);
        }
    }
    if let Some(c) = &desc.camera {
        if let Some(eye) = c.eye {
            scene.set_camera_pos(eye);
        }
        if let Some(lookat) = c.lookat {
            scene.set_camera_look_at(lookat);
        }
        if let Some(hfov) = c.hfov {
            scene.set_camera_horizontal_fov(hfov);
        }
        if let Some(vp_distance) = c.vp_distance {
            scene.set_camera_view_plane_distance(vp_distance);
        }
    }
    let ghost scene_after_camera = scene;
    let mut names: Vec<String> = Vec::new();
    let mut i: usize = 0;
    while i < desc.materials.len()
        invariant
            i <= desc.materials@.len(),
            names@.len() == i,
            forall|k: int| 0 <= k < i ==> (#[trigger] names@[k])@ == desc.materials@[k].name@,
            forall|k: int|
                0 <= k < i ==> (#[trigger] desc.materials@[k]).typ@ == "matte"@,
            forall|k: int, l: int|
                0 <= k < l < i ==> (#[trigger] desc.materials@[k]).name@ != (
                #[trigger] desc.materials@[l]).name@,
            scene == (SceneData { materials: scene.materials, ..scene_after_camera }),
            scene.materials@ == built_materials(desc.materials@, i as int),
        decreases desc.materials@.len() - i,
    {
        let m = &desc.materials[i];
        if !(m.typ == "matte".to_owned()) {
            return Err(SceneError::UnknownMaterialType(m.typ.clone()));
        }
        if let Some(j) = find_name_index(&names, &m.name) {
            proof {
                assert(desc.materials@[j as int].name@ == m.name@);
            }
            return Err(SceneError::DuplicateMaterial(m.name.clone()));
        }
        proof {
            assert forall|k: int| 0 <= k < i implies (#[trigger] desc.materials@[k]).name@
                != desc.materials@[i as int].name@ by {
                assert(names@[k]@ == desc.materials@[k].name@);
            }
        }
        scene.add_material(Material::Matte(MatteMaterial::new(m.diffuse)));
        names.push(m.name.clone());
        i = i + 1;
    }
    let ghost scene_after_materials = scene;
    let mut i: usize = 0;
    while i < desc.shapes.len()
        invariant
            i <= desc.shapes@.len(),
            names@.len() == desc.materials@.len(),
            forall|k: int|
                0 <= k < names@.len() ==> (#[trigger] names@[k])@ == desc.materials@[k].name@,
            forall|k: int|
                0 <= k < i ==> (#[trigger] desc.shapes@[k]).typ@ == "sphere"@ && resolves(
                    desc.materials@,
                    desc.shapes@[k].material@,
                ),
            scene == (SceneData { shapes: scene.shapes, ..scene_after_materials }),
            scene.shapes@.len() == i,
            forall|k: int|
                0 <= k < i ==> {
                    let shp = #[trigger] scene.shapes@[k];
                    &&& shp.geometry == Geometry::Sphere {
                        position: desc.shapes@[k].position,
                        radius: desc.shapes@[k].radius,
                    }
                    &&& shp.material_id < desc.materials@.len()
                    &&& desc.materials@[shp.material_id as int].name@ == desc.shapes@[k].material@
                },
        decreases desc.shapes@.len() - i,
    {
        let shp = &desc.shapes[i];
        if !(shp.typ == "sphere".to_owned()) {
            return Err(SceneError::UnknownShapeType(shp.typ.clone()));
        }
        let material_id = match find_name_index(&names, &shp.material) {
            Some(id) => id,
            None => {
                proof {
                    assert forall|k: int|
                        0 <= k < desc.materials@.len() implies (
                    #[trigger] desc.materials@[k]).name@ != shp.material@ by {
                        assert(names@[k]@ == desc.materials@[k].name@);
                    }
                    assert(!resolves(desc.materials@, shp.material@));
                }
                return Err(SceneError::UnknownMaterial(shp.material.clone()));
            },
        };
        scene.add_shape(
            Shape::new(
                Geometry::Sphere { position: shp.position, radius: shp.radius },
                material_id,
            ),
        );
        i = i + 1;
    }
    let ghost scene_after_shapes = scene;
    let mut i: usize = 0;
    while i < desc.lights.len()
        invariant
            i <= desc.lights@.len(),
            forall|k: int|
                0 <= k < i ==> (#[trigger] desc.lights@[k]).typ@ == "point"@,
            scene == (SceneData { lights: scene.lights, ..scene_after_shapes }),
            scene.lights@ == built_lights(desc.lights@, i as int),
        decreases desc.lights@.len() - i,
    {
        let l = &desc.lights[i];
        if !(l.typ == "point".to_owned()) {
            return Err(SceneError::UnknownLightType(l.typ.clone()));
        }
        scene.add_light(Light::Point(PointLight::new(l.intensity, l.position)));
        i = i + 1;
    }
    proof {
        lemma_built_materials_len(desc.materials@, desc.materials@.len() as int);
        lemma_built_lights_len(desc.lights@, desc.lights@.len() as int);
        assert(scene.output@ == desc_output(*desc));
        assert(scene.materials@ == built_materials(
            desc.materials@,
            desc.materials@.len() as int,
        ));
        assert(scene.lights@ == built_lights(desc.lights@, desc.lights@.len() as int));
        assert(scene.material_ids_ok());
        assert(desc_ok(*desc));
        assert(scene_matches(*desc, scene));
    }
    Ok(scene)
}

} // verus!
