//! The scene registry: image settings, camera settings, and the tables of
//! primitives, materials and lights, tied together by indices. The registry
//! maintains the identifier invariant — every primitive names a material in
//! range, every area light names an emissive primitive in range — and
//! rebuilding the area lights from the primitive table is proved idempotent.
//! Ray queries against the primitives run on floats outside this crate.

use crate::lights::{AreaLight, Light};
use crate::materials::Material;
use crate::pixel_buffer::TMOType;
use crate::shapes::{Geometry, Shape};
use crate::vec::{ColorBits, Vec3Bits};
use vstd::prelude::*;

verus! {

/// Which estimator renders the image.
#[derive(Debug, Clone, Copy, PartialEq, Eq, Structural)]
pub enum RenderingAlgorithm {
    AmbientOcclusion,
    DirectLighting,
    PathTracer,
}

/// How the pinhole camera's view-plane distance is given: directly, or as a
/// horizontal field of view (in degrees, as a float bit pattern) that the
/// renderer resolves against the image width.
#[derive(Debug, Clone, Copy, PartialEq, Eq, Structural)]
pub enum CameraProjection {
    ViewPlaneDistance(u32),
    HorizontalFov(u32),
}

/// Stored camera parameters; the float basis is derived outside this crate.
#[derive(Debug, Clone, Copy, PartialEq, Eq, Structural)]
pub struct CameraSettings {
    pub eye: Vec3Bits,
    pub look_at: Vec3Bits,
    pub projection: CameraProjection,
}

/// Bit pattern of single-precision 5.0: z of the default look-at point.
pub const F32_FIVE_BITS: u32 = 0x40A00000;

/// Bit pattern of single-precision 200.0: the default view-plane distance.
pub const F32_TWO_HUNDRED_BITS: u32 = 0x43480000;

/// Relies on num_cpus::get: the number of logical CPUs of the machine,
/// documented to always be at least 1.
#[verifier::external_body]
fn cpu_count() -> (n: usize)
    ensures
        n >= 1,
{
    num_cpus::get()
}

/// An area light that points at an existing primitive whose material emits.
pub open spec fn area_light_ref_ok(
    l: Light,
    shapes: Seq<Shape<Geometry>>,
    materials: Seq<Material>,
) -> bool {
    l matches Light::Area(a) && a.shape_id < shapes.len() && shapes[a.shape_id as int].material_id
        < materials.len() && materials[shapes[a.shape_id as int].material_id as int].spec_is_emissive()
}

/// The prefix of `lights` up to index n with every area light removed,
/// in order.
pub open spec fn non_area_lights_upto(lights: Seq<Light>, n: int) -> Seq<Light>
    decreases n,
{
    if n <= 0 {
        Seq::empty()
    } else {
        non_area_lights_upto(lights, n - 1) + if lights[n - 1].spec_is_area_light() {
            Seq::empty()
        } else {
            seq![lights[n - 1]]
        }
    }
}

/// One area light for each primitive with index below n whose material is
/// emissive, in primitive order.
pub open spec fn area_lights_upto(
    shapes: Seq<Shape<Geometry>>,
    materials: Seq<Material>,
    n: int,
) -> Seq<Light>
    decreases n,
{
    if n <= 0 {
        Seq::empty()
    } else {
        area_lights_upto(shapes, materials, n - 1) + if 0 <= shapes[n - 1].material_id
            < materials.len() && materials[shapes[n - 1].material_id as int].spec_is_emissive() {
            seq![Light::Area(AreaLight { shape_id: (n - 1) as usize })]
        } else {
            Seq::empty()
        }
    }
}

/// The light table after a rebuild: the non-area lights that were already
/// registered, followed by one area light per emissive primitive.
pub open spec fn rebuilt_lights(
    lights: Seq<Light>,
    shapes: Seq<Shape<Geometry>>,
    materials: Seq<Material>,
) -> Seq<Light> {
    non_area_lights_upto(lights, lights.len() as int) + area_lights_upto(
        shapes,
        materials,
        shapes.len() as int,
    )
}

/// The read-only scene description a render works from.
#[derive(Debug)]
pub struct SceneData {
    pub width: usize,
    pub height: usize,
    pub nthreads: usize,
    pub samples_per_pixel: usize,
    pub camera: CameraSettings,
    pub shapes: Vec<Shape<Geometry>>,
    pub materials: Vec<Material>,
    pub lights: Vec<Light>,
    pub rendering_algorithm: RenderingAlgorithm,
    pub output: String,
    pub tmo_type: TMOType,
}

impl SceneData {
    /// Every primitive names a material that exists.
    pub open spec fn material_ids_ok(self) -> bool {
        forall|i: int|
            0 <= i < self.shapes@.len() ==> self.shapes@[i].material_id < self.materials@.len()
    }

    /// Every area light names an existing primitive whose material emits.
    pub open spec fn area_lights_ok(self) -> bool {
        forall|i: int|
            0 <= i < self.lights@.len() ==> ((#[trigger] self.lights@[i]) is Area
                ==> area_light_ref_ok(self.lights@[i], self.shapes@, self.materials@))
    }

    /// The identifier invariant established by `prepare`.
    pub open spec fn wf(self) -> bool {
        self.material_ids_ok() && self.area_lights_ok()
    }

    pub fn image_size(&self) -> (r: (usize, usize))
        ensures
            r.0 == self.width,
            r.1 == self.height,
    {
        (self.width, self.height)
    }

    pub fn set_image_size(&mut self, width: usize, height: usize)
        ensures
            *final(self) == (SceneData { width, height, ..*old(self) }),
    {
        self.width = width;
        self.height = height;
    }

    pub fn get_nthreads(&self) -> (r: usize)
        ensures
            r == self.nthreads,
    {
        self.nthreads
    }

    pub fn set_nthreads(&mut self, nthreads: usize)
        ensures
            *final(self) == (SceneData { nthreads, ..*old(self) }),
    {
        self.nthreads = nthreads;
    }

    pub fn get_samples_per_pixel(&self) -> (r: usize)
        ensures
            r == self.samples_per_pixel,
    {
        self.samples_per_pixel
    }

    pub fn set_samples_per_pixel(&mut self, samples_per_pixel: usize)
        ensures
            *final(self) == (SceneData { samples_per_pixel, ..*old(self) }),
    {
        self.samples_per_pixel = samples_per_pixel;
    }

    pub fn set_rendering_algorithm(&mut self, rendering_algorithm: RenderingAlgorithm)
        ensures
            *final(self) == (SceneData { rendering_algorithm, ..*old(self) }),
    {
        self.rendering_algorithm = rendering_algorithm;
    }

    pub fn set_output_file(&mut self, file_path: String)
        ensures
            *final(self) == (SceneData { output: file_path, ..*old(self) }),
    {
        self.output = file_path;
    }

    pub fn get_output_file(&self) -> (r: String)
        ensures
            r@ == self.output@,
    {
        self.output.clone()
    }

    pub fn set_tmo_type(&mut self, tmo_type: TMOType)
        ensures
            *final(self) == (SceneData { tmo_type, ..*old(self) }),
    {
        self.tmo_type = tmo_type;
    }

    pub fn get_tmo_type(&self) -> (r: &TMOType)
        ensures
            r == self.tmo_type,
    {
        &self.tmo_type
    }

    pub fn set_camera_pos(&mut self, position: Vec3Bits)
        ensures
            *final(self) == (SceneData {
                camera: CameraSettings { eye: position, ..old(self).camera },
                ..*old(self)
            }),
    {
        self.camera.eye = position;
    }

    pub fn set_camera_look_at(&mut self, look_at: Vec3Bits)
        ensures
            *final(self) == (SceneData {
                camera: CameraSettings { look_at, ..old(self).camera },
                ..*old(self)
            }),
    {
        self.camera.look_at = look_at;
    }

    /// Store the view-plane distance directly (a float bit pattern).
    pub fn set_camera_view_plane_distance(&mut self, view_plane_distance: u32)
        ensures
            *final(self) == (SceneData {
                camera: CameraSettings {
                    projection: CameraProjection::ViewPlaneDistance(view_plane_distance),
                    ..old(self).camera
                },
                ..*old(self)
            }),
    {
        self.camera.projection = CameraProjection::ViewPlaneDistance(view_plane_distance);
    }

    /// Store a horizontal field of view (degrees, a float bit pattern); the
    /// renderer resolves it to a view-plane distance against the image width
    /// when the float camera is built.
    pub fn set_camera_horizontal_fov(&mut self, fov: u32)
        ensures
            *final(self) == (SceneData {
                camera: CameraSettings {
                    projection: CameraProjection::HorizontalFov(fov),
                    ..old(self).camera
                },
                ..*old(self)
            }),
    {
        self.camera.projection = CameraProjection::HorizontalFov(fov);
    }

    pub fn add_shape(&mut self, shape: Shape<Geometry>)
        ensures
            final(self).shapes@ == old(self).shapes@.push(shape),
            *final(self) == (SceneData { shapes: final(self).shapes, ..*old(self) }),
    {
        self.shapes.push(shape);
    }

    /// Register a material and hand back its index in the material table.
    pub fn add_material(&mut self, material: Material) -> (id: usize)
        ensures
            id == old(self).materials@.len(),
            final(self).materials@ == old(self).materials@.push(material),
            *final(self) == (SceneData { materials: final(self).materials, ..*old(self) }),
    {
        self.materials.push(material);
        self.materials.len() - 1
    }

    pub fn add_light(&mut self, light: Light)
        ensures
            final(self).lights@ == old(self).lights@.push(light),
            *final(self) == (SceneData { lights: final(self).lights, ..*old(self) }),
    {
        self.lights.push(light);
    }

    /// Rebuild the area lights: drop every registered area light, then
    /// append one for each primitive whose material is emissive, in
    /// primitive order. Requires the primitive table to name only existing
    /// materials; afterwards the identifier invariant holds.
    pub fn create_area_lights(&mut self)
        requires
            old(self).material_ids_ok(),
        ensures
            final(self).lights@ == rebuilt_lights(
                old(self).lights@,
                old(self).shapes@,
                old(self).materials@,
            ),
            *final(self) == (SceneData { lights: final(self).lights, ..*old(self) }),
            final(self).wf(),
    {
        let ghost pre_lights = self.lights@;
        let mut kept: Vec<Light> = Vec::new();
        let mut i: usize = 0;
        while i < self.lights.len()
            invariant
                *self == *old(self),
                i <= self.lights@.len(),
                kept@ == non_area_lights_upto(self.lights@, i as int),
            decreases self.lights@.len() - i,
        {
            let light = self.lights[i];
            if !light.is_area_light() {
                kept.push(light);
            }
            i = i + 1;
        }
        self.lights = kept;
        let ghost base = self.lights@;
        let mut shape_id: usize = 0;
        while shape_id < self.shapes.len()
            invariant
                old(self).material_ids_ok(),
                shape_id <= self.shapes@.len(),
                *self == (SceneData { lights: self.lights, ..*old(self) }),
                self.lights@ == base + area_lights_upto(
                    self.shapes@,
                    self.materials@,
                    shape_id as int,
                ),
            decreases self.shapes@.len() - shape_id,
        {
            let material_id = self.shapes[shape_id].material_id;
            if self.materials[material_id].is_emissive() {
                self.lights.push(Light::Area(AreaLight { shape_id }));
            }
            shape_id = shape_id + 1;
            proof {
                assert(self.lights@ == base + area_lights_upto(
                    self.shapes@,
                    self.materials@,
                    shape_id as int,
                ));
            }
        }
        proof {
            lemma_rebuilt_lights_ok(*self, base, pre_lights);
        }
    }

    /// The emitted radiance of a primitive, looked up through its material.
    pub fn get_emission(&self, shape_id: usize) -> (r: ColorBits)
        requires
            shape_id < self.shapes@.len(),
            self.material_ids_ok(),
        ensures
            r == self.materials@[self.shapes@[shape_id as int].material_id as int].spec_emission(),
    {
        let material_id = self.shapes[shape_id].material_id;
        self.materials[material_id].emission()
    }

    /// Whether a primitive's material emits light.
    pub fn is_emissive(&self, shape_id: usize) -> (r: bool)
        requires
            shape_id < self.shapes@.len(),
            self.material_ids_ok(),
        ensures
            r == self.materials@[self.shapes@[shape_id as int].material_id as int].spec_is_emissive(),
    {
        let material_id = self.shapes[shape_id].material_id;
        self.materials[material_id].is_emissive()
    }

    /// Freeze the scene for rendering: check explicitly that every primitive
    /// names an existing material, and rebuild the area lights from the
    /// primitive table. Returns false, leaving the scene unchanged, when a
    /// material reference is out of range.
    pub fn prepare(&mut self) -> (ok: bool)
        ensures
            ok == old(self).material_ids_ok(),
            !ok ==> *final(self) == *old(self),
            ok ==> final(self).lights@ == rebuilt_lights(
                old(self).lights@,
                old(self).shapes@,
                old(self).materials@,
            ),
            ok ==> *final(self) == (SceneData { lights: final(self).lights, ..*old(self) }),
            ok ==> final(self).wf(),
    {
        let mut i: usize = 0;
        while i < self.shapes.len()
            invariant
                i <= self.shapes@.len(),
                forall|j: int|
                    0 <= j < i ==> self.shapes@[j].material_id < self.materials@.len(),
            decreases self.shapes@.len() - i,
        {
            if self.shapes[i].material_id >= self.materials.len() {
                return false;
            }
            i = i + 1;
        }
        self.create_area_lights();
        true
    }
}

/// After a rebuild the light table satisfies the identifier invariant: the
/// kept lights are the registered non-area ones, and every appended area
/// light points at an in-range emissive primitive.
proof fn lemma_rebuilt_lights_ok(s: SceneData, base: Seq<Light>, pre_lights: Seq<Light>)
    requires
        s.material_ids_ok(),
        s.shapes@.len() <= usize::MAX,
        base == non_area_lights_upto(pre_lights, pre_lights.len() as int),
        s.lights@ == base + area_lights_upto(s.shapes@, s.materials@, s.shapes@.len() as int),
    ensures
        s.area_lights_ok(),
        s.lights@ == rebuilt_lights(pre_lights, s.shapes@, s.materials@),
{
    lemma_non_area_lights_not_area(pre_lights, pre_lights.len() as int);
    lemma_area_lights_refs(s.shapes@, s.materials@, s.shapes@.len() as int);
    assert forall|i: int|
        0 <= i < s.lights@.len() implies ((#[trigger] s.lights@[i]) is Area ==> area_light_ref_ok(
        s.lights@[i],
        s.shapes@,
        s.materials@,
    )) by {
        if i < base.len() {
            assert(!base[i].spec_is_area_light());
        } else {
            let tail = area_lights_upto(s.shapes@, s.materials@, s.shapes@.len() as int);
            assert(s.lights@[i] == tail[i - base.len()]);
        }
    }
}

/// No light kept by the non-area filter is an area light.
proof fn lemma_non_area_lights_not_area(lights: Seq<Light>, n: int)
    requires
        n <= lights.len(),
    ensures
        forall|i: int|
            0 <= i < non_area_lights_upto(lights, n).len() ==> !(#[trigger] non_area_lights_upto(
                lights,
                n,
            )[i]).spec_is_area_light(),
    decreases n,
{
    if n > 0 {
        lemma_non_area_lights_not_area(lights, n - 1);
        let prev = non_area_lights_upto(lights, n - 1);
        let cur = non_area_lights_upto(lights, n);
        assert forall|i: int| 0 <= i < cur.len() implies !(#[trigger] cur[i]).spec_is_area_light()
            by {
            if i < prev.len() {
                assert(cur[i] == prev[i]);
            }
        }
    }
}

/// Every light produced by the area rebuild names an in-range primitive
/// whose material is emissive.
proof fn lemma_area_lights_refs(shapes: Seq<Shape<Geometry>>, materials: Seq<Material>, n: int)
    requires
        n <= shapes.len() <= usize::MAX,
    ensures
        forall|i: int|
            0 <= i < area_lights_upto(shapes, materials, n).len() ==> area_light_ref_ok(
                #[trigger] area_lights_upto(shapes, materials, n)[i],
                shapes,
                materials,
            ),
    decreases n,
{
    if n > 0 {
        lemma_area_lights_refs(shapes, materials, n - 1);
        let prev = area_lights_upto(shapes, materials, n - 1);
        let cur = area_lights_upto(shapes, materials, n);
        assert forall|i: int| 0 <= i < cur.len() implies area_light_ref_ok(
            #[trigger] cur[i],
            shapes,
            materials,
        ) by {
            if i < prev.len() {
                assert(cur[i] == prev[i]);
            } else {
                if 0 <= shapes[n - 1].material_id < materials.len() && materials[shapes[n
                    - 1].material_id as int].spec_is_emissive() {
                    assert(cur[i] == Light::Area(AreaLight { shape_id: (n - 1) as usize }));
                } else {
                    assert(cur.len() == prev.len());
                }
            }
        }
    }
}

/// Every light produced by the area rebuild is an area light.
proof fn lemma_area_lights_all_area(shapes: Seq<Shape<Geometry>>, materials: Seq<Material>, n: int)
    ensures
        forall|i: int|
            0 <= i < area_lights_upto(shapes, materials, n).len() ==> (#[trigger] area_lights_upto(
                shapes,
                materials,
                n,
            )[i]).spec_is_area_light(),
    decreases n,
{
    if n > 0 {
        lemma_area_lights_all_area(shapes, materials, n - 1);
        let prev = area_lights_upto(shapes, materials, n - 1);
        let cur = area_lights_upto(shapes, materials, n);
        assert forall|i: int| 0 <= i < cur.len() implies (#[trigger] cur[i]).spec_is_area_light()
            by {
            if i < prev.len() {
                assert(cur[i] == prev[i]);
            }
        }
    }
}

/// A rebuild keeps every registered non-area light, in order, in front of
/// the area lights: for a table holding no area light (as `build_scene`
/// produces) the rebuilt table is that table followed by exactly one area
/// light per emissive primitive.
pub proof fn lemma_rebuild_keeps_point_lights(
    lights: Seq<Light>,
    shapes: Seq<Shape<Geometry>>,
    materials: Seq<Material>,
)
    requires
        forall|i: int| 0 <= i < lights.len() ==> !(#[trigger] lights[i]).spec_is_area_light(),
    ensures
        rebuilt_lights(lights, shapes, materials) == lights + area_lights_upto(
            shapes,
            materials,
            shapes.len() as int,
        ),
{
    lemma_non_area_prefix(lights, lights.len() as int, lights);
}

/// Rebuilding the area lights is idempotent: a second rebuild of an already
/// rebuilt light table gives the same table back.
pub proof fn lemma_create_area_lights_idempotent(
    lights: Seq<Light>,
    shapes: Seq<Shape<Geometry>>,
    materials: Seq<Material>,
)
    ensures
        rebuilt_lights(rebuilt_lights(lights, shapes, materials), shapes, materials)
            == rebuilt_lights(lights, shapes, materials),
{
    let kept = non_area_lights_upto(lights, lights.len() as int);
    let area = area_lights_upto(shapes, materials, shapes.len() as int);
    lemma_non_area_lights_not_area(lights, lights.len() as int);
    lemma_area_lights_all_area(shapes, materials, shapes.len() as int);
    lemma_non_area_filter_of_concat(kept, area);
    assert(non_area_lights_upto(kept + area, (kept + area).len() as int) == kept);
}

/// Filtering the non-area lights of `kept + area` gives `kept` back, when
/// nothing in `kept` is an area light and everything in `area` is.
proof fn lemma_non_area_filter_of_concat(kept: Seq<Light>, area: Seq<Light>)
    requires
        forall|i: int| 0 <= i < kept.len() ==> !(#[trigger] kept[i]).spec_is_area_light(),
        forall|i: int| 0 <= i < area.len() ==> (#[trigger] area[i]).spec_is_area_light(),
    ensures
        non_area_lights_upto(kept + area, (kept + area).len() as int) == kept,
{
    lemma_non_area_prefix(kept + area, kept.len() as int, kept);
    lemma_non_area_stable_suffix(kept + area, kept.len() as int, (kept + area).len() as int);
}

/// On a prefix free of area lights the filter is the identity.
proof fn lemma_non_area_prefix(lights: Seq<Light>, n: int, prefix: Seq<Light>)
    requires
        0 <= n <= lights.len(),
        prefix.len() == n,
        forall|i: int| 0 <= i < n ==> lights[i] == prefix[i] && !(#[trigger] lights[i]).spec_is_area_light(),
    ensures
        non_area_lights_upto(lights, n) == prefix,
    decreases n,
{
    if n > 0 {
        lemma_non_area_prefix(lights, n - 1, prefix.take(n - 1));
        assert(non_area_lights_upto(lights, n) == prefix.take(n - 1) + seq![prefix[n - 1]]);
        assert(non_area_lights_upto(lights, n) =~= prefix);
    } else {
        assert(non_area_lights_upto(lights, 0) =~= prefix);
    }
}

/// Extending the range over area lights only does not change the filter.
proof fn lemma_non_area_stable_suffix(lights: Seq<Light>, from: int, to: int)
    requires
        0 <= from <= to <= lights.len(),
        forall|i: int| from <= i < to ==> (#[trigger] lights[i]).spec_is_area_light(),
    ensures
        non_area_lights_upto(lights, to) == non_area_lights_upto(lights, from),
    decreases to - from,
{
    if to > from {
        lemma_non_area_stable_suffix(lights, from, to - 1);
        assert(non_area_lights_upto(lights, to) =~= non_area_lights_upto(lights, to - 1));
    }
}

impl Default for SceneData {
    /// The scene before any description is applied: 1024x768, one sample
    /// per pixel, one worker per logical CPU, a default camera at the
    /// origin looking down +z, direct lighting, gamma tone mapping.
    fn default() -> (s: SceneData)
        ensures
            s.width == 1024 && s.height == 768,
            s.nthreads >= 1,
            s.samples_per_pixel == 1,
            s.camera == (CameraSettings {
                eye: Vec3Bits { x: 0, y: 0, z: 0 },
                look_at: Vec3Bits { x: 0, y: 0, z: F32_FIVE_BITS },
                projection: CameraProjection::ViewPlaneDistance(F32_TWO_HUNDRED_BITS),
            }),
            s.shapes@.len() == 0 && s.materials@.len() == 0 && s.lights@.len() == 0,
            s.rendering_algorithm == RenderingAlgorithm::DirectLighting,
            s.output@ == "output.png"@,
            s.tmo_type == TMOType::Gamma,
            s.wf(),
    {
        SceneData {
            width: 1024,
            height: 768,
            nthreads: cpu_count(),
            samples_per_pixel: 1,
            camera: CameraSettings {
                eye: Vec3Bits { x: 0, y: 0, z: 0 },
                look_at: Vec3Bits { x: 0, y: 0, z: F32_FIVE_BITS },
                projection: CameraProjection::ViewPlaneDistance(F32_TWO_HUNDRED_BITS),
            },
            shapes: Vec::new(),
            materials: Vec::new(),
            lights: Vec::new(),
            rendering_algorithm: RenderingAlgorithm::DirectLighting,
            output: "output.png".to_owned(),
            tmo_type: TMOType::Gamma,
        }
    }
}

} // verus!
