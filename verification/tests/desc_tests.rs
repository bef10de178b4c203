use tracer::desc::{
    build_scene, CameraDesc, GlobalDesc, LightDesc, MaterialDesc, SceneDesc, SceneError,
    ShapeDesc,
};
use tracer::materials::Material;
use tracer::pixel_buffer::TMOType;
use tracer::scene::{CameraProjection, RenderingAlgorithm};
use tracer::vec::{ColorBits, Vec3Bits};

fn bits3(x: f32, y: f32, z: f32) -> Vec3Bits {
    Vec3Bits::new(x.to_bits(), y.to_bits(), z.to_bits())
}

fn color(r: f32, g: f32, b: f32) -> ColorBits {
    ColorBits::new(r.to_bits(), g.to_bits(), b.to_bits())
}

fn empty_desc() -> SceneDesc {
    SceneDesc {
        global: None,
        camera: None,
        materials: Vec::new(),
        shapes: Vec::new(),
        lights: Vec::new(),
    }
}

fn full_desc() -> SceneDesc {
    SceneDesc {
        global: Some(GlobalDesc {
            resolution: Some((8, 8)),
            spp: Some(16),
            rendering: Some("direct_lighting".to_owned()),
            tonemap: Some("linear".to_owned()),
            output: Some("scene.exr".to_owned()),
            nthreads: Some(2),
        }),
        camera: Some(CameraDesc {
            eye: Some(bits3(0.0, 0.0, 0.0)),
            lookat: Some(bits3(0.0, 0.0, 2.0)),
            hfov: Some(78.0f32.to_bits()),
            vp_distance: None,
        }),
        materials: vec![MaterialDesc {
            name: "matte_white".to_owned(),
            typ: "matte".to_owned(),
            diffuse: color(1.0, 1.0, 1.0),
        }],
        shapes: vec![ShapeDesc {
            typ: "sphere".to_owned(),
            material: "matte_white".to_owned(),
            position: bits3(0.0, 0.0, 2.0),
            radius: 1.0f32.to_bits(),
        }],
        lights: vec![LightDesc {
            typ: "point".to_owned(),
            intensity: color(2.0, 2.0, 2.0),
            position: bits3(0.0, 0.0, 0.0),
        }],
    }
}

#[test]
fn build_full_scene() {
    let scene = build_scene(&full_desc()).unwrap();
    assert_eq!(scene.image_size(), (8, 8));
    assert_eq!(scene.get_samples_per_pixel(), 16);
    assert_eq!(scene.get_nthreads(), 2);
    assert!(matches!(
        scene.rendering_algorithm,
        RenderingAlgorithm::DirectLighting
    ));
    assert!(matches!(scene.get_tmo_type(), TMOType::Linear));
    assert_eq!(scene.get_output_file(), "scene.exr");
    assert_eq!(scene.camera.eye, bits3(0.0, 0.0, 0.0));
    assert_eq!(scene.camera.look_at, bits3(0.0, 0.0, 2.0));
    assert_eq!(
        scene.camera.projection,
        CameraProjection::HorizontalFov(78.0f32.to_bits())
    );
    assert_eq!(scene.materials.len(), 1);
    assert!(matches!(scene.materials[0], Material::Matte(_)));
    assert_eq!(scene.shapes.len(), 1);
    assert_eq!(scene.shapes[0].material_id, 0);
    assert_eq!(scene.lights.len(), 1);
}

#[test]
fn build_empty_scene_uses_defaults() {
    let scene = build_scene(&empty_desc()).unwrap();
    assert_eq!(scene.image_size(), (1024, 768));
    assert_eq!(scene.get_samples_per_pixel(), 1);
    assert_eq!(scene.get_output_file(), "output.png");
    assert!(matches!(scene.get_tmo_type(), TMOType::Gamma));
    assert!(scene.shapes.is_empty() && scene.materials.is_empty() && scene.lights.is_empty());
}

#[test]
fn unknown_rendering_algorithm_is_an_error() {
    let mut desc = full_desc();
    desc.global.as_mut().unwrap().rendering = Some("bidirectional".to_owned());
    let err = build_scene(&desc).unwrap_err();
    assert_eq!(
        err,
        SceneError::UnknownRenderingAlgorithm("bidirectional".to_owned())
    );
}

#[test]
fn unknown_tonemap_is_an_error() {
    let mut desc = full_desc();
    desc.global.as_mut().unwrap().tonemap = Some("aces".to_owned());
    let err = build_scene(&desc).unwrap_err();
    assert_eq!(err, SceneError::UnknownToneMap("aces".to_owned()));
}

#[test]
fn unknown_material_type_is_an_error() {
    let mut desc = full_desc();
    desc.materials[0].typ = "velvet".to_owned();
    let err = build_scene(&desc).unwrap_err();
    assert_eq!(err, SceneError::UnknownMaterialType("velvet".to_owned()));
}

#[test]
fn duplicate_material_is_an_error() {
    let mut desc = full_desc();
    let copy = MaterialDesc {
        name: "matte_white".to_owned(),
        typ: "matte".to_owned(),
        diffuse: color(0.5, 0.5, 0.5),
    };
    desc.materials.push(copy);
    let err = build_scene(&desc).unwrap_err();
    assert_eq!(err, SceneError::DuplicateMaterial("matte_white".to_owned()));
}

#[test]
fn unknown_shape_type_is_an_error() {
    let mut desc = full_desc();
    desc.shapes[0].typ = "torus".to_owned();
    let err = build_scene(&desc).unwrap_err();
    assert_eq!(err, SceneError::UnknownShapeType("torus".to_owned()));
}

#[test]
fn unknown_material_reference_is_an_error() {
    let mut desc = full_desc();
    desc.shapes[0].material = "chrome".to_owned();
    let err = build_scene(&desc).unwrap_err();
    assert_eq!(err, SceneError::UnknownMaterial("chrome".to_owned()));
}

#[test]
fn unknown_light_type_is_an_error() {
    let mut desc = full_desc();
    desc.lights[0].typ = "spot".to_owned();
    let err = build_scene(&desc).unwrap_err();
    assert_eq!(err, SceneError::UnknownLightType("spot".to_owned()));
}

#[test]
fn vp_distance_wins_over_hfov() {
    let mut desc = full_desc();
    desc.camera.as_mut().unwrap().vp_distance = Some(200.0f32.to_bits());
    let scene = build_scene(&desc).unwrap();
    assert_eq!(
        scene.camera.projection,
        CameraProjection::ViewPlaneDistance(200.0f32.to_bits())
    );
}

#[test]
fn path_tracer_is_a_known_algorithm() {
    let mut desc = full_desc();
    desc.global.as_mut().unwrap().rendering = Some("path_tracer".to_owned());
    let scene = build_scene(&desc).unwrap();
    assert!(matches!(
        scene.rendering_algorithm,
        RenderingAlgorithm::PathTracer
    ));
}
