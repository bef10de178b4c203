use tracer::lights::{AreaLight, Light, PointLight};
use tracer::materials::{Material, MatteEmissiveMaterial, MatteMaterial};
use tracer::scene::{RenderingAlgorithm, SceneData};
use tracer::shapes::{Geometry, Shape};
use tracer::vec::{ColorBits, Vec3Bits};

fn white() -> ColorBits {
    let one = 1.0f32.to_bits();
    ColorBits::new(one, one, one)
}

fn origin() -> Vec3Bits {
    Vec3Bits::new(0, 0, 0)
}

fn demo_scene() -> SceneData {
    let mut scene = SceneData::default();
    let matte = scene.add_material(Material::Matte(MatteMaterial::new(white())));
    let glowing = scene.add_material(Material::MatteEmissive(MatteEmissiveMaterial::new(
        white(),
        white(),
    )));
    let radius = 1.0f32.to_bits();
    scene.add_shape(Shape::new(
        Geometry::Sphere {
            position: origin(),
            radius,
        },
        matte,
    ));
    scene.add_shape(Shape::new(
        Geometry::Sphere {
            position: origin(),
            radius,
        },
        glowing,
    ));
    scene.add_shape(Shape::new(
        Geometry::Sphere {
            position: origin(),
            radius,
        },
        glowing,
    ));
    scene.add_light(Light::Point(PointLight::new(white(), origin())));
    scene
}

#[test]
fn default_scene_settings() {
    let scene = SceneData::default();
    assert_eq!(scene.image_size(), (1024, 768));
    assert_eq!(scene.get_samples_per_pixel(), 1);
    assert!(scene.get_nthreads() >= 1);
    assert_eq!(scene.get_output_file(), "output.png");
    assert!(matches!(
        scene.rendering_algorithm,
        RenderingAlgorithm::DirectLighting
    ));
}

#[test]
fn emission_lookup() {
    let scene = demo_scene();
    assert!(!scene.is_emissive(0));
    assert!(scene.is_emissive(1));
    assert_eq!(scene.get_emission(0), ColorBits::new(0, 0, 0));
    assert_eq!(scene.get_emission(1), white());
}

#[test]
fn prepare_builds_area_lights() {
    let mut scene = demo_scene();
    assert!(scene.prepare());
    assert_eq!(scene.lights.len(), 3);
    assert!(matches!(scene.lights[0], Light::Point(_)));
    assert_eq!(scene.lights[1], Light::Area(AreaLight::new(1)));
    assert_eq!(scene.lights[2], Light::Area(AreaLight::new(2)));
}

#[test]
fn area_light_rebuild_is_idempotent() {
    let mut scene = demo_scene();
    assert!(scene.prepare());
    let once = scene.lights.clone();
    assert!(scene.prepare());
    assert_eq!(scene.lights, once);
}

#[test]
fn prepare_rejects_bad_material_reference() {
    let mut scene = SceneData::default();
    scene.add_shape(Shape::new(
        Geometry::Sphere {
            position: origin(),
            radius: 1.0f32.to_bits(),
        },
        7,
    ));
    assert!(!scene.prepare());
    assert!(scene.lights.is_empty());
}
