use checker_scene::geometry::{ColorMilli, EulerZxy, Orientation, OrthoBounds, Transform, Vec3Milli};
use checker_scene::scene::{
    texture_asset_path, AmbientLight, Camera, Label, Material, MeshShape, ScalingMode, Scene,
    TextureKey,
};

fn built_scene() -> Scene {
    let mut scene = Scene::new();
    scene.setup();
    scene
}

#[test]
fn startup_population() {
    let scene = built_scene();
    assert_eq!(scene.objects.len(), 2);
    assert!(matches!(scene.objects[0].mesh, MeshShape::Plane { .. }));
    assert!(matches!(scene.objects[1].mesh, MeshShape::Cube { .. }));
    assert_eq!(scene.directional_lights.len(), 1);
    assert_eq!(scene.cameras.len(), 1);
    assert_eq!(scene.textures.len(), 1);
    assert_eq!(scene.materials.len(), 1);
    assert!(scene.ambient.is_some());
}

#[test]
fn objects_share_material() {
    let scene = built_scene();
    let plane = &scene.objects[0];
    let cube = &scene.objects[1];
    assert_eq!(plane.material, cube.material);
    let material = scene.materials[plane.material];
    assert_eq!(material.texture, 0);
    assert_eq!(scene.textures[material.texture], TextureKey::Checker);
    assert!(material.alpha_blend);
    assert!(!material.unlit);
}

#[test]
fn object_meshes_and_labels() {
    let scene = built_scene();
    assert_eq!(scene.objects[0].label, Label::Ground);
    assert_eq!(scene.objects[0].mesh, MeshShape::Plane { size: 600_000 });
    assert_eq!(scene.objects[1].label, Label::Cube2);
    assert_eq!(scene.objects[1].mesh, MeshShape::Cube { size: 60_000 });
}

#[test]
fn cube_rests_above_plane() {
    let scene = built_scene();
    let plane = scene.objects[0].transform;
    let cube = scene.objects[1].transform;
    assert_eq!(plane.translation, Vec3Milli { x: 0, y: 0, z: 0 });
    assert_eq!(
        cube.translation,
        Vec3Milli { x: plane.translation.x, y: plane.translation.y, z: plane.translation.z + 30_000 },
    );
    assert_eq!(plane.orientation, cube.orientation);
    assert_eq!(
        plane.orientation,
        Orientation::Euler(EulerZxy { z_mdeg: 0, x_mdeg: 90_000, y_mdeg: 0 }),
    );
}

#[test]
fn sun_shadow_frustum() {
    let scene = built_scene();
    let sun = scene.directional_lights[0];
    assert!(sun.shadows_enabled);
    assert_eq!(sun.shadow_bounds.left, -1_200_000);
    assert_eq!(sun.shadow_bounds.right, 1_200_000);
    assert_eq!(sun.shadow_bounds.bottom, -1_200_000);
    assert_eq!(sun.shadow_bounds.top, 1_200_000);
    assert_eq!(sun.shadow_bounds.near, -12_000_000);
    assert_eq!(sun.shadow_bounds.far, 12_000_000);
    assert_eq!(sun.transform.translation, Vec3Milli { x: 0, y: 0, z: 0 });
    assert_eq!(
        sun.transform.orientation,
        Orientation::Euler(EulerZxy { z_mdeg: -100_000, x_mdeg: 40_000, y_mdeg: 0 }),
    );
}

#[test]
fn ambient_light_is_half_white() {
    let scene = built_scene();
    let ambient = scene.ambient.expect("ambient light missing");
    assert_eq!(
        ambient,
        AmbientLight { color: ColorMilli { red: 1000, green: 1000, blue: 1000 }, brightness: 500 },
    );
}

#[test]
fn camera_configuration() {
    let scene = built_scene();
    let camera = scene.cameras[0];
    assert_eq!(
        camera.transform.translation,
        Vec3Milli { x: -306_186, y: -306_186, z: 250_000 },
    );
    assert_eq!(
        camera.transform.orientation,
        Orientation::LookAt {
            target: Vec3Milli { x: 0, y: 0, z: 0 },
            up: Vec3Milli { x: 0, y: 0, z: 1000 },
        },
    );
    assert_eq!(camera.projection.scale, 1000);
    assert_eq!(camera.projection.scaling_mode, ScalingMode::WindowSize);
    assert_eq!(camera.projection.bounds.left, -1_200_000);
    assert_eq!(camera.projection.bounds.right, 1_200_000);
    // The vertical bounds are configured with the same positive value.
    assert_eq!(camera.projection.bounds.bottom, 1_200_000);
    assert_eq!(camera.projection.bounds.top, 1_200_000);
    assert_eq!(camera.projection.bounds.near, -12_000_000);
    assert_eq!(camera.projection.bounds.far, 12_000_000);
}

#[test]
fn camera_view_offset_exact() {
    let scene = built_scene();
    let camera = scene.cameras[0];
    let offset = camera.view_offset().expect("camera should aim at a target");
    assert_eq!(offset, Vec3Milli { x: 306_186, y: 306_186, z: -250_000 });
}

#[test]
fn camera_view_direction_normalized() {
    let scene = built_scene();
    let camera = scene.cameras[0];
    let offset = camera.view_offset().expect("camera should aim at a target");
    let v = [
        offset.x as f64 / 1000.0,
        offset.y as f64 / 1000.0,
        offset.z as f64 / 1000.0,
    ];
    let norm = (v[0] * v[0] + v[1] * v[1] + v[2] * v[2]).sqrt();
    let actual = [v[0] / norm, v[1] / norm, v[2] / norm];

    // From (-306.186, -306.186, 250.0) toward the origin.
    let w = [0.0 - (-306.186f64), 0.0 - (-306.186f64), 0.0 - 250.0f64];
    let wnorm = (w[0] * w[0] + w[1] * w[1] + w[2] * w[2]).sqrt();
    let expected = [w[0] / wnorm, w[1] / wnorm, w[2] / wnorm];

    for i in 0..3 {
        assert!((actual[i] - expected[i]).abs() < 1e-12);
    }
}

#[test]
fn euler_camera_has_no_view_offset() {
    let camera = Camera {
        transform: Transform {
            translation: Vec3Milli { x: 1, y: 2, z: 3 },
            orientation: Orientation::Euler(EulerZxy { z_mdeg: 0, x_mdeg: 0, y_mdeg: 0 }),
        },
        projection: built_scene().cameras[0].projection,
    };
    assert_eq!(camera.view_offset(), None);
}

#[test]
fn rerun_appends_independent_sets() {
    let mut scene = Scene::new();
    scene.setup();
    let first_objects = scene.objects.clone();
    let first_materials = scene.materials.clone();
    scene.setup();

    assert_eq!(scene.objects.len(), 4);
    assert_eq!(scene.materials.len(), 2);
    assert_eq!(scene.textures.len(), 2);
    assert_eq!(scene.directional_lights.len(), 2);
    assert_eq!(scene.cameras.len(), 2);

    // The first run's entries are untouched.
    assert_eq!(&scene.objects[..2], &first_objects[..]);
    assert_eq!(&scene.materials[..1], &first_materials[..]);

    // The second run's objects share a fresh material handle of their own.
    assert_eq!(scene.objects[2].material, scene.objects[3].material);
    assert_ne!(scene.objects[2].material, scene.objects[0].material);
    let second_material = scene.materials[scene.objects[2].material];
    assert_ne!(second_material.texture, scene.materials[scene.objects[0].material].texture);
}

#[test]
fn texture_path() {
    assert_eq!(texture_asset_path(TextureKey::Checker), "materials/checker3.png");
}

#[test]
fn registry_handles_count_up() {
    let mut scene = Scene::new();
    let t0 = scene.load_texture(TextureKey::Checker);
    let t1 = scene.load_texture(TextureKey::Checker);
    assert_eq!((t0, t1), (0, 1));
    let m0 = scene.add_material(Material { texture: t0, alpha_blend: false, unlit: true });
    let m1 = scene.add_material(Material { texture: t1, alpha_blend: true, unlit: false });
    assert_eq!((m0, m1), (0, 1));
    assert_eq!(scene.materials[1].texture, 1);
}

#[test]
fn symmetric_bounds() {
    let b = OrthoBounds::symmetric(7, 70);
    assert_eq!(
        b,
        OrthoBounds { left: -7, right: 7, bottom: -7, top: 7, near: -70, far: 70 },
    );
}

#[test]
fn transform_operations() {
    let mut t = Transform::from_translation(Vec3Milli { x: 5, y: 6, z: 7 });
    assert_eq!(t.orientation, Orientation::Euler(EulerZxy { z_mdeg: 0, x_mdeg: 0, y_mdeg: 0 }));
    t.rotate_x(90_000);
    assert_eq!(t.translation, Vec3Milli { x: 5, y: 6, z: 7 });
    assert_eq!(t.orientation, Orientation::Euler(EulerZxy { z_mdeg: 0, x_mdeg: 90_000, y_mdeg: 0 }));
    let moved = t.with_translation(Vec3Milli { x: 0, y: 0, z: 30_000 });
    assert_eq!(moved.translation, Vec3Milli { x: 0, y: 0, z: 30_000 });
    assert_eq!(moved.orientation, t.orientation);
}

#[test]
fn vector_difference() {
    let a = Vec3Milli { x: 10, y: -20, z: 30 };
    let b = Vec3Milli { x: 4, y: 5, z: -6 };
    assert_eq!(a.difference(&b), Vec3Milli { x: 6, y: -25, z: 36 });
}
