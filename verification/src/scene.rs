//! The scene itself: the texture, the shared material, the two renderable
//! objects, the two lights and the camera, together with the registry they
//! are created in and the startup routine that creates them.
//!
//! The registry models what the rendering engine owns at run time: textures
//! and materials are held by handle (their index in the order they were
//! added), renderable objects carry their mesh inline, and the ambient
//! light is a single process-wide resource that insertion replaces.

use vstd::prelude::*;
use crate::geometry::ColorMilli;
use crate::geometry::EulerZxy;
use crate::geometry::Orientation;
use crate::geometry::OrthoBounds;
use crate::geometry::Transform;
use crate::geometry::Vec3Milli;
use crate::geometry::vec3_diff;
use crate::geometry::vec3_diff_fits;
use crate::geometry::vec3_sum;
use crate::geometry::MILLI_PER_UNIT;

verus! {

/// Side length of the ground plane, in thousandths of a world unit.
pub const PLANE_SIZE_MILLI: i64 = 600_000;

/// Edge length of the cube, in thousandths of a world unit.
pub const CUBE_SIZE_MILLI: i64 = 60_000;

/// How far above the plane the cube is lifted along the vertical render
/// axis, in thousandths of a world unit.
pub const CUBE_LIFT_MILLI: i64 = 30_000;

/// A quarter turn, in thousandths of a degree.
pub const QUARTER_TURN_MDEG: i64 = 90_000;

/// The sun light's rotation about the z axis, in thousandths of a degree.
pub const SUN_Z_MDEG: i64 = -100_000;

/// The sun light's rotation about the x axis, in thousandths of a degree.
pub const SUN_X_MDEG: i64 = 40_000;

/// Half-extent of the sun's shadow volume in x and y, in thousandths.
pub const SHADOW_HALF_EXTENT_MILLI: i64 = 1_200_000;

/// Half-depth of the sun's shadow volume, in thousandths.
pub const SHADOW_HALF_DEPTH_MILLI: i64 = 12_000_000;

/// Half-extent of the camera's orthographic window, in thousandths.
pub const CAMERA_HALF_EXTENT_MILLI: i64 = 1_200_000;

/// Half-depth of the camera's orthographic volume, in thousandths.
pub const CAMERA_HALF_DEPTH_MILLI: i64 = 12_000_000;

/// The camera's position, in thousandths of a world unit per axis.
pub const CAMERA_X_MILLI: i64 = -306_186;

/// See `CAMERA_X_MILLI`.
pub const CAMERA_Y_MILLI: i64 = -306_186;

/// See `CAMERA_X_MILLI`.
pub const CAMERA_Z_MILLI: i64 = 250_000;

/// Intensity of the ambient fill light, in thousandths.
pub const AMBIENT_BRIGHTNESS_MILLI: i64 = 500;

/// Identifies a texture asset the scene can ask the engine to load.
#[derive(Clone, Copy, PartialEq, Eq, Structural, Debug)]
pub enum TextureKey {
    /// The checkered tile texture.
    Checker,
}

/// The asset path a texture key stands for.
pub fn texture_asset_path(key: TextureKey) -> (path: &'static str)
    ensures
        path@ == "materials/checker3.png"@,
{
    match key {
        TextureKey::Checker => "materials/checker3.png",
    }
}

/// A surface description: a handle to the texture it shows, whether its
/// alpha channel is blended, and whether lighting is skipped.
#[derive(Clone, Copy, PartialEq, Eq, Structural, Debug)]
pub struct Material {
    /// Handle of the texture, as returned by `Scene::load_texture`.
    pub texture: usize,
    pub alpha_blend: bool,
    pub unlit: bool,
}

/// The mesh of a renderable object.
#[derive(Clone, Copy, PartialEq, Eq, Structural, Debug)]
pub enum MeshShape {
    /// A flat square, `size` thousandths of a unit on a side.
    Plane { size: i64 },
    /// A cube with edges `size` thousandths of a unit long.
    Cube { size: i64 },
}

/// A human-readable tag put on a renderable object.
#[derive(Clone, Copy, PartialEq, Eq, Structural, Debug)]
pub enum Label {
    Ground,
    Cube2,
}

/// One renderable object: its tag, its mesh, a handle to a (possibly
/// shared) material, and its placement.
#[derive(Clone, Copy, PartialEq, Eq, Structural, Debug)]
pub struct RenderObject {
    pub label: Label,
    pub mesh: MeshShape,
    /// Handle of the material, as returned by `Scene::add_material`.
    pub material: usize,
    pub transform: Transform,
}

/// A light with parallel rays and no position of its own, only an
/// orientation; models distant light such as the sun.
#[derive(Clone, Copy, PartialEq, Eq, Structural, Debug)]
pub struct DirectionalLight {
    /// The volume within which geometry casts shadows.
    pub shadow_bounds: OrthoBounds,
    pub shadows_enabled: bool,
    pub transform: Transform,
}

/// Uniform, directionless fill light applied to the whole scene;
/// `brightness` is in thousandths of full intensity.
#[derive(Clone, Copy, PartialEq, Eq, Structural, Debug)]
pub struct AmbientLight {
    pub color: ColorMilli,
    pub brightness: i64,
}

/// How the camera's orthographic window follows the viewport.
#[derive(Clone, Copy, PartialEq, Eq, Structural, Debug)]
pub enum ScalingMode {
    /// Keep the configured window whatever the viewport's size.
    Fixed,
    /// Match the window to the viewport's pixel size.
    WindowSize,
}

/// An orthographic projection: a uniform scale in thousandths, the six
/// clipping bounds, and how the window follows the viewport.
#[derive(Clone, Copy, PartialEq, Eq, Structural, Debug)]
pub struct OrthoProjection {
    pub scale: i64,
    pub bounds: OrthoBounds,
    pub scaling_mode: ScalingMode,
}

/// The sole viewpoint of the scene.
#[derive(Clone, Copy, PartialEq, Eq, Structural, Debug)]
pub struct Camera {
    pub transform: Transform,
    pub projection: OrthoProjection,
}

/// True when the camera's aimed-at point minus its position fits the
/// fixed-point range, so the executable view offset is exact.
pub open spec fn look_target_fits(c: Camera) -> bool {
    match c.transform.orientation {
        Orientation::LookAt { target, .. } => vec3_diff_fits(target, c.transform.translation),
        Orientation::Euler(_) => true,
    }
}

/// The un-normalised view direction of a camera aimed at a target: the
/// target minus the camera's position; no direction for explicit Euler
/// orientations.
pub open spec fn view_offset_spec(c: Camera) -> Option<Vec3Milli> {
    match c.transform.orientation {
        Orientation::LookAt { target, .. } => Some(vec3_diff(target, c.transform.translation)),
        Orientation::Euler(_) => None,
    }
}

impl Camera {
    /// The un-normalised view direction: where the camera aims minus where
    /// it stands, or `None` when the orientation is explicit angles.
    pub fn view_offset(&self) -> (d: Option<Vec3Milli>)
        requires
            look_target_fits(*self),
        ensures
            d == view_offset_spec(*self),
    {
        match self.transform.orientation {
            Orientation::LookAt { target, .. } => {
                Some(target.difference(&self.transform.translation))
            },
            Orientation::Euler(_) => None,
        }
    }
}

/// The material every renderable object of this scene shares: the given
/// texture, alpha-blended, with lighting applied.
pub open spec fn scene_material(texture: usize) -> Material {
    Material { texture, alpha_blend: true, unlit: false }
}

/// The placement the plane and the cube share: a quarter turn about the x
/// axis, so the mesh lies horizontal.
pub open spec fn ground_orientation() -> Orientation {
    Orientation::Euler(EulerZxy { z_mdeg: 0, x_mdeg: QUARTER_TURN_MDEG, y_mdeg: 0 })
}

/// The ground plane: a flat square at the world origin.
pub open spec fn ground_plane(material: usize) -> RenderObject {
    RenderObject {
        label: Label::Ground,
        mesh: MeshShape::Plane { size: PLANE_SIZE_MILLI },
        material,
        transform: Transform {
            translation: Vec3Milli::zero(),
            orientation: ground_orientation(),
        },
    }
}

/// The cube: the plane's orientation, lifted along the vertical render
/// axis.
pub open spec fn lifted_cube(material: usize) -> RenderObject {
    RenderObject {
        label: Label::Cube2,
        mesh: MeshShape::Cube { size: CUBE_SIZE_MILLI },
        material,
        transform: Transform {
            translation: Vec3Milli { x: 0, y: 0, z: CUBE_LIFT_MILLI },
            orientation: ground_orientation(),
        },
    }
}

/// The sun: a fixed orientation, shadows on, and a symmetric shadow volume
/// sized to cover the scene.
pub open spec fn sun_light() -> DirectionalLight {
    DirectionalLight {
        shadow_bounds: OrthoBounds::symmetric_spec(
            SHADOW_HALF_EXTENT_MILLI,
            SHADOW_HALF_DEPTH_MILLI,
        ),
        shadows_enabled: true,
        transform: Transform {
            translation: Vec3Milli::zero(),
            orientation: Orientation::Euler(
                EulerZxy { z_mdeg: SUN_Z_MDEG, x_mdeg: SUN_X_MDEG, y_mdeg: 0 },
            ),
        },
    }
}

/// The process-wide fill light: white at half intensity.
pub open spec fn ambient_fill() -> AmbientLight {
    AmbientLight { color: ColorMilli::white(), brightness: AMBIENT_BRIGHTNESS_MILLI }
}

/// The camera: positioned off-axis, aimed at the world origin with the
/// vertical render axis up, with an orthographic projection that follows
/// the window's pixel size.  The projection's bottom bound carries the
/// same positive value as its top, so the configured vertical window is
/// degenerate; the scene keeps that configuration exactly.
pub open spec fn scene_camera() -> Camera {
    Camera {
        transform: Transform {
            translation: Vec3Milli { x: CAMERA_X_MILLI, y: CAMERA_Y_MILLI, z: CAMERA_Z_MILLI },
            orientation: Orientation::LookAt {
                target: Vec3Milli::zero(),
                up: Vec3Milli::unit_z(),
            },
        },
        projection: OrthoProjection {
            scale: MILLI_PER_UNIT,
            bounds: OrthoBounds {
                left: (-CAMERA_HALF_EXTENT_MILLI) as i64,
                right: CAMERA_HALF_EXTENT_MILLI,
                bottom: CAMERA_HALF_EXTENT_MILLI,
                top: CAMERA_HALF_EXTENT_MILLI,
                near: (-CAMERA_HALF_DEPTH_MILLI) as i64,
                far: CAMERA_HALF_DEPTH_MILLI,
            },
            scaling_mode: ScalingMode::WindowSize,
        },
    }
}

/// The mathematical content of a `Scene`: the same registries as sequences.
#[verifier::ext_equal]
pub struct SceneView {
    pub textures: Seq<TextureKey>,
    pub materials: Seq<Material>,
    pub objects: Seq<RenderObject>,
    pub directional_lights: Seq<DirectionalLight>,
    pub ambient: Option<AmbientLight>,
    pub cameras: Seq<Camera>,
}

impl SceneView {
    /// A registry with nothing in it.
    pub open spec fn empty() -> SceneView {
        SceneView {
            textures: Seq::empty(),
            materials: Seq::empty(),
            objects: Seq::empty(),
            directional_lights: Seq::empty(),
            ambient: None,
            cameras: Seq::empty(),
        }
    }
}

/// What one run of the startup routine turns a registry into: one texture
/// loaded, one material referencing it, the plane and the cube both
/// holding that material's handle, the sun spawned, the ambient resource
/// replaced, and the camera spawned.
pub open spec fn setup_view(pre: SceneView) -> SceneView {
    let texture = pre.textures.len() as usize;
    let material = pre.materials.len() as usize;
    SceneView {
        textures: pre.textures.push(TextureKey::Checker),
        materials: pre.materials.push(scene_material(texture)),
        objects: pre.objects.push(ground_plane(material)).push(lifted_cube(material)),
        directional_lights: pre.directional_lights.push(sun_light()),
        ambient: Some(ambient_fill()),
        cameras: pre.cameras.push(scene_camera()),
    }
}

/// The scene registry: everything the startup routine creates, in the
/// order it was created.  Handles are indices into `textures` and
/// `materials`; the ambient light is a single resource that insertion
/// replaces.
pub struct Scene {
    pub textures: Vec<TextureKey>,
    pub materials: Vec<Material>,
    pub objects: Vec<RenderObject>,
    pub directional_lights: Vec<DirectionalLight>,
    pub ambient: Option<AmbientLight>,
    pub cameras: Vec<Camera>,
}

impl View for Scene {
    type V = SceneView;

    open spec fn view(&self) -> SceneView {
        SceneView {
            textures: self.textures@,
            materials: self.materials@,
            objects: self.objects@,
            directional_lights: self.directional_lights@,
            ambient: self.ambient,
            cameras: self.cameras@,
        }
    }
}

impl Scene {
    /// An empty registry.
    pub fn new() -> (s: Scene)
        ensures
            s@ =~= SceneView::empty(),
    {
        Scene {
            textures: Vec::new(),
            materials: Vec::new(),
            objects: Vec::new(),
            directional_lights: Vec::new(),
            ambient: None,
            cameras: Vec::new(),
        }
    }

    /// Requests a texture asset and returns its handle.
    pub fn load_texture(&mut self, key: TextureKey) -> (handle: usize)
        ensures
            handle == old(self)@.textures.len(),
            final(self)@ =~= (SceneView { textures: old(self)@.textures.push(key), ..old(self)@ }),
    {
        let handle = self.textures.len();
        self.textures.push(key);
        handle
    }

    /// Registers a material and returns its handle.
    pub fn add_material(&mut self, material: Material) -> (handle: usize)
        ensures
            handle == old(self)@.materials.len(),
            final(self)@ =~= (SceneView {
                materials: old(self)@.materials.push(material),
                ..old(self)@
            }),
    {
        let handle = self.materials.len();
        self.materials.push(material);
        handle
    }

    /// Creates a renderable object.
    pub fn spawn_object(&mut self, object: RenderObject)
        ensures
            final(self)@ =~= (SceneView { objects: old(self)@.objects.push(object), ..old(self)@ }),
    {
        self.objects.push(object);
    }

    /// Creates a directional light.
    pub fn spawn_directional_light(&mut self, light: DirectionalLight)
        ensures
            final(self)@ =~= (SceneView {
                directional_lights: old(self)@.directional_lights.push(light),
                ..old(self)@
            }),
    {
        self.directional_lights.push(light);
    }

    /// Sets the process-wide ambient light, replacing any earlier one.
    pub fn insert_ambient_light(&mut self, light: AmbientLight)
        ensures
            final(self)@ =~= (SceneView { ambient: Some(light), ..old(self)@ }),
    {
        self.ambient = Some(light);
    }

    /// Creates a camera.
    pub fn spawn_camera(&mut self, camera: Camera)
        ensures
            final(self)@ =~= (SceneView { cameras: old(self)@.cameras.push(camera), ..old(self)@ }),
    {
        self.cameras.push(camera);
    }

    /// The startup routine: populates the registry with the whole scene in
    /// one pass.  Runs against any prior contents and only appends (the
    /// ambient resource excepted), so `setup_view` describes it exactly.
    pub fn setup(&mut self)
        ensures
            final(self)@ =~= setup_view(old(self)@),
    {
        let mut t = Transform::from_translation(Vec3Milli { x: 0, y: 0, z: 0 });
        t.rotate_x(QUARTER_TURN_MDEG);

        let texture_handle = self.load_texture(TextureKey::Checker);
        let material_handle = self.add_material(
            Material { texture: texture_handle, alpha_blend: true, unlit: false },
        );

        self.spawn_object(RenderObject {
            label: Label::Ground,
            mesh: MeshShape::Plane { size: PLANE_SIZE_MILLI },
            material: material_handle,
            transform: t,
        });

        self.spawn_object(RenderObject {
            label: Label::Cube2,
            mesh: MeshShape::Cube { size: CUBE_SIZE_MILLI },
            material: material_handle,
            transform: t.with_translation(Vec3Milli { x: 0, y: 0, z: CUBE_LIFT_MILLI }),
        });

        self.spawn_directional_light(DirectionalLight {
            shadow_bounds: OrthoBounds::symmetric(
                SHADOW_HALF_EXTENT_MILLI,
                SHADOW_HALF_DEPTH_MILLI,
            ),
            shadows_enabled: true,
            transform: Transform {
                translation: Vec3Milli { x: 0, y: 0, z: 0 },
                orientation: Orientation::Euler(
                    EulerZxy { z_mdeg: SUN_Z_MDEG, x_mdeg: SUN_X_MDEG, y_mdeg: 0 },
                ),
            },
        });

        self.insert_ambient_light(AmbientLight {
            color: ColorMilli {
                red: MILLI_PER_UNIT,
                green: MILLI_PER_UNIT,
                blue: MILLI_PER_UNIT,
            },
            brightness: AMBIENT_BRIGHTNESS_MILLI,
        });

        self.setup_camera();
    }

    /// Creates the scene's camera.
    pub fn setup_camera(&mut self)
        ensures
            final(self)@ =~= (SceneView {
                cameras: old(self)@.cameras.push(scene_camera()),
                ..old(self)@
            }),
    {
        let camera_coords = Vec3Milli {
            x: CAMERA_X_MILLI,
            y: CAMERA_Y_MILLI,
            z: CAMERA_Z_MILLI,
        };

        self.spawn_camera(Camera {
            transform: Transform {
                translation: camera_coords,
                orientation: Orientation::LookAt {
                    target: Vec3Milli { x: 0, y: 0, z: 0 },
                    up: Vec3Milli { x: 0, y: 0, z: MILLI_PER_UNIT },
                },
            },
            projection: OrthoProjection {
                scale: MILLI_PER_UNIT,
                bounds: OrthoBounds {
                    left: -CAMERA_HALF_EXTENT_MILLI,
                    right: CAMERA_HALF_EXTENT_MILLI,
                    bottom: CAMERA_HALF_EXTENT_MILLI,
                    top: CAMERA_HALF_EXTENT_MILLI,
                    near: -CAMERA_HALF_DEPTH_MILLI,
                    far: CAMERA_HALF_DEPTH_MILLI,
                },
                scaling_mode: ScalingMode::WindowSize,
            },
        });
    }
}

/// After one run of the startup routine on an empty registry there are
/// exactly two renderable objects — the plane first, then the cube —
/// exactly one directional light, exactly one camera, and an ambient
/// light.
pub proof fn lemma_startup_population()
    ensures
        setup_view(SceneView::empty()).objects.len() == 2,
        setup_view(SceneView::empty()).objects[0].mesh is Plane,
        setup_view(SceneView::empty()).objects[1].mesh is Cube,
        setup_view(SceneView::empty()).directional_lights.len() == 1,
        setup_view(SceneView::empty()).cameras.len() == 1,
        setup_view(SceneView::empty()).ambient is Some,
{
}

/// The two objects one run adds hold one and the same material handle: the
/// handle of the material that run registered, which in turn holds the
/// handle of the texture that run loaded.
pub proof fn lemma_objects_share_material(pre: SceneView)
    ensures
        setup_view(pre).objects[pre.objects.len() as int].material
            == setup_view(pre).objects[pre.objects.len() as int + 1].material,
        setup_view(pre).objects[pre.objects.len() as int].material
            == pre.materials.len() as usize,
        setup_view(pre).materials.last() == scene_material(pre.textures.len() as usize),
{
}

/// The cube one run adds stands at the plane's position translated by
/// thirty units along the vertical render axis, and shares the plane's
/// orientation.
pub proof fn lemma_cube_rests_above_plane(pre: SceneView)
    ensures
        setup_view(pre).objects[pre.objects.len() as int + 1].transform.translation == vec3_sum(
            setup_view(pre).objects[pre.objects.len() as int].transform.translation,
            Vec3Milli { x: 0, y: 0, z: CUBE_LIFT_MILLI },
        ),
        setup_view(pre).objects[pre.objects.len() as int + 1].transform.orientation
            == setup_view(pre).objects[pre.objects.len() as int].transform.orientation,
{
}

/// The directional light one run adds casts shadows, and its shadow volume
/// spans the symmetric box with half-extent 1200 units in x and y and
/// depth running from -12000 to 12000 units.
pub proof fn lemma_sun_shadow_bounds(pre: SceneView)
    ensures
        setup_view(pre).directional_lights.last().shadows_enabled,
        setup_view(pre).directional_lights.last().shadow_bounds == (OrthoBounds {
            left: (-SHADOW_HALF_EXTENT_MILLI) as i64,
            right: SHADOW_HALF_EXTENT_MILLI,
            bottom: (-SHADOW_HALF_EXTENT_MILLI) as i64,
            top: SHADOW_HALF_EXTENT_MILLI,
            near: (-SHADOW_HALF_DEPTH_MILLI) as i64,
            far: SHADOW_HALF_DEPTH_MILLI,
        }),
{
}

/// Running the startup routine a second time only appends: every entry the
/// first run left is untouched, and the second run's objects hold a
/// material handle distinct from the first run's, so the two sets do not
/// interact.  (Any registry an executable program can hold keeps its
/// material count below `usize::MAX`.)
pub proof fn lemma_reruns_independent(pre: SceneView)
    requires
        pre.materials.len() < usize::MAX,
    ensures
        setup_view(setup_view(pre)).objects.len() == pre.objects.len() + 4,
        forall|i: int|
            0 <= i < setup_view(pre).objects.len() ==> setup_view(setup_view(pre)).objects[i]
                == setup_view(pre).objects[i],
        forall|i: int|
            0 <= i < setup_view(pre).materials.len() ==> setup_view(setup_view(pre)).materials[i]
                == setup_view(pre).materials[i],
        setup_view(setup_view(pre)).objects[pre.objects.len() as int + 2].material
            == setup_view(setup_view(pre)).objects[pre.objects.len() as int + 3].material,
        setup_view(setup_view(pre)).objects[pre.objects.len() as int + 2].material != setup_view(
            setup_view(pre),
        ).objects[pre.objects.len() as int].material,
{
}

} // verus!

