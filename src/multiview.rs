//! A scene of four views sharing one camera: a triangle, animated lines, instanced
//! meshes and a large random point cloud, each drawn behind a common skybox.
use vstd::prelude::*;
use crate::compositor::{ViewDrawResult, draw_tiled_views, tile_view_matches};
use crate::draw_data::{BuildError, DrawData};
use crate::line_strips::{
    CAP_END_TRIANGLE, CAP_START_ROUND, LineDrawData, LineStripInfo, LineStripSeriesBuilder,
    some_batch_without_strip,
};
use crate::point_cloud::{PointCloudBuilder, PointCloudDrawData};
use crate::tiling::{Extent, tile_at};
use crate::types::{Color32, IsoTransform, Mat4, Rgba, Scalar, Size, Vec3, identity_mat4};
use crate::view_builder::{ConfigurationError, OrthographicCameraMode, Projection};

verus! {

/// Vertical field of view of the perspective camera: 70 degrees, in radians.
pub const PERSPECTIVE_FOV_BITS: u32 = 0x3f9c_61ab;
/// Near plane distance of the perspective camera: 0.01.
pub const PERSPECTIVE_NEAR_BITS: u32 = 0x3c23_d70a;
/// Visible world height of the orthographic camera: 15.
pub const ORTHOGRAPHIC_HEIGHT_BITS: u32 = 0x4170_0000;
/// Far plane distance of the orthographic camera: 100000.
pub const ORTHOGRAPHIC_FAR_BITS: u32 = 0x47c3_5000;
/// Radius in points of the attractor strip: 1.
pub const ATTRACTOR_RADIUS_BITS: u32 = 0x3f80_0000;
/// Radius in scene units of the zig-zag arrow: 0.05.
pub const ARROW_RADIUS_BITS: u32 = 0x3d4c_cccd;
/// Radius in scene units of the spiral: 0.1.
pub const SPIRAL_RADIUS_BITS: u32 = 0x3dcc_cccd;

#[derive(Clone, Copy, Debug, PartialEq, Eq, Structural)]
pub enum CameraControl {
    /// The camera circles the scene's center.
    RotateAroundCenter,
    /// The camera stays where it is.
    Manual,
}

/// The keys the scene reacts to.
#[derive(Clone, Copy, Debug, PartialEq, Eq, Structural)]
pub enum Key {
    /// Switches between perspective and orthographic projection.
    O,
    /// Pauses or resumes the camera's motion.
    Space,
    Other,
}

/// The state the scene keeps between frames.
#[derive(Clone, Copy, Debug, PartialEq, Eq, Structural)]
pub struct Multiview {
    pub perspective_projection: bool,
    pub camera_control: CameraControl,
    pub camera_position: Vec3,
}

pub open spec fn perspective_projection() -> Projection {
    Projection::Perspective {
        vertical_fov: Scalar { bits: PERSPECTIVE_FOV_BITS },
        near_plane_distance: Scalar { bits: PERSPECTIVE_NEAR_BITS },
    }
}

pub open spec fn orthographic_projection() -> Projection {
    Projection::Orthographic {
        camera_mode: OrthographicCameraMode::NearPlaneCenter,
        vertical_world_size: Scalar { bits: ORTHOGRAPHIC_HEIGHT_BITS },
        far_plane_distance: Scalar { bits: ORTHOGRAPHIC_FAR_BITS },
    }
}

pub open spec fn projection_of(m: Multiview) -> Projection {
    if m.perspective_projection {
        perspective_projection()
    } else {
        orthographic_projection()
    }
}

/// The state after a key event; releases and other keys change nothing.
pub open spec fn after_key(m: Multiview, pressed: bool, key: Key) -> Multiview {
    if !pressed {
        m
    } else {
        match key {
            Key::O => Multiview { perspective_projection: !m.perspective_projection, ..m },
            Key::Space => Multiview {
                camera_control: match m.camera_control {
                    CameraControl::RotateAroundCenter => CameraControl::Manual,
                    CameraControl::Manual => CameraControl::RotateAroundCenter,
                },
                ..m
            },
            Key::Other => m,
        }
    }
}

/// The state after the camera's motion for a frame: a rotating camera moves to
/// `orbit_position`, a manual one stays.
pub open spec fn after_camera_update(m: Multiview, orbit_position: Vec3) -> Multiview {
    match m.camera_control {
        CameraControl::RotateAroundCenter => Multiview { camera_position: orbit_position, ..m },
        CameraControl::Manual => m,
    }
}

/// Toggling the projection changes the projection and nothing else: the camera keeps
/// its position and its control mode, so the next camera update and the next frame's
/// camera transform are the same as without the toggle.
pub proof fn lemma_projection_toggle_keeps_camera(m: Multiview, orbit_position: Vec3)
    ensures
        after_key(m, true, Key::O).camera_position == m.camera_position,
        after_key(m, true, Key::O).camera_control == m.camera_control,
        after_key(m, true, Key::O).perspective_projection != m.perspective_projection,
        projection_of(after_key(m, true, Key::O)) != projection_of(m),
        after_camera_update(after_key(m, true, Key::O), orbit_position).camera_position
            == after_camera_update(m, orbit_position).camera_position,
{
}

/// Two frames drawn with the same camera transform and everything else equal but the
/// projection: each view's commands differ at most in their projection.
pub proof fn lemma_projection_only_changes_projection(
    r1: Result<ViewDrawResult, ConfigurationError>,
    r2: Result<ViewDrawResult, ConfigurationError>,
    tile: crate::tiling::TileSpec,
    view_from_world: IsoTransform,
    camera_is_isometry: bool,
    p1: Projection,
    p2: Projection,
    pixels_from_point: Scalar,
    skybox: DrawData,
    content: DrawData,
    clear_color: Rgba,
)
    requires
        tile_view_matches(r1, tile, view_from_world, camera_is_isometry, p1, pixels_from_point, skybox, content, clear_color),
        tile_view_matches(r2, tile, view_from_world, camera_is_isometry, p2, pixels_from_point, skybox, content, clear_color),
    ensures
        r1 is Ok <==> r2 is Ok,
        r1 is Ok ==> {
            let (a, b) = (r1->Ok_0, r2->Ok_0);
            &&& a.command_buffer.view_from_world == b.command_buffer.view_from_world
            &&& a.command_buffer.target == b.command_buffer.target
            &&& a.command_buffer.draws@ == b.command_buffer.draws@
            &&& a.command_buffer.clear_color == b.command_buffer.clear_color
            &&& a.command_buffer.pixels_from_point == b.command_buffer.pixels_from_point
            &&& a.target_x == b.target_x && a.target_y == b.target_y
            &&& a.command_buffer.projection_from_view == p1
            &&& b.command_buffer.projection_from_view == p2
        },
        r1 is Err ==> r1 == r2,
{
}

impl Multiview {
    /// Starts with a perspective camera circling the center from the origin.
    pub fn new() -> (m: Multiview)
        ensures
            m.perspective_projection,
            m.camera_control == CameraControl::RotateAroundCenter,
            m.camera_position == (Vec3 { x: Scalar { bits: 0 }, y: Scalar { bits: 0 }, z: Scalar { bits: 0 } }),
    {
        Multiview {
            perspective_projection: true,
            camera_control: CameraControl::RotateAroundCenter,
            camera_position: Vec3 { x: Scalar::zero(), y: Scalar::zero(), z: Scalar::zero() },
        }
    }

    pub fn on_keyboard_input(&mut self, pressed: bool, key: Key)
        ensures
            *final(self) == after_key(*old(self), pressed, key),
    {
        if pressed {
            match key {
                Key::O => {
                    self.perspective_projection = !self.perspective_projection;
                },
                Key::Space => {
                    self.camera_control = match self.camera_control {
                        CameraControl::RotateAroundCenter => CameraControl::Manual,
                        CameraControl::Manual => CameraControl::RotateAroundCenter,
                    };
                },
                Key::Other => {},
            }
        }
    }

    pub fn update_camera(&mut self, orbit_position: Vec3)
        ensures
            *final(self) == after_camera_update(*old(self), orbit_position),
    {
        if self.camera_control == CameraControl::RotateAroundCenter {
            self.camera_position = orbit_position;
        }
    }

    pub fn projection(&self) -> (p: Projection)
        ensures
            p == projection_of(*self),
    {
        if self.perspective_projection {
            Projection::Perspective {
                vertical_fov: Scalar { bits: PERSPECTIVE_FOV_BITS },
                near_plane_distance: Scalar { bits: PERSPECTIVE_NEAR_BITS },
            }
        } else {
            Projection::Orthographic {
                camera_mode: OrthographicCameraMode::NearPlaneCenter,
                vertical_world_size: Scalar { bits: ORTHOGRAPHIC_HEIGHT_BITS },
                far_plane_distance: Scalar { bits: ORTHOGRAPHIC_FAR_BITS },
            }
        }
    }

    /// Draws the four packages into the four tiles of a 2x2 grid, in row-major order,
    /// each behind the skybox, on a transparent background, with the scene's projection.
    pub fn draw(
        &self,
        resolution: Extent,
        view_from_world: IsoTransform,
        camera_is_isometry: bool,
        pixels_from_point: Scalar,
        skybox: &DrawData,
        contents: &Vec<DrawData>,
    ) -> (views: Vec<Result<ViewDrawResult, ConfigurationError>>)
        requires
            contents@.len() == 4,
        ensures
            views@.len() == 4,
            forall|k: int| 0 <= k < 4 ==> tile_view_matches(
                #[trigger] views@[k],
                tile_at(resolution, 2, 2, k),
                view_from_world,
                camera_is_isometry,
                projection_of(*self),
                pixels_from_point,
                *skybox,
                contents@[k],
                Rgba::transparent_spec(),
            ),
    {
        draw_tiled_views(
            resolution,
            2,
            2,
            view_from_world,
            camera_is_isometry,
            self.projection(),
            pixels_from_point,
            skybox,
            contents,
            Rgba::transparent(),
        )
    }
}

pub open spec fn attractor_strip(first_vertex: int, vertex_count: int) -> LineStripInfo {
    LineStripInfo {
        batch: 0,
        first_vertex: first_vertex as usize,
        vertex_count: vertex_count as usize,
        color: Color32 { r: 255, g: 191, b: 0, a: 255 },
        radius: Size::Points(Scalar { bits: ATTRACTOR_RADIUS_BITS }),
        flags: 0,
    }
}

pub open spec fn arrow_strip(first_vertex: int) -> LineStripInfo {
    LineStripInfo {
        batch: 0,
        first_vertex: first_vertex as usize,
        vertex_count: 4,
        color: Color32 { r: 0, g: 255, b: 0, a: 255 },
        radius: Size::Scene(Scalar { bits: ARROW_RADIUS_BITS }),
        flags: CAP_END_TRIANGLE | CAP_START_ROUND,
    }
}

pub open spec fn spiral_strip(first_vertex: int, vertex_count: int) -> LineStripInfo {
    LineStripInfo {
        batch: 1,
        first_vertex: first_vertex as usize,
        vertex_count: vertex_count as usize,
        color: Color32 { r: 0, g: 0, b: 255, a: 255 },
        radius: Size::Scene(Scalar { bits: SPIRAL_RADIUS_BITS }),
        flags: CAP_END_TRIANGLE,
    }
}

pub open spec fn point(x: u32, y: u32, z: u32) -> Vec3 {
    Vec3 { x: Scalar { bits: x }, y: Scalar { bits: y }, z: Scalar { bits: z } }
}

/// The zig-zag arrow (0,-1,0), (1,0,0), (2,-1,0), (3,0,0).
pub open spec fn arrow_points() -> Seq<Vec3> {
    seq![
        point(0x0000_0000, 0xbf80_0000, 0x0000_0000),
        point(0x3f80_0000, 0x0000_0000, 0x0000_0000),
        point(0x4000_0000, 0xbf80_0000, 0x0000_0000),
        point(0x4040_0000, 0x0000_0000, 0x0000_0000),
    ]
}

fn vec3(x: u32, y: u32, z: u32) -> (v: Vec3)
    ensures
        v == point(x, y, z),
{
    Vec3 { x: Scalar { bits: x }, y: Scalar { bits: y }, z: Scalar { bits: z } }
}

pub fn zigzag_arrow_points() -> (v: Vec<Vec3>)
    ensures
        v@ == arrow_points(),
{
    let mut v: Vec<Vec3> = Vec::new();
    v.push(vec3(0x0000_0000, 0xbf80_0000, 0x0000_0000));
    v.push(vec3(0x3f80_0000, 0x0000_0000, 0x0000_0000));
    v.push(vec3(0x4000_0000, 0xbf80_0000, 0x0000_0000));
    v.push(vec3(0x4040_0000, 0x0000_0000, 0x0000_0000));
    proof {
        assert(v@ =~= arrow_points());
    }
    v
}

/// The line scene: a first batch, untransformed, with the orange attractor trajectory
/// and the green zig-zag arrow, and a second batch with the blue spiral under
/// `spiral_transform`.
pub fn build_lines(attractor: &Vec<Vec3>, spiral: &Vec<Vec3>, spiral_transform: Mat4) -> (r: Result<LineDrawData, BuildError>)
    ensures
        r is Ok,
        r->Ok_0.wf(),
        r->Ok_0.batches@.len() == 2,
        r->Ok_0.batches@[0].label@ == "lines without transform"@,
        r->Ok_0.batches@[0].world_from_obj == identity_mat4(),
        r->Ok_0.batches@[1].label@ == "blue spiral"@,
        r->Ok_0.batches@[1].world_from_obj == spiral_transform,
        r->Ok_0.vertices@ == attractor@ + arrow_points() + spiral@,
        r->Ok_0.strips@ == seq![
            attractor_strip(0, attractor@.len() as int),
            arrow_strip(attractor@.len() as int),
            spiral_strip(attractor@.len() as int + 4, spiral@.len() as int),
        ],
{
    let mut builder = LineStripSeriesBuilder::new();
    builder.batch("lines without transform".to_owned());
    builder.add_strip(attractor);
    builder.color(Color32::from_rgb(255, 191, 0));
    builder.radius(Size::new_points(Scalar { bits: ATTRACTOR_RADIUS_BITS }));
    let arrow = zigzag_arrow_points();
    builder.add_strip(&arrow);
    builder.color(Color32::from_rgb(0, 255, 0));
    builder.radius(Size::new_scene(Scalar { bits: ARROW_RADIUS_BITS }));
    builder.flags(CAP_END_TRIANGLE | CAP_START_ROUND);
    builder.batch("blue spiral".to_owned());
    builder.world_from_obj(spiral_transform);
    builder.add_strip(spiral);
    builder.color(Color32::from_rgb(0, 0, 255));
    builder.radius(Size::new_scene(Scalar { bits: SPIRAL_RADIUS_BITS }));
    builder.flags(CAP_END_TRIANGLE);
    proof {
        let strips = builder.strips@;
        assert(strips =~= seq![
            attractor_strip(0, attractor@.len() as int),
            arrow_strip(attractor@.len() as int),
            spiral_strip(attractor@.len() as int + 4, spiral@.len() as int),
        ]);
        assert(strips[0].batch == 0);
        assert(strips[2].batch == 1);
        assert(!some_batch_without_strip(strips, 2));
        assert(builder.batches@[0] == builder.batches@.drop_last()[0]);
    }
    builder.to_draw_data()
}

/// The point cloud scene: one batch, labelled "Random Points", holding the given
/// positions, radii and colors under `world_from_obj`. Fails when the three
/// channels differ in length, and when they are empty.
pub fn build_random_points(
    positions: &Vec<Vec3>,
    radii: &Vec<Size>,
    colors: &Vec<Color32>,
    world_from_obj: Mat4,
) -> (r: Result<PointCloudDrawData, BuildError>)
    ensures
        (r == Err::<PointCloudDrawData, BuildError>(BuildError::InconsistentLengths))
            <==> (radii@.len() != positions@.len() || colors@.len() != positions@.len()),
        (r == Err::<PointCloudDrawData, BuildError>(BuildError::EmptyBatch))
            <==> (radii@.len() == positions@.len() && colors@.len() == positions@.len() && positions@.len() == 0),
        r is Ok ==> {
            &&& r->Ok_0.wf()
            &&& r->Ok_0.batches@.len() == 1
            &&& r->Ok_0.batches@[0].label@ == "Random Points"@
            &&& r->Ok_0.batches@[0].world_from_obj == world_from_obj
            &&& r->Ok_0.positions@ == positions@
            &&& r->Ok_0.radii@ == radii@
            &&& r->Ok_0.colors@ == colors@
        },
{
    let mut builder = PointCloudBuilder::new();
    builder.batch("Random Points".to_owned());
    builder.world_from_obj(world_from_obj);
    builder.add_points(positions);
    builder.radii(radii);
    builder.colors(colors);
    proof {
        assert(builder.positions@ =~= positions@);
        assert(builder.radii@ =~= radii@);
        assert(builder.colors@ =~= colors@);
        assert(builder.batches@.len() == 1);
        let b = builder.batches@[0];
        assert(b == builder.batches@.last());
        if radii@.len() != positions@.len() || colors@.len() != positions@.len() {
            assert(!crate::point_cloud::batch_lengths_agree(builder.batches@[0]));
        }
        if positions@.len() == 0 {
            assert(builder.batches@[0].point_count == 0);
        }
    }
    builder.to_draw_data()
}

} // verus!
