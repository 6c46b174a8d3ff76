use multiview_frame::compositor::{draw_tiled_views, draw_view};
use multiview_frame::draw_data::{DrawCall, DrawData, DrawDataKind, Pipeline};
use multiview_frame::multiview::{build_lines, build_random_points, zigzag_arrow_points, Key, Multiview, CameraControl};
use multiview_frame::tiling::{split_resolution, Extent};
use multiview_frame::types::{Color32, IsoTransform, Mat4, Quat, Rgba, Scalar, Size, Vec3};
use multiview_frame::view_builder::{ConfigurationError, Projection, TargetConfiguration, ViewBuilder};
use multiview_frame::draw_data::BuildError;

fn s(v: f32) -> Scalar {
    Scalar { bits: v.to_bits() }
}

fn v3(x: f32, y: f32, z: f32) -> Vec3 {
    Vec3 { x: s(x), y: s(y), z: s(z) }
}

fn camera() -> IsoTransform {
    IsoTransform { rotation: Quat { x: s(0.0), y: s(0.0), z: s(0.0), w: s(1.0) }, translation: v3(0.0, 0.0, -10.0) }
}

fn config(width: u32, height: u32) -> TargetConfiguration {
    TargetConfiguration {
        name: "view".to_owned(),
        resolution_in_pixel: Extent { width, height },
        view_from_world: camera(),
        projection_from_view: Projection::Perspective { vertical_fov: s(1.2), near_plane_distance: s(0.01) },
        pixels_from_point: s(1.0),
    }
}

fn call(kind: DrawDataKind, pipeline: Pipeline) -> DrawCall {
    DrawCall { kind, pipeline }
}

#[test]
fn draw_before_setup_is_a_configuration_error() {
    let mut vb = ViewBuilder::new();
    vb.queue_draw(&DrawData::Skybox);
    assert_eq!(vb.draw(Rgba::transparent()).err(), Some(ConfigurationError::NotConfigured));
}

#[test]
fn draw_after_failed_setup_is_a_configuration_error() {
    let mut vb = ViewBuilder::new();
    assert_eq!(vb.setup_view(config(0, 300), true), Err(ConfigurationError::ZeroResolution));
    assert_eq!(vb.draw(Rgba::transparent()).err(), Some(ConfigurationError::NotConfigured));
}

#[test]
fn setup_rejects_non_isometric_camera() {
    let mut vb = ViewBuilder::new();
    assert_eq!(vb.setup_view(config(400, 300), false), Err(ConfigurationError::NotAnIsometry));
    assert!(vb.setup.is_none());
}

#[test]
fn view_is_used_once() {
    let mut vb = ViewBuilder::new();
    assert_eq!(vb.setup_view(config(400, 300), true), Ok(()));
    assert_eq!(vb.setup_view(config(400, 300), true), Err(ConfigurationError::AlreadyUsed));
    assert!(vb.draw(Rgba::transparent()).is_ok());
    assert_eq!(vb.draw(Rgba::transparent()).err(), Some(ConfigurationError::AlreadyUsed));
}

#[test]
fn skybox_and_triangle_into_one_tile() {
    let tiles = split_resolution(Extent { width: 800, height: 600 }, 2, 2);
    assert_eq!(tiles.len(), 4);
    let (vb, cb) = draw_view(
        TargetConfiguration { resolution_in_pixel: tiles[0].resolution_in_pixel, ..config(1, 1) },
        true,
        &DrawData::Skybox,
        &DrawData::TestTriangle,
        Rgba::transparent(),
    )
    .ok()
    .unwrap();
    assert!(vb.recorded);
    assert_eq!(cb.target, Extent { width: 400, height: 300 });
    assert_eq!(cb.draw_call_count(), 2);
    assert_eq!(
        cb.draws,
        vec![
            call(DrawDataKind::Skybox, Pipeline::GenericSkybox),
            call(DrawDataKind::TestTriangle, Pipeline::TestTriangle)
        ]
    );
    assert_eq!(cb.view_from_world, camera());
}

#[test]
fn queued_order_is_draw_order() {
    let mut vb = ViewBuilder::new();
    vb.setup_view(config(10, 10), true).unwrap();
    vb.queue_draw(&DrawData::TestTriangle);
    vb.queue_draw(&DrawData::Skybox);
    let cb = vb.draw(Rgba::transparent()).ok().unwrap();
    assert_eq!(cb.draws[0].pipeline, Pipeline::TestTriangle);
    assert_eq!(cb.draws[1].pipeline, Pipeline::GenericSkybox);
}

fn scene_contents() -> Vec<DrawData> {
    let lines = build_lines(&vec![v3(0.0, 0.0, 0.0), v3(1.0, 1.0, 1.0)], &vec![v3(0.0, -6.0, 2.0)], Mat4::identity()).ok().unwrap();
    let points = build_random_points(
        &vec![v3(1.0, 2.0, 3.0)],
        &vec![Size::new_scene(s(0.01))],
        &vec![Color32::white()],
        Mat4::identity(),
    )
    .ok()
    .unwrap();
    vec![
        DrawData::TestTriangle,
        DrawData::Lines(lines),
        DrawData::Meshes(multiview_frame::mesh::MeshDrawData { instances: Vec::new() }),
        DrawData::PointCloud(points),
    ]
}

#[test]
fn tiled_views_draw_each_package_behind_skybox() {
    let contents = scene_contents();
    let views = draw_tiled_views(
        Extent { width: 801, height: 600 },
        2,
        2,
        camera(),
        true,
        Projection::Perspective { vertical_fov: s(1.2), near_plane_distance: s(0.01) },
        s(2.0),
        &DrawData::Skybox,
        &contents,
        Rgba::transparent(),
    );
    assert_eq!(views.len(), 4);
    let expected = [Pipeline::TestTriangle, Pipeline::LineRenderer, Pipeline::MeshRenderer, Pipeline::PointCloudRenderer];
    let places = [(0, 0, 400), (400, 0, 401), (0, 300, 400), (400, 300, 401)];
    for k in 0..4 {
        let v = views[k].as_ref().ok().unwrap();
        assert_eq!((v.target_x, v.target_y, v.command_buffer.target.width), places[k]);
        assert_eq!(v.command_buffer.draws[0].pipeline, Pipeline::GenericSkybox);
        assert_eq!(v.command_buffer.draws[1].pipeline, expected[k]);
        assert_eq!(v.command_buffer.pixels_from_point, s(2.0));
    }
    assert_eq!(views[1].as_ref().ok().unwrap().view_builder.setup.as_ref().unwrap().name, "lines");
}

#[test]
fn zero_sized_tile_fails_alone() {
    let contents = scene_contents();
    let views = draw_tiled_views(
        Extent { width: 1, height: 600 },
        2,
        2,
        camera(),
        true,
        Projection::Perspective { vertical_fov: s(1.2), near_plane_distance: s(0.01) },
        s(1.0),
        &DrawData::Skybox,
        &contents,
        Rgba::transparent(),
    );
    assert_eq!(views[0].as_ref().err(), Some(&ConfigurationError::ZeroResolution));
    assert!(views[1].is_ok());
    assert_eq!(views[2].as_ref().err(), Some(&ConfigurationError::ZeroResolution));
    assert!(views[3].is_ok());
}

#[test]
fn projection_toggle_keeps_camera() {
    let mut m = Multiview::new();
    m.update_camera(v3(0.0, 5.0, 10.0));
    let before = m.projection();
    let position = m.camera_position;
    m.on_keyboard_input(true, Key::O);
    assert!(!m.perspective_projection);
    assert_eq!(m.camera_position, position);
    assert_eq!(m.camera_control, CameraControl::RotateAroundCenter);
    assert_ne!(m.projection(), before);
    assert!(matches!(m.projection(), Projection::Orthographic { .. }));

    let contents = scene_contents();
    let a = Multiview { perspective_projection: true, ..m };
    let views_a = a.draw(Extent { width: 800, height: 600 }, camera(), true, s(1.0), &DrawData::Skybox, &contents);
    let views_b = m.draw(Extent { width: 800, height: 600 }, camera(), true, s(1.0), &DrawData::Skybox, &contents);
    for k in 0..4 {
        let ca = &views_a[k].as_ref().ok().unwrap().command_buffer;
        let cb = &views_b[k].as_ref().ok().unwrap().command_buffer;
        assert_eq!(ca.view_from_world, cb.view_from_world);
        assert_eq!(ca.draws, cb.draws);
        assert_eq!(ca.target, cb.target);
        assert_ne!(ca.projection_from_view, cb.projection_from_view);
    }
}

#[test]
fn key_release_and_other_keys_change_nothing() {
    let mut m = Multiview::new();
    let before = m;
    m.on_keyboard_input(false, Key::O);
    m.on_keyboard_input(true, Key::Other);
    assert_eq!(m, before);
}

#[test]
fn paused_camera_stays_put() {
    let mut m = Multiview::new();
    m.update_camera(v3(1.0, 2.0, 3.0));
    m.on_keyboard_input(true, Key::Space);
    assert_eq!(m.camera_control, CameraControl::Manual);
    m.update_camera(v3(9.0, 9.0, 9.0));
    assert_eq!(m.camera_position, v3(1.0, 2.0, 3.0));
    m.on_keyboard_input(true, Key::Space);
    m.update_camera(v3(9.0, 9.0, 9.0));
    assert_eq!(m.camera_position, v3(9.0, 9.0, 9.0));
}

#[test]
fn projection_constants() {
    let mut m = Multiview::new();
    assert_eq!(
        m.projection(),
        Projection::Perspective { vertical_fov: s(70.0 * std::f32::consts::TAU / 360.0), near_plane_distance: s(0.01) }
    );
    m.on_keyboard_input(true, Key::O);
    match m.projection() {
        Projection::Orthographic { vertical_world_size, far_plane_distance, .. } => {
            assert_eq!(vertical_world_size, s(15.0));
            assert_eq!(far_plane_distance, s(100000.0));
        }
        _ => panic!("expected an orthographic projection"),
    }
}

#[test]
fn line_scene_layout() {
    let attractor = vec![v3(0.0, 0.0, 0.0), v3(1.0, 1.0, 1.0), v3(2.0, 2.0, 2.0)];
    let spiral = vec![v3(0.0, -6.0, 2.0), v3(0.1, -5.9, 2.0)];
    let d = build_lines(&attractor, &spiral, Mat4::identity()).ok().unwrap();
    assert_eq!(d.batches.len(), 2);
    assert_eq!(d.batches[0].label, "lines without transform");
    assert_eq!(d.batches[1].label, "blue spiral");
    assert_eq!(d.vertex_count(), 3 + 4 + 2);
    assert_eq!(d.vertices[3..7].to_vec(), zigzag_arrow_points());
    assert_eq!(d.vertices[4], v3(1.0, 0.0, 0.0));
    assert_eq!(d.strips[0].color, Color32::from_rgb(255, 191, 0));
    assert_eq!(d.strips[0].radius, Size::new_points(s(1.0)));
    assert_eq!(d.strips[1].radius, Size::new_scene(s(0.05)));
    assert_eq!(d.strips[2].first_vertex, 7);
    assert_eq!(d.strips[2].radius, Size::new_scene(s(0.1)));
    assert_eq!(d.strips[2].color, Color32::from_rgb(0, 0, 255));
}

#[test]
fn random_points_scene_checks_lengths() {
    let positions = vec![v3(1.0, 2.0, 3.0), v3(-1.0, 0.5, 4.0)];
    let radii = vec![Size::new_scene(s(0.01)), Size::new_scene(s(0.02))];
    let colors = vec![Color32::white(), Color32::from_rgb(10, 20, 30)];
    let d = build_random_points(&positions, &radii, &colors, Mat4::identity()).ok().unwrap();
    assert_eq!(d.positions, positions);
    assert_eq!(d.batches[0].label, "Random Points");
    // The same inputs give the same package on every frame.
    let again = build_random_points(&positions, &radii, &colors, Mat4::identity()).ok().unwrap();
    assert_eq!(again.positions, d.positions);
    assert_eq!(again.radii, d.radii);
    assert_eq!(again.colors, d.colors);
    assert_eq!(
        build_random_points(&positions, &radii[..1].to_vec(), &colors, Mat4::identity()).err(),
        Some(BuildError::InconsistentLengths)
    );
    assert_eq!(
        build_random_points(&Vec::new(), &Vec::new(), &Vec::new(), Mat4::identity()).err(),
        Some(BuildError::EmptyBatch)
    );
}
