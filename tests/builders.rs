use multiview_frame::draw_data::BuildError;
use multiview_frame::line_strips::{LineStripSeriesBuilder, CAP_END_TRIANGLE, CAP_START_ROUND};
use multiview_frame::mesh::{build_mesh_instances, GpuMeshHandle, MeshInstance};
use multiview_frame::point_cloud::PointCloudBuilder;
use multiview_frame::types::{Color32, Mat4, Scalar, Size, Vec3, ONE_BITS};

fn p(x: f32, y: f32, z: f32) -> Vec3 {
    Vec3 { x: Scalar { bits: x.to_bits() }, y: Scalar { bits: y.to_bits() }, z: Scalar { bits: z.to_bits() } }
}

fn size(v: f32) -> Size {
    Size::new_scene(Scalar { bits: v.to_bits() })
}

#[test]
fn point_cloud_with_matching_channels_freezes() {
    let mut b = PointCloudBuilder::new();
    b.batch("a".to_owned());
    b.add_points(&vec![p(0.0, 0.0, 0.0), p(1.0, 2.0, 3.0)]);
    b.radii(&vec![size(0.1), size(0.2)]);
    b.colors(&vec![Color32::white(), Color32::from_rgb(1, 2, 3)]);
    let d = b.to_draw_data().ok().unwrap();
    assert_eq!(d.point_count(), 2);
    assert_eq!(d.radii.len(), 2);
    assert_eq!(d.colors[1], Color32 { r: 1, g: 2, b: 3, a: 255 });
    assert_eq!(d.batches[0].label, "a");
}

#[test]
fn point_cloud_with_fewer_radii_is_rejected() {
    let mut b = PointCloudBuilder::new();
    b.batch("a".to_owned());
    b.add_points(&vec![p(0.0, 0.0, 0.0), p(1.0, 2.0, 3.0)]);
    b.radii(&vec![size(0.1)]);
    b.colors(&vec![Color32::white(), Color32::white()]);
    assert_eq!(b.to_draw_data().err(), Some(BuildError::InconsistentLengths));
}

#[test]
fn point_cloud_with_more_colors_is_rejected() {
    let mut b = PointCloudBuilder::new();
    b.batch("a".to_owned());
    b.add_points(&vec![p(0.0, 0.0, 0.0)]);
    b.radii(&vec![size(0.1)]);
    b.colors(&vec![Color32::white(), Color32::white()]);
    assert_eq!(b.to_draw_data().err(), Some(BuildError::InconsistentLengths));
}

#[test]
fn point_cloud_mismatch_in_one_of_two_batches_is_rejected() {
    let mut b = PointCloudBuilder::new();
    b.batch("a".to_owned());
    b.add_points(&vec![p(0.0, 0.0, 0.0)]);
    b.batch("b".to_owned());
    b.radii(&vec![size(0.1)]);
    b.add_points(&vec![p(0.0, 0.0, 0.0)]);
    b.colors(&vec![Color32::white()]);
    // The first batch has a point but neither a radius nor a color.
    assert_eq!(b.to_draw_data().err(), Some(BuildError::InconsistentLengths));
}

#[test]
fn point_cloud_empty_batch_is_rejected() {
    let mut b = PointCloudBuilder::new();
    b.batch("empty".to_owned());
    assert_eq!(b.to_draw_data().err(), Some(BuildError::EmptyBatch));
}

#[test]
fn point_cloud_without_batches_is_empty_draw_data() {
    let b = PointCloudBuilder::new();
    let d = b.to_draw_data().ok().unwrap();
    assert_eq!(d.point_count(), 0);
}

#[test]
fn line_builder_styles_last_strip() {
    let mut b = LineStripSeriesBuilder::new();
    b.batch("first".to_owned());
    b.add_strip(&vec![p(0.0, 0.0, 0.0), p(1.0, 0.0, 0.0)]);
    b.add_strip(&vec![p(0.0, 1.0, 0.0), p(1.0, 1.0, 0.0), p(2.0, 1.0, 0.0)]);
    b.color(Color32::from_rgb(0, 255, 0));
    b.radius(size(0.05));
    b.flags(CAP_END_TRIANGLE | CAP_START_ROUND);
    let d = b.to_draw_data().ok().unwrap();
    assert_eq!(d.vertex_count(), 5);
    assert_eq!(d.strips.len(), 2);
    assert_eq!(d.strips[0].color, Color32::white());
    assert_eq!(d.strips[0].radius, Size::Points(Scalar { bits: ONE_BITS }));
    assert_eq!(d.strips[0].flags, 0);
    assert_eq!(d.strips[1].first_vertex, 2);
    assert_eq!(d.strips[1].vertex_count, 3);
    assert_eq!(d.strips[1].color, Color32 { r: 0, g: 255, b: 0, a: 255 });
    assert_eq!(d.strips[1].radius, size(0.05));
    assert_eq!(d.strips[1].flags, 0b1001);
}

#[test]
fn line_batch_transform_and_membership() {
    let mut b = LineStripSeriesBuilder::new();
    b.batch("plain".to_owned());
    b.add_strip(&vec![p(0.0, 0.0, 0.0)]);
    b.batch("moved".to_owned());
    let mut m = Mat4::identity();
    m.w_axis.x = Scalar { bits: 5.0f32.to_bits() };
    b.world_from_obj(m);
    b.add_strip(&vec![p(1.0, 0.0, 0.0)]);
    let d = b.to_draw_data().ok().unwrap();
    assert_eq!(d.batches[0].world_from_obj, Mat4::identity());
    assert_eq!(d.batches[1].world_from_obj, m);
    assert_eq!(d.strips[0].batch, 0);
    assert_eq!(d.strips[1].batch, 1);
}

#[test]
fn line_batch_without_strip_is_rejected() {
    let mut b = LineStripSeriesBuilder::new();
    b.batch("full".to_owned());
    b.add_strip(&vec![p(0.0, 0.0, 0.0)]);
    b.batch("empty".to_owned());
    assert_eq!(b.to_draw_data().err(), Some(BuildError::EmptyBatch));
}

#[test]
fn mesh_instances_share_model_geometry() {
    let model = vec![
        MeshInstance { gpu_mesh: GpuMeshHandle { id: 7 }, world_from_mesh: Mat4::identity(), additive_tint: Color32::white() },
        MeshInstance { gpu_mesh: GpuMeshHandle { id: 9 }, world_from_mesh: Mat4::identity(), additive_tint: Color32::white() },
    ];
    let mut transforms = Vec::new();
    let mut tints = Vec::new();
    for i in 0..5u8 {
        let mut m = Mat4::identity();
        m.w_axis.y = Scalar { bits: (i as f32).to_bits() };
        transforms.push(m);
        tints.push(Color32::from_rgb(i, 0, 0));
    }
    let d = build_mesh_instances(&model, &transforms, &tints);
    // Five placements make two complete copies of the two-part model.
    assert_eq!(d.instances.len(), 4);
    let ids: Vec<u64> = d.instances.iter().map(|i| i.gpu_mesh.id).collect();
    assert_eq!(ids, vec![7, 9, 7, 9]);
    assert_eq!(d.instances[3].additive_tint, Color32::from_rgb(3, 0, 0));
    assert_eq!(d.instances[2].world_from_mesh, transforms[2]);
}
