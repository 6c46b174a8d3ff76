//! Immutable packages of GPU-ready geometry, one variant per primitive kind.
use vstd::prelude::*;
use crate::line_strips::LineDrawData;
use crate::mesh::MeshDrawData;
use crate::point_cloud::PointCloudDrawData;

verus! {

/// Why a builder could not be frozen into draw data.
#[derive(Clone, Copy, Debug, PartialEq, Eq, Structural)]
pub enum BuildError {
    /// A batch was opened but nothing was added to it.
    EmptyBatch,
    /// A batch holds a different number of entries in two of its attribute channels.
    InconsistentLengths,
}

/// One package of geometry, ready to be drawn by any number of views.
pub enum DrawData {
    Skybox,
    TestTriangle,
    Lines(LineDrawData),
    Meshes(MeshDrawData),
    PointCloud(PointCloudDrawData),
}

#[derive(Clone, Copy, Debug, PartialEq, Eq, Structural)]
pub enum DrawDataKind {
    Skybox,
    TestTriangle,
    Lines,
    Meshes,
    PointCloud,
}

/// The render pipeline that draws one kind of package.
#[derive(Clone, Copy, Debug, PartialEq, Eq, Structural)]
pub enum Pipeline {
    GenericSkybox,
    TestTriangle,
    LineRenderer,
    MeshRenderer,
    PointCloudRenderer,
}

/// One draw recorded for a view: what kind of package and through which pipeline.
#[derive(Clone, Copy, Debug, PartialEq, Eq, Structural)]
pub struct DrawCall {
    pub kind: DrawDataKind,
    pub pipeline: Pipeline,
}

pub open spec fn kind_of(d: DrawData) -> DrawDataKind {
    match d {
        DrawData::Skybox => DrawDataKind::Skybox,
        DrawData::TestTriangle => DrawDataKind::TestTriangle,
        DrawData::Lines(_) => DrawDataKind::Lines,
        DrawData::Meshes(_) => DrawDataKind::Meshes,
        DrawData::PointCloud(_) => DrawDataKind::PointCloud,
    }
}

/// The dispatch table from package kind to pipeline.
pub open spec fn pipeline_for(kind: DrawDataKind) -> Pipeline {
    match kind {
        DrawDataKind::Skybox => Pipeline::GenericSkybox,
        DrawDataKind::TestTriangle => Pipeline::TestTriangle,
        DrawDataKind::Lines => Pipeline::LineRenderer,
        DrawDataKind::Meshes => Pipeline::MeshRenderer,
        DrawDataKind::PointCloud => Pipeline::PointCloudRenderer,
    }
}

pub open spec fn draw_call_for(d: DrawData) -> DrawCall {
    DrawCall { kind: kind_of(d), pipeline: pipeline_for(kind_of(d)) }
}

impl DrawDataKind {
    pub fn pipeline(&self) -> (p: Pipeline)
        ensures
            p == pipeline_for(*self),
    {
        match self {
            DrawDataKind::Skybox => Pipeline::GenericSkybox,
            DrawDataKind::TestTriangle => Pipeline::TestTriangle,
            DrawDataKind::Lines => Pipeline::LineRenderer,
            DrawDataKind::Meshes => Pipeline::MeshRenderer,
            DrawDataKind::PointCloud => Pipeline::PointCloudRenderer,
        }
    }

    /// A short name for diagnostics.
    pub fn label(&self) -> (s: &'static str) {
        match self {
            DrawDataKind::Skybox => "skybox",
            DrawDataKind::TestTriangle => "triangle",
            DrawDataKind::Lines => "lines",
            DrawDataKind::Meshes => "meshes",
            DrawDataKind::PointCloud => "point_cloud",
        }
    }
}

impl DrawData {
    pub fn kind(&self) -> (k: DrawDataKind)
        ensures
            k == kind_of(*self),
    {
        match self {
            DrawData::Skybox => DrawDataKind::Skybox,
            DrawData::TestTriangle => DrawDataKind::TestTriangle,
            DrawData::Lines(_) => DrawDataKind::Lines,
            DrawData::Meshes(_) => DrawDataKind::Meshes,
            DrawData::PointCloud(_) => DrawDataKind::PointCloud,
        }
    }

    pub fn draw_call(&self) -> (c: DrawCall)
        ensures
            c == draw_call_for(*self),
    {
        let kind = self.kind();
        DrawCall { kind, pipeline: kind.pipeline() }
    }
}

} // verus!
