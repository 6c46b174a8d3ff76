//! One camera view: its configuration, the packages queued on it, and the command
//! buffer recorded from them.
use vstd::prelude::*;
use crate::draw_data::{DrawCall, DrawData, draw_call_for};
use crate::tiling::Extent;
use crate::types::{IsoTransform, Rgba, Scalar};

verus! {

/// Why a view could not be configured or recorded.
#[derive(Clone, Copy, Debug, PartialEq, Eq, Structural)]
pub enum ConfigurationError {
    /// The resolution is zero in at least one dimension.
    ZeroResolution,
    /// The camera transform is not a rigid transform.
    NotAnIsometry,
    /// `draw` was called on a view that was never successfully set up.
    NotConfigured,
    /// The view was already set up or already recorded; a new frame needs a new view.
    AlreadyUsed,
}

/// Where an orthographic camera sits relative to the visible volume.
#[derive(Clone, Copy, Debug, PartialEq, Eq, Structural)]
pub enum OrthographicCameraMode {
    /// The camera is at the center of the near plane.
    NearPlaneCenter,
    /// The camera is at the top left corner of the near plane, and depth extends both ways.
    TopLeftCornerAndExtendZ,
}

/// How view space is projected onto the target.
#[derive(Clone, Copy, Debug, PartialEq, Eq, Structural)]
pub enum Projection {
    /// Vertical field of view in radians and near plane distance; the far plane is at infinity.
    Perspective { vertical_fov: Scalar, near_plane_distance: Scalar },
    Orthographic {
        camera_mode: OrthographicCameraMode,
        vertical_world_size: Scalar,
        far_plane_distance: Scalar,
    },
}

/// Everything that configures one view.
pub struct TargetConfiguration {
    /// Used only for diagnostics.
    pub name: String,
    pub resolution_in_pixel: Extent,
    pub view_from_world: IsoTransform,
    pub projection_from_view: Projection,
    pub pixels_from_point: Scalar,
}

#[derive(Clone, Copy, Debug, PartialEq, Eq, Structural)]
pub enum ViewState {
    Unconfigured,
    Configured,
    Recorded,
}

/// The work of one view, recorded: the target is cleared, then every queued package
/// is drawn in the order it was queued.
pub struct CommandBuffer {
    pub target: Extent,
    pub pixels_from_point: Scalar,
    pub view_from_world: IsoTransform,
    pub projection_from_view: Projection,
    pub clear_color: Rgba,
    pub draws: Vec<DrawCall>,
}

impl CommandBuffer {
    pub fn draw_call_count(&self) -> (n: usize)
        ensures
            n == self.draws@.len(),
    {
        self.draws.len()
    }
}

/// Builds one view for one frame: set up, then queue packages, then draw once.
pub struct ViewBuilder {
    pub setup: Option<TargetConfiguration>,
    pub recorded: bool,
    pub queued: Vec<DrawCall>,
}

pub open spec fn resolution_is_zero(e: Extent) -> bool {
    e.width == 0 || e.height == 0
}

impl ViewBuilder {
    pub open spec fn state(&self) -> ViewState {
        if self.recorded {
            ViewState::Recorded
        } else if self.setup is Some {
            ViewState::Configured
        } else {
            ViewState::Unconfigured
        }
    }

    pub fn new() -> (v: ViewBuilder)
        ensures
            v.state() == ViewState::Unconfigured,
            v.queued@.len() == 0,
    {
        ViewBuilder { setup: None, recorded: false, queued: Vec::new() }
    }

    /// Configures the view. `camera_is_isometry` says whether
    /// `config.view_from_world` is a proper rigid transform, as the caller's
    /// arithmetic judged it. On failure the view is left as it was.
    pub fn setup_view(&mut self, config: TargetConfiguration, camera_is_isometry: bool) -> (r: Result<(), ConfigurationError>)
        ensures
            old(self).state() != ViewState::Unconfigured ==> r == Err::<(), ConfigurationError>(ConfigurationError::AlreadyUsed),
            old(self).state() == ViewState::Unconfigured && resolution_is_zero(config.resolution_in_pixel)
                ==> r == Err::<(), ConfigurationError>(ConfigurationError::ZeroResolution),
            old(self).state() == ViewState::Unconfigured && !resolution_is_zero(config.resolution_in_pixel) && !camera_is_isometry
                ==> r == Err::<(), ConfigurationError>(ConfigurationError::NotAnIsometry),
            r is Ok <==> (old(self).state() == ViewState::Unconfigured && !resolution_is_zero(config.resolution_in_pixel)
                && camera_is_isometry),
            r is Ok ==> final(self).setup == Some(config) && final(self).state() == ViewState::Configured,
            r is Err ==> final(self).setup == old(self).setup && final(self).state() == old(self).state(),
            final(self).recorded == old(self).recorded,
            final(self).queued@ == old(self).queued@,
    {
        if self.recorded || self.setup.is_some() {
            Err(ConfigurationError::AlreadyUsed)
        } else if config.resolution_in_pixel.width == 0 || config.resolution_in_pixel.height == 0 {
            Err(ConfigurationError::ZeroResolution)
        } else if !camera_is_isometry {
            Err(ConfigurationError::NotAnIsometry)
        } else {
            self.setup = Some(config);
            Ok(())
        }
    }

    /// Appends one package to the view's submission list.
    pub fn queue_draw(&mut self, draw_data: &DrawData)
        ensures
            final(self).queued@ == old(self).queued@.push(draw_call_for(*draw_data)),
            final(self).setup == old(self).setup,
            final(self).recorded == old(self).recorded,
    {
        let call = draw_data.draw_call();
        self.queued.push(call);
    }

    /// Records the view: clears the target to `clear_color`, then draws every queued
    /// package in submission order. Fails unless the view is set up and not yet recorded.
    pub fn draw(&mut self, clear_color: Rgba) -> (r: Result<CommandBuffer, ConfigurationError>)
        ensures
            old(self).state() == ViewState::Unconfigured ==> r == Err::<CommandBuffer, ConfigurationError>(ConfigurationError::NotConfigured),
            old(self).state() == ViewState::Recorded ==> r == Err::<CommandBuffer, ConfigurationError>(ConfigurationError::AlreadyUsed),
            r is Ok <==> old(self).state() == ViewState::Configured,
            r is Ok ==> {
                let cfg = old(self).setup->Some_0;
                let cb = r->Ok_0;
                &&& cb.target == cfg.resolution_in_pixel
                &&& cb.pixels_from_point == cfg.pixels_from_point
                &&& cb.view_from_world == cfg.view_from_world
                &&& cb.projection_from_view == cfg.projection_from_view
                &&& cb.clear_color == clear_color
                &&& cb.draws@ == old(self).queued@
                &&& final(self).state() == ViewState::Recorded
            },
            r is Err ==> final(self).state() == old(self).state(),
            final(self).setup == old(self).setup,
    {
        if self.recorded {
            return Err(ConfigurationError::AlreadyUsed);
        }
        match &self.setup {
            None => Err(ConfigurationError::NotConfigured),
            Some(cfg) => {
                let target = cfg.resolution_in_pixel;
                let pixels_from_point = cfg.pixels_from_point;
                let view_from_world = cfg.view_from_world;
                let projection_from_view = cfg.projection_from_view;
                let mut draws: Vec<DrawCall> = Vec::new();
                std::mem::swap(&mut draws, &mut self.queued);
                self.recorded = true;
                Ok(CommandBuffer { target, pixels_from_point, view_from_world, projection_from_view, clear_color, draws })
            },
        }
    }
}

} // verus!
