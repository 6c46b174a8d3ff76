//! Drawing one view per tile of the output surface.
use vstd::prelude::*;
use crate::draw_data::{DrawData, draw_call_for};
use crate::tiling::{Extent, TileSpec, split_resolution, tile_at};
use crate::types::{IsoTransform, Rgba, Scalar};
use crate::view_builder::{
    CommandBuffer, ConfigurationError, Projection, TargetConfiguration, ViewBuilder, ViewState,
    resolution_is_zero,
};

verus! {

/// The output of one view: its builder, its recorded commands, and where its target
/// goes on the final surface.
pub struct ViewDrawResult {
    pub view_builder: ViewBuilder,
    pub command_buffer: CommandBuffer,
    pub target_x: u32,
    pub target_y: u32,
}

/// Sets up a view, queues the shared skybox and then `draw_data`, and records it.
pub fn draw_view(
    config: TargetConfiguration,
    camera_is_isometry: bool,
    skybox: &DrawData,
    draw_data: &DrawData,
    clear_color: Rgba,
) -> (r: Result<(ViewBuilder, CommandBuffer), ConfigurationError>)
    ensures
        resolution_is_zero(config.resolution_in_pixel)
            ==> r == Err::<(ViewBuilder, CommandBuffer), ConfigurationError>(ConfigurationError::ZeroResolution),
        !resolution_is_zero(config.resolution_in_pixel) && !camera_is_isometry
            ==> r == Err::<(ViewBuilder, CommandBuffer), ConfigurationError>(ConfigurationError::NotAnIsometry),
        r is Ok <==> (!resolution_is_zero(config.resolution_in_pixel) && camera_is_isometry),
        r is Ok ==> {
            let cb = r->Ok_0.1;
            &&& cb.target == config.resolution_in_pixel
            &&& cb.pixels_from_point == config.pixels_from_point
            &&& cb.view_from_world == config.view_from_world
            &&& cb.projection_from_view == config.projection_from_view
            &&& cb.clear_color == clear_color
            &&& cb.draws@ == seq![draw_call_for(*skybox), draw_call_for(*draw_data)]
            &&& r->Ok_0.0.state() == ViewState::Recorded
        },
{
    let mut view_builder = ViewBuilder::new();
    match view_builder.setup_view(config, camera_is_isometry) {
        Err(e) => Err(e),
        Ok(()) => {
            view_builder.queue_draw(skybox);
            view_builder.queue_draw(draw_data);
            proof {
                assert(view_builder.queued@ =~= seq![draw_call_for(*skybox), draw_call_for(*draw_data)]);
            }
            match view_builder.draw(clear_color) {
                Ok(command_buffer) => Ok((view_builder, command_buffer)),
                Err(e) => Err(e),
            }
        },
    }
}

/// What drawing the view of tile `k` must yield, given the shared inputs.
pub open spec fn tile_view_matches(
    r: Result<ViewDrawResult, ConfigurationError>,
    tile: TileSpec,
    view_from_world: IsoTransform,
    camera_is_isometry: bool,
    projection: Projection,
    pixels_from_point: Scalar,
    skybox: DrawData,
    content: DrawData,
    clear_color: Rgba,
) -> bool {
    &&& resolution_is_zero(tile.resolution_in_pixel)
        ==> r == Err::<ViewDrawResult, ConfigurationError>(ConfigurationError::ZeroResolution)
    &&& !resolution_is_zero(tile.resolution_in_pixel) && !camera_is_isometry
        ==> r == Err::<ViewDrawResult, ConfigurationError>(ConfigurationError::NotAnIsometry)
    &&& r is Ok <==> (!resolution_is_zero(tile.resolution_in_pixel) && camera_is_isometry)
    &&& r is Ok ==> {
        let v = r->Ok_0;
        let cb = v.command_buffer;
        &&& v.target_x == tile.x
        &&& v.target_y == tile.y
        &&& cb.target == tile.resolution_in_pixel
        &&& cb.pixels_from_point == pixels_from_point
        &&& cb.view_from_world == view_from_world
        &&& cb.projection_from_view == projection
        &&& cb.clear_color == clear_color
        &&& cb.draws@ == seq![draw_call_for(skybox), draw_call_for(content)]
        &&& v.view_builder.state() == ViewState::Recorded
    }
}

/// Splits `resolution` into `rows * cols` tiles and draws `contents[k]` behind the
/// shared skybox into tile `k`, every view with the same camera and projection. A
/// view that cannot be configured fails alone; the others are still drawn.
pub fn draw_tiled_views(
    resolution: Extent,
    rows: u32,
    cols: u32,
    view_from_world: IsoTransform,
    camera_is_isometry: bool,
    projection: Projection,
    pixels_from_point: Scalar,
    skybox: &DrawData,
    contents: &Vec<DrawData>,
    clear_color: Rgba,
) -> (views: Vec<Result<ViewDrawResult, ConfigurationError>>)
    requires
        rows >= 1,
        cols >= 1,
        contents@.len() == rows * cols,
    ensures
        views@.len() == rows * cols,
        forall|k: int| 0 <= k < rows * cols ==> tile_view_matches(
            #[trigger] views@[k],
            tile_at(resolution, rows as int, cols as int, k),
            view_from_world,
            camera_is_isometry,
            projection,
            pixels_from_point,
            *skybox,
            contents@[k],
            clear_color,
        ),
{
    let tiles = split_resolution(resolution, rows, cols);
    let mut views: Vec<Result<ViewDrawResult, ConfigurationError>> = Vec::new();
    let mut k: usize = 0;
    while k < tiles.len()
        invariant
            tiles@.len() == rows * cols,
            contents@.len() == rows * cols,
            forall|j: int| 0 <= j < rows * cols ==> tiles@[j] == tile_at(resolution, rows as int, cols as int, j),
            k <= tiles@.len(),
            views@.len() == k,
            forall|j: int| 0 <= j < k ==> tile_view_matches(
                #[trigger] views@[j],
                tile_at(resolution, rows as int, cols as int, j),
                view_from_world,
                camera_is_isometry,
                projection,
                pixels_from_point,
                *skybox,
                contents@[j],
                clear_color,
            ),
        decreases tiles@.len() - k,
    {
        let tile = tiles[k];
        let content = &contents[k];
        let name = content.kind().label().to_owned();
        let config = TargetConfiguration {
            name,
            resolution_in_pixel: tile.resolution_in_pixel,
            view_from_world,
            projection_from_view: projection,
            pixels_from_point,
        };
        let r = match draw_view(config, camera_is_isometry, skybox, content, clear_color) {
            Ok((view_builder, command_buffer)) => Ok(ViewDrawResult {
                view_builder,
                command_buffer,
                target_x: tile.x,
                target_y: tile.y,
            }),
            Err(e) => Err(e),
        };
        views.push(r);
        k = k + 1;
    }
    views
}

} // verus!
