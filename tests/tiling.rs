use multiview_frame::tiling::{split_resolution, Extent, TileSpec};

fn covers_exactly(surface: Extent, tiles: &[TileSpec]) -> bool {
    for py in 0..surface.height {
        for px in 0..surface.width {
            let hits = tiles
                .iter()
                .filter(|t| {
                    t.x <= px
                        && px < t.x + t.resolution_in_pixel.width
                        && t.y <= py
                        && py < t.y + t.resolution_in_pixel.height
                })
                .count();
            if hits != 1 {
                return false;
            }
        }
    }
    tiles.iter().all(|t| {
        t.x + t.resolution_in_pixel.width <= surface.width
            && t.y + t.resolution_in_pixel.height <= surface.height
    })
}

#[test]
fn split_800_by_600_into_two_by_two() {
    let tiles = split_resolution(Extent { width: 800, height: 600 }, 2, 2);
    assert_eq!(tiles.len(), 4);
    for t in &tiles {
        assert_eq!(t.resolution_in_pixel, Extent { width: 400, height: 300 });
    }
    assert_eq!((tiles[0].x, tiles[0].y), (0, 0));
    assert_eq!((tiles[1].x, tiles[1].y), (400, 0));
    assert_eq!((tiles[2].x, tiles[2].y), (0, 300));
    assert_eq!((tiles[3].x, tiles[3].y), (400, 300));
}

#[test]
fn remainder_goes_to_last_row_and_column() {
    let tiles = split_resolution(Extent { width: 10, height: 7 }, 2, 3);
    assert_eq!(tiles.len(), 6);
    assert_eq!(tiles[0], TileSpec { x: 0, y: 0, resolution_in_pixel: Extent { width: 3, height: 3 } });
    assert_eq!(tiles[2], TileSpec { x: 6, y: 0, resolution_in_pixel: Extent { width: 4, height: 3 } });
    assert_eq!(tiles[5], TileSpec { x: 6, y: 3, resolution_in_pixel: Extent { width: 4, height: 4 } });
}

#[test]
fn tiles_cover_surface_without_overlap() {
    for &(w, h) in &[(1u32, 1u32), (7, 5), (13, 9), (16, 16), (3, 11)] {
        for rows in 1..5u32 {
            for cols in 1..5u32 {
                let surface = Extent { width: w, height: h };
                let tiles = split_resolution(surface, rows, cols);
                assert_eq!(tiles.len(), (rows * cols) as usize);
                assert!(covers_exactly(surface, &tiles), "{w}x{h} into {rows}x{cols}");
            }
        }
    }
}

#[test]
fn more_columns_than_pixels() {
    let tiles = split_resolution(Extent { width: 2, height: 1 }, 1, 4);
    assert_eq!(tiles.len(), 4);
    for t in &tiles[..3] {
        assert_eq!(t.resolution_in_pixel.width, 0);
    }
    assert_eq!(tiles[3], TileSpec { x: 0, y: 0, resolution_in_pixel: Extent { width: 2, height: 1 } });
}

#[test]
fn single_tile_is_whole_surface() {
    let tiles = split_resolution(Extent { width: 640, height: 480 }, 1, 1);
    assert_eq!(tiles, vec![TileSpec { x: 0, y: 0, resolution_in_pixel: Extent { width: 640, height: 480 } }]);
}

#[test]
fn empty_surface_gives_empty_tiles() {
    let tiles = split_resolution(Extent { width: 0, height: 0 }, 2, 2);
    assert_eq!(tiles.len(), 4);
    assert!(tiles.iter().all(|t| t.resolution_in_pixel == Extent { width: 0, height: 0 }));
}
