use tracer::img_sampling::Tile;
use tracer::renderer::create_tiles;

fn tile_contains(t: &Tile, x: usize, y: usize) -> bool {
    t.startx <= x && x < t.endx && t.starty <= y && y < t.endy
}

#[test]
fn tiles_clipped_grid() {
    let tiles = create_tiles(100, 70, 16);
    assert_eq!(tiles.len(), 7 * 5);
    let first = &tiles[0];
    assert_eq!(
        (first.startx, first.starty, first.endx, first.endy),
        (0, 0, 16, 16)
    );
    let last = &tiles[tiles.len() - 1];
    assert_eq!(
        (last.startx, last.starty, last.endx, last.endy),
        (96, 64, 100, 70)
    );
    for t in tiles.iter() {
        assert!(t.startx < t.endx && t.starty < t.endy);
        assert!(t.endx <= 100 && t.endy <= 70);
        assert!(t.endx - t.startx <= 16 && t.endy - t.starty <= 16);
    }
}

#[test]
fn tiles_exact_grid() {
    let tiles = create_tiles(32, 32, 16);
    assert_eq!(tiles.len(), 4);
    for t in tiles.iter() {
        assert_eq!(t.endx - t.startx, 16);
        assert_eq!(t.endy - t.starty, 16);
    }
    // row-major order
    assert_eq!((tiles[0].startx, tiles[0].starty), (0, 0));
    assert_eq!((tiles[1].startx, tiles[1].starty), (16, 0));
    assert_eq!((tiles[2].startx, tiles[2].starty), (0, 16));
    assert_eq!((tiles[3].startx, tiles[3].starty), (16, 16));
}

#[test]
fn tiles_cover_every_pixel_once() {
    let tiles = create_tiles(37, 23, 16);
    for y in 0..23 {
        for x in 0..37 {
            let mut owners = 0;
            for t in tiles.iter() {
                if tile_contains(t, x, y) {
                    owners += 1;
                }
            }
            assert_eq!(owners, 1);
        }
    }
}

#[test]
fn tiles_empty_image() {
    assert_eq!(create_tiles(0, 50, 16).len(), 0);
    assert_eq!(create_tiles(50, 0, 16).len(), 0);
}
