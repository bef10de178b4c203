use tracer::img_sampling::{ImageSampler, Tile};
use tracer::pcg::PCGRng;

#[test]
fn sampler_row_major_visits_each_pixel_once() {
    let tile = Tile {
        startx: 2,
        starty: 1,
        endx: 5,
        endy: 3,
    };
    let mut sampler = ImageSampler::new(tile);
    let mut rng = PCGRng::new(0xf123456789012345, 0);
    let mut visited: Vec<(usize, usize)> = Vec::new();
    while let Some(s) = sampler.next(&mut rng) {
        assert!(s.xp < 0x1000000 && s.yp < 0x1000000);
        visited.push((s.x, s.y));
    }
    assert_eq!(
        visited,
        vec![(2, 1), (3, 1), (4, 1), (2, 2), (3, 2), (4, 2)]
    );
    assert!(sampler.next(&mut rng).is_none());
}

#[test]
fn sampler_jitter_is_the_generator_stream() {
    let tile = Tile {
        startx: 0,
        starty: 0,
        endx: 2,
        endy: 2,
    };
    let mut sampler = ImageSampler::new(tile);
    let mut rng = PCGRng::new(7, 13);
    let mut reference = PCGRng::new(7, 13);
    while let Some(s) = sampler.next(&mut rng) {
        assert_eq!(s.xp, reference.rnd_u32() >> 8);
        assert_eq!(s.yp, reference.rnd_u32() >> 8);
    }
}

#[test]
fn sampler_deterministic() {
    let tile = Tile {
        startx: 3,
        starty: 4,
        endx: 9,
        endy: 8,
    };
    let mut s1 = ImageSampler::new(tile);
    let mut s2 = ImageSampler::new(tile);
    let mut r1 = PCGRng::new(0xf123456789012345, 2000);
    let mut r2 = PCGRng::new(0xf123456789012345, 2000);
    loop {
        let a = s1.next(&mut r1);
        let b = s2.next(&mut r2);
        match (a, b) {
            (None, None) => break,
            (Some(x), Some(y)) => {
                assert_eq!((x.x, x.y, x.xp, x.yp), (y.x, y.y, y.xp, y.yp));
            }
            _ => panic!("samplers disagreed on length"),
        }
    }
}

#[test]
fn sampler_empty_tile_yields_nothing() {
    let tile = Tile {
        startx: 4,
        starty: 4,
        endx: 4,
        endy: 9,
    };
    let mut sampler = ImageSampler::new(tile);
    let mut rng = PCGRng::new(1, 1);
    assert!(sampler.next(&mut rng).is_none());
}
