use tracer::pcg::PCGRng;

fn rnd_f32(rng: &mut PCGRng) -> f32 {
    let val = f32::from_bits(0x33800000); // 2^-24
    (rng.rnd_u32() >> 8) as f32 * val
}

#[test]
fn pcg_test() {
    let mut rng = PCGRng::new(0xf123456789012345, 0);
    for _i in 0..20 {
        println!("rnd: {}", rnd_f32(&mut rng));
    }
}

#[test]
fn pcg_known_values() {
    let mut rng = PCGRng::new(0xf123456789012345, 0);
    assert_eq!(rng.rnd_u32(), 0x91bc97ac);
    assert_eq!(rng.rnd_u32(), 0x41b4fb00);
    assert_eq!(rng.rnd_u32(), 0x9e0fafe8);
    assert_eq!(rng.rnd_u32(), 0x5eb48b4a);
    assert_eq!(rng.rnd_u32(), 0xc763607c);
}

#[test]
fn pcg_deterministic_across_runs() {
    let mut a = PCGRng::new(0xf123456789012345, 0);
    let mut b = PCGRng::new(0xf123456789012345, 0);
    for _i in 0..20 {
        let fa = rnd_f32(&mut a);
        let fb = rnd_f32(&mut b);
        assert_eq!(fa.to_bits(), fb.to_bits());
        assert!(fa >= 0.0 && fa < 1.0);
    }
}

#[test]
fn pcg_streams_differ() {
    let mut a = PCGRng::new(0xf123456789012345, 0);
    let mut b = PCGRng::new(0xf123456789012345, 1000);
    let mut all_equal = true;
    for _i in 0..20 {
        if a.rnd_u32() != b.rnd_u32() {
            all_equal = false;
        }
    }
    assert!(!all_equal);
}
