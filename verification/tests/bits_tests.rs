use tracer::bvh::NodeLink;
use tracer::pixel_buffer::{flip_row, pixel_index};
use tracer::ray::offset_coord_bits;

#[test]
fn bvh_test() {
    println!("Bvh node size {}", std::mem::size_of::<NodeLink>());
    let leaf = NodeLink::new(true, 2000000000, 0);
    assert!(leaf.is_leaf());
    assert_eq!(leaf.primitive(), 2000000000);
    assert_eq!(leaf.count(), 0);
}

#[test]
fn node_link_roundtrip() {
    let inner = NodeLink::new(false, 12, 13);
    assert!(!inner.is_leaf());
    assert_eq!(inner.left_child(), 12);
    assert_eq!(inner.right_child(), 13);
    let leaf = NodeLink::new(true, 12, 3);
    assert!(leaf.is_leaf());
    assert_eq!(leaf.primitive(), 12);
    assert_eq!(leaf.count(), 3);
}

#[test]
fn row_flip_is_an_involution() {
    let height = 768;
    for y in [0, 1, 383, 766, 767] {
        let flipped = flip_row(y, height);
        assert!(flipped < height);
        assert_eq!(flip_row(flipped, height), y);
    }
    assert_eq!(flip_row(0, height), 767);
}

#[test]
fn pixel_index_is_row_major() {
    assert_eq!(pixel_index(0, 0, 200, 300), 0);
    assert_eq!(pixel_index(5, 2, 200, 300), 405);
    assert_eq!(pixel_index(199, 299, 200, 300), 200 * 300 - 1);
}

#[test]
fn offset_steps_positive_coordinate_forward() {
    // Stepping the bit pattern of a positive float by a positive amount
    // moves the float strictly forward: the offset point cannot slip back
    // through the surface on that axis.
    for value in [112.0f32, 366.0, 885.0, 0.2, 1.5] {
        let bits = value.to_bits();
        let stepped = offset_coord_bits(bits, 256, false);
        assert_eq!(stepped, bits + 256);
        assert!(f32::from_bits(stepped) > value);
    }
}

#[test]
fn offset_steps_negative_coordinate_by_magnitude() {
    // For a negative coordinate the step is subtracted from the pattern,
    // which moves the value toward positive, mirroring the positive case.
    let value = -112.0f32;
    let bits = value.to_bits();
    let stepped = offset_coord_bits(bits, 256, true);
    assert_eq!(stepped, bits - 256);
    assert!(f32::from_bits(stepped) > value);
    let back = offset_coord_bits(bits, -256, true);
    assert_eq!(back, bits + 256);
    assert!(f32::from_bits(back) < value);
}
