use triforces::texture::{
    flip_vertical, load_from_memory, power_of_two, rgba_from_bytes, Rgba, TexImage2D,
};

// A 2x2 RGBA image: top row red, green; bottom row blue, white.
const PNG_2X2: [u8; 75] = [
    137, 80, 78, 71, 13, 10, 26, 10, 0, 0, 0, 13, 73, 72, 68, 82, 0, 0, 0, 2, 0, 0, 0, 2, 8, 6, 0,
    0, 0, 114, 182, 13, 36, 0, 0, 0, 18, 73, 68, 65, 84, 120, 156, 99, 248, 207, 192, 240, 31, 12,
    129, 52, 24, 0, 0, 73, 200, 9, 247, 249, 171, 182, 13, 0, 0, 0, 0, 73, 69, 78, 68, 174, 66,
    96, 130,
];

#[test]
fn blank_image_is_opaque_black() {
    let img = TexImage2D::new(3, 2);
    assert_eq!(img.width, 3);
    assert_eq!(img.height, 2);
    assert_eq!(img.depth, 4);
    assert_eq!(img.data.len(), 6);
    for texel in &img.data {
        assert_eq!(*texel, Rgba::new(0, 0, 0, 255));
    }
}

#[test]
fn flip_reverses_row_order_exactly() {
    // One texel per row, three rows.
    let data: Vec<u8> = vec![
        1, 2, 3, 4, // row 0
        5, 6, 7, 8, // row 1
        9, 10, 11, 12, // row 2
    ];
    let flipped = flip_vertical(&data, 1, 3);
    assert_eq!(flipped, vec![9, 10, 11, 12, 5, 6, 7, 8, 1, 2, 3, 4]);
}

#[test]
fn flip_twice_is_the_identity() {
    let data: Vec<u8> = (0..24).collect();
    let once = flip_vertical(&data, 2, 3);
    let twice = flip_vertical(&once, 2, 3);
    assert_eq!(twice, data);
}

#[test]
fn bytes_group_into_texels_in_order() {
    let bytes: Vec<u8> = vec![1, 2, 3, 4, 5, 6, 7, 8];
    let texels = rgba_from_bytes(&bytes);
    assert_eq!(texels.len(), 2);
    assert_eq!(texels[0], Rgba::new(1, 2, 3, 4));
    assert_eq!(texels[1], Rgba::new(5, 6, 7, 8));
}

#[test]
fn to_bytes_flattens_texels_back() {
    let bytes: Vec<u8> = vec![1, 2, 3, 4, 5, 6, 7, 8];
    let img = TexImage2D {
        width: 2,
        height: 1,
        depth: 4,
        data: rgba_from_bytes(&bytes),
    };
    assert_eq!(img.to_bytes(), bytes);
}

#[test]
fn power_of_two_matches_exact_values() {
    assert!(!power_of_two(0));
    assert!(power_of_two(1));
    assert!(power_of_two(2));
    assert!(!power_of_two(3));
    assert!(power_of_two(64));
    assert!(!power_of_two(65));
    assert!(power_of_two(1024));
    assert!(!power_of_two(1000));
}

#[test]
fn decoded_image_comes_out_flipped() {
    let (img, warn) = load_from_memory(&PNG_2X2).expect("the buffer is a valid image");
    assert_eq!(img.width, 2);
    assert_eq!(img.height, 2);
    assert_eq!(img.depth, 4);
    assert_eq!(img.data.len(), 4);
    // The file's bottom row (blue, white) must come first after the flip.
    assert_eq!(img.data[0], Rgba::new(0, 0, 255, 255));
    assert_eq!(img.data[1], Rgba::new(255, 255, 255, 255));
    assert_eq!(img.data[2], Rgba::new(255, 0, 0, 255));
    assert_eq!(img.data[3], Rgba::new(0, 255, 0, 255));
    // Both dimensions are powers of two, so no advisory.
    assert!(!warn);
}

#[test]
fn garbage_does_not_decode() {
    let garbage: Vec<u8> = vec![0, 1, 2, 3, 4, 5, 6, 7];
    let r = load_from_memory(&garbage);
    assert!(r.is_err());
}
