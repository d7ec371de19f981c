use slint_demo::pixels::flip_rgb_horizontal;

#[test]
fn flip_mirrors_each_row() {
    // 3x2 image, pixels numbered row by row.
    let data: Vec<u8> = vec![
        1, 2, 3, 4, 5, 6, 7, 8, 9, //
        10, 11, 12, 13, 14, 15, 16, 17, 18,
    ];
    let flipped = flip_rgb_horizontal(&data, 3, 2);
    assert_eq!(
        flipped,
        vec![7, 8, 9, 4, 5, 6, 1, 2, 3, 16, 17, 18, 13, 14, 15, 10, 11, 12]
    );
}

#[test]
fn flip_twice_gives_back_the_image() {
    let data: Vec<u8> = (0..60).map(|v| v as u8).collect();
    let once = flip_rgb_horizontal(&data, 5, 4);
    assert_ne!(once, data);
    let twice = flip_rgb_horizontal(&once, 5, 4);
    assert_eq!(twice, data);
}

#[test]
fn flip_single_column_is_identity() {
    let data: Vec<u8> = vec![1, 2, 3, 4, 5, 6];
    assert_eq!(flip_rgb_horizontal(&data, 1, 2), data);
}

#[test]
fn flip_ignores_trailing_bytes() {
    let data: Vec<u8> = vec![1, 2, 3, 4, 5, 6, 99];
    assert_eq!(flip_rgb_horizontal(&data, 2, 1), vec![4, 5, 6, 1, 2, 3]);
}

#[test]
fn flip_empty_images() {
    assert!(flip_rgb_horizontal(&[], 0, 5).is_empty());
    assert!(flip_rgb_horizontal(&[1, 2, 3], 7, 0).is_empty());
}

#[test]
fn rows_are_mirrored_independently() {
    let a: Vec<u8> = (0..12).collect(); // 2 pixels wide, 2 rows
    let b: Vec<u8> = (100..112).collect(); // 2 more rows
    let whole = flip_rgb_horizontal(&[a.clone(), b.clone()].concat(), 2, 4);
    let parts = [flip_rgb_horizontal(&a, 2, 2), flip_rgb_horizontal(&b, 2, 2)].concat();
    assert_eq!(whole, parts);
}
