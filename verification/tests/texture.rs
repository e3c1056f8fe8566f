use path_tracer::texture::Image;

#[test]
fn sample_reads_row_major_triples() {
    // 2 x 2 image: four pixels with distinct channel bytes.
    let data: Vec<u8> = vec![
        10, 11, 12, 20, 21, 22, // top row
        30, 31, 32, 40, 41, 42, // bottom row
    ];
    let img = Image::new(data, 2, 2);
    assert_eq!(img.sample(0, 0), (10, 11, 12));
    assert_eq!(img.sample(1, 0), (20, 21, 22));
    assert_eq!(img.sample(0, 1), (30, 31, 32));
    assert_eq!(img.sample(1, 1), (40, 41, 42));
}

#[test]
fn sample_clamps_out_of_range_indices() {
    let data: Vec<u8> = vec![
        10, 11, 12, 20, 21, 22, //
        30, 31, 32, 40, 41, 42,
    ];
    let img = Image::new(data, 2, 2);
    // A column or row past the edge reads the last column or row.
    assert_eq!(img.sample(7, 0), (20, 21, 22));
    assert_eq!(img.sample(0, 9), (30, 31, 32));
    assert_eq!(img.sample(1000, 1000), (40, 41, 42));
}

#[test]
fn one_pixel_image_always_samples_it() {
    let img = Image::new(vec![7, 8, 9], 1, 1);
    assert_eq!(img.sample(0, 0), (7, 8, 9));
    assert_eq!(img.sample(5, 3), (7, 8, 9));
}

#[test]
fn new_keeps_the_buffer_and_extent() {
    let img = Image::new(vec![1, 2, 3, 4, 5, 6], 2, 1);
    assert_eq!(img.nx, 2);
    assert_eq!(img.ny, 1);
    assert_eq!(img.data, vec![1, 2, 3, 4, 5, 6]);
}
