use critters_core::sprites::bleed_edge_colour;

#[test]
fn transparent_texels_next_to_the_edge_take_the_edge_colour() {
    // 4 × 1: opaque orange, then three transparent black texels
    let mut px = vec![200, 100, 50, 255, 0, 0, 0, 0, 0, 0, 0, 0, 0, 0, 0, 0];
    bleed_edge_colour(&mut px, 4, 1);
    assert_eq!(
        &px[4..8],
        &[200, 100, 50, 0],
        "first neighbour bleeds, alpha stays 0"
    );
    assert_eq!(
        &px[8..12],
        &[200, 100, 50, 0],
        "second pass reaches one texel further"
    );
    assert_eq!(
        &px[12..16],
        &[0, 0, 0, 0],
        "beyond the filter footprint is untouched"
    );
    assert_eq!(&px[0..4], &[200, 100, 50, 255]);
}

#[test]
fn bleeding_averages_filled_neighbours_in_two_dimensions() {
    // 3 × 2: red at (0,0), blue at (2,0), the rest empty
    let mut px = vec![0u8; 3 * 2 * 4];
    px[0..4].copy_from_slice(&[255, 0, 0, 255]);
    px[8..12].copy_from_slice(&[0, 0, 255, 255]);
    bleed_edge_colour(&mut px, 3, 2);
    // (1,0) averages red and blue
    assert_eq!(&px[4..8], &[127, 0, 127, 0]);
    // (0,1) sits under red only
    assert_eq!(&px[12..16], &[255, 0, 0, 0]);
    // (2,1) under blue
    assert_eq!(&px[20..24], &[0, 0, 255, 0]);
    // (1,1) is reached in the second pass: its neighbours are (1,0), (0,1), (2,1)
    assert_eq!(&px[16..20], &[127, 0, 127, 0]);
    // an empty image stays empty, and bytes past the image are left alone
    let mut e = vec![0u8; 8 + 3];
    e[9] = 9;
    bleed_edge_colour(&mut e, 2, 1);
    assert_eq!(e, vec![0, 0, 0, 0, 0, 0, 0, 0, 0, 9, 0]);
}

#[test]
fn a_clear_image_is_left_as_it_is() {
    let mut px = vec![0u8; 5 * 3 * 4];
    bleed_edge_colour(&mut px, 5, 3);
    assert!(px.iter().all(|&b| b == 0));
}

#[test]
fn colour_reaches_two_steps_and_no_further() {
    // 5 × 3, one opaque texel in the top-left corner
    let mut px = vec![0u8; 5 * 3 * 4];
    px[0..4].copy_from_slice(&[10, 20, 30, 255]);
    bleed_edge_colour(&mut px, 5, 3);
    let texel = |x: usize, y: usize| px[4 * (y * 5 + x)..4 * (y * 5 + x) + 4].to_vec();
    assert_eq!(texel(2, 0), vec![10, 20, 30, 0], "two steps right");
    assert_eq!(texel(1, 1), vec![10, 20, 30, 0], "one right, one down");
    assert_eq!(texel(3, 0), vec![0, 0, 0, 0], "three steps right");
    assert_eq!(texel(2, 1), vec![0, 0, 0, 0], "two right, one down");
    assert_eq!(texel(1, 2), vec![0, 0, 0, 0], "one right, two down");
}
