use azusa_lens::effects::{apply_blur, apply_mosaic};
use azusa_lens::pixels::{alpha_bounds, resize_rgba_nearest, restore_snapshot_pixel};

fn gradient(width: u8, height: u8) -> Vec<u8> {
    let mut pixels = Vec::new();
    for y in 0_u8..height {
        for x in 0_u8..width {
            pixels.extend_from_slice(&[x * 20, y * 20, 100, 255]);
        }
    }
    pixels
}

#[test]
fn mosaic_only_changes_selected_region() {
    let mut pixels = gradient(8, 8);
    let outside = pixels[0..4].to_vec();
    // The region from (2, 2) to (6, 6), one block of four pixels.
    apply_mosaic(&mut pixels, 8, 2, 2, 6, 6, 4);
    assert_eq!(&pixels[0..4], outside.as_slice());
    let first = ((2 * 8 + 2) * 4) as usize;
    let second = ((2 * 8 + 3) * 4) as usize;
    assert_eq!(&pixels[first..first + 4], &pixels[second..second + 4]);
}

#[test]
fn mosaic_blocks_hold_their_average() {
    let mut pixels = gradient(8, 8);
    let original = pixels.clone();
    apply_mosaic(&mut pixels, 8, 2, 2, 6, 6, 4);
    let first = ((2 * 8 + 2) * 4) as usize;
    assert_eq!(&pixels[first..first + 4], &[70, 70, 100, 255]);
    for y in 0..8_usize {
        for x in 0..8_usize {
            let index = (y * 8 + x) * 4;
            if !(2..6).contains(&x) || !(2..6).contains(&y) {
                assert_eq!(&pixels[index..index + 4], &original[index..index + 4]);
            }
        }
    }
}

#[test]
fn mosaic_blocks_are_cut_at_the_region_edge() {
    let mut pixels = gradient(8, 1);
    // Blocks of three over columns 1 to 5: columns 1..4 and 4..5.
    apply_mosaic(&mut pixels, 8, 1, 0, 5, 1, 3);
    assert_eq!(pixels[4], 40);
    assert_eq!(pixels[3 * 4], 40);
    assert_eq!(pixels[4 * 4], 80);
    assert_eq!(pixels[5 * 4], 100);
}

#[test]
fn blur_averages_the_window_around_each_pixel() {
    let mut pixels = vec![0, 0, 0, 255, 30, 0, 0, 255, 60, 0, 0, 255, 90, 0, 0, 255];
    apply_blur(&mut pixels, 4, 1, 0, 0, 4, 1, 1);
    let reds: Vec<u8> = pixels.chunks(4).map(|pixel| pixel[0]).collect();
    assert_eq!(reds, vec![15, 30, 60, 75]);
    assert!(pixels.chunks(4).all(|pixel| pixel[3] == 255));
}

#[test]
fn blur_runs_rows_then_columns() {
    // Two by two, radius one: every pixel becomes the average of all four.
    let mut pixels = vec![0, 0, 0, 0, 40, 0, 0, 0, 80, 0, 0, 0, 120, 0, 0, 0];
    apply_blur(&mut pixels, 2, 2, 0, 0, 2, 2, 1);
    let reds: Vec<u8> = pixels.chunks(4).map(|pixel| pixel[0]).collect();
    assert_eq!(reds, vec![60, 60, 60, 60]);
}

#[test]
fn blur_leaves_the_outside_alone() {
    let mut pixels = gradient(4, 4);
    let original = pixels.clone();
    apply_blur(&mut pixels, 4, 4, 1, 1, 3, 3, 2);
    for y in 0..4_usize {
        for x in 0..4_usize {
            let index = (y * 4 + x) * 4;
            if !(1..3).contains(&x) || !(1..3).contains(&y) {
                assert_eq!(&pixels[index..index + 4], &original[index..index + 4]);
            }
        }
    }
    // Inside, columns 1 and 2 average to 30 and rows 1 and 2 to 30.
    let inside = (4 + 1) * 4;
    assert_eq!(&pixels[inside..inside + 4], &[30, 30, 100, 255]);
}

#[test]
fn alpha_bounds_cover_every_marked_pixel() {
    let mut mask = vec![0_u8; 3 * 3 * 4];
    mask[(0 * 3 + 1) * 4] = 9;
    mask[(2 * 3 + 2) * 4] = 1;
    assert_eq!(alpha_bounds(&mask, 3), Some((1, 0, 3, 3)));
    assert_eq!(alpha_bounds(&vec![0_u8; 3 * 3 * 4], 3), None);
    // Only the first byte of a pixel marks it.
    let mut other = vec![0_u8; 3 * 3 * 4];
    other[(1 * 3 + 1) * 4 + 3] = 255;
    assert_eq!(alpha_bounds(&other, 3), None);
}

#[test]
fn snapshot_pixels_blend_by_coverage() {
    let snapshot = vec![250, 250, 250, 250];
    let mut pixels = vec![10, 20, 30, 40, 50, 60, 70, 80];
    restore_snapshot_pixel(&mut pixels, 2, 1, 0, &snapshot, 1, 1, 1, 0, 255);
    assert_eq!(pixels, vec![10, 20, 30, 40, 250, 250, 250, 250]);
    let mut pixels = vec![10, 20, 30, 40, 50, 60, 70, 80];
    restore_snapshot_pixel(&mut pixels, 2, 0, 0, &snapshot, 1, 1, 1, 0, 128);
    assert_eq!(&pixels[0..4], &[130, 135, 140, 145]);
    let mut pixels = vec![10, 20, 30, 40, 50, 60, 70, 80];
    restore_snapshot_pixel(&mut pixels, 2, 1, 0, &snapshot, 1, 1, 0, 0, 255);
    assert_eq!(pixels, vec![10, 20, 30, 40, 50, 60, 70, 80]);
}

#[test]
fn nearest_resize_repeats_and_drops_pixels() {
    let pixels = vec![1, 2, 3, 4, 5, 6, 7, 8];
    assert_eq!(
        resize_rgba_nearest(&pixels, 2, 1, 4, 1),
        vec![1, 2, 3, 4, 1, 2, 3, 4, 5, 6, 7, 8, 5, 6, 7, 8]
    );
    assert_eq!(resize_rgba_nearest(&pixels, 2, 1, 1, 1), vec![1, 2, 3, 4]);
    assert_eq!(resize_rgba_nearest(&pixels, 2, 1, 2, 1), pixels);
}

#[test]
fn flat_regions_survive_mosaic_and_blur() {
    let flat: Vec<u8> = [12_u8, 34, 56, 255].repeat(5 * 4);
    let mut pixels = flat.clone();
    apply_mosaic(&mut pixels, 5, 0, 0, 5, 4, 3);
    assert_eq!(pixels, flat);
    apply_blur(&mut pixels, 5, 4, 1, 0, 5, 4, 2);
    assert_eq!(pixels, flat);
}
