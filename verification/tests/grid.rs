use pixel_history::grid::CanvasError;
use pixel_history::grid::Image;

#[test]
fn new_grid_has_background_cells() {
    let img = Image::new(2, 2);
    assert_eq!(img.width(), 2);
    assert_eq!(img.height(), 2);
    let expected: Vec<u8> = vec![
        200, 200, 255, 200, 200, 255, 200, 200, 255, 200, 200, 255,
    ];
    assert_eq!(img.cells(), expected);
}

#[test]
fn brush_same_color_is_no_change() {
    let img = Image::new(3, 2);
    assert!(img.brush(2, 1, vec![200, 200, 255]).is_none());
}

#[test]
fn brush_updates_only_the_target_cell() {
    let img = Image::new(3, 2);
    let edited = img.brush(1, 0, vec![1, 2, 3]).expect("the color differs");
    let bytes = edited.cells();
    assert_eq!(bytes.len(), 18);
    assert_eq!(&bytes[3..6], &[1, 2, 3]);
    for cell in 0..6 {
        if cell != 1 {
            assert_eq!(&bytes[cell * 3..cell * 3 + 3], &[200, 200, 255]);
        }
    }
    // The source grid is untouched: edits yield new values.
    assert_eq!(img.cells(), Image::new(3, 2).cells());
}

#[test]
fn brush_row_major_indexing() {
    let img = Image::new(2, 2);
    let edited = img.brush(0, 1, vec![9, 9, 9]).expect("the color differs");
    let bytes = edited.cells();
    // (x, y) = (0, 1) is cell 2 = y * width + x.
    assert_eq!(&bytes[6..9], &[9, 9, 9]);
    assert_eq!(&bytes[0..3], &[200, 200, 255]);
}

#[test]
fn clone_is_value_equal() {
    let img = Image::new(4, 3);
    let edited = img.brush(3, 2, vec![7, 8, 9]).expect("the color differs");
    let copy = edited.clone();
    assert_eq!(copy.cells(), edited.cells());
    assert_eq!(copy.width(), edited.width());
    assert_eq!(copy.height(), edited.height());
}

#[test]
fn zero_dimension_grid_is_rejected() {
    assert!(matches!(Image::try_new(0, 3), Err(CanvasError::InvalidDimension)));
    assert!(matches!(Image::try_new(3, 0), Err(CanvasError::InvalidDimension)));
    let img = Image::try_new(1, 1).expect("dimensions are valid");
    assert_eq!(img.cells(), vec![200, 200, 255]);
}

#[test]
fn out_of_range_pixel_is_rejected() {
    let img = Image::new(2, 2);
    assert!(matches!(
        img.try_brush(2, 0, vec![1, 1, 1]),
        Err(CanvasError::OutOfBounds)
    ));
    assert!(matches!(
        img.try_brush(0, 2, vec![1, 1, 1]),
        Err(CanvasError::OutOfBounds)
    ));
    let edited = img
        .try_brush(1, 1, vec![1, 1, 1])
        .expect("coordinates are in range")
        .expect("the color differs");
    assert_eq!(&edited.cells()[9..12], &[1, 1, 1]);
}

#[test]
fn repeated_edits_accumulate() {
    let img = Image::new(2, 1);
    let a = img.brush(0, 0, vec![1, 1, 1]).expect("the color differs");
    let b = a.brush(1, 0, vec![2, 2, 2]).expect("the color differs");
    assert_eq!(b.cells(), vec![1, 1, 1, 2, 2, 2]);
    // Painting a cell back does produce a change when it differs.
    let c = b.brush(0, 0, vec![200, 200, 255]).expect("the color differs");
    assert_eq!(c.cells(), vec![200, 200, 255, 2, 2, 2]);
}
