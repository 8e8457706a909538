use phi::data::{Error, NativeRect, Rectangle};
use phi::gfx::{Blit, Sprite};

fn rect(x: i64, y: i64, w: i64, h: i64) -> Rectangle {
    Rectangle { x, y, w, h }
}

#[test]
fn a_new_sprite_shows_the_whole_image() {
    let sprite = Sprite::new(3, 129, 117);
    assert_eq!(sprite.texture(), 3);
    assert_eq!(sprite.bounds(), rect(0, 0, 129, 117));
    assert_eq!(sprite.source(), rect(0, 0, 129, 117));
    assert_eq!(sprite.size(), (129, 117));
}

#[test]
fn a_region_is_cut_from_the_sheet() {
    let sheet = Sprite::new(0, 129, 117);
    let frame = sheet.region(rect(86, 39, 43, 39)).unwrap();
    assert_eq!(frame.texture(), 0);
    assert_eq!(frame.bounds(), rect(0, 0, 129, 117));
    assert_eq!(frame.source(), rect(86, 39, 43, 39));
    assert_eq!(frame.size(), (43, 39));
}

#[test]
fn a_sheet_splits_into_a_grid_of_regions() {
    let sheet = Sprite::new(7, 129, 117);
    let mut count = 0;
    for y in 0..3 {
        for x in 0..3 {
            let frame = sheet.region(rect(43 * x, 39 * y, 43, 39)).unwrap();
            assert_eq!(frame.source(), rect(43 * x, 39 * y, 43, 39));
            assert!(sheet.source().contains(frame.source()));
            count += 1;
        }
    }
    assert_eq!(count, 9);
}

#[test]
fn a_region_of_a_region_counts_from_the_inner_corner() {
    let sheet = Sprite::new(1, 100, 100);
    let half = sheet.region(rect(50, 20, 50, 60)).unwrap();
    let part = half.region(rect(10, 5, 40, 55)).unwrap();
    assert_eq!(part.source(), rect(60, 25, 40, 55));
    assert!(half.source().contains(part.source()));
    assert!(sheet.bounds().contains(part.source()));
    assert_eq!(part.bounds(), rect(0, 0, 100, 100));
}

#[test]
fn a_region_that_sticks_out_is_out_of_bounds() {
    let sheet = Sprite::new(1, 100, 100);
    assert_eq!(sheet.region(rect(60, 0, 41, 10)).err(), Some(Error::OutOfBounds));
    assert_eq!(sheet.region(rect(0, 60, 10, 41)).err(), Some(Error::OutOfBounds));
    assert_eq!(sheet.region(rect(-1, 0, 10, 10)).err(), Some(Error::OutOfBounds));
    assert_eq!(sheet.region(rect(0, -1, 10, 10)).err(), Some(Error::OutOfBounds));
    assert_eq!(sheet.region(rect(i64::MAX, i64::MAX, i64::MAX, 1)).err(), Some(Error::OutOfBounds));
}

#[test]
fn a_region_is_checked_against_the_region_it_is_cut_from() {
    let sheet = Sprite::new(1, 100, 100);
    let half = sheet.region(rect(50, 0, 50, 100)).unwrap();
    // Inside the image, but outside the half it is cut from.
    assert_eq!(half.region(rect(-10, 0, 20, 20)).err(), Some(Error::OutOfBounds));
    assert_eq!(half.region(rect(0, 0, 51, 20)).err(), Some(Error::OutOfBounds));
    assert!(half.region(rect(0, 0, 50, 100)).is_ok());
}

#[test]
fn an_empty_region_on_the_border_is_accepted() {
    let sheet = Sprite::new(1, 100, 100);
    let corner = sheet.region(rect(100, 100, 0, 0)).unwrap();
    assert_eq!(corner.source(), rect(100, 100, 0, 0));
}

#[test]
fn blit_scales_the_source_into_the_destination() {
    let sheet = Sprite::new(4, 129, 117);
    let frame = sheet.region(rect(43, 78, 43, 39)).unwrap();
    assert_eq!(
        frame.blit(rect(64, -10, 86, 78)),
        Ok(Blit {
            tex: 4,
            src: NativeRect { x: 43, y: 78, w: 43, h: 39 },
            dest: NativeRect { x: 64, y: -10, w: 86, h: 78 },
        })
    );
}

#[test]
fn blit_rejects_a_destination_outside_the_native_range() {
    let sprite = Sprite::new(4, 10, 10);
    assert_eq!(sprite.blit(rect(i32::MAX as i64, 0, 1, 1)), Err(Error::InvalidExtent));
    assert_eq!(sprite.blit(rect(0, i32::MIN as i64 - 1, 1, 1)), Err(Error::InvalidExtent));
}

#[test]
fn blit_rejects_a_source_outside_the_native_range() {
    let huge = Sprite::new(4, u32::MAX, 10);
    assert_eq!(huge.blit(rect(0, 0, 10, 10)), Err(Error::InvalidExtent));
    let part = huge.region(rect(0, 0, i32::MAX as i64, 10)).unwrap();
    assert!(part.blit(rect(0, 0, 10, 10)).is_ok());
}

#[test]
fn grid_cuts_the_sheet_row_by_row() {
    let sheet = Sprite::new(2, 129, 117);
    let cells = sheet.grid(3, 3, 43, 39).unwrap();
    assert_eq!(cells.len(), 9);
    for row in 0..3 {
        for col in 0..3 {
            let cell = cells[row * 3 + col];
            assert_eq!(cell.texture(), 2);
            assert_eq!(cell.bounds(), rect(0, 0, 129, 117));
            assert_eq!(cell.source(), rect(43 * col as i64, 39 * row as i64, 43, 39));
        }
    }
}

#[test]
fn grid_counts_from_the_corner_of_the_region() {
    let sheet = Sprite::new(2, 100, 100);
    let part = sheet.region(rect(10, 20, 60, 40)).unwrap();
    let cells = part.grid(2, 4, 30, 10).unwrap();
    assert_eq!(cells.len(), 8);
    assert_eq!(cells[0].source(), rect(10, 20, 30, 10));
    assert_eq!(cells[1].source(), rect(40, 20, 30, 10));
    assert_eq!(cells[2].source(), rect(10, 30, 30, 10));
    assert_eq!(cells[7].source(), rect(40, 50, 30, 10));
}

#[test]
fn grid_rejects_cells_that_do_not_fit() {
    let sheet = Sprite::new(2, 129, 117);
    assert_eq!(sheet.grid(3, 3, 44, 39).err(), Some(Error::OutOfBounds));
    assert_eq!(sheet.grid(3, 3, 43, 40).err(), Some(Error::OutOfBounds));
    assert_eq!(sheet.grid(4, 3, 43, 39).err(), Some(Error::OutOfBounds));
    assert_eq!(sheet.grid(3, 4, 43, 39).err(), Some(Error::OutOfBounds));
    assert_eq!(sheet.grid(u32::MAX, u32::MAX, u32::MAX, u32::MAX).err(), Some(Error::OutOfBounds));
    assert_eq!(sheet.grid(1, 1, 129, 117).map(|cells| cells.len()), Ok(1));
}

#[test]
fn a_grid_without_cells_is_empty() {
    let sheet = Sprite::new(2, 10, 10);
    assert_eq!(sheet.grid(0, 5, 1000, 1000).map(|cells| cells.len()), Ok(0));
    assert_eq!(sheet.grid(5, 0, 1000, 1000).map(|cells| cells.len()), Ok(0));
}

#[test]
fn a_grid_of_empty_cells_fits_anywhere() {
    let sheet = Sprite::new(2, 10, 10);
    let cells = sheet.grid(3, 2, 0, 5).unwrap();
    assert_eq!(cells.len(), 6);
    assert_eq!(cells[5].source(), rect(0, 5, 0, 5));
}

#[test]
fn a_region_with_a_negative_size_is_an_invalid_extent() {
    let sheet = Sprite::new(1, 100, 100);
    assert_eq!(sheet.region(rect(50, 50, -10, 10)).err(), Some(Error::InvalidExtent));
    assert_eq!(sheet.region(rect(50, 50, 10, -10)).err(), Some(Error::InvalidExtent));
    assert_eq!(sheet.region(rect(500, 500, -10, -10)).err(), Some(Error::InvalidExtent));
}

#[test]
fn blit_rejects_a_destination_with_a_negative_size() {
    let sprite = Sprite::new(4, 10, 10);
    assert_eq!(sprite.blit(rect(5, 5, -1, 1)), Err(Error::InvalidExtent));
    assert_eq!(sprite.blit(rect(5, 5, 1, -1)), Err(Error::InvalidExtent));
}
