use termdef::geometry::{Position, Rect, Size};
use termdef::layout::{centered_rect, clamp, cut_middle, Direction};

#[test]
fn oversized_request_is_clamped_to_the_available_region() {
    let available = Rect::new(0, 0, 80, 24);
    let region = centered_rect(Size::new(82, 26), available);
    assert_eq!(region, Rect::new(0, 0, 80, 24));
}

#[test]
fn oversized_request_keeps_the_origin_of_an_offset_region() {
    let available = Rect::new(7, 3, 80, 24);
    let region = centered_rect(Size::new(82, 26), available);
    assert_eq!(region.x, available.x);
    assert_eq!(region.y, available.y);
    assert_eq!(region.width, 80);
    assert_eq!(region.height, 24);
}

#[test]
fn even_space_is_split_equally() {
    let region = centered_rect(Size::new(80, 24), Rect::new(0, 0, 100, 30));
    assert_eq!(region, Rect::new(10, 3, 80, 24));
}

#[test]
fn odd_space_gives_the_extra_cell_to_the_leading_side() {
    let region = centered_rect(Size::new(80, 24), Rect::new(0, 0, 101, 31));
    assert_eq!(region, Rect::new(11, 4, 80, 24));
}

#[test]
fn centred_region_is_offset_by_the_available_origin() {
    let region = centered_rect(Size::new(10, 4), Rect::new(5, 2, 20, 10));
    assert_eq!(region, Rect::new(10, 5, 10, 4));
}

#[test]
fn clamp_cuts_each_dimension_on_its_own() {
    let rect = Rect::new(0, 0, 80, 24);
    assert_eq!(clamp(Size::new(82, 26), rect), Size::new(80, 24));
    assert_eq!(clamp(Size::new(82, 10), rect), Size::new(80, 10));
    assert_eq!(clamp(Size::new(10, 26), rect), Size::new(10, 24));
    assert_eq!(clamp(Size::new(80, 24), rect), Size::new(80, 24));
    assert_eq!(clamp(Size::new(0, 0), rect), Size::new(0, 0));
}

#[test]
fn cut_middle_keeps_the_extent_across_the_direction() {
    let area = Rect::new(2, 3, 40, 20);
    let row = cut_middle(Direction::Vertical, 6, area);
    assert_eq!(row, Rect::new(2, 10, 40, 6));
    let column = cut_middle(Direction::Horizontal, 10, area);
    assert_eq!(column, Rect::new(17, 3, 10, 20));
}

#[test]
fn result_is_never_larger_than_the_available_region() {
    for width in [0u16, 1, 2, 7, 80, 81, 200] {
        for height in [0u16, 1, 3, 24, 25, 90] {
            for wanted in [0u16, 1, 5, 80, 82, 300] {
                let available = Rect::new(3, 4, width, height);
                let region = centered_rect(Size::new(wanted, wanted), available);
                assert!(region.width <= available.width);
                assert!(region.height <= available.height);
                assert_eq!(region.width, wanted.min(width));
                assert_eq!(region.height, wanted.min(height));
            }
        }
    }
}

#[test]
fn result_is_centred_within_one_cell() {
    for width in 0u16..24 {
        for height in [0u16, 1, 2, 9, 10, 11] {
            for wanted in [0u16, 1, 2, 3, 9, 10, 11, 50] {
                let available = Rect::new(6, 1, width, height);
                let region = centered_rect(Size::new(wanted, wanted), available);
                assert!(region.is_centered_in(available));
            }
        }
    }
}

#[test]
fn is_centered_in_tells_centred_from_off_centre() {
    let outer = Rect::new(0, 0, 10, 10);
    assert!(Rect::new(3, 3, 4, 4).is_centered_in(outer));
    assert!(Rect::new(3, 3, 5, 5).is_centered_in(outer));
    assert!(Rect::new(2, 2, 5, 5).is_centered_in(outer));
    assert!(!Rect::new(1, 3, 4, 4).is_centered_in(outer));
    assert!(!Rect::new(3, 0, 4, 4).is_centered_in(outer));
    assert!(!Rect::new(8, 8, 4, 4).is_centered_in(outer));
}

#[test]
fn contains_is_half_open() {
    let area = Rect::new(2, 3, 4, 5);
    assert!(area.contains(Position::new(2, 3)));
    assert!(area.contains(Position::new(5, 7)));
    assert!(!area.contains(Position::new(6, 7)));
    assert!(!area.contains(Position::new(5, 8)));
    assert!(!area.contains(Position::new(1, 3)));
    assert!(!area.contains(Position::new(2, 2)));
}

#[test]
fn empty_region_contains_nothing() {
    assert!(!Rect::new(2, 3, 0, 5).contains(Position::new(2, 3)));
    assert!(!Rect::new(2, 3, 4, 0).contains(Position::new(2, 3)));
}

#[test]
fn region_at_the_end_of_the_grid_contains_its_last_cell() {
    let area = Rect::new(65530, 65530, 10, 10);
    assert!(area.contains(Position::new(65535, 65535)));
    assert!(!area.contains(Position::new(65529, 65535)));
}

#[test]
fn middle_column_has_the_width_asked_for_and_sits_in_the_middle() {
    for start in [0u16, 9] {
        for extent in 0u16..=40 {
            for length in 0u16..=extent {
                let area = Rect::new(start, 2, extent, 5);
                let band = cut_middle(Direction::Horizontal, length, area);
                assert_eq!(band.width, length);
                assert_eq!((band.y, band.height), (2, 5));
                let before = band.x - area.x;
                let after = (area.x + area.width) - (band.x + band.width);
                assert!(before == after || before == after + 1);
            }
        }
    }
}

#[test]
fn middle_row_has_the_height_asked_for_and_sits_in_the_middle() {
    for start in [0u16, 1000] {
        for extent in 0u16..=40 {
            for length in 0u16..=extent {
                let area = Rect::new(3, start, 7, extent);
                let band = cut_middle(Direction::Vertical, length, area);
                assert_eq!(band.height, length);
                assert_eq!((band.x, band.width), (3, 7));
                let before = band.y - area.y;
                let after = (area.y + area.height) - (band.y + band.height);
                assert!(before == after || before == after + 1);
            }
        }
    }
}

#[test]
fn middle_band_without_room_stays_inside_the_area() {
    for extent in 0u16..=12 {
        for length in extent..=extent + 5 {
            let area = Rect::new(4, 6, extent, extent);
            let band = cut_middle(Direction::Horizontal, length, area);
            assert!(band.x >= area.x);
            assert!(band.x + band.width <= area.x + area.width);
            assert_eq!((band.y, band.height), (area.y, area.height));
            let band = cut_middle(Direction::Vertical, length, area);
            assert!(band.y >= area.y);
            assert!(band.y + band.height <= area.y + area.height);
            assert_eq!((band.x, band.width), (area.x, area.width));
        }
    }
}

#[test]
fn large_regions_are_centred_too() {
    let region = centered_rect(Size::new(80, 24), Rect::new(0, 0, 65535, 65535));
    assert_eq!(region.as_size(), Size::new(80, 24));
    assert!(region.is_centered_in(Rect::new(0, 0, 65535, 65535)));
    let region = centered_rect(Size::new(65535, 1), Rect::new(0, 0, 65535, 2));
    assert_eq!(region.as_size(), Size::new(65535, 1));
    assert_eq!(region.x, 0);
}

#[test]
fn region_past_the_end_of_the_grid_still_bounds_the_result() {
    let rect = Rect::new(65000, 65000, 1000, 1000);
    let region = centered_rect(Size::new(80, 24), rect);
    assert!(region.x >= rect.x && region.y >= rect.y);
    assert!(region.width <= rect.width && region.height <= rect.height);
    assert!(u32::from(region.x) + u32::from(region.width) <= 66000);
    assert!(u32::from(region.y) + u32::from(region.height) <= 66000);
}

#[test]
fn region_is_centred_along_the_direction_that_ends_on_the_grid() {
    let rect = Rect::new(0, 65000, 100, 1000);
    let region = centered_rect(Size::new(80, 24), rect);
    assert_eq!((region.x, region.width), (10, 80));
    let rect = Rect::new(65000, 0, 1000, 30);
    let region = centered_rect(Size::new(80, 24), rect);
    assert_eq!((region.y, region.height), (3, 24));
}
