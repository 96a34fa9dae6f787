use mini_alpha::display::{menu_footer_x, select_mapped_point, title_footer_x};

#[test]
fn title_footer_starts_at_a_quarter_of_the_width() {
    assert_eq!(title_footer_x(128), 32);
    assert_eq!(title_footer_x(64), 16);
    assert_eq!(title_footer_x(0), 0);
    assert_eq!(title_footer_x(3), 0);
    assert_eq!(title_footer_x(4), 1);
    assert_eq!(title_footer_x(255), 63);
    for w in 0..=255u8 {
        assert_eq!(title_footer_x(w), w as i32 / 4);
    }
}

#[test]
fn menu_footer_starts_at_a_third_of_the_width() {
    assert_eq!(menu_footer_x(128), 42);
    assert_eq!(menu_footer_x(64), 21);
    assert_eq!(menu_footer_x(0), 0);
    assert_eq!(menu_footer_x(2), 0);
    assert_eq!(menu_footer_x(3), 1);
    assert_eq!(menu_footer_x(255), 85);
    for w in 0..=255u8 {
        assert_eq!(menu_footer_x(w), w as i32 / 3);
    }
}

#[test]
fn columns_spread_over_the_record() {
    assert_eq!(select_mapped_point(0, 1000, 128), Some(0));
    assert_eq!(select_mapped_point(127, 1000, 128), Some(999));
    assert_eq!(select_mapped_point(64, 1000, 128), Some(503));
    assert_eq!(select_mapped_point(1, 1000, 128), Some(7));
    assert_eq!(select_mapped_point(5, 1, 128), Some(0));
    assert_eq!(select_mapped_point(1, 2, 2), Some(1));
    assert_eq!(select_mapped_point(200, 128, 128), Some(200));
}

#[test]
fn every_column_shows_a_point_of_the_record() {
    for len in [1usize, 2, 3, 127, 128, 129, 500, 1000] {
        for w in [2u8, 3, 64, 128, 255] {
            let mut before = 0;
            for line_n in 0..w as u32 {
                let i = select_mapped_point(line_n, len, w).unwrap();
                assert!(i < len);
                assert!(i >= before);
                before = i;
            }
            assert_eq!(select_mapped_point(w as u32 - 1, len, w), Some(len - 1));
        }
    }
}

#[test]
fn no_point_without_a_record_or_columns() {
    assert_eq!(select_mapped_point(0, 0, 128), None);
    assert_eq!(select_mapped_point(0, 10, 0), None);
    assert_eq!(select_mapped_point(0, 10, 1), None);
    assert_eq!(select_mapped_point(u32::MAX, usize::MAX, 2), None);
    assert_eq!(select_mapped_point(u32::MAX, 2, 2), Some(u32::MAX as usize));
}
