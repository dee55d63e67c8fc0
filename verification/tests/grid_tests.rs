use caldash::dates::Date;
use caldash::grid::build_month_grid;

#[test]
fn march_2024_grid_has_five_leading_blanks() {
    // March 2024 starts on a Friday: five blank cells, then days 1 and 2.
    let grid = build_month_grid(&Date::new(2024, 3, 15).unwrap());
    assert_eq!(grid.len(), 6);
    for row in &grid {
        assert_eq!(row.len(), 7);
    }
    assert_eq!(grid[0], vec![0, 0, 0, 0, 0, 1, 2]);
    assert_eq!(grid[1], vec![3, 4, 5, 6, 7, 8, 9]);
    assert_eq!(grid[2], vec![10, 11, 12, 13, 14, 15, 16]);
    assert_eq!(grid[3], vec![17, 18, 19, 20, 21, 22, 23]);
    assert_eq!(grid[4], vec![24, 25, 26, 27, 28, 29, 30]);
    // Day 31 lands at the start of the last kept row, trailing blanks after.
    assert_eq!(grid[5], vec![31, 0, 0, 0, 0, 0, 0]);
}

#[test]
fn a_month_starting_on_sunday_has_no_leading_blanks() {
    // September 2024 starts on a Sunday.
    let grid = build_month_grid(&Date::new(2024, 9, 1).unwrap());
    assert_eq!(grid[0], vec![1, 2, 3, 4, 5, 6, 7]);
    assert_eq!(grid[4], vec![29, 30, 0, 0, 0, 0, 0]);
    // The fixed row count keeps a trailing all-blank week.
    assert_eq!(grid[5], vec![0, 0, 0, 0, 0, 0, 0]);
}

#[test]
fn february_of_a_common_year_fits_four_rows() {
    // February 2021 starts on a Monday and has 28 days.
    let grid = build_month_grid(&Date::new(2021, 2, 10).unwrap());
    assert_eq!(grid[0], vec![0, 1, 2, 3, 4, 5, 6]);
    assert_eq!(grid[3], vec![21, 22, 23, 24, 25, 26, 27]);
    assert_eq!(grid[4], vec![28, 0, 0, 0, 0, 0, 0]);
    assert_eq!(grid[5], vec![0, 0, 0, 0, 0, 0, 0]);
}
