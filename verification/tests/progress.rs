use httpget::progress::{
    filled_cell_count, percent_complete, render_bar_cells, render_percent_field,
    render_progress_line, BAR_WIDTH, PERCENT_WIDTH,
};

#[test]
fn percent_is_the_rounded_down_share() {
    assert_eq!(percent_complete(0, 10), 0);
    assert_eq!(percent_complete(1, 3), 33);
    assert_eq!(percent_complete(2, 3), 66);
    assert_eq!(percent_complete(1, 1000), 0);
    assert_eq!(percent_complete(999, 1000), 99);
    assert_eq!(percent_complete(1024, 4096), 25);
    assert_eq!(percent_complete(199, 200), 99);
}

#[test]
fn percent_is_100_when_all_is_written() {
    assert_eq!(percent_complete(1, 1), 100);
    assert_eq!(percent_complete(4096, 4096), 100);
    assert_eq!(percent_complete(u64::MAX, u64::MAX), 100);
}

#[test]
fn percent_never_exceeds_100() {
    assert_eq!(percent_complete(5, 3), 100);
    assert_eq!(percent_complete(u64::MAX, 1), 100);
}

#[test]
fn percent_of_large_counts_does_not_overflow() {
    assert_eq!(percent_complete(u64::MAX - 1, u64::MAX), 99);
    assert_eq!(percent_complete(u64::MAX / 2, u64::MAX), 49);
}

#[test]
fn unknown_total_always_reports_zero() {
    assert_eq!(percent_complete(0, 0), 0);
    assert_eq!(percent_complete(1, 0), 0);
    assert_eq!(percent_complete(1024, 0), 0);
    assert_eq!(percent_complete(u64::MAX, 0), 0);
}

#[test]
fn one_cell_is_filled_for_every_five_percent() {
    assert_eq!(BAR_WIDTH, 20);
    assert_eq!(filled_cell_count(0), 0);
    assert_eq!(filled_cell_count(4), 0);
    assert_eq!(filled_cell_count(5), 1);
    assert_eq!(filled_cell_count(99), 19);
    assert_eq!(filled_cell_count(100), 20);
    assert_eq!(filled_cell_count(250), 20);
    assert_eq!(filled_cell_count(u32::MAX), 20);
}

#[test]
fn bar_is_always_twenty_cells() {
    assert_eq!(render_bar_cells(0), "                    ");
    assert_eq!(render_bar_cells(37), "=======             ");
    assert_eq!(render_bar_cells(100), "====================");
    for percent in 0..=120 {
        assert_eq!(render_bar_cells(percent).len(), 20);
    }
}

#[test]
fn percent_field_is_right_aligned_to_three() {
    assert_eq!(PERCENT_WIDTH, 3);
    assert_eq!(render_percent_field(0), "  0");
    assert_eq!(render_percent_field(7), "  7");
    assert_eq!(render_percent_field(10), " 10");
    assert_eq!(render_percent_field(99), " 99");
    assert_eq!(render_percent_field(100), "100");
    assert_eq!(render_percent_field(1234), "1234");
    assert_eq!(render_percent_field(u32::MAX), "4294967295");
    for percent in 0..=1000 {
        assert_eq!(render_percent_field(percent), format!("{:3}", percent));
    }
}

#[test]
fn progress_line_has_the_fixed_shape() {
    assert_eq!(render_progress_line(0), "Downloading: [                    ]   0%");
    assert_eq!(render_progress_line(5), "Downloading: [=                   ]   5%");
    assert_eq!(render_progress_line(50), "Downloading: [==========          ]  50%");
    assert_eq!(render_progress_line(99), "Downloading: [=================== ]  99%");
    assert_eq!(render_progress_line(100), "Downloading: [====================] 100%");
}
