use slowscan::sstv::{window_plan, window_starts, SSTVMode};

#[test]
fn mode_name() {
    assert_eq!(SSTVMode::MartinM1.to_string(), "Martin M1");
}

#[test]
fn window_plan_for_default_size() {
    assert_eq!(window_plan(1024), (256, 512));
    assert_eq!(window_plan(7), (1, 5));
    assert_eq!(window_plan(1), (0, 1));
}

#[test]
fn window_starts_step_by_stride() {
    assert_eq!(window_starts(3000, 1024), vec![0, 512, 1024, 1536]);
    assert_eq!(window_starts(1024, 1024), vec![0]);
    assert_eq!(window_starts(1023, 1024), Vec::<usize>::new());
    assert_eq!(window_starts(0, 4), Vec::<usize>::new());
    assert_eq!(window_starts(10, 4), vec![0, 2, 4, 6]);
}

#[test]
fn trimmed_centres_tile() {
    let n = 1024;
    let (trim, _) = window_plan(n);
    let starts = window_starts(5000, n);
    for pair in starts.windows(2) {
        assert_eq!(pair[0] + n - trim, pair[1] + trim);
    }
}
