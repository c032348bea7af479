use daleth::table::{sample_window, SampleWindow};

#[test]
fn windows_of_a_table() {
    assert_eq!(sample_window(0, 0), SampleWindow::Empty);
    assert_eq!(sample_window(0, 5), SampleWindow::Empty);
    assert_eq!(sample_window(1025, 0), SampleWindow::Between(0));
    assert_eq!(sample_window(1025, 512), SampleWindow::Between(512));
    assert_eq!(sample_window(1025, 1024), SampleWindow::Single(1024));
    assert_eq!(sample_window(1, 0), SampleWindow::Single(0));
}
