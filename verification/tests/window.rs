use quill::window::WindowValues;

#[test]
fn titlebar_zoom_is_window_scoped_and_removed_on_cleanup() {
    let mut zooms: WindowValues<f64> = WindowValues::new();
    zooms.set("main", 0.8);
    zooms.set("reader-book", 1.5);

    assert_eq!(zooms.get("main"), Some(0.8));
    assert_eq!(zooms.get("reader-book"), Some(1.5));

    zooms.remove("reader-book");
    assert_eq!(zooms.get("reader-book"), None);
    assert_eq!(zooms.get("main"), Some(0.8));

    zooms.remove("main");
    assert_eq!(zooms.get("main"), None);
}

#[test]
fn setting_a_window_again_replaces_its_value() {
    let mut zooms: WindowValues<u32> = WindowValues::new();
    zooms.set("main", 1);
    zooms.set("main", 2);
    assert_eq!(zooms.get("main"), Some(2));
    assert_eq!(zooms.remove("main"), Some(2));
    assert_eq!(zooms.remove("main"), None);
}
