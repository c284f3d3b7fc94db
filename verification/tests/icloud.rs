use quill::platform::Platform;
use quill::icloud::{
    container_folder_name, icloud_data_dir, icloud_placeholder_path, is_icloud_placeholder,
    mobile_documents_dir, placeholder_name, real_name_from_placeholder, ProbeSet,
};

#[test]
fn test_icloud_placeholder_path() {
    let placeholder = icloud_placeholder_path("/data/books/my-book_abc12345.epub").unwrap();
    assert_eq!(placeholder, "/data/books/.my-book_abc12345.epub.icloud");
}

#[test]
fn icloud_data_dir_is_the_deterministic_container_path() {
    assert_eq!(
        icloud_data_dir(Platform::MacOs, Some("/Users/me")).as_deref(),
        Some("/Users/me/Library/Mobile Documents/iCloud~com~wycstudios~quill/Documents")
    );
    assert_eq!(icloud_data_dir(Platform::MacOs, None), None);
    assert_eq!(icloud_data_dir(Platform::OtherUnix, Some("/home/me")), None);
    assert_eq!(icloud_data_dir(Platform::Windows, Some("C:/Users/me")), None);
    assert_eq!(mobile_documents_dir("/Users/me"), "/Users/me/Library/Mobile Documents");
    assert_eq!(container_folder_name("a.b.c"), "a~b~c");
}

#[test]
fn is_icloud_placeholder_pattern_matching() {
    assert!(is_icloud_placeholder(".foo.epub.icloud"));
    assert!(is_icloud_placeholder(".x.icloud"));
    assert!(!is_icloud_placeholder("foo.epub"));
    assert!(!is_icloud_placeholder(".dotfile"));
    assert!(!is_icloud_placeholder(".icloud.txt"));
}

#[test]
fn placeholder_names_round_trip() {
    let stub = placeholder_name("book.epub");
    assert_eq!(stub, ".book.epub.icloud");
    assert_eq!(real_name_from_placeholder(&stub).as_deref(), Some("book.epub"));
    assert_eq!(real_name_from_placeholder("book.epub"), None);
}

#[test]
fn placeholder_path_needs_a_file_name() {
    assert_eq!(icloud_placeholder_path("/"), None);
    assert_eq!(icloud_placeholder_path("book.epub").as_deref(), Some(".book.epub.icloud"));
}

#[test]
fn probes_are_single_flight_per_path() {
    let mut probes = ProbeSet::new();
    assert!(!probes.probe_in_flight("/a"));
    assert!(probes.try_mark_probe("/a"));
    assert!(probes.probe_in_flight("/a"));
    assert!(!probes.try_mark_probe("/a"));
    assert!(probes.try_mark_probe("/b"));
    probes.clear_probe("/a");
    assert!(!probes.probe_in_flight("/a"));
    assert!(probes.probe_in_flight("/b"));
    assert!(probes.try_mark_probe("/a"));
}
