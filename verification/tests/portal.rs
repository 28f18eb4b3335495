use cosmic_connect::portal::{decode_path, keep_nonempty, path_of, pick_files, pick_folder, FileFilter};

fn paths(list: &[&str]) -> Vec<String> {
    list.iter().map(|s| s.to_string()).collect()
}

#[test]
fn percent_sequences_are_decoded() {
    assert_eq!(decode_path("/home/ada/My%20Files/a%3Fb.txt"), "/home/ada/My Files/a?b.txt");
    assert_eq!(decode_path("/caf%C3%A9"), "/café");
    assert_eq!(decode_path("/plain"), "/plain");
    assert_eq!(decode_path("/100%"), "/100%");
    assert_eq!(decode_path("/a%zzb"), "/a%zzb");
    assert_eq!(decode_path(""), "");
}

#[test]
fn paths_that_are_not_utf8_decode_to_nothing() {
    assert_eq!(decode_path("/bad%FF"), "");
    assert_eq!(decode_path("%C3"), "");
}

#[test]
fn path_of_a_failed_decoding_is_empty() {
    assert_eq!(path_of(None), "");
    assert_eq!(path_of(Some("/a".to_string())), "/a");
}

#[test]
fn empty_paths_are_dropped() {
    assert_eq!(keep_nonempty(paths(&["", "/a", "", "/b", ""])), paths(&["/a", "/b"]));
    assert!(keep_nonempty(paths(&["", ""])).is_empty());
    assert!(keep_nonempty(Vec::new()).is_empty());
}

#[test]
fn picked_files_are_decoded_and_filtered() {
    assert_eq!(
        pick_files(&paths(&["/a%20b", "/bad%FF", "", "/c"])),
        paths(&["/a b", "/c"])
    );
    assert!(pick_files(&Vec::new()).is_empty());
}

#[test]
fn picked_folder_is_the_first_path() {
    assert_eq!(pick_folder(&paths(&["/my%20dir", "/other"])), Some("/my dir".to_string()));
    assert_eq!(pick_folder(&paths(&["/bad%FF", "/other"])), None);
    assert_eq!(pick_folder(&paths(&[""])), None);
    assert_eq!(pick_folder(&Vec::new()), None);
}

#[test]
fn file_filter_builder() {
    let filter = FileFilter::new("Images");
    assert_eq!(filter.name, "Images");
    assert!(filter.patterns.is_empty());
    let filter = filter.pattern("*.png").pattern("*.jpg");
    assert_eq!(filter.patterns, paths(&["*.png", "*.jpg"]));
    let filter = filter.patterns(paths(&["*.gif"]));
    assert_eq!(filter.name, "Images");
    assert_eq!(filter.patterns, paths(&["*.gif"]));
}
