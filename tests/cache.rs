use house_finder::cache::Cache;

#[test]
fn cache_directory_is_under_base() {
    let c = Cache::new("/tmp/base", "client/elisa", "json");
    assert_eq!(c.dir, "/tmp/base/cache/client/elisa");
    assert_eq!(c.ext, "json");
}

#[test]
fn cache_filename_is_the_digest_in_hex() {
    let c = Cache::new("/d", "n", "json");
    assert_eq!(
        c.filename("abc"),
        "ba7816bf8f01cfea414140de5dae2223b00361a396177a9cb410ff61f20015ad.json"
    );
}

#[test]
fn cache_path_joins_dir_and_filename() {
    let c = Cache::new("/d", "n", "html");
    assert_eq!(
        c.path(""),
        "/d/cache/n/e3b0c44298fc1c149afbf4c8996fb92427ae41e4649b934ca495991b7852b855.html"
    );
    assert_eq!(c.path("abc"), c.path("abc"));
    assert_ne!(c.path("abc"), c.path("abd"));
}

#[test]
fn cache_has_nothing_in_a_missing_directory() {
    let c = Cache::new("/nonexistent-house-finder-dir", "n", "json");
    assert!(!c.has("anything"));
}
