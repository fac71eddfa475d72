use pls::url_name::derive_default_name;

#[test]
fn last_segment_becomes_the_name() {
    let (name, missing) = derive_default_name(&"https://example.com/archive.tar.gz".to_string());
    assert_eq!(name, "archive.tar.gz");
    assert!(!missing);
}

#[test]
fn deeper_paths_keep_only_the_last_segment() {
    let (name, missing) = derive_default_name(&"https://example.com/a/b/c.bin?q=1".to_string());
    assert_eq!(name, "c.bin");
    assert!(!missing);
}

#[test]
fn host_without_path_yields_empty_name() {
    let (name, missing) = derive_default_name(&"https://example.com".to_string());
    assert_eq!(name, "");
    assert!(!missing);
}

#[test]
fn unparsable_text_yields_no_name() {
    let (name, missing) = derive_default_name(&"not a url".to_string());
    assert_eq!(name, "");
    assert!(missing);
}

#[test]
fn cannot_be_a_base_yields_no_name() {
    let (name, missing) = derive_default_name(&"data:text/plain,HelloWorld".to_string());
    assert_eq!(name, "");
    assert!(missing);
}
