use pc::registry::{
    backend_names, info, info_from_str, HASTE_INFO, MODERN_PASTE_INFO, PIPFI_INFO, SPRUNGE_INFO,
    VPASTE_INFO,
};

#[test]
fn backend_names_sorted_and_complete() {
    let names = backend_names();
    assert_eq!(names, vec!["haste", "modern_paste", "pipfi", "sprunge", "vpaste"]);
    let mut sorted = names.clone();
    sorted.sort();
    assert_eq!(names, sorted);
}

#[test]
fn show_backend_returns_exact_documentation() {
    assert_eq!(info_from_str("haste"), Ok(HASTE_INFO));
    assert_eq!(info_from_str("modern_paste"), Ok(MODERN_PASTE_INFO));
    assert_eq!(info_from_str("pipfi"), Ok(PIPFI_INFO));
    assert_eq!(info_from_str("sprunge"), Ok(SPRUNGE_INFO));
    assert_eq!(info_from_str("vpaste"), Ok(VPASTE_INFO));
}

#[test]
fn show_backend_unregistered_fails() {
    let r = info_from_str("paste_rs");
    assert_eq!(r, Err("paste_rs is not a valid backend".to_string()));
}

#[test]
fn modern_paste_info_accessor() {
    assert_eq!(info(), MODERN_PASTE_INFO);
}
