use futures_enum::resolve::{
    crate_name, default_crate_name, io_crate_candidates, package_matches,
    sink_crate_candidates, stream_crate_candidates, FoundPackage,
};

fn to_vec(names: &[&str]) -> Vec<String> {
    names.iter().map(|s| s.to_string()).collect()
}

#[test]
fn default_resolution_is_the_default_provider() {
    let r = default_crate_name();
    assert_eq!(r.name, "futures");
    assert!(r.original.is_none());
}

#[test]
fn lookup_miss_falls_back_to_default() {
    let r = crate_name(None);
    assert_eq!(r.name, "futures");
    assert!(r.original.is_none());
}

#[test]
fn found_package_names_carry_over() {
    let r = crate_name(Some(FoundPackage {
        name: "futures03".to_string(),
        original: Some("futures".to_string()),
    }));
    assert_eq!(r.name, "futures03");
    assert_eq!(r.original.as_deref(), Some("futures"));
    let r = crate_name(Some(FoundPackage { name: "futures".to_string(), original: None }));
    assert_eq!(r.name, "futures");
    assert!(r.original.is_none());
}

#[test]
fn candidate_lists_per_family() {
    assert_eq!(stream_crate_candidates(), to_vec(&["futures", "futures-util", "futures-core"]));
    assert_eq!(sink_crate_candidates(), to_vec(&["futures", "futures-sink"]));
    assert_eq!(io_crate_candidates(), to_vec(&["futures", "futures-io"]));
}

#[test]
fn default_provider_needs_supported_major_version() {
    let cands = to_vec(&["futures", "futures-io"]);
    assert!(package_matches("futures", "3.0.1", &cands));
    assert!(package_matches("futures", "3", &cands));
    assert!(package_matches("futures", "3.x", &cands));
    assert!(!package_matches("futures", "0.3.1", &cands));
    assert!(!package_matches("futures", "2.0", &cands));
    assert!(!package_matches("futures", "30.1", &cands));
    assert!(!package_matches("futures", "", &cands));
    assert!(!package_matches("futures", ".3", &cands));
    assert!(!package_matches("futures", "v3", &cands));
}

#[test]
fn version_component_digit_edge_cases() {
    let cands = to_vec(&["futures"]);
    // Leading zeros and an explicit sign still denote three.
    assert!(package_matches("futures", "03.1", &cands));
    assert!(package_matches("futures", "+3.0", &cands));
    assert!(package_matches("futures", "0003", &cands));
    // A bare sign, trailing junk in the component, or an overlong number do
    // not.
    assert!(!package_matches("futures", "+.1", &cands));
    assert!(!package_matches("futures", "3a.1", &cands));
    assert!(!package_matches("futures", "33333333333333333333.0", &cands));
}

#[test]
fn candidate_names_match_without_version_check() {
    let cands = to_vec(&["futures", "futures-io"]);
    assert!(package_matches("futures-io", "0.3.1", &cands));
    assert!(package_matches("futures-io", "anything", &cands));
    assert!(!package_matches("futures-util", "0.3.1", &cands));
    assert!(!package_matches("rand", "0.8.5", &cands));
}
