use hfst_cli::common::initial_common;
use hfst_cli::info::Build;
use hfst_cli::inspect_info::{execute, InfoArgs};

fn build() -> Build {
    Build {
        version: "0.3.0".to_string(),
        major: "0".to_string(),
        minor: "3".to_string(),
        patch: "0".to_string(),
        foma: false,
    }
}

fn args(a: Option<&str>, e: Option<&str>, m: Option<&str>, f: &[&str]) -> InfoArgs {
    InfoArgs {
        atleast_version: a.map(|s| s.to_string()),
        exact_version: e.map(|s| s.to_string()),
        max_version: m.map(|s| s.to_string()),
        require_feature: f.iter().map(|s| s.to_string()).collect(),
    }
}

#[test]
fn upstream_requirement_met_through_compatibility() {
    let c = initial_common("hfst-info");
    let r = execute(&c, &args(Some("3.16.0"), None, None, &[]), &build());
    assert_eq!(r.code, 0);
    assert!(r.messages.is_empty());
}

#[test]
fn own_version_requirement_met() {
    let c = initial_common("hfst-info");
    let r = execute(&c, &args(Some("0.2"), None, Some("0.3.0"), &[]), &build());
    assert_eq!(r.code, 0);
    let r = execute(&c, &args(None, Some("0.3.0"), None, &[]), &build());
    assert_eq!(r.code, 0);
    let r = execute(&c, &args(None, Some("3.17.1"), None, &[]), &build());
    assert_eq!(r.code, 0);
}

#[test]
fn requirement_neither_version_meets() {
    let c = initial_common("hfst-info");
    let r = execute(&c, &args(Some("4"), None, None, &[]), &build());
    assert_eq!(r.code, 1);
    assert_eq!(r.messages.len(), 1);
    assert_eq!(
        r.messages[0].text,
        "hfst-info: Version requirements not met: this is Divvun HFST 0.3.0 (long version 30000), interface-compatible with upstream HFST 3.17.1 (long version 300170001)\n"
    );
    let r = execute(&c, &args(None, None, Some("0.1"), &[]), &build());
    assert_eq!(r.code, 1);
    let r = execute(&c, &args(None, Some("1.0"), None, &[]), &build());
    assert_eq!(r.code, 1);
}

#[test]
fn unreadable_version_vector() {
    let c = initial_common("hfst-info");
    let r = execute(&c, &args(None, None, Some("3-1"), &[]), &build());
    assert_eq!(r.code, 1);
    assert_eq!(r.messages[0].text, "hfst-info: cannot parse version string from -1\n");
}

#[test]
fn features_checked_in_name_order() {
    let c = initial_common("hfst-info");
    let r = execute(&c, &args(None, None, None, &["sfst", "foma"]), &build());
    assert_eq!(r.code, 1);
    assert_eq!(r.messages[0].text, "hfst-info: Required foma support not present\n");
    let r = execute(&c, &args(None, None, None, &["icu", "openfst"]), &build());
    assert_eq!(r.code, 0);
}

#[test]
fn listing_names_both_versions() {
    let c = initial_common("hfst-info");
    let r = execute(&c, &args(None, None, None, &[]), &build());
    assert_eq!(r.code, 0);
    assert_eq!(r.messages[0].text, "No tests selected; printing known data\n");
    assert_eq!(
        r.messages[1].text,
        "hfst-info 0.1\nHFST packaging: Divvun HFST 0.3.0\nHFST version: 0.3.0\nHFST long version: 30000\nCompatible with upstream HFST: 3.17.1 (long version 300170001)\n"
    );
    assert_eq!(r.messages[2].text, "OpenFst (tropical) supported\n");
    assert_eq!(r.messages.len(), 8);
}

#[test]
fn verbose_requirement_line() {
    let mut c = initial_common("hfst-info");
    c.verbose = true;
    let r = execute(&c, &args(Some("3.16"), None, None, &[]), &build());
    assert_eq!(r.code, 0);
    assert_eq!(
        r.messages[0].text,
        "Requiring current version 30000 (upstream-compatible 300170001) to be at least 300160000\n"
    );
}
