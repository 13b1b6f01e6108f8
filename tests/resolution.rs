use proplate::config::Config;
use proplate::errors::ProplateErrorKind;
use proplate::local::{find_template_by_id, get_local_template, get_template_path_by_id, local_template_path};
use proplate::resolver::{
    find_template, is_remote_loc, remote_id, resolve_location, staging_path, Resolution,
};
use proplate::template::{Template, META_CONF};

fn empty_conf() -> Config {
    Config {
        args: vec![],
        exclude: vec![],
        dynamic_files: vec![],
        additional_operations: vec![],
        require_dyn_file_analysis: false,
    }
}

fn list(names: &[&str]) -> Vec<String> {
    names.iter().map(|s| s.to_string()).collect()
}

#[test]
fn remote_prefix_routes_to_clone() {
    assert!(is_remote_loc("https://github.com/user/repo"));
    assert!(is_remote_loc("https://github.com/"));
    assert!(!is_remote_loc("http://github.com/user/repo"));
    assert!(!is_remote_loc("templates/rust"));
    assert!(!is_remote_loc(""));
    assert!(!is_remote_loc("https://gitlab.com/user/repo"));
    assert!(!is_remote_loc(" https://github.com/user/repo"));
}

#[test]
fn remote_location_resolution() {
    match resolve_location("https://github.com/user/repo", "tok") {
        Resolution::Remote { url, id, staging_path } => {
            assert_eq!(url, "https://github.com/user/repo");
            assert_eq!(id, "user-repo");
            assert_eq!(staging_path, ".temp/user-repo-tok");
        },
        other => panic!("routed locally: {:?}", other),
    }
}

#[test]
fn local_location_resolution() {
    match resolve_location("./my/template", "tok") {
        Resolution::Local { path } => assert_eq!(path, "./my/template"),
        other => panic!("routed remotely: {:?}", other),
    }
}

#[test]
fn fresh_staging_paths_differ() {
    let t1 = uuid::Uuid::new_v4().to_string();
    let t2 = uuid::Uuid::new_v4().to_string();
    match (resolve_location("https://github.com/u/r", &t1), resolve_location("https://github.com/u/r", &t2)) {
        (
            Resolution::Remote { staging_path: p, id, .. },
            Resolution::Remote { staging_path: q, .. },
        ) => {
            assert_eq!(id, "u-r");
            assert_eq!(p, format!(".temp/u-r-{}", t1));
            assert_ne!(p, q);
        },
        _ => panic!("expected remote resolutions"),
    }
    assert!(matches!(resolve_location("local/dir", &t1), Resolution::Local { .. }));
}

#[test]
fn remote_ids_and_staging_paths() {
    assert_eq!(remote_id("https://github.com/a/b/c"), "a-b-c");
    assert_eq!(remote_id("https://github.com/"), "");
    assert_eq!(staging_path("id", "t"), ".temp/id-t");
}

#[test]
fn missing_meta_fails_validation() {
    let r = Template::build(
        "t".to_string(),
        "p".to_string(),
        list(&["README.md", "src", "Cargo.toml"]),
        None,
        empty_conf(),
    );
    assert!(matches!(r, Err(e) if matches!(e.kind, ProplateErrorKind::InvalidTemplate)));
    assert!(Template::validate(&list(&[])).is_err());
    assert!(Template::validate(&list(&["meta.json.bak", "Meta.json"])).is_err());
}

#[test]
fn template_with_meta_builds() {
    let t = Template::build(
        "t".to_string(),
        "p".to_string(),
        list(&["README.md", META_CONF]),
        Some("src".to_string()),
        empty_conf(),
    )
    .expect("valid template");
    assert_eq!(t.id, "t");
    assert_eq!(t.base_path, "p");
    assert_eq!(t.fork_source.as_deref(), Some("src"));
    assert_eq!(t.base_file_list.len(), 2);
}

#[test]
fn unfetched_remote_template_is_remote_not_found() {
    let res = resolve_location("https://github.com/u/r", "x");
    let e = find_template(res, None, Some(empty_conf())).unwrap_err();
    assert!(matches!(e.kind, ProplateErrorKind::TemplateNotFound { is_remote: true }));
    assert_eq!(e.reason, "Remote template (id=https://github.com/u/r) is not found.");
}

#[test]
fn absent_local_template_is_local_not_found() {
    let res = resolve_location("nowhere", "x");
    let e = find_template(res, None, Some(empty_conf())).unwrap_err();
    assert!(matches!(e.kind, ProplateErrorKind::TemplateNotFound { is_remote: false }));
    assert_eq!(e.reason, "Local template (id=nowhere) is not found.");
}

#[test]
fn found_template_without_meta_or_conf_is_invalid() {
    let e = find_template(resolve_location("dir", "x"), Some(list(&["a"])), Some(empty_conf()))
        .unwrap_err();
    assert!(matches!(e.kind, ProplateErrorKind::InvalidTemplate));
    let e = find_template(resolve_location("dir", "x"), Some(list(&[META_CONF])), None).unwrap_err();
    assert!(matches!(e.kind, ProplateErrorKind::InvalidTemplate));
}

#[test]
fn found_templates_are_built() {
    let t = find_template(resolve_location("dir", "x"), Some(list(&[META_CONF])), Some(empty_conf()))
        .unwrap();
    assert_eq!(t.id, "dir");
    assert_eq!(t.base_path, "dir");
    assert_eq!(t.fork_source, None);
    let t = find_template(
        resolve_location("https://github.com/u/r", "x"),
        Some(list(&[META_CONF, "README.md"])),
        Some(empty_conf()),
    )
    .unwrap();
    assert_eq!(t.id, "u-r");
    assert_eq!(t.base_path, ".temp/u-r-x");
    assert_eq!(t.fork_source.as_deref(), Some("https://github.com/u/r"));
}

#[test]
fn local_template_paths() {
    assert_eq!(local_template_path("/opt/app"), "/opt/app/builtins/templates");
    assert_eq!(
        get_local_template("/opt/app", "rust", true).unwrap(),
        "/opt/app/builtins/templates/rust"
    );
    let e = get_local_template("/opt/app", "rust", false).unwrap_err();
    assert!(matches!(e.kind, ProplateErrorKind::TemplateNotFound { is_remote: false }));
    assert_eq!(e.reason, "Local template (id=rust) is not found.");
    assert_eq!(get_template_path_by_id("react"), "built_in/react");
}

#[test]
fn template_summary_line() {
    let t = Template::build("rust".to_string(), "base".to_string(), list(&[META_CONF]), None, empty_conf())
        .unwrap();
    assert_eq!(t.summary(), "TEMPLATE [rust], base_path: base");
}

#[test]
fn built_in_templates_by_id() {
    let t = find_template_by_id("react", Some(list(&[META_CONF, "src"])), empty_conf()).unwrap();
    assert_eq!(t.id, "react");
    assert_eq!(t.base_path, "built_in/react");
    assert_eq!(t.fork_source, None);
    let e = find_template_by_id("react", None, empty_conf()).unwrap_err();
    assert!(matches!(e.kind, ProplateErrorKind::TemplateNotFound { is_remote: false }));
    assert_eq!(e.reason, "Local template (id=react) is not found.");
    let e = find_template_by_id("react", Some(list(&["src"])), empty_conf()).unwrap_err();
    assert!(matches!(e.kind, ProplateErrorKind::InvalidTemplate));
}
