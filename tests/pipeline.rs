use std::collections::BTreeMap;

use proplate::bootstrap::{bootstrap, Action, Bootstrap, Outcome, Stage};
use proplate::config::{Arg, Config, ScannedFile};
use proplate::errors::{ProplateErrorKind, ProplateResult};
use proplate::interpolation::Context;
use proplate::op::{AdditionalOperation, Condition, FileAction, Operation, StringCompareOp};
use proplate::template::{Template, META_CONF};

/// A filesystem held in memory: file paths and their contents.
#[derive(Default)]
struct MemFs {
    files: BTreeMap<String, String>,
    fail_copy_tree: bool,
    fail_remove_tree: bool,
    actions: Vec<String>,
}

fn under(path: &str, root: &str) -> Option<String> {
    path.strip_prefix(&format!("{}/", root)).map(|s| s.to_string())
}

impl MemFs {
    fn with(files: &[(&str, &str)]) -> MemFs {
        let mut fs = MemFs::default();
        for (p, c) in files {
            fs.files.insert(p.to_string(), c.to_string());
        }
        fs
    }

    fn subtree(&self, root: &str) -> Vec<(String, String)> {
        self.files
            .iter()
            .filter_map(|(p, c)| under(p, root).map(|r| (r, c.clone())))
            .collect()
    }

    fn remove(&mut self, path: &str) -> bool {
        let inner: Vec<String> =
            self.files.keys().filter(|p| *p == path || under(p, path).is_some()).cloned().collect();
        for p in &inner {
            self.files.remove(p);
        }
        !inner.is_empty()
    }

    fn perform(&mut self, a: Action) -> Outcome {
        match a {
            Action::Apply { root, action } => match action {
                FileAction::CopyFile { src, dest } => {
                    self.actions.push(format!("copy {}", src));
                    match self.files.get(&format!("{}/{}", root, src)).cloned() {
                        Some(c) => {
                            self.files.insert(format!("{}/{}", root, dest), c);
                            Outcome::Done
                        },
                        None => Outcome::Missing,
                    }
                },
                FileAction::CopyDir { src, dest } => {
                    self.actions.push(format!("copy_dir {}", src));
                    for (rel, c) in self.subtree(&format!("{}/{}", root, src)) {
                        self.files.insert(format!("{}/{}/{}", root, dest, rel), c);
                    }
                    Outcome::Done
                },
                FileAction::Remove { path } => {
                    self.actions.push(format!("remove {}", path));
                    if self.remove(&format!("{}/{}", root, path)) {
                        Outcome::Done
                    } else {
                        Outcome::Failed("no such file".to_string())
                    }
                },
            },
            Action::ScanTree { root } => Outcome::Scanned(
                self.subtree(&root)
                    .into_iter()
                    .map(|(path, content)| ScannedFile { path, content })
                    .collect(),
            ),
            Action::ReadFile { path } => match self.files.get(&path) {
                Some(c) => Outcome::Read(c.clone()),
                None => Outcome::Missing,
            },
            Action::WriteFile { path, content } => {
                self.files.insert(path, content);
                Outcome::Done
            },
            Action::CreateDir { .. } => Outcome::Done,
            Action::CopyTree { src, dest, exclude } => {
                if self.fail_copy_tree {
                    return Outcome::Failed("disk full".to_string());
                }
                for (rel, c) in self.subtree(&src) {
                    let skipped = exclude.iter().any(|x| rel == *x || under(&rel, x).is_some());
                    if !skipped {
                        self.files.insert(format!("{}/{}", dest, rel), c);
                    }
                }
                Outcome::Done
            },
            Action::RemoveTree { path } => {
                self.actions.push(format!("remove_tree {}", path));
                if self.fail_remove_tree {
                    return Outcome::Failed("busy".to_string());
                }
                self.remove(&path);
                Outcome::Done
            },
            Action::Finish => Outcome::Done,
        }
    }
}

fn drive(mut run: Bootstrap, fs: &mut MemFs) -> ProplateResult<()> {
    loop {
        match run.next_action() {
            Action::Finish => break,
            a => {
                let o = fs.perform(a);
                run.advance(o);
            },
        }
    }
    run.finish()
}

fn ctx_of(pairs: &[(&str, &str)]) -> Context {
    let mut ctx = Context::new();
    for (k, v) in pairs {
        ctx.insert(k.to_string(), v.to_string());
    }
    ctx
}

fn strings(v: &[&str]) -> Vec<String> {
    v.iter().map(|s| s.to_string()).collect()
}

fn template(conf: Config) -> Template {
    Template::build(
        "t".to_string(),
        ".temp/t-1".to_string(),
        strings(&[META_CONF]),
        None,
        conf,
    )
    .unwrap()
}

fn conf(dynamic: &[&str], exclude: &[&str], ops: Vec<AdditionalOperation>) -> Config {
    Config {
        args: vec![Arg { key: "name".to_string(), label: "Project name".to_string() }],
        exclude: strings(exclude),
        dynamic_files: strings(dynamic),
        additional_operations: ops,
        require_dyn_file_analysis: false,
    }
}

fn working_copy(fs: &MemFs) -> Vec<(String, String)> {
    fs.subtree(".temp/t-1")
}

#[test]
fn end_to_end_fills_readme_and_leaves_no_meta_or_temp() {
    let mut fs = MemFs::with(&[
        (".temp/t-1/meta.json", "{\"args\":[{\"key\":\"name\"}]}"),
        (".temp/t-1/README.md", "# $name"),
        (".temp/t-1/src/lib.rs", "// $name stays"),
    ]);
    let run = bootstrap(template(conf(&["README.md"], &[], vec![])), "out".to_string(), ctx_of(&[("name", "Foo")]));
    assert!(drive(run, &mut fs).is_ok());
    assert_eq!(fs.files.get("out/README.md").map(|s| s.as_str()), Some("# Foo"));
    assert_eq!(fs.files.get("out/src/lib.rs").map(|s| s.as_str()), Some("// $name stays"));
    assert!(!fs.files.contains_key("out/meta.json"));
    assert!(working_copy(&fs).is_empty());
}

fn docker_op() -> AdditionalOperation {
    AdditionalOperation {
        conditions: vec![Condition {
            lhs: "$useDocker".to_string(),
            op: StringCompareOp::Eq,
            rhs: "true".to_string(),
        }],
        operations: vec![Operation::Remove { files: strings(&["Dockerfile.disabled"]) }],
    }
}

fn docker_fs() -> MemFs {
    MemFs::with(&[
        (".temp/t-1/meta.json", "{}"),
        (".temp/t-1/Dockerfile.disabled", "FROM scratch"),
        (".temp/t-1/main.rs", "fn main() {}"),
    ])
}

#[test]
fn end_to_end_condition_true_removes_file() {
    let mut fs = docker_fs();
    let run = bootstrap(template(conf(&[], &[], vec![docker_op()])), "out".to_string(), ctx_of(&[("useDocker", "true")]));
    assert!(drive(run, &mut fs).is_ok());
    assert!(!fs.files.contains_key("out/Dockerfile.disabled"));
    assert!(fs.files.contains_key("out/main.rs"));
    assert!(fs.actions.contains(&"remove Dockerfile.disabled".to_string()));
}

#[test]
fn end_to_end_condition_false_keeps_file() {
    let mut fs = docker_fs();
    let run = bootstrap(template(conf(&[], &[], vec![docker_op()])), "out".to_string(), ctx_of(&[("useDocker", "false")]));
    assert!(drive(run, &mut fs).is_ok());
    assert_eq!(fs.files.get("out/Dockerfile.disabled").map(|s| s.as_str()), Some("FROM scratch"));
}

#[test]
fn excluded_file_never_reaches_destination() {
    let mut fs = MemFs::with(&[
        (".temp/t-1/meta.json", "{}"),
        (".temp/t-1/secret.txt", "token"),
        (".temp/t-1/app.txt", "app"),
    ]);
    let run = bootstrap(template(conf(&[], &["secret.txt"], vec![])), "out".to_string(), Context::new());
    assert_eq!(run.stage, Stage::PrepareDestination);
    assert!(fs.files.contains_key(".temp/t-1/secret.txt"));
    assert!(drive(run, &mut fs).is_ok());
    assert!(!fs.files.contains_key("out/secret.txt"));
    assert!(fs.files.contains_key("out/app.txt"));
}

#[test]
fn copy_failure_cleans_up_and_reports_the_copy() {
    let mut fs = MemFs::with(&[(".temp/t-1/meta.json", "{}"), (".temp/t-1/a.txt", "a")]);
    fs.fail_copy_tree = true;
    fs.fail_remove_tree = true;
    let run = bootstrap(template(conf(&[], &[], vec![])), "out".to_string(), Context::new());
    let e = drive(run, &mut fs).unwrap_err();
    assert!(fs.actions.contains(&"remove_tree .temp/t-1".to_string()));
    match &e.kind {
        ProplateErrorKind::Fs { operation, concerned_paths } => {
            assert_eq!(operation, "copy_fdir");
            assert_eq!(concerned_paths, &strings(&[".temp/t-1", "out"]));
        },
        other => panic!("unexpected kind {:?}", other),
    }
    assert_eq!(e.reason, "disk full");
}

#[test]
fn copy_failure_removes_working_copy() {
    let mut fs = MemFs::with(&[(".temp/t-1/meta.json", "{}"), (".temp/t-1/a.txt", "a")]);
    fs.fail_copy_tree = true;
    let run = bootstrap(template(conf(&[], &[], vec![])), "out".to_string(), Context::new());
    assert!(drive(run, &mut fs).is_err());
    assert!(working_copy(&fs).is_empty());
}

#[test]
fn cleanup_failure_after_success_is_reported() {
    let mut fs = MemFs::with(&[(".temp/t-1/meta.json", "{}")]);
    fs.fail_remove_tree = true;
    let run = bootstrap(template(conf(&[], &[], vec![])), "out".to_string(), Context::new());
    let e = drive(run, &mut fs).unwrap_err();
    assert!(matches!(&e.kind, ProplateErrorKind::Fs { operation, .. } if operation == "remove_dir_all"));
    assert_eq!(e.reason, "busy");
}

#[test]
fn failing_operation_stops_the_run_before_copy() {
    let mut fs = MemFs::with(&[(".temp/t-1/meta.json", "{}"), (".temp/t-1/a.txt", "a")]);
    let op = AdditionalOperation {
        conditions: vec![],
        operations: vec![
            Operation::Remove { files: strings(&["missing.txt", "a.txt"]) },
        ],
    };
    let run = bootstrap(template(conf(&[], &[], vec![op])), "out".to_string(), Context::new());
    assert_eq!(run.stage, Stage::RunAdditionalOperations);
    let e = drive(run, &mut fs).unwrap_err();
    match &e.kind {
        ProplateErrorKind::Fs { operation, concerned_paths } => {
            assert_eq!(operation, "remove_fdir");
            assert_eq!(concerned_paths, &strings(&["missing.txt"]));
        },
        other => panic!("unexpected kind {:?}", other),
    }
    assert!(!fs.actions.contains(&"remove a.txt".to_string()));
    assert!(!fs.files.contains_key("out/a.txt"));
    assert!(working_copy(&fs).is_empty());
}

#[test]
fn missing_dynamic_file_is_tolerated() {
    let mut fs = MemFs::with(&[(".temp/t-1/meta.json", "{}"), (".temp/t-1/b.md", "$name")]);
    let run = bootstrap(
        template(conf(&["gone.md", "b.md"], &[], vec![])),
        "out".to_string(),
        ctx_of(&[("name", "Foo")]),
    );
    assert!(drive(run, &mut fs).is_ok());
    assert_eq!(fs.files.get("out/b.md").map(|s| s.as_str()), Some("Foo"));
}

#[test]
fn analysis_finds_dynamic_files() {
    let mut fs = MemFs::with(&[
        (".temp/t-1/meta.json", "{}"),
        (".temp/t-1/a.md", "hi $name"),
        (".temp/t-1/skip.md", "$name"),
        (".temp/t-1/plain.md", "plain"),
    ]);
    let mut c = conf(&[], &["skip.md"], vec![]);
    c.require_dyn_file_analysis = true;
    let run = bootstrap(template(c), "out".to_string(), ctx_of(&[("name", "Foo")]));
    assert_eq!(run.stage, Stage::AnalyzeDynFiles);
    assert!(drive(run, &mut fs).is_ok());
    assert_eq!(fs.files.get("out/a.md").map(|s| s.as_str()), Some("hi Foo"));
    assert!(!fs.files.contains_key("out/skip.md"));
    assert_eq!(fs.files.get("out/plain.md").map(|s| s.as_str()), Some("plain"));
}

#[test]
fn stage_actions_in_order() {
    let mut run = bootstrap(template(conf(&["README.md"], &["x"], vec![])), "out".to_string(), Context::new());
    assert!(matches!(run.next_action(), Action::ReadFile { path } if path == ".temp/t-1/README.md"));
    run.advance(Outcome::Read("# $name".to_string()));
    assert!(matches!(run.next_action(),
        Action::WriteFile { path, content } if path == ".temp/t-1/README.md" && content == "# $name"));
    run.advance(Outcome::Done);
    assert!(matches!(run.next_action(), Action::CreateDir { path } if path == "out"));
    run.advance(Outcome::Done);
    match run.next_action() {
        Action::CopyTree { src, dest, exclude } => {
            assert_eq!(src, ".temp/t-1");
            assert_eq!(dest, "out");
            assert_eq!(exclude, strings(&["x", META_CONF]));
        },
        other => panic!("unexpected action {:?}", other),
    }
    run.advance(Outcome::Done);
    assert!(matches!(run.next_action(), Action::RemoveTree { path } if path == ".temp/t-1"));
    run.advance(Outcome::Done);
    assert_eq!(run.stage, Stage::Done);
    assert!(matches!(run.next_action(), Action::Finish));
    assert!(run.finish().is_ok());
}

#[test]
fn prepare_failure_names_destination() {
    let mut run = bootstrap(template(conf(&[], &[], vec![])), "out".to_string(), Context::new());
    run.advance(Outcome::Failed("read-only".to_string()));
    assert_eq!(run.stage, Stage::Cleanup);
    run.advance(Outcome::Done);
    let e = run.finish().unwrap_err();
    match &e.kind {
        ProplateErrorKind::Fs { operation, concerned_paths } => {
            assert_eq!(operation, "create_dir_all");
            assert_eq!(concerned_paths, &strings(&["out"]));
        },
        other => panic!("unexpected kind {:?}", other),
    }
}
