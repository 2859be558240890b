use moat::support::github::Fetch;
use moat::support::workflows::{workflow_from, workflows_from_files};
use moat::support::workflows::{
    collect_uses, has_pull_request_target, is_pinned, is_workflow_candidate, top_level_permissions, workflow_candidates,
    workflows_dir, ContentEntry, PermissionsBlock, YamlValue,
};

fn s(x: &str) -> YamlValue {
    YamlValue::Str(x.to_string())
}

fn map(pairs: Vec<(&str, YamlValue)>) -> YamlValue {
    YamlValue::Mapping(pairs.into_iter().map(|(k, v)| (s(k), v)).collect())
}

#[test]
fn pinned_references() {
    assert!(is_pinned("actions/checkout@27d5ce7f107fe9357f9df03efb73ab90386fccae"));
    assert!(!is_pinned("actions/checkout@v4"));
    assert!(is_pinned("./local/action"));
    assert!(is_pinned("docker://alpine:3"));
    assert!(!is_pinned("actions/checkout"));
}

#[test]
fn uses_are_collected_in_order() {
    let doc = map(vec![(
        "jobs",
        map(vec![(
            "build",
            map(vec![(
                "steps",
                YamlValue::Sequence(vec![map(vec![("uses", s("a/b@v1"))]), map(vec![("uses", s("c/d@v2"))])]),
            )]),
        )]),
    )]);
    assert_eq!(collect_uses(&doc), vec!["a/b@v1", "c/d@v2"]);
}

#[test]
fn pull_request_target_trigger() {
    let doc = map(vec![("on", s("pull_request_target"))]);
    assert!(has_pull_request_target(&doc));
    let doc = map(vec![("on", s("push"))]);
    assert!(!has_pull_request_target(&doc));
}

#[test]
fn permissions_blocks() {
    assert!(matches!(top_level_permissions(&map(vec![])), PermissionsBlock::Missing));
    assert!(matches!(top_level_permissions(&map(vec![("permissions", s("write-all"))])), PermissionsBlock::WriteAll));
    assert!(matches!(top_level_permissions(&map(vec![("permissions", s("read-all"))])), PermissionsBlock::ReadAll));
}

#[test]
fn workflow_files_are_yaml_files() {
    assert!(is_workflow_candidate("file", "CI.YML"));
    assert!(is_workflow_candidate("file", "deploy.yaml"));
    assert!(!is_workflow_candidate("dir", "x.yml"));
    assert!(!is_workflow_candidate("file", "README.md"));
    let entries = vec![
        ContentEntry { name: "ci.yml".into(), path: ".github/workflows/ci.yml".into(), kind: "file".into() },
        ContentEntry { name: "notes.txt".into(), path: ".github/workflows/notes.txt".into(), kind: "file".into() },
    ];
    let kept = workflow_candidates(entries);
    assert_eq!(kept.len(), 1);
    assert_eq!(kept[0].path, ".github/workflows/ci.yml");
    assert_eq!(workflows_dir("o", "r"), "/repos/o/r/contents/.github/workflows");
}

#[test]
fn workflow_files_are_read_as_yaml() {
    let w = workflow_from("ci.yml".to_string(), "on: pull_request_target\njobs: {}\n").unwrap();
    assert_eq!(w.path, "ci.yml");
    assert!(has_pull_request_target(&w.doc));
    assert!(workflow_from("bad.yml".to_string(), "key: [unclosed").is_none());
    let files = vec![
        ("a.yml".to_string(), Fetch::Found("jobs:\n  b:\n    steps:\n      - uses: x/y@v1\n".to_string())),
        ("gone.yml".to_string(), Fetch::NotFound),
        ("bad.yml".to_string(), Fetch::Found("key: [unclosed".to_string())),
    ];
    let ws = workflows_from_files(&files);
    assert_eq!(ws.len(), 1);
    assert_eq!(ws[0].path, "a.yml");
    assert_eq!(collect_uses(&ws[0].doc), vec!["x/y@v1"]);
}
