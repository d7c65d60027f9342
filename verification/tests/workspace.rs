use dsh_desktop::paths::FilePath;
use dsh_desktop::workspace::{
    ensure_node_pty_allow_builds, patch_profiles_for_node_pty, Profile, WorkspacePatch,
};

const TEMPLATE: &str = "packages:\n  - .\n\nnodeLinker: hoisted\nautoInstallPeers: false\n";

fn ensure(content: &str) -> Option<String> {
    ensure_node_pty_allow_builds(Some(content))
}

#[test]
fn adds_allow_builds_to_template() {
    let patched = ensure(TEMPLATE).unwrap();
    assert!(patched.contains("allowBuilds:\n  node-pty: true\n"), "{patched}");
    // Idempotent: a second pass changes nothing.
    assert!(ensure(&patched).is_none());
}

#[test]
fn adds_entry_to_existing_allow_builds() {
    let patched = ensure("packages:\n  - .\n\nallowBuilds:\n  esbuild: true\n").unwrap();
    assert!(
        patched.contains("allowBuilds:\n  node-pty: true\n  esbuild: true\n"),
        "{patched}"
    );
}

#[test]
fn leaves_existing_node_pty_alone() {
    let content = "packages:\n  - .\n\nallowBuilds:\n  node-pty: true\n";
    assert!(ensure(content).is_none());
    assert_eq!(
        content.lines().filter(|l| l.trim().starts_with("node-pty")).count(),
        1
    );
}

#[test]
fn recognizes_quoted_entry() {
    assert!(ensure("packages:\n  - .\n\nallowBuilds:\n  \"node-pty\": true\n").is_none());
}

#[test]
fn missing_file_is_a_noop() {
    assert!(ensure_node_pty_allow_builds(None).is_none());
}

#[test]
fn template_is_patched_exactly() {
    assert_eq!(
        ensure(TEMPLATE).unwrap(),
        "packages:\n  - .\n\nnodeLinker: hoisted\nautoInstallPeers: false\n\nallowBuilds:\n  node-pty: true\n"
    );
}

#[test]
fn empty_file_gets_a_list() {
    assert_eq!(ensure("").unwrap(), "\nallowBuilds:\n  node-pty: true\n");
    assert_eq!(ensure("\n").unwrap(), "\n\nallowBuilds:\n  node-pty: true\n");
}

#[test]
fn entry_goes_below_the_first_list() {
    assert_eq!(
        ensure("  allowBuilds: \nx: 1\nallowBuilds:\n").unwrap(),
        "  allowBuilds: \n  node-pty: true\nx: 1\nallowBuilds:\n"
    );
}

#[test]
fn entry_before_the_list_does_not_count() {
    assert_eq!(
        ensure("node-pty: true\nallowBuilds:\n").unwrap(),
        "node-pty: true\nallowBuilds:\n  node-pty: true\n"
    );
}

#[test]
fn entry_anywhere_in_the_list_counts() {
    assert!(ensure("allowBuilds:\n  a: true\n  node-pty : false\nother:\n").is_none());
    assert!(ensure("allowBuilds:\n  a: true\n\n# more\n\t# and more\n  node-pty: 1").is_none());
    assert!(ensure("allowBuilds:\r\n\r\n  node-pty: true\r\n").is_none());
    assert!(ensure("allowBuilds:\n  node-pty-extra: true").is_some());
    assert!(ensure("allowBuilds:\n  'node-pty': true").is_some());
}

#[test]
fn entry_in_a_second_list_counts() {
    assert!(ensure("allowBuilds:\n  a: true\nallowBuilds:\n  node-pty: true\n").is_none());
    assert!(ensure("allowBuilds:\nx: 1\nallowBuilds:\n  b: true\n  node-pty: true").is_none());
    assert_eq!(
        ensure("allowBuilds:\nallowBuilds:\n  a: true\nx:\n  node-pty: true\n").unwrap(),
        "allowBuilds:\n  node-pty: true\nallowBuilds:\n  a: true\nx:\n  node-pty: true\n"
    );
}

#[test]
fn key_of_a_later_section_does_not_count() {
    assert_eq!(
        ensure("allowBuilds:\n  esbuild: true\noverrides:\n  node-pty: 1.0.0\n").unwrap(),
        "allowBuilds:\n  node-pty: true\n  esbuild: true\noverrides:\n  node-pty: 1.0.0\n"
    );
    assert_eq!(
        ensure("allowBuilds:\nnode-pty: true").unwrap(),
        "allowBuilds:\n  node-pty: true\nnode-pty: true\n"
    );
    assert!(ensure("allowBuilds:\n  a: true\n- x\n  node-pty: true\n").is_some());
}

#[test]
fn carriage_returns_are_dropped_with_the_line_feed() {
    let patched = ensure("a: 1\r\nallowBuilds:\r\nb: 2\r").unwrap();
    assert_eq!(patched, "a: 1\nallowBuilds:\n  node-pty: true\nb: 2\r\n");
    assert!(ensure(&patched).is_none());
    let patched = ensure("a\r\r\n").unwrap();
    assert_eq!(patched, "a\r\n\nallowBuilds:\n  node-pty: true\n");
    assert!(ensure(&patched).is_none());
}

#[test]
fn existing_lines_keep_their_order() {
    let content = "z: 1\n\nallowBuilds:\n  b: true\n  a: false\nlast: 2";
    let patched = ensure(content).unwrap();
    let kept: Vec<&str> = patched.lines().filter(|l| *l != "  node-pty: true").collect();
    assert_eq!(kept, content.lines().collect::<Vec<&str>>());
}

fn profile(name: &str, is_dir: bool, workspace: Option<&str>) -> Profile {
    Profile { name: name.to_string(), is_dir, workspace: workspace.map(|w| w.to_string()) }
}

fn names(patch: &WorkspacePatch) -> Vec<&str> {
    patch.path.names.iter().map(|n| n.as_str()).collect()
}

#[test]
fn only_profiles_that_need_it_are_patched() {
    let dir = FilePath {
        anchor: "/".to_string(),
        names: vec!["home".to_string(), "profiles".to_string()],
    };
    let profiles = vec![
        profile("web", true, Some(TEMPLATE)),
        profile("stray", false, Some(TEMPLATE)),
        profile("bare", true, None),
        profile("done", true, Some("allowBuilds:\n  node-pty: true\n")),
        profile("cli", true, Some("allowBuilds:\n")),
    ];
    let patches = patch_profiles_for_node_pty(&dir, &profiles);
    assert_eq!(patches.len(), 2);
    assert_eq!((patches[0].profile, patches[1].profile), (0, 4));
    assert_eq!(patches[0].path.anchor, "/");
    assert_eq!(names(&patches[0]), vec!["home", "profiles", "web", "pnpm-workspace.yaml"]);
    assert_eq!(patches[0].content, ensure(TEMPLATE).unwrap());
    assert_eq!(names(&patches[1]), vec!["home", "profiles", "cli", "pnpm-workspace.yaml"]);
    assert_eq!(patches[1].content, "allowBuilds:\n  node-pty: true\n");
}

#[test]
fn patched_profiles_are_left_alone() {
    let dir = FilePath { anchor: String::new(), names: Vec::new() };
    let first = patch_profiles_for_node_pty(&dir, &vec![profile("web", true, Some(TEMPLATE))]);
    let again = vec![profile("web", true, Some(&first[0].content))];
    assert!(patch_profiles_for_node_pty(&dir, &again).is_empty());
}
