use dsh_desktop::launch::{
    bundle_layout, harness_command, harness_search_path, BundleState, NodeProgram, Overrides,
};
use dsh_desktop::paths::{
    bundled_node_binary, bundled_node_dir, dev_repo_root, harness_home, harness_port_file,
    home_variable, profile_workspace, profiles_dir, user_home, FilePath, Platform,
};

fn path(anchor: &str, names: &str) -> FilePath {
    let names = names.split('/').filter(|n| !n.is_empty()).map(|n| n.to_string()).collect();
    FilePath { anchor: anchor.to_string(), names }
}

fn shown(path: &FilePath) -> String {
    format!("{}{}", path.anchor, path.names.join("/"))
}

const FOUND: BundleState =
    BundleState { node_is_file: true, manifest_is_file: true, tools_is_dir: true };

fn no_overrides() -> Overrides {
    Overrides { node: None, repo_root: None }
}

#[test]
fn packaged_app_runs_the_bundle() {
    let dir = path("/", "App/Resources");
    let command = harness_command(Platform::Unix, Some(&dir), FOUND, &no_overrides(), &path("", ""));
    match &command.node {
        NodeProgram::File(file) => {
            assert_eq!(shown(file), "/App/Resources/resources/node/bin/node")
        }
        NodeProgram::Command(name) => panic!("{name}"),
    }
    assert_eq!(
        command.args,
        vec!["node_modules/@deepseek-ai/dsh/lib/bin.js", "web", "--no-open", "--port", "0"]
    );
    assert_eq!(shown(&command.root), "/App/Resources/resources/harness");
    let dirs: Vec<String> = command.path_dirs.iter().map(shown).collect();
    assert_eq!(
        dirs,
        vec![
            "/App/Resources/resources/node/bin",
            "/App/Resources/resources/harness/node_modules/.bin"
        ]
    );
}

#[test]
fn windows_bundle_keeps_node_at_its_root() {
    let dir = path("C:\\", "app");
    let state = BundleState { tools_is_dir: false, ..FOUND };
    let command = harness_command(Platform::Windows, Some(&dir), state, &no_overrides(), &dir);
    match &command.node {
        NodeProgram::File(file) => assert_eq!(shown(file), "C:\\app/resources/node/node.exe"),
        NodeProgram::Command(name) => panic!("{name}"),
    }
    assert_eq!(command.path_dirs.len(), 1);
    assert_eq!(shown(&command.path_dirs[0]), "C:\\app/resources/node");
}

#[test]
fn source_build_runs_the_checkout() {
    let manifest = path("/", "repo/apps/desktop/src-tauri");
    let dir = path("/", "res");
    for (dir, node_is_file, manifest_is_file) in
        [(None, true, true), (Some(&dir), false, true), (Some(&dir), true, false)]
    {
        let state = BundleState { node_is_file, manifest_is_file, tools_is_dir: true };
        let command = harness_command(Platform::Unix, dir, state, &no_overrides(), &manifest);
        assert!(matches!(&command.node, NodeProgram::Command(name) if name == "node"));
        assert_eq!(
            command.args,
            vec!["--import", "tsx/esm", "apps/cli/src/bin.ts", "web", "--port", "0"]
        );
        assert_eq!(shown(&command.root), "/repo");
        assert!(command.path_dirs.is_empty());
    }
}

#[test]
fn environment_overrides_both_modes() {
    let overrides =
        Overrides { node: Some("/opt/node".to_string()), repo_root: Some(path("/", "checkout")) };
    let dir = path("/", "res");
    for dir in [None, Some(&dir)] {
        let command = harness_command(Platform::Unix, dir, FOUND, &overrides, &path("", ""));
        assert!(matches!(&command.node, NodeProgram::Command(name) if name == "/opt/node"));
        assert_eq!(shown(&command.root), "/checkout");
    }
}

#[test]
fn layout_names_the_places_to_look_at() {
    let layout = bundle_layout(Platform::Unix, &path("/", "r"));
    assert_eq!(shown(&layout.root), "/r/resources");
    assert_eq!(shown(&layout.node), "/r/resources/node/bin/node");
    assert_eq!(shown(&layout.manifest), "/r/resources/harness/package.json");
    assert_eq!(shown(&layout.tools), "/r/resources/harness/node_modules/.bin");
}

#[test]
fn search_path_starts_with_the_bundle() {
    let dirs = vec!["/a".to_string(), "/b".to_string()];
    assert_eq!(
        harness_search_path(Platform::Unix, &dirs, Some("/usr/bin:/bin")).as_deref(),
        Some("/a:/b:/usr/bin:/bin")
    );
    assert_eq!(
        harness_search_path(Platform::Windows, &dirs, Some("C:\\x")).as_deref(),
        Some("/a;/b;C:\\x")
    );
    assert_eq!(harness_search_path(Platform::Unix, &dirs, Some("")).as_deref(), Some("/a:/b:"));
    assert_eq!(harness_search_path(Platform::Unix, &dirs, None), None);
    assert_eq!(harness_search_path(Platform::Unix, &Vec::new(), Some("/bin")), None);
}

#[test]
fn paths_stand_where_they_should() {
    let dir = path("/", "d");
    assert_eq!(shown(&bundled_node_binary(Platform::Unix, &dir)), "/d/node/bin/node");
    assert_eq!(shown(&bundled_node_binary(Platform::Windows, &dir)), "/d/node/node.exe");
    assert_eq!(shown(&bundled_node_dir(Platform::Unix, &dir)), "/d/node/bin");
    assert_eq!(shown(&bundled_node_dir(Platform::Windows, &dir)), "/d/node");
    assert_eq!(shown(&dev_repo_root(&path("/", "a/b/c/d"))), "/a");
    assert_eq!(shown(&dev_repo_root(&path("/", "b/c/d"))), "/");
    assert_eq!(shown(&harness_port_file(&dir)), "/d/desktop-harness.url");
    assert_eq!(shown(&profiles_dir(&dir)), "/d/profiles");
    assert_eq!(shown(&profile_workspace(&dir)), "/d/pnpm-workspace.yaml");
}

#[test]
fn homes_fall_back() {
    assert_eq!(shown(&user_home(Platform::Unix, None)), "/tmp");
    assert_eq!(shown(&user_home(Platform::Windows, None)), ".");
    assert_eq!(shown(&user_home(Platform::Unix, Some(path("/", "home/u")))), "/home/u");
    let home = path("/", "home/u");
    assert_eq!(shown(&harness_home(None, &home)), "/home/u/.dsh");
    assert_eq!(shown(&harness_home(Some(path("/", "x")), &home)), "/x");
    assert_eq!(home_variable(Platform::Unix), "HOME");
    assert_eq!(home_variable(Platform::Windows), "USERPROFILE");
}
