//! How the shell starts a harness of its own.

use vstd::prelude::*;

use crate::paths;
use crate::paths::{bundled_node_binary, bundled_node_dir, dev_repo_root, FilePath, Platform};
use crate::text;
use crate::text::join;

verus! {

/// The places that decide whether the app carries a harness of its own.
pub struct BundleLayout {
    /// The directory of the bundled resources.
    pub root: FilePath,
    /// The bundled node program.
    pub node: FilePath,
    /// The manifest of the bundled harness.
    pub manifest: FilePath,
    /// The programs of the bundled harness's dependencies.
    pub tools: FilePath,
}

/// What a [`BundleLayout`] stands for.
pub struct LayoutParts {
    /// The directory of the bundled resources.
    pub root: paths::PathParts,
    /// The bundled node program.
    pub node: paths::PathParts,
    /// The manifest of the bundled harness.
    pub manifest: paths::PathParts,
    /// The programs of the bundled harness's dependencies.
    pub tools: paths::PathParts,
}

impl View for BundleLayout {
    type V = LayoutParts;

    open spec fn view(&self) -> LayoutParts {
        LayoutParts {
            root: self.root@,
            node: self.node@,
            manifest: self.manifest@,
            tools: self.tools@,
        }
    }
}

/// The layout of the bundled resources. The packager nests them in a directory
/// of their own inside the app's resource directory.
pub open spec fn layout(platform: Platform, resource_dir: paths::PathParts) -> LayoutParts {
    let root = resource_dir.child("resources"@);
    LayoutParts {
        root,
        node: paths::node_binary(platform, root),
        manifest: root.child("harness"@).child("package.json"@),
        tools: root.child("harness"@).child("node_modules"@).child(".bin"@),
    }
}

/// The places to look at for the bundled resources.
pub fn bundle_layout(platform: Platform, resource_dir: &FilePath) -> (r: BundleLayout)
    ensures
        r@ == layout(platform, resource_dir@),
{
    let root = resource_dir.child("resources");
    let node = bundled_node_binary(platform, &root);
    let manifest = root.child("harness").child("package.json");
    let tools = root.child("harness").child("node_modules").child(".bin");
    BundleLayout { root, node, manifest, tools }
}

/// What stands at the places of the layout.
#[derive(Clone, Copy, Debug)]
pub struct BundleState {
    /// The node program is a file.
    pub node_is_file: bool,
    /// The manifest is a file.
    pub manifest_is_file: bool,
    /// The dependencies' programs have a directory.
    pub tools_is_dir: bool,
}

/// What the environment overrides, in a packaged app and in a source build.
#[derive(Debug)]
pub struct Overrides {
    /// The value of `DSH_DESKTOP_NODE`.
    pub node: Option<String>,
    /// The directory that `DSH_DESKTOP_REPO_ROOT` names.
    pub repo_root: Option<FilePath>,
}

/// The program that runs the harness.
#[derive(Debug)]
pub enum NodeProgram {
    /// A command as it is given, to be found by the system.
    Command(String),
    /// A file.
    File(FilePath),
}

/// What a [`NodeProgram`] stands for.
pub enum ProgramParts {
    /// A command as it is given.
    Command(Seq<char>),
    /// A file.
    File(paths::PathParts),
}

impl View for NodeProgram {
    type V = ProgramParts;

    open spec fn view(&self) -> ProgramParts {
        match self {
            NodeProgram::Command(name) => ProgramParts::Command(name@),
            NodeProgram::File(path) => ProgramParts::File(path@),
        }
    }
}

/// How to start a harness.
#[derive(Debug)]
pub struct HarnessCommand {
    /// The program to run.
    pub node: NodeProgram,
    /// Its arguments.
    pub args: Vec<String>,
    /// The directory to run it in.
    pub root: FilePath,
    /// The directories to put on the search path, so that what the harness
    /// spawns in its turn finds the bundled tools.
    pub path_dirs: Vec<FilePath>,
}

/// What a [`HarnessCommand`] stands for.
pub struct CommandParts {
    /// The program to run.
    pub node: ProgramParts,
    /// Its arguments.
    pub args: Seq<Seq<char>>,
    /// The directory to run it in.
    pub root: paths::PathParts,
    /// The directories to put on the search path.
    pub path_dirs: Seq<paths::PathParts>,
}

impl View for HarnessCommand {
    type V = CommandParts;

    open spec fn view(&self) -> CommandParts {
        CommandParts {
            node: self.node@,
            args: text::texts(self.args@),
            root: self.root@,
            path_dirs: paths::all_path_parts(self.path_dirs@),
        }
    }
}

/// Whether the app carries a harness of its own.
pub open spec fn bundled(resource_dir: Option<paths::PathParts>, state: BundleState) -> bool {
    resource_dir is Some && state.node_is_file && state.manifest_is_file
}

/// The arguments that start the bundled harness. It would open a browser of
/// its own, which the shell is instead.
pub open spec fn bundled_args() -> Seq<Seq<char>> {
    seq![
        "node_modules/@deepseek-ai/dsh/lib/bin.js"@,
        "web"@,
        "--no-open"@,
        "--port"@,
        "0"@,
    ]
}

/// The arguments that start the harness of a checkout from its sources.
pub open spec fn source_args() -> Seq<Seq<char>> {
    seq!["--import"@, "tsx/esm"@, "apps/cli/src/bin.ts"@, "web"@, "--port"@, "0"@]
}

/// The directories of the bundled tools.
pub open spec fn bundled_path_dirs(
    platform: Platform,
    places: LayoutParts,
    state: BundleState,
) -> Seq<paths::PathParts> {
    let node = seq![paths::node_dir(platform, places.root)];
    if state.tools_is_dir {
        node.push(places.tools)
    } else {
        node
    }
}

/// The program to run, where `usual` is the one to run without an override.
pub open spec fn chosen_node(node: Option<Seq<char>>, usual: ProgramParts) -> ProgramParts {
    match node {
        Some(name) => ProgramParts::Command(name),
        None => usual,
    }
}

/// The directory to run in, where `usual` is the one without an override.
pub open spec fn chosen_root(
    repo_root: Option<paths::PathParts>,
    usual: paths::PathParts,
) -> paths::PathParts {
    match repo_root {
        Some(dir) => dir,
        None => usual,
    }
}

/// How to start a harness.
pub open spec fn command(
    platform: Platform,
    resource_dir: Option<paths::PathParts>,
    state: BundleState,
    node: Option<Seq<char>>,
    repo_root: Option<paths::PathParts>,
    manifest_dir: paths::PathParts,
) -> CommandParts {
    if bundled(resource_dir, state) {
        let places = layout(platform, resource_dir.unwrap());
        CommandParts {
            node: chosen_node(node, ProgramParts::File(places.node)),
            args: bundled_args(),
            root: chosen_root(repo_root, places.root.child("harness"@)),
            path_dirs: bundled_path_dirs(platform, places, state),
        }
    } else {
        CommandParts {
            node: chosen_node(node, ProgramParts::Command("node"@)),
            args: source_args(),
            root: chosen_root(repo_root, manifest_dir.above(3)),
            path_dirs: Seq::empty(),
        }
    }
}

/// The program to run, where `usual` is the one to run without an override.
fn choose_node(node: &Option<String>, usual: NodeProgram) -> (r: NodeProgram)
    ensures
        r@ == chosen_node(text::text_of(*node), usual@),
{
    match node {
        Some(name) => NodeProgram::Command(name.clone()),
        None => usual,
    }
}

/// How to start a harness: the bundled one with the bundled node in a packaged
/// app, the one of the checkout in a source build. The environment may name
/// another program and another directory in both. The port is left to the
/// system. `resource_dir` is the app's resource directory, `state` what stands
/// at the places of [`bundle_layout`], and `manifest_dir` the directory that
/// the crate was built in.
pub fn harness_command(
    platform: Platform,
    resource_dir: Option<&FilePath>,
    state: BundleState,
    overrides: &Overrides,
    manifest_dir: &FilePath,
) -> (r: HarnessCommand)
    requires
        overrides.repo_root is None && !bundled(paths::place_parts(resource_dir), state)
            ==> manifest_dir.names.len() >= 3,
    ensures
        r@ == command(
            platform,
            paths::place_parts(resource_dir),
            state,
            text::text_of(overrides.node),
            paths::path_parts(overrides.repo_root),
            manifest_dir@,
        ),
{
    if let Some(dir) = resource_dir {
        if state.node_is_file && state.manifest_is_file {
            let places = bundle_layout(platform, dir);
            let node_dir = bundled_node_dir(platform, &places.root);
            let root = match &overrides.repo_root {
                Some(named) => named.copied(),
                None => places.root.child("harness"),
            };
            let args = vec![
                "node_modules/@deepseek-ai/dsh/lib/bin.js".to_string(),
                "web".to_string(),
                "--no-open".to_string(),
                "--port".to_string(),
                "0".to_string(),
            ];
            assert(text::texts(args@) == bundled_args());
            let mut path_dirs = vec![node_dir];
            if state.tools_is_dir {
                path_dirs.push(places.tools);
            }
            assert(paths::all_path_parts(path_dirs@) == bundled_path_dirs(
                platform,
                layout(platform, dir@),
                state,
            ));
            let node = choose_node(&overrides.node, NodeProgram::File(places.node));
            return HarnessCommand { node, args, root, path_dirs };
        }
    }
    let root = match &overrides.repo_root {
        Some(named) => named.copied(),
        None => dev_repo_root(manifest_dir),
    };
    let args = vec![
        "--import".to_string(),
        "tsx/esm".to_string(),
        "apps/cli/src/bin.ts".to_string(),
        "web".to_string(),
        "--port".to_string(),
        "0".to_string(),
    ];
    assert(text::texts(args@) == source_args());
    let path_dirs: Vec<FilePath> = Vec::new();
    assert(paths::all_path_parts(path_dirs@) == Seq::<paths::PathParts>::empty());
    let node = choose_node(&overrides.node, NodeProgram::Command("node".to_string()));
    HarnessCommand { node, args, root, path_dirs }
}

/// What separates the directories of a search path.
pub open spec fn path_mark(platform: Platform) -> Seq<char> {
    match platform {
        Platform::Windows => ";"@,
        Platform::Unix => ":"@,
    }
}

/// The search path for the harness: the given directories, then what the
/// variable held. It is left alone where there are none, or where it held
/// nothing that could be read.
pub open spec fn search_path(
    platform: Platform,
    dirs: Seq<Seq<char>>,
    existing: Option<Seq<char>>,
) -> Option<Seq<char>> {
    match existing {
        Some(before) => if dirs.len() > 0 {
            Some(text::joined(dirs.push(before), path_mark(platform)))
        } else {
            None
        },
        None => None,
    }
}

/// The value of `PATH` for the harness, where it is to change: the directories
/// of the bundled tools come first, so that they win over installed ones.
pub fn harness_search_path(
    platform: Platform,
    dirs: &Vec<String>,
    existing: Option<&str>,
) -> (r: Option<String>)
    ensures
        text::text_of(r) == search_path(
            platform,
            text::texts(dirs@),
            text::slice_text(existing),
        ),
{
    let before = match existing {
        Some(before) => before,
        None => {
            return None;
        },
    };
    if dirs.len() == 0 {
        return None;
    }
    let mut parts: Vec<String> = Vec::new();
    let mut i: usize = 0;
    while i < dirs.len()
        invariant
            i <= dirs@.len(),
            text::texts(parts@) == text::texts(dirs@).take(i as int),
        decreases dirs@.len() - i,
    {
        let ghost done = text::texts(parts@);
        parts.push(dirs[i].clone());
        assert(text::texts(parts@) == done.push(dirs@[i as int]@));
        assert(text::texts(dirs@).take(i + 1) == done.push(dirs@[i as int]@));
        i = i + 1;
    }
    assert(text::texts(dirs@).take(i as int) == text::texts(dirs@));
    let ghost listed = text::texts(parts@);
    parts.push(before.to_string());
    assert(text::texts(parts@) == listed.push(before@));
    let mark = match platform {
        Platform::Windows => ";",
        Platform::Unix => ":",
    };
    Some(join(&parts, mark))
}

/// Every harness is asked once to serve the web, on a port that the system
/// picks. The bundled one, and no other, is told not to open a browser and
/// finds tools of its own on the search path.
pub proof fn system_picks_the_port(
    platform: Platform,
    resource_dir: Option<paths::PathParts>,
    state: BundleState,
    node: Option<Seq<char>>,
    repo_root: Option<paths::PathParts>,
    manifest_dir: paths::PathParts,
)
    ensures
        ({
            let started = command(platform, resource_dir, state, node, repo_root, manifest_dir);
            let args = started.args;
            &&& args.contains("web"@)
            &&& forall|i: int, j: int|
                0 <= i < args.len() && 0 <= j < args.len() && args[i] == "web"@ && args[j]
                    == "web"@ ==> i == j
            &&& args.len() >= 2
            &&& args[args.len() - 2] == "--port"@
            &&& args.last() == "0"@
            &&& args.contains("--no-open"@) <==> bundled(resource_dir, state)
            &&& started.path_dirs.len() > 0 <==> bundled(resource_dir, state)
        }),
{
    reveal_strlit("node_modules/@deepseek-ai/dsh/lib/bin.js");
    reveal_strlit("web");
    reveal_strlit("--no-open");
    reveal_strlit("--port");
    reveal_strlit("0");
    reveal_strlit("--import");
    reveal_strlit("tsx/esm");
    reveal_strlit("apps/cli/src/bin.ts");
    let packaged = bundled_args();
    assert(packaged[1] == "web"@);
    assert(packaged[2] == "--no-open"@);
    assert forall|i: int| 0 <= i < packaged.len() && packaged[i] == "web"@ implies i == 1 by {
        assert(packaged[i].len() == 3);
    }
    let built = source_args();
    assert(built[3] == "web"@);
    assert forall|i: int| 0 <= i < built.len() implies built[i] != "--no-open"@ && (built[i]
        == "web"@ ==> i == 3) by {
        assert(built[i].len() != 9);
    }
}

/// The environment overrides the program and the directory, in a packaged app
/// as in a source build.
pub proof fn environment_wins(
    platform: Platform,
    resource_dir: Option<paths::PathParts>,
    state: BundleState,
    node: Option<Seq<char>>,
    repo_root: Option<paths::PathParts>,
    manifest_dir: paths::PathParts,
)
    ensures
        ({
            let started = command(platform, resource_dir, state, node, repo_root, manifest_dir);
            &&& node is Some ==> started.node == ProgramParts::Command(node.unwrap())
            &&& repo_root is Some ==> started.root == repo_root.unwrap()
        }),
{
}

/// The first part of a list starts its joined text.
proof fn first_part_leads(parts: Seq<Seq<char>>, mark: Seq<char>)
    requires
        parts.len() > 0,
    ensures
        parts.first().is_prefix_of(text::joined(parts, mark)),
{
    assert(text::joined(parts, mark).take(parts.first().len() as int) == parts.first());
}

/// The bundled tools win: their directories start the search path, and what
/// the variable held before ends it.
pub proof fn bundled_tools_come_first(
    platform: Platform,
    dirs: Seq<Seq<char>>,
    existing: Seq<char>,
)
    requires
        dirs.len() > 0,
    ensures
        search_path(platform, dirs, Some(existing)) is Some,
        search_path(platform, dirs, Some(existing)).unwrap() == text::joined(
            dirs,
            path_mark(platform),
        ) + path_mark(platform) + existing,
        dirs.first().is_prefix_of(search_path(platform, dirs, Some(existing)).unwrap()),
{
    text::joined_push(dirs, path_mark(platform), existing);
    assert(dirs.push(existing).first() == dirs.first());
    first_part_leads(dirs.push(existing), path_mark(platform));
}

/// Whether a command starts the bundled harness is decided by what stands in
/// the app: a node program and the manifest of a harness. On every platform the
/// bundled harness then runs with the bundled node, in the directory that holds
/// its manifest, unless the environment names others.
pub proof fn bundled_harness_runs_beside_its_manifest(
    platform: Platform,
    resource_dir: paths::PathParts,
    state: BundleState,
    node: Option<Seq<char>>,
    repo_root: Option<paths::PathParts>,
    manifest_dir: paths::PathParts,
)
    requires
        state.node_is_file,
        state.manifest_is_file,
    ensures
        ({
            let started = command(
                platform,
                Some(resource_dir),
                state,
                node,
                repo_root,
                manifest_dir,
            );
            let places = layout(platform, resource_dir);
            &&& repo_root is None ==> started.root.child("package.json"@) == places.manifest
            &&& repo_root is Some ==> started.root == repo_root.unwrap()
            &&& node is None ==> started.node == ProgramParts::File(places.node)
            &&& node is Some ==> started.node == ProgramParts::Command(node.unwrap())
            &&& started.args == seq![
                "node_modules/@deepseek-ai/dsh/lib/bin.js"@,
                "web"@,
                "--no-open"@,
                "--port"@,
                "0"@,
            ]
        }),
{
}

/// Without a bundle the harness of the checkout runs from its sources with the
/// installed node, in the directory three levels above the crate, unless the
/// environment names others.
pub proof fn source_harness_runs_in_its_checkout(
    platform: Platform,
    resource_dir: Option<paths::PathParts>,
    state: BundleState,
    node: Option<Seq<char>>,
    repo_root: Option<paths::PathParts>,
    checkout: paths::PathParts,
    first: Seq<char>,
    second: Seq<char>,
    third: Seq<char>,
)
    requires
        resource_dir is None || !state.node_is_file || !state.manifest_is_file,
    ensures
        ({
            let started = command(
                platform,
                resource_dir,
                state,
                node,
                repo_root,
                checkout.child(first).child(second).child(third),
            );
            &&& repo_root is None ==> started.root == checkout
            &&& repo_root is Some ==> started.root == repo_root.unwrap()
            &&& node is None ==> started.node == ProgramParts::Command("node"@)
            &&& node is Some ==> started.node == ProgramParts::Command(node.unwrap())
            &&& started.args == seq![
                "--import"@,
                "tsx/esm"@,
                "apps/cli/src/bin.ts"@,
                "web"@,
                "--port"@,
                "0"@,
            ]
            &&& started.path_dirs.len() == 0
        }),
{
    paths::nested_crate_finds_checkout(checkout, first, second, third);
}

/// The bundle stands in `resources` inside the app's resource directory: the
/// harness in `harness` with its manifest and its dependencies' programs, and
/// node where the platform keeps it.
pub proof fn bundle_stands_in_the_resources(platform: Platform, resource_dir: paths::PathParts)
    ensures
        ({
            let places = layout(platform, resource_dir);
            let harness = resource_dir.names + seq!["resources"@, "harness"@];
            &&& places.root == resource_dir.child("resources"@)
            &&& places.manifest.anchor == resource_dir.anchor
            &&& places.manifest.names == harness.push("package.json"@)
            &&& places.tools.anchor == resource_dir.anchor
            &&& places.tools.names == harness + seq!["node_modules"@, ".bin"@]
            &&& places.node.anchor == resource_dir.anchor
            &&& places.node.names == resource_dir.names + if platform == Platform::Windows {
                seq!["resources"@, "node"@, "node.exe"@]
            } else {
                seq!["resources"@, "node"@, "bin"@, "node"@]
            }
        }),
{
    let places = layout(platform, resource_dir);
    let harness = resource_dir.names + seq!["resources"@, "harness"@];
    assert(harness == resource_dir.names.push("resources"@).push("harness"@));
    assert(places.tools.names == harness + seq!["node_modules"@, ".bin"@]);
    paths::bundled_node_is_on_the_search_path(platform, places.root);
    if platform == Platform::Windows {
        assert(places.node.names == resource_dir.names + seq![
            "resources"@,
            "node"@,
            "node.exe"@,
        ]);
    } else {
        assert(places.node.names == resource_dir.names + seq![
            "resources"@,
            "node"@,
            "bin"@,
            "node"@,
        ]);
    }
}

/// The search path of the bundled harness gets the directory that holds the
/// bundled node, then the one of the dependencies' programs where there is one,
/// whatever the environment names.
pub proof fn bundled_programs_are_found(
    platform: Platform,
    resource_dir: paths::PathParts,
    state: BundleState,
    node: Option<Seq<char>>,
    repo_root: Option<paths::PathParts>,
    manifest_dir: paths::PathParts,
)
    requires
        state.node_is_file,
        state.manifest_is_file,
    ensures
        ({
            let dirs = command(
                platform,
                Some(resource_dir),
                state,
                node,
                repo_root,
                manifest_dir,
            ).path_dirs;
            let places = layout(platform, resource_dir);
            &&& dirs.len() == if state.tools_is_dir {
                2int
            } else {
                1int
            }
            &&& dirs[0] == places.node.above(1)
            &&& state.tools_is_dir ==> dirs[1] == places.tools
        }),
{
    paths::bundled_node_is_on_the_search_path(platform, layout(platform, resource_dir).root);
}

/// The search path changes only where there are directories to add and one to
/// add them to. Its parts are then these directories in their order and the old
/// value, with the platform's mark between them.
pub proof fn search_path_lists_every_part(dirs: Seq<Seq<char>>, existing: Seq<char>)
    ensures
        dirs.len() > 0 ==> search_path(Platform::Unix, dirs, Some(existing)) == Some(
            text::joined(dirs + seq![existing], ":"@),
        ),
        dirs.len() > 0 ==> search_path(Platform::Windows, dirs, Some(existing)) == Some(
            text::joined(dirs + seq![existing], ";"@),
        ),
        dirs.len() == 0 ==> search_path(Platform::Unix, dirs, Some(existing)) is None,
        dirs.len() == 0 ==> search_path(Platform::Windows, dirs, Some(existing)) is None,
        search_path(Platform::Unix, dirs, None) is None,
        search_path(Platform::Windows, dirs, None) is None,
{
    assert(dirs + seq![existing] == dirs.push(existing));
}

/// A layout, a program and a command stand for their fields, all of them.
pub proof fn commands_show_their_fields(
    places: BundleLayout,
    started: HarnessCommand,
    name: String,
    file: FilePath,
)
    ensures
        places@.root == places.root@,
        places@.node == places.node@,
        places@.manifest == places.manifest@,
        places@.tools == places.tools@,
        started@.node == started.node@,
        started@.args == text::texts(started.args@),
        started@.root == started.root@,
        started@.path_dirs == paths::all_path_parts(started.path_dirs@),
        NodeProgram::Command(name)@ == ProgramParts::Command(name@),
        NodeProgram::File(file)@ == ProgramParts::File(file@),
{
}

} // verus!
