//! Where the shell's files stand.

use vstd::prelude::*;

use crate::text;

verus! {

/// The kind of system that the shell runs on, as far as files and processes
/// differ with it.
#[derive(Clone, Copy, Debug, PartialEq, Eq, Structural)]
pub enum Platform {
    /// macOS, Linux and the like.
    Unix,
    /// Windows.
    Windows,
}

/// A path in a file system, taken apart as the platform takes paths apart. Two
/// paths are the same where these parts are.
#[derive(Debug)]
pub struct FilePath {
    /// Where the path starts: a root, a drive or both, or nothing where the
    /// path is relative.
    pub anchor: String,
    /// The components from there on.
    pub names: Vec<String>,
}

/// What a [`FilePath`] stands for.
pub struct PathParts {
    /// Where the path starts.
    pub anchor: Seq<char>,
    /// The components from there on.
    pub names: Seq<Seq<char>>,
}

impl View for FilePath {
    type V = PathParts;

    open spec fn view(&self) -> PathParts {
        PathParts { anchor: self.anchor@, names: text::texts(self.names@) }
    }
}

impl PathParts {
    /// The path of the entry `name` below this path.
    pub open spec fn child(self, name: Seq<char>) -> PathParts {
        PathParts { anchor: self.anchor, names: self.names.push(name) }
    }

    /// The path `levels` above this one.
    pub open spec fn above(self, levels: int) -> PathParts {
        PathParts { anchor: self.anchor, names: self.names.take(self.names.len() - levels) }
    }
}

/// The parts of a path that may be absent.
pub open spec fn path_parts(path: Option<FilePath>) -> Option<PathParts> {
    match path {
        Some(p) => Some(p@),
        None => None,
    }
}

/// The parts of a borrowed path that may be absent.
pub open spec fn place_parts(path: Option<&FilePath>) -> Option<PathParts> {
    match path {
        Some(p) => Some(p@),
        None => None,
    }
}

/// The parts of a list of paths.
pub open spec fn all_path_parts(list: Seq<FilePath>) -> Seq<PathParts> {
    list.map_values(|p: FilePath| p@)
}

/// Copies the first `count` strings of a list.
fn first_strings(list: &Vec<String>, count: usize) -> (r: Vec<String>)
    requires
        count <= list@.len(),
    ensures
        text::texts(r@) == text::texts(list@).take(count as int),
{
    let mut r: Vec<String> = Vec::new();
    let mut i: usize = 0;
    while i < count
        invariant
            i <= count <= list@.len(),
            text::texts(r@) == text::texts(list@).take(i as int),
        decreases count - i,
    {
        let ghost done = text::texts(r@);
        r.push(list[i].clone());
        assert(text::texts(r@) == done.push(list@[i as int]@));
        assert(text::texts(list@).take(i + 1) == done.push(list@[i as int]@));
        i = i + 1;
    }
    r
}

impl FilePath {
    /// Another copy of this path.
    pub fn copied(&self) -> (r: FilePath)
        ensures
            r@ == self@,
    {
        let names = first_strings(&self.names, self.names.len());
        assert(text::texts(names@) == text::texts(self.names@));
        FilePath { anchor: self.anchor.clone(), names }
    }

    /// The path of the entry `name` below this path.
    pub fn child(&self, name: &str) -> (r: FilePath)
        ensures
            r@ == self@.child(name@),
    {
        let mut path = self.copied();
        path.names.push(name.to_string());
        assert(text::texts(path.names@) == text::texts(self.names@).push(name@));
        path
    }
}

/// The checkout that a source build runs from: the directory three levels
/// above the one that the crate was built in.
pub fn dev_repo_root(manifest_dir: &FilePath) -> (r: FilePath)
    requires
        manifest_dir.names.len() >= 3,
    ensures
        r@ == manifest_dir@.above(3),
{
    let kept: usize = manifest_dir.names.len() - 3;
    FilePath {
        anchor: manifest_dir.anchor.clone(),
        names: first_strings(&manifest_dir.names, kept),
    }
}

/// The directory of the bundled node's programs: the one of the archive on
/// Windows, its `bin` elsewhere.
pub open spec fn node_dir(platform: Platform, dir: PathParts) -> PathParts {
    match platform {
        Platform::Windows => dir.child("node"@),
        Platform::Unix => dir.child("node"@).child("bin"@),
    }
}

/// The bundled node program itself.
pub open spec fn node_binary(platform: Platform, dir: PathParts) -> PathParts {
    match platform {
        Platform::Windows => node_dir(platform, dir).child("node.exe"@),
        Platform::Unix => node_dir(platform, dir).child("node"@),
    }
}

/// The directory to put on the search path for the bundled node.
pub fn bundled_node_dir(platform: Platform, dir: &FilePath) -> (r: FilePath)
    ensures
        r@ == node_dir(platform, dir@),
{
    match platform {
        Platform::Windows => dir.child("node"),
        Platform::Unix => dir.child("node").child("bin"),
    }
}

/// The node program inside the staged node directory.
pub fn bundled_node_binary(platform: Platform, dir: &FilePath) -> (r: FilePath)
    ensures
        r@ == node_binary(platform, dir@),
{
    let programs = bundled_node_dir(platform, dir);
    match platform {
        Platform::Windows => programs.child("node.exe"),
        Platform::Unix => programs.child("node"),
    }
}

/// The variable that names the user's home directory.
pub open spec fn home_variable_name(platform: Platform) -> Seq<char> {
    match platform {
        Platform::Windows => "USERPROFILE"@,
        Platform::Unix => "HOME"@,
    }
}

/// The name of the variable that names the user's home directory.
pub fn home_variable(platform: Platform) -> (r: String)
    ensures
        r@ == home_variable_name(platform),
{
    match platform {
        Platform::Windows => "USERPROFILE".to_string(),
        Platform::Unix => "HOME".to_string(),
    }
}

/// The user's home directory, where `home` is what the variable names.
pub open spec fn home_dir(platform: Platform, home: Option<PathParts>) -> PathParts {
    match (home, platform) {
        (Some(dir), _) => dir,
        (None, Platform::Windows) => PathParts { anchor: Seq::empty(), names: seq!["."@] },
        (None, Platform::Unix) => PathParts { anchor: "/"@, names: seq!["tmp"@] },
    }
}

/// The user's home directory: what the home variable names, or else the
/// current directory on Windows and `/tmp` elsewhere.
pub fn user_home(platform: Platform, home: Option<FilePath>) -> (r: FilePath)
    ensures
        r@ == home_dir(platform, path_parts(home)),
{
    match home {
        Some(dir) => dir,
        None => {
            let (anchor, name) = match platform {
                Platform::Windows => (String::new(), "."),
                Platform::Unix => ("/".to_string(), "tmp"),
            };
            let root = FilePath { anchor, names: Vec::new() };
            let r = root.child(name);
            assert(r@.names == seq![name@]);
            r
        },
    }
}

/// The harness home, where `dsh_home` is what `DSH_HOME` names.
pub open spec fn harness_dir(dsh_home: Option<PathParts>, user_home: PathParts) -> PathParts {
    match dsh_home {
        Some(dir) => dir,
        None => user_home.child(".dsh"@),
    }
}

/// The harness home: what `DSH_HOME` names, or else `.dsh` in the user's home.
pub fn harness_home(dsh_home: Option<FilePath>, user_home: &FilePath) -> (r: FilePath)
    ensures
        r@ == harness_dir(path_parts(dsh_home), user_home@),
{
    match dsh_home {
        Some(dir) => dir,
        None => user_home.child(".dsh"),
    }
}

/// The file that records the URL of a spawned harness.
pub open spec fn record_file(harness_home: PathParts) -> PathParts {
    harness_home.child("desktop-harness.url"@)
}

/// The directory that holds the profiles.
pub open spec fn profiles_place(harness_home: PathParts) -> PathParts {
    harness_home.child("profiles"@)
}

/// The workspace file of a profile.
pub open spec fn workspace_file(profile_dir: PathParts) -> PathParts {
    profile_dir.child("pnpm-workspace.yaml"@)
}

/// The file that records the URL of the harness that an instance of the shell
/// spawned.
pub fn harness_port_file(harness_home: &FilePath) -> (r: FilePath)
    ensures
        r@ == harness_home@.child("desktop-harness.url"@),
        r@ == record_file(harness_home@),
{
    harness_home.child("desktop-harness.url")
}

/// The directory that holds the profiles.
pub fn profiles_dir(harness_home: &FilePath) -> (r: FilePath)
    ensures
        r@ == harness_home@.child("profiles"@),
        r@ == profiles_place(harness_home@),
{
    harness_home.child("profiles")
}

/// The workspace file of a profile.
pub fn profile_workspace(profile_dir: &FilePath) -> (r: FilePath)
    ensures
        r@ == profile_dir@.child("pnpm-workspace.yaml"@),
        r@ == workspace_file(profile_dir@),
{
    profile_dir.child("pnpm-workspace.yaml")
}

/// The checkout is found from a crate that is nested three levels below it.
pub proof fn nested_crate_finds_checkout(
    checkout: PathParts,
    first: Seq<char>,
    second: Seq<char>,
    third: Seq<char>,
)
    ensures
        checkout.child(first).child(second).child(third).above(3) == checkout,
{
    assert(checkout.child(first).child(second).child(third).above(3).names == checkout.names);
}

/// A child stands directly below its path, under its name.
pub proof fn child_stands_below(path: PathParts, name: Seq<char>)
    ensures
        path.child(name).anchor == path.anchor,
        path.child(name).names.len() == path.names.len() + 1,
        path.child(name).names.last() == name,
        path.child(name).above(1) == path,
{
    assert(path.child(name).above(1).names == path.names);
}

/// The bundled node stands in the directory that goes on the search path, at
/// `node/bin/node` or, on Windows, at `node/node.exe`.
pub proof fn bundled_node_is_on_the_search_path(platform: Platform, dir: PathParts)
    ensures
        node_binary(platform, dir).above(1) == node_dir(platform, dir),
        node_binary(platform, dir).anchor == dir.anchor,
        node_binary(platform, dir).names == dir.names + if platform == Platform::Windows {
            seq!["node"@, "node.exe"@]
        } else {
            seq!["node"@, "bin"@, "node"@]
        },
{
    assert(node_binary(platform, dir).above(1).names == node_dir(platform, dir).names);
    assert(dir.names + seq!["node"@, "node.exe"@] == dir.names.push("node"@).push("node.exe"@));
    assert(dir.names + seq!["node"@, "bin"@, "node"@] == dir.names.push("node"@).push(
        "bin"@,
    ).push("node"@));
}

/// What a variable names is taken as it is. Without `DSH_HOME` the harness
/// keeps its files in `.dsh` below the home; without a home that is the current
/// directory on Windows and `/tmp` elsewhere.
pub proof fn named_directories_are_used(
    platform: Platform,
    home: Option<PathParts>,
    dsh_home: Option<PathParts>,
    user_home: PathParts,
)
    ensures
        home is Some ==> home_dir(platform, home) == home.unwrap(),
        home is None ==> home_dir(platform, home).names.len() == 1,
        home is None && platform == Platform::Windows ==> home_dir(platform, home).anchor.len()
            == 0 && home_dir(platform, home).names[0] == "."@,
        home is None && platform == Platform::Unix ==> home_dir(platform, home).anchor == "/"@
            && home_dir(platform, home).names[0] == "tmp"@,
        dsh_home is Some ==> harness_dir(dsh_home, user_home) == dsh_home.unwrap(),
        dsh_home is None ==> harness_dir(dsh_home, user_home).above(1) == user_home && harness_dir(
            dsh_home,
            user_home,
        ).names.last() == ".dsh"@,
        home_variable_name(Platform::Windows) == "USERPROFILE"@,
        home_variable_name(Platform::Unix) == "HOME"@,
{
    child_stands_below(user_home, ".dsh"@);
}

/// A path stands for its parts, all of them, in a list and where it may be
/// absent.
pub proof fn paths_are_kept(
    path: FilePath,
    list: Seq<FilePath>,
    owned: Option<FilePath>,
    borrowed: Option<&FilePath>,
)
    ensures
        path@.anchor == path.anchor@,
        path@.names == text::texts(path.names@),
        all_path_parts(list).len() == list.len(),
        forall|i: int| 0 <= i < list.len() ==> #[trigger] all_path_parts(list)[i] == list[i]@,
        path_parts(owned) is Some <==> owned is Some,
        owned is Some ==> path_parts(owned).unwrap() == owned.unwrap()@,
        place_parts(borrowed) is Some <==> borrowed is Some,
        borrowed is Some ==> place_parts(borrowed).unwrap() == borrowed.unwrap()@,
{
}

/// The shell's files stand directly in the harness home, and the workspace file
/// directly in its profile, each under its own name.
pub proof fn files_have_their_names(home: PathParts)
    ensures
        record_file(home).above(1) == home,
        record_file(home).names.last() == "desktop-harness.url"@,
        profiles_place(home).above(1) == home,
        profiles_place(home).names.last() == "profiles"@,
        workspace_file(home).above(1) == home,
        workspace_file(home).names.last() == "pnpm-workspace.yaml"@,
{
    child_stands_below(home, "desktop-harness.url"@);
    child_stands_below(home, "profiles"@);
    child_stands_below(home, "pnpm-workspace.yaml"@);
}

} // verus!
