//! The build allowlist of a profile's `pnpm-workspace.yaml`.
//!
//! pnpm runs a dependency's install script only where the workspace file
//! allows it under `allowBuilds:`. Plugins with a terminal need the one of
//! `node-pty`, so the shell adds that entry to the files that lack it.

use vstd::prelude::*;

use crate::paths;
use crate::paths::{profile_workspace, FilePath};
use crate::text;
use crate::text::{
    is_white_space, join, lead, same_text, split_lines, trim, without, without_front, CharClass,
};

verus! {

/// The line that opens the allowlist.
pub const ALLOW_BUILDS: &'static str = "allowBuilds:";

/// The package whose install script is to run.
pub const NODE_PTY: &'static str = "node-pty";

/// The entry that allows it.
pub const NODE_PTY_ENTRY: &'static str = "  node-pty: true";

/// Whether `line` opens the allowlist.
pub open spec fn opens_list(line: Seq<char>) -> bool {
    text::trimmed(line) == ALLOW_BUILDS@
}

/// The key of a `key: value` line, without the quotes it may stand in.
pub open spec fn entry_key(line: Seq<char>) -> Seq<char> {
    let body = text::strip_front(line, CharClass::WhiteSpace);
    let key = text::leading(body, CharClass::BeforeColon);
    text::strip(text::trimmed(key), CharClass::Quote)
}

/// Whether `line` is an entry for `node-pty`, whatever its value.
pub open spec fn names_node_pty(line: Seq<char>) -> bool {
    entry_key(line) == NODE_PTY@
}

/// The place of the first line that opens the allowlist, or the number of
/// lines where none does.
pub open spec fn list_start(lines: Seq<Seq<char>>) -> nat
    decreases lines.len(),
{
    if lines.len() == 0 || opens_list(lines.first()) {
        0
    } else {
        1 + list_start(lines.drop_first())
    }
}

/// Whether `line` ends the section it stands below: it is neither empty nor
/// indented nor a comment.
pub open spec fn ends_section(line: Seq<char>) -> bool {
    line.len() > 0 && !text::white_space(line[0]) && line[0] != '#'
}

/// Whether the section that opens at place `start` reaches to place `i`.
pub open spec fn in_section(lines: Seq<Seq<char>>, start: int, i: int) -> bool {
    forall|k: int| start < k <= i ==> !ends_section(#[trigger] lines[k])
}

/// Whether an entry for `node-pty` stands in the section that opens at place
/// `start`. A `node-pty` key of a later section is no such entry.
pub open spec fn listed_after(lines: Seq<Seq<char>>, start: int) -> bool {
    exists|i: int|
        start < i < lines.len() && names_node_pty(#[trigger] lines[i]) && in_section(
            lines,
            start,
            i,
        )
}

/// Whether the file opens an allowlist that names `node-pty`. Where it opens
/// more than one, any of them will do.
pub open spec fn lists_node_pty(lines: Seq<Seq<char>>) -> bool {
    exists|start: int|
        0 <= start < lines.len() && opens_list(#[trigger] lines[start]) && listed_after(
            lines,
            start,
        )
}

/// The lines of the file with the entry: below the first line that opens an
/// allowlist, or in an allowlist of its own at the end.
pub open spec fn with_entry(lines: Seq<Seq<char>>) -> Seq<Seq<char>> {
    let start = list_start(lines);
    if start < lines.len() {
        lines.insert(start as int + 1, NODE_PTY_ENTRY@)
    } else {
        lines + seq![Seq::<char>::empty(), ALLOW_BUILDS@, NODE_PTY_ENTRY@]
    }
}

/// The text of a file with these lines, each ended by a line feed.
pub open spec fn file_text(lines: Seq<Seq<char>>) -> Seq<char> {
    text::joined(lines, "\n"@) + "\n"@
}

/// The new text of a workspace file, where it has to change.
pub open spec fn patched(content: Option<Seq<char>>) -> Option<Seq<char>> {
    match content {
        None => None,
        Some(file) => {
            let lines = text::lines(file);
            if lists_node_pty(lines) {
                None
            } else {
                Some(file_text(with_entry(lines)))
            }
        },
    }
}

/// Tells whether `line` opens the allowlist.
fn is_list_start(line: &str) -> (r: bool)
    ensures
        r == opens_list(line@),
{
    same_text(trim(line), ALLOW_BUILDS)
}

/// Tells whether `line` is an entry for `node-pty`.
fn is_node_pty_entry(line: &str) -> (r: bool)
    ensures
        r == names_node_pty(line@),
{
    let key = lead(without_front(line, CharClass::WhiteSpace), CharClass::BeforeColon);
    same_text(without(trim(key), CharClass::Quote), NODE_PTY)
}

/// The place of the first line that opens the allowlist.
fn find_list(lines: &Vec<String>) -> (r: usize)
    ensures
        r == list_start(text::texts(lines@)),
        r <= lines@.len(),
{
    let ghost all = text::texts(lines@);
    let mut i: usize = 0;
    assert(all.skip(0) == all);
    while i < lines.len() && !is_list_start(lines[i].as_str())
        invariant
            all == text::texts(lines@),
            i <= lines@.len(),
            list_start(all) == i + list_start(all.skip(i as int)),
        decreases lines@.len() - i,
    {
        assert(all.skip(i as int).drop_first() == all.skip(i + 1));
        i = i + 1;
    }
    i
}

/// Tells whether `line` ends the section it stands below.
fn is_section_end(line: &str) -> (r: bool)
    ensures
        r == ends_section(line@),
{
    if line.is_empty() {
        return false;
    }
    let first = line.get_char(0);
    !is_white_space(first) && first != '#'
}

/// Tells whether an entry for `node-pty` stands in the section that opens at
/// place `start`.
fn is_listed_after(lines: &Vec<String>, start: usize) -> (r: bool)
    requires
        start < lines.len(),
    ensures
        r == listed_after(text::texts(lines@), start as int),
{
    let ghost all = text::texts(lines@);
    let mut i: usize = start + 1;
    while i < lines.len()
        invariant
            all == text::texts(lines@),
            start < i <= lines@.len(),
            forall|k: int| start < k < i ==> !names_node_pty(#[trigger] all[k]),
            in_section(all, start as int, i - 1),
        decreases lines@.len() - i,
    {
        if is_section_end(lines[i].as_str()) {
            assert(ends_section(all[i as int]));
            return false;
        }
        if is_node_pty_entry(lines[i].as_str()) {
            assert(names_node_pty(all[i as int]));
            return true;
        }
        i = i + 1;
    }
    false
}

/// Tells whether the file opens an allowlist that names `node-pty`.
fn is_listed(lines: &Vec<String>) -> (r: bool)
    ensures
        r == lists_node_pty(text::texts(lines@)),
{
    let ghost all = text::texts(lines@);
    let mut i: usize = 0;
    while i < lines.len()
        invariant
            all == text::texts(lines@),
            i <= lines@.len(),
            forall|k: int|
                0 <= k < i ==> !(opens_list(#[trigger] all[k]) && listed_after(all, k)),
        decreases lines@.len() - i,
    {
        if is_list_start(lines[i].as_str()) && is_listed_after(lines, i) {
            assert(opens_list(all[i as int]));
            return true;
        }
        i = i + 1;
    }
    false
}

/// The text that a profile's workspace file is to have so that pnpm runs
/// `node-pty`'s install script, or `None` where the file stays as it is: it
/// could not be read, or an allowlist in it names `node-pty` already, with
/// whatever value.
pub fn ensure_node_pty_allow_builds(content: Option<&str>) -> (r: Option<String>)
    ensures
        text::text_of(r) == patched(text::slice_text(content)),
{
    let file = match content {
        Some(file) => file,
        None => {
            return None;
        },
    };
    let mut lines = split_lines(file);
    let ghost before = text::texts(lines@);
    if is_listed(&lines) {
        return None;
    }
    let start: usize = find_list(&lines);
    if start < lines.len() {
        lines.insert(start + 1, NODE_PTY_ENTRY.to_string());
    } else {
        lines.push(String::new());
        lines.push(ALLOW_BUILDS.to_string());
        lines.push(NODE_PTY_ENTRY.to_string());
    }
    assert(text::texts(lines@) == with_entry(before));
    let mut result = join(&lines, "\n");
    result.append("\n");
    Some(result)
}

/// A carriage return at the end of a line changes neither its trimmed text nor
/// its key.
proof fn return_is_ignored(line: Seq<char>)
    ensures
        text::trimmed(text::without_return(line)) == text::trimmed(line),
        entry_key(text::without_return(line)) == entry_key(line),
{
    let short = text::without_return(line);
    if short != line {
        assert(line == short.push('\r'));
        text::trimmed_push(short, '\r');
        text::strip_front_push(short, CharClass::WhiteSpace, '\r');
        let body = text::strip_front(short, CharClass::WhiteSpace);
        if text::strip_front(line, CharClass::WhiteSpace) != body {
            text::leading_push(body, CharClass::BeforeColon, '\r');
            let key = text::leading(body, CharClass::BeforeColon);
            text::trimmed_push(key, '\r');
        }
    }
}

/// The list starts where a line opens it and none before does.
proof fn list_starts_at(lines: Seq<Seq<char>>, start: nat)
    requires
        start <= lines.len(),
        forall|i: int| 0 <= i < start ==> !opens_list(#[trigger] lines[i]),
        start < lines.len() ==> opens_list(lines[start as int]),
    ensures
        list_start(lines) == start,
    decreases start,
{
    if start > 0 {
        assert(!opens_list(lines[0]));
        let rest = lines.drop_first();
        assert forall|i: int| 0 <= i < start - 1 implies !opens_list(#[trigger] rest[i]) by {
            assert(rest[i] == lines[i + 1]);
        }
        list_starts_at(rest, (start - 1) as nat);
    }
}

/// Where the list starts, and that no line before it opens one.
proof fn list_start_within(lines: Seq<Seq<char>>)
    ensures
        list_start(lines) <= lines.len(),
        forall|i: int| 0 <= i < list_start(lines) ==> !opens_list(#[trigger] lines[i]),
        list_start(lines) < lines.len() ==> opens_list(lines[list_start(lines) as int]),
    decreases lines.len(),
{
    if lines.len() > 0 && !opens_list(lines.first()) {
        let rest = lines.drop_first();
        list_start_within(rest);
        assert forall|i: int| 0 <= i < list_start(lines) implies !opens_list(
            #[trigger] lines[i],
        ) by {
            if i > 0 {
                assert(lines[i] == rest[i - 1]);
            }
        }
        if list_start(lines) < lines.len() {
            assert(lines[list_start(lines) as int] == rest[list_start(rest) as int]);
        }
    }
}

/// The added lines are what they are meant to be: one opens the allowlist,
/// one names `node-pty`, and the empty line does neither.
proof fn added_lines()
    ensures
        opens_list(ALLOW_BUILDS@),
        !opens_list(Seq::<char>::empty()),
        names_node_pty(NODE_PTY_ENTRY@),
        !ends_section(NODE_PTY_ENTRY@),
        !ALLOW_BUILDS@.contains('\n'),
        !NODE_PTY_ENTRY@.contains('\n'),
        text::without_return(ALLOW_BUILDS@) == ALLOW_BUILDS@,
        text::without_return(NODE_PTY_ENTRY@) == NODE_PTY_ENTRY@,
{
    reveal_strlit("allowBuilds:");
    reveal_strlit("  node-pty: true");
    reveal_strlit("node-pty");
    let open = ALLOW_BUILDS@;
    text::front_is(open, CharClass::WhiteSpace, 0);
    assert(text::strip_front(open, CharClass::WhiteSpace) == open);
    text::back_is(open, CharClass::WhiteSpace, 0);
    assert(text::trimmed(open) == open);
    assert(text::trimmed(Seq::<char>::empty()) == Seq::<char>::empty());
    let entry = NODE_PTY_ENTRY@;
    text::front_is(entry, CharClass::WhiteSpace, 2);
    let body = entry.skip(2);
    text::front_is(body, CharClass::BeforeColon, 8);
    let key = body.take(8);
    assert(key == NODE_PTY@);
    text::front_is(key, CharClass::WhiteSpace, 0);
    assert(text::strip_front(key, CharClass::WhiteSpace) == key);
    text::back_is(key, CharClass::WhiteSpace, 0);
    assert(text::trimmed(key) == key);
    text::front_is(key, CharClass::Quote, 0);
    assert(text::strip_front(key, CharClass::Quote) == key);
    text::back_is(key, CharClass::Quote, 0);
    assert(text::strip(key, CharClass::Quote) == key);
}

/// The lines with the entry, as the file that holds them is read back.
pub open spec fn read_back(lines: Seq<Seq<char>>) -> Seq<Seq<char>> {
    lines.map_values(|line: Seq<char>| text::without_return(line))
}

/// The patched file, read again, is the old one with the entry; only a
/// carriage return at the end of a line may be gone.
pub proof fn patched_file_reads_back(content: Seq<char>)
    requires
        patched(Some(content)) is Some,
    ensures
        text::lines(patched(Some(content)).unwrap()) == read_back(
            with_entry(text::lines(content)),
        ),
{
    let old = text::lines(content);
    let new = with_entry(old);
    text::lines_hold_no_feed(content);
    list_start_within(old);
    added_lines();
    let start = list_start(old) as int;
    assert forall|i: int| 0 <= i < new.len() implies !(#[trigger] new[i]).contains('\n') by {
        if start < old.len() {
            if i <= start {
                assert(new[i] == old[i]);
            } else if i > start + 1 {
                assert(new[i] == old[i - 1]);
            }
        } else if i < old.len() {
            assert(new[i] == old[i]);
        }
    }
    text::lines_of_joined(new);
}

/// Existing lines are never rewritten: the patched file holds each of them,
/// in their order, with the added lines in one place between them.
pub proof fn existing_lines_stay(content: Seq<char>)
    requires
        patched(Some(content)) is Some,
    ensures
        ({
            let old = read_back(text::lines(content));
            let start = list_start(text::lines(content)) as int;
            let new = text::lines(patched(Some(content)).unwrap());
            if start < old.len() {
                new == old.take(start + 1) + seq![NODE_PTY_ENTRY@] + old.skip(start + 1)
            } else {
                new == old + seq![Seq::<char>::empty(), ALLOW_BUILDS@, NODE_PTY_ENTRY@]
            }
        }),
{
    patched_file_reads_back(content);
    added_lines();
    let lines = text::lines(content);
    let old = read_back(lines);
    let start = list_start(lines) as int;
    let new = text::lines(patched(Some(content)).unwrap());
    list_start_within(lines);
    if start < old.len() {
        assert(new == old.take(start + 1) + seq![NODE_PTY_ENTRY@] + old.skip(start + 1));
    } else {
        assert(new == old + seq![Seq::<char>::empty(), ALLOW_BUILDS@, NODE_PTY_ENTRY@]);
    }
}

/// The patched file allows the build: it opens an allowlist, and the line
/// below is the entry.
pub proof fn patched_file_lists_node_pty(content: Seq<char>)
    requires
        patched(Some(content)) is Some,
    ensures
        ({
            let new = text::lines(patched(Some(content)).unwrap());
            let start = list_start(new) as int;
            &&& start + 1 < new.len()
            &&& new[start + 1] == NODE_PTY_ENTRY@
            &&& lists_node_pty(new)
        }),
{
    patched_file_reads_back(content);
    added_lines();
    let old = text::lines(content);
    let with = with_entry(old);
    let new = text::lines(patched(Some(content)).unwrap());
    list_start_within(old);
    let start = if list_start(old) < old.len() {
        list_start(old)
    } else {
        old.len() + 1
    };
    assert forall|i: int| 0 <= i < start implies !opens_list(#[trigger] new[i]) by {
        return_is_ignored(with[i]);
        if i < old.len() {
            assert(with[i] == old[i]);
        }
    }
    return_is_ignored(with[start as int]);
    list_starts_at(new, start);
    assert(with[start as int + 1] == NODE_PTY_ENTRY@);
    assert(new[start as int + 1] == NODE_PTY_ENTRY@);
    assert(in_section(new, start as int, start as int + 1));
    assert(opens_list(new[start as int]));
}

/// Patching is idempotent: a patched file is not patched again.
pub proof fn patching_twice_changes_nothing(content: Seq<char>)
    requires
        patched(Some(content)) is Some,
    ensures
        patched(patched(Some(content))) is None,
{
    patched_file_lists_node_pty(content);
}

/// An entry of the directory that holds the profiles.
#[derive(Debug)]
pub struct Profile {
    /// The name of the entry.
    pub name: String,
    /// The entry is a directory.
    pub is_dir: bool,
    /// The text of its workspace file, where that is a file and can be read.
    pub workspace: Option<String>,
}

/// What a [`Profile`] stands for.
pub struct ProfileParts {
    /// The name of the entry.
    pub name: Seq<char>,
    /// The entry is a directory.
    pub is_dir: bool,
    /// The text of its workspace file.
    pub workspace: Option<Seq<char>>,
}

impl View for Profile {
    type V = ProfileParts;

    open spec fn view(&self) -> ProfileParts {
        ProfileParts {
            name: self.name@,
            is_dir: self.is_dir,
            workspace: text::text_of(self.workspace),
        }
    }
}

/// A workspace file to be written.
#[derive(Debug)]
pub struct WorkspacePatch {
    /// The place of the profile in the list.
    pub profile: usize,
    /// The file.
    pub path: FilePath,
    /// Its new text.
    pub content: String,
}

/// What a [`WorkspacePatch`] stands for.
pub struct PatchParts {
    /// The place of the profile in the list.
    pub profile: nat,
    /// The file.
    pub path: paths::PathParts,
    /// Its new text.
    pub content: Seq<char>,
}

impl View for WorkspacePatch {
    type V = PatchParts;

    open spec fn view(&self) -> PatchParts {
        PatchParts { profile: self.profile as nat, path: self.path@, content: self.content@ }
    }
}

/// What there is to write for the profile at a place in the list.
pub open spec fn profile_patch(
    profiles_dir: paths::PathParts,
    place: nat,
    profile: ProfileParts,
) -> Option<PatchParts> {
    if profile.is_dir {
        match patched(profile.workspace) {
            Some(content) => Some(
                PatchParts {
                    profile: place,
                    path: profiles_dir.child(profile.name).child("pnpm-workspace.yaml"@),
                    content,
                },
            ),
            None => None,
        }
    } else {
        None
    }
}

/// What there is to write for all profiles, in their order.
pub open spec fn all_patches(
    profiles_dir: paths::PathParts,
    profiles: Seq<ProfileParts>,
) -> Seq<PatchParts>
    decreases profiles.len(),
{
    if profiles.len() == 0 {
        Seq::empty()
    } else {
        let before = all_patches(profiles_dir, profiles.drop_last());
        match profile_patch(profiles_dir, (profiles.len() - 1) as nat, profiles.last()) {
            Some(patch) => before.push(patch),
            None => before,
        }
    }
}

/// The parts of a list of profiles.
pub open spec fn profile_parts(list: Seq<Profile>) -> Seq<ProfileParts> {
    list.map_values(|p: Profile| p@)
}

/// The parts of a list of files to be written.
pub open spec fn patch_parts(list: Seq<WorkspacePatch>) -> Seq<PatchParts> {
    list.map_values(|p: WorkspacePatch| p@)
}

/// The workspace files to write so that plugin installs in every existing
/// profile can run `node-pty`'s install script.
pub fn patch_profiles_for_node_pty(profiles_dir: &FilePath, profiles: &Vec<Profile>) -> (r: Vec<
    WorkspacePatch,
>)
    ensures
        patch_parts(r@) == all_patches(profiles_dir@, profile_parts(profiles@)),
{
    let ghost all = profile_parts(profiles@);
    let mut r: Vec<WorkspacePatch> = Vec::new();
    let mut i: usize = 0;
    while i < profiles.len()
        invariant
            all == profile_parts(profiles@),
            i <= profiles@.len(),
            patch_parts(r@) == all_patches(profiles_dir@, all.take(i as int)),
        decreases profiles@.len() - i,
    {
        let profile = &profiles[i];
        let ghost done = patch_parts(r@);
        assert(all.take(i + 1).drop_last() == all.take(i as int));
        assert(all.take(i + 1).last() == profile@);
        if profile.is_dir {
            let workspace = match &profile.workspace {
                Some(content) => Some(content.as_str()),
                None => None,
            };
            if let Some(content) = ensure_node_pty_allow_builds(workspace) {
                let dir = profiles_dir.child(profile.name.as_str());
                let patch = WorkspacePatch {
                    profile: i,
                    path: profile_workspace(&dir),
                    content,
                };
                r.push(patch);
                assert(patch_parts(r@) == done.push(patch@));
            }
        }
        i = i + 1;
    }
    assert(all.take(i as int) == all);
    r
}

/// The profile at a place in the list once its workspace file is written.
pub open spec fn once_patched(
    profiles_dir: paths::PathParts,
    place: nat,
    profile: ProfileParts,
) -> ProfileParts {
    match profile_patch(profiles_dir, place, profile) {
        Some(patch) => ProfileParts {
            name: profile.name,
            is_dir: profile.is_dir,
            workspace: Some(patch.content),
        },
        None => profile,
    }
}

/// All profiles once their workspace files are written.
pub open spec fn all_once_patched(
    profiles_dir: paths::PathParts,
    profiles: Seq<ProfileParts>,
) -> Seq<ProfileParts> {
    Seq::new(
        profiles.len(),
        |i: int| once_patched(profiles_dir, i as nat, profiles[i]),
    )
}

/// Once every file is written there is nothing left to write: a later start of
/// the shell finds all profiles as they should be.
pub proof fn patched_profiles_need_nothing(
    profiles_dir: paths::PathParts,
    profiles: Seq<ProfileParts>,
)
    ensures
        all_patches(profiles_dir, all_once_patched(profiles_dir, profiles)) == Seq::<
            PatchParts,
        >::empty(),
    decreases profiles.len(),
{
    let after = all_once_patched(profiles_dir, profiles);
    if profiles.len() > 0 {
        patched_profiles_need_nothing(profiles_dir, profiles.drop_last());
        assert(after.drop_last() == all_once_patched(profiles_dir, profiles.drop_last()));
        let last = profiles.last();
        if last.is_dir && patched(last.workspace) is Some {
            patching_twice_changes_nothing(last.workspace.unwrap());
        }
    }
}

/// The key of a line is what stands before its colon, without the white space
/// and the double quotes around it; so a line is an entry for `node-pty`
/// exactly where that is its key, whatever its indent, quotes and value are.
pub proof fn key_stands_before_the_colon(
    indent: Seq<char>,
    opening: Seq<char>,
    key: Seq<char>,
    closing: Seq<char>,
    gap: Seq<char>,
    rest: Seq<char>,
)
    requires
        text::blank(indent),
        text::blank(gap),
        forall|i: int| 0 <= i < opening.len() ==> #[trigger] opening[i] == '"',
        forall|i: int| 0 <= i < closing.len() ==> #[trigger] closing[i] == '"',
        !key.contains(':'),
        key.len() > 0 ==> key.first() != '"' && key.last() != '"',
        (opening + key + closing).len() > 0 ==> !text::white_space(
            (opening + key + closing).first(),
        ) && !text::white_space((opening + key + closing).last()),
        rest.len() > 0 ==> rest.first() == ':',
    ensures
        entry_key(indent + (opening + key + closing) + gap + rest) == key,
        names_node_pty(indent + (opening + key + closing) + gap + rest) <==> key == "node-pty"@,
{
    let quoted = opening + key + closing;
    let line = indent + quoted + gap + rest;
    assert forall|i: int| 0 <= i < key.len() implies key[i] != ':' by {
        assert(key.contains(key[i]));
    }
    if quoted.len() > 0 {
        let body = quoted + gap + rest;
        text::front_is(line, CharClass::WhiteSpace, indent.len());
        assert(line.skip(indent.len() as int) == body);
        let named = quoted + gap;
        assert forall|i: int| 0 <= i < named.len() implies CharClass::BeforeColon.holds(
            #[trigger] named[i],
        ) by {
            if i < opening.len() {
                assert(named[i] == opening[i]);
            } else if i < opening.len() + key.len() {
                assert(named[i] == key[i - opening.len()]);
            } else if i < quoted.len() {
                assert(named[i] == closing[i - opening.len() - key.len()]);
            } else {
                assert(named[i] == gap[i - quoted.len()]);
            }
        }
        text::lead_ends_with_the_class(CharClass::BeforeColon, named, rest);
        assert(body == named + rest);
        text::trimming_leaves_the_core(Seq::empty(), quoted, gap);
        assert(Seq::<char>::empty() + quoted + gap == named);
    } else {
        let spaces = indent + gap;
        assert(line == spaces + rest);
        assert forall|i: int| 0 <= i < spaces.len() implies text::white_space(
            #[trigger] spaces[i],
        ) by {
            if i < indent.len() {
                assert(spaces[i] == indent[i]);
            } else {
                assert(spaces[i] == gap[i - indent.len()]);
            }
        }
        text::front_is(line, CharClass::WhiteSpace, spaces.len());
        assert(line.skip(spaces.len() as int) == rest);
        text::lead_ends_with_the_class(CharClass::BeforeColon, Seq::empty(), rest);
        assert(Seq::<char>::empty() + rest == rest);
        text::trimming_leaves_the_core(Seq::empty(), Seq::empty(), Seq::empty());
        assert(Seq::<char>::empty() + Seq::<char>::empty() + Seq::<char>::empty() == Seq::<
            char,
        >::empty());
        assert(quoted == Seq::<char>::empty());
    }
    text::strip_leaves_the_core(CharClass::Quote, opening, key, closing);
}

/// A section goes on over empty lines, indented lines and comments, and ends
/// at every other line.
pub proof fn section_ends_at_the_next_key(first: char, rest: Seq<char>)
    ensures
        ends_section(seq![first] + rest) <==> !text::white_space(first) && first != '#',
        !ends_section(Seq::empty()),
{
    assert((seq![first] + rest)[0] == first);
}

/// A file is left alone exactly where an entry for `node-pty` stands below a
/// line that trims to `allowBuilds:`, with nothing but empty lines, indented
/// lines and comments between the two; and where it could not be read.
pub proof fn only_a_listed_package_is_left_alone(content: Seq<char>)
    ensures
        patched(Some(content)) is None <==> exists|start: int, entry: int|
            {
                &&& 0 <= start < entry < text::lines(content).len()
                &&& text::trimmed(#[trigger] text::lines(content)[start]) == "allowBuilds:"@
                &&& names_node_pty(#[trigger] text::lines(content)[entry])
                &&& forall|k: int|
                    start < k <= entry ==> (#[trigger] text::lines(content)[k]).len() == 0
                        || text::white_space(text::lines(content)[k][0]) || text::lines(
                        content,
                    )[k][0] == '#'
            },
        patched(None) is None,
{
    let lines = text::lines(content);
    if lists_node_pty(lines) {
        let start = choose|start: int|
            0 <= start < lines.len() && opens_list(#[trigger] lines[start]) && listed_after(
                lines,
                start,
            );
        let entry = choose|i: int|
            start < i < lines.len() && names_node_pty(#[trigger] lines[i]) && in_section(
                lines,
                start,
                i,
            );
        assert forall|k: int| start < k <= entry implies (#[trigger] lines[k]).len() == 0
            || text::white_space(lines[k][0]) || lines[k][0] == '#' by {
            assert(!ends_section(lines[k]));
        }
        assert(text::trimmed(lines[start]) == "allowBuilds:"@);
    }
    if exists|start: int, entry: int|
        {
            &&& 0 <= start < entry < lines.len()
            &&& text::trimmed(#[trigger] lines[start]) == "allowBuilds:"@
            &&& names_node_pty(#[trigger] lines[entry])
            &&& forall|k: int|
                start < k <= entry ==> (#[trigger] lines[k]).len() == 0 || text::white_space(
                    lines[k][0],
                ) || lines[k][0] == '#'
        } {
        let (start, entry) = choose|start: int, entry: int|
            {
                &&& 0 <= start < entry < lines.len()
                &&& text::trimmed(#[trigger] lines[start]) == "allowBuilds:"@
                &&& names_node_pty(#[trigger] lines[entry])
                &&& forall|k: int|
                    start < k <= entry ==> (#[trigger] lines[k]).len() == 0
                        || text::white_space(lines[k][0]) || lines[k][0] == '#'
            };
        assert(in_section(lines, start, entry));
        assert(listed_after(lines, start));
        assert(opens_list(lines[start]));
    }
}

/// The entry goes directly below the first line that trims to `allowBuilds:`,
/// and every line keeps its place around it.
pub proof fn entry_goes_below_the_first_list(content: Seq<char>, start: int)
    requires
        patched(Some(content)) is Some,
        0 <= start < text::lines(content).len(),
        text::trimmed(text::lines(content)[start]) == "allowBuilds:"@,
        forall|i: int|
            0 <= i < start ==> text::trimmed(#[trigger] text::lines(content)[i])
                != "allowBuilds:"@,
    ensures
        patched(Some(content)).unwrap() == text::joined(
            text::lines(content).take(start + 1) + seq!["  node-pty: true"@] + text::lines(
                content,
            ).skip(start + 1),
            "\n"@,
        ) + "\n"@,
{
    let lines = text::lines(content);
    assert forall|i: int| 0 <= i < start implies !opens_list(#[trigger] lines[i]) by {
        assert(text::trimmed(lines[i]) != "allowBuilds:"@);
    }
    list_starts_at(lines, start as nat);
    assert(with_entry(lines) == lines.take(start + 1) + seq!["  node-pty: true"@] + lines.skip(
        start + 1,
    ));
}

/// A file without a line that trims to `allowBuilds:` gets one at its end, with
/// an empty line before it and the entry below it.
pub proof fn new_list_goes_to_the_end(content: Seq<char>)
    requires
        forall|i: int|
            0 <= i < text::lines(content).len() ==> text::trimmed(
                #[trigger] text::lines(content)[i],
            ) != "allowBuilds:"@,
    ensures
        patched(Some(content)) == Some(
            text::joined(
                text::lines(content) + seq![""@, "allowBuilds:"@, "  node-pty: true"@],
                "\n"@,
            ) + "\n"@,
        ),
{
    let lines = text::lines(content);
    assert forall|i: int| 0 <= i < lines.len() implies !opens_list(#[trigger] lines[i]) by {
        assert(text::trimmed(lines[i]) != "allowBuilds:"@);
    }
    list_starts_at(lines, lines.len());
    reveal_strlit("");
    assert(""@ == Seq::<char>::empty());
    assert(!lists_node_pty(lines));
}

/// In every patched file the entry stands directly below a line that trims to
/// `allowBuilds:`.
pub proof fn entry_stands_in_an_allowlist(content: Seq<char>)
    requires
        patched(Some(content)) is Some,
    ensures
        ({
            let new = text::lines(patched(Some(content)).unwrap());
            exists|i: int|
                {
                    &&& 0 <= i < new.len() - 1
                    &&& text::trimmed(#[trigger] new[i]) == "allowBuilds:"@
                    &&& new[i + 1] == "  node-pty: true"@
                }
        }),
{
    patched_file_lists_node_pty(content);
    let new = text::lines(patched(Some(content)).unwrap());
    list_start_within(new);
    let start = list_start(new) as int;
    assert(opens_list(new[start]));
    assert(text::trimmed(new[start]) == "allowBuilds:"@);
}

/// Every file to be written belongs to a directory among the profiles, is that
/// profile's workspace file and gets its patched text; the files come in the
/// order of their profiles, one each.
pub proof fn patches_fit_their_profiles(
    profiles_dir: paths::PathParts,
    profiles: Seq<ProfileParts>,
    j: int,
)
    requires
        0 <= j < all_patches(profiles_dir, profiles).len(),
    ensures
        ({
            let patch = all_patches(profiles_dir, profiles)[j];
            &&& patch.profile < profiles.len()
            &&& profiles[patch.profile as int].is_dir
            &&& patched(profiles[patch.profile as int].workspace) == Some(patch.content)
            &&& patch.path.anchor == profiles_dir.anchor
            &&& patch.path.names == profiles_dir.names.push(
                profiles[patch.profile as int].name,
            ).push("pnpm-workspace.yaml"@)
            &&& j > 0 ==> all_patches(profiles_dir, profiles)[j - 1].profile < patch.profile
        }),
    decreases profiles.len(),
{
    let before = all_patches(profiles_dir, profiles.drop_last());
    if j < before.len() {
        patches_fit_their_profiles(profiles_dir, profiles.drop_last(), j);
        assert(all_patches(profiles_dir, profiles)[j] == before[j]);
        if j > 0 {
            assert(all_patches(profiles_dir, profiles)[j - 1] == before[j - 1]);
        }
    } else if j > 0 {
        patches_fit_their_profiles(profiles_dir, profiles.drop_last(), j - 1);
    }
}

/// Every profile that is a directory and whose workspace file has to change is
/// among the files to be written.
pub proof fn every_profile_in_need_is_patched(
    profiles_dir: paths::PathParts,
    profiles: Seq<ProfileParts>,
    i: int,
)
    requires
        0 <= i < profiles.len(),
        profiles[i].is_dir,
        patched(profiles[i].workspace) is Some,
    ensures
        exists|j: int|
            0 <= j < all_patches(profiles_dir, profiles).len() && (#[trigger] all_patches(
                profiles_dir,
                profiles,
            )[j]).profile == i,
    decreases profiles.len(),
{
    let all = all_patches(profiles_dir, profiles);
    let before = all_patches(profiles_dir, profiles.drop_last());
    if i < profiles.len() - 1 {
        every_profile_in_need_is_patched(profiles_dir, profiles.drop_last(), i);
        let j = choose|j: int| 0 <= j < before.len() && (#[trigger] before[j]).profile == i;
        assert(all[j] == before[j]);
    } else {
        assert(all[before.len() as int].profile == i);
    }
}

/// A profile and a file to be written stand for their fields, all of them, also
/// in a list.
pub proof fn profiles_show_their_fields(
    profile: Profile,
    patch: WorkspacePatch,
    profiles: Seq<Profile>,
    patches: Seq<WorkspacePatch>,
)
    ensures
        profile@.name == profile.name@,
        profile@.is_dir == profile.is_dir,
        profile@.workspace is Some <==> profile.workspace is Some,
        profile.workspace is Some ==> profile@.workspace.unwrap() == profile.workspace.unwrap()@,
        patch@.profile == patch.profile,
        patch@.path == patch.path@,
        patch@.content == patch.content@,
        profile_parts(profiles).len() == profiles.len(),
        forall|i: int|
            0 <= i < profiles.len() ==> #[trigger] profile_parts(profiles)[i] == profiles[i]@,
        patch_parts(patches).len() == patches.len(),
        forall|i: int| 0 <= i < patches.len() ==> #[trigger] patch_parts(patches)[i] == patches[i]@,
{
}

} // verus!
