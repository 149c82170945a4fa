use vstd::prelude::*;

use crate::components::component::ComponentID;
use crate::utils::text::push_char;
use crate::utils::text::str_eq;
use crate::utils::text::str_starts_with;

verus! {

pub const TAB_SIZE: usize = 2;

/// The arguments of the status command: an optional root directory.
pub struct CommandArgs {
    pub dir: Option<String>,
}

/// The per-path change kinds a status collection distinguishes, on the index
/// side and on the working-tree side.
#[derive(Clone, Copy, PartialEq, Eq, Structural, Debug)]
pub enum ChangeKind {
    IndexNew,
    IndexModified,
    IndexDeleted,
    IndexRenamed,
    IndexTypechange,
    WtNew,
    WtModified,
    WtDeleted,
    WtRenamed,
    WtTypechange,
    Current,
    Other,
}

/// The two sides of one reported change: the path before and the path after.
#[derive(Debug)]
pub struct DiffPaths {
    pub old_path: Option<String>,
    pub new_path: Option<String>,
}

impl Clone for DiffPaths {
    fn clone(&self) -> (r: Self)
        ensures
            r == *self,
    {
        DiffPaths {
            old_path: crate::utils::text::clone_opt_string(&self.old_path),
            new_path: crate::utils::text::clone_opt_string(&self.new_path),
        }
    }
}

/// One entry of a repository's status: its change kind and the diffs it
/// carries between HEAD and the index, and between the index and the working
/// tree.
#[derive(Debug)]
pub struct StatusEntry {
    pub status: ChangeKind,
    pub head_to_index: Option<DiffPaths>,
    pub index_to_workdir: Option<DiffPaths>,
}

impl Clone for StatusEntry {
    fn clone(&self) -> (r: Self)
        ensures
            r == *self,
    {
        StatusEntry {
            status: self.status,
            head_to_index: match &self.head_to_index {
                Some(d) => Some(d.clone()),
                None => None,
            },
            index_to_workdir: match &self.index_to_workdir {
                Some(d) => Some(d.clone()),
                None => None,
            },
        }
    }
}

/// An entry reported under "Changes to be committed": any change besides
/// `Current` that carries a HEAD-to-index diff.
pub open spec fn staged_pred(e: StatusEntry) -> bool {
    !(e.status is Current) && e.head_to_index is Some
}

/// An entry reported under "Changes not staged": any change besides a fresh
/// working-tree file that carries an index-to-working-tree diff.
pub open spec fn unstaged_pred(e: StatusEntry) -> bool {
    !(e.status is WtNew) && e.index_to_workdir is Some
}

/// Whether `path` lies at or under the directory `name`: either the two are
/// equal, or `name` is a whole-component prefix of `path`.
pub open spec fn path_owned_spec(path: Seq<char>, name: Seq<char>) -> bool {
    path == name || (name.len() < path.len() && path.take(name.len() as int) == name && path[
        name.len() as int
    ] == '/')
}

/// Whether `path` lies under any of the given child names.
pub open spec fn owned_by_child(path: Seq<char>, names: Seq<Seq<char>>) -> bool {
    exists|i: int| 0 <= i < names.len() && path_owned_spec(path, names[i])
}

/// The path a fresh working-tree entry is reported under.
pub open spec fn untracked_path(e: StatusEntry) -> Seq<char> {
    (e.index_to_workdir->0.new_path->0)@
}

/// An entry reported under "Changes untracked": a fresh working-tree file
/// whose path is not owned by any child node — a child is tracked as its own
/// repository and must not be double-reported as an untracked subtree of the
/// parent.
pub open spec fn untracked_pred(e: StatusEntry, names: Seq<Seq<char>>) -> bool {
    e.status is WtNew && e.index_to_workdir is Some && !owned_by_child(untracked_path(e), names)
}

pub fn path_owned_by(path: &str, name: &str) -> (r: bool)
    ensures
        r == path_owned_spec(path@, name@),
{
    if str_eq(path, name) {
        true
    } else {
        let nl = name.unicode_len();
        let pl = path.unicode_len();
        nl < pl && str_starts_with(path, name) && path.get_char(nl) == '/'
    }
}

pub fn is_owned_by_child(path: &str, names: &Vec<String>) -> (r: bool)
    ensures
        r == owned_by_child(path@, names@.map_values(|s: String| s@)),
{
    let ghost namesm = names@.map_values(|s: String| s@);
    let mut i: usize = 0;
    while i < names.len()
        invariant
            i <= names@.len(),
            namesm == names@.map_values(|s: String| s@),
            forall|j: int| 0 <= j < i ==> !path_owned_spec(path@, #[trigger] namesm[j]),
        decreases names@.len() - i,
    {
        if path_owned_by(path, names[i].as_str()) {
            proof {
                assert(path_owned_spec(path@, namesm[i as int]));
            }
            return true;
        }
        i += 1;
    }
    false
}

/// A status entry carries a path on at least one side of each diff it
/// reports, and a fresh working-tree entry names its new path.
pub open spec fn entry_wf(e: StatusEntry) -> bool {
    &&& (e.head_to_index matches Some(d) ==> d.old_path is Some || d.new_path is Some)
    &&& (e.index_to_workdir matches Some(d) ==> d.old_path is Some || d.new_path is Some)
    &&& (e.status is WtNew && e.index_to_workdir is Some ==> e.index_to_workdir->0.new_path
        is Some)
}

/// The entries shown under "Changes to be committed", in order.
pub fn staged_entries(entries: &Vec<StatusEntry>) -> (r: Vec<StatusEntry>)
    ensures
        r@ == entries@.filter(|e: StatusEntry| staged_pred(e)),
        forall|i: int| 0 <= i < r@.len() ==> entries@.contains(#[trigger] r@[i]),
{
    let mut kept: Vec<StatusEntry> = Vec::new();
    let mut i: usize = 0;
    while i < entries.len()
        invariant
            i <= entries@.len(),
            kept@ == entries@.take(i as int).filter(|e: StatusEntry| staged_pred(e)),
            forall|j: int| 0 <= j < kept@.len() ==> entries@.contains(#[trigger] kept@[j]),
        decreases entries@.len() - i,
    {
        let e = &entries[i];
        proof {
            reveal(Seq::filter);
            assert(entries@.take(i + 1 as int).drop_last() =~= entries@.take(i as int));
            assert(entries@.take(i + 1 as int).last() == entries@[i as int]);
        }
        let keep = !(e.status == ChangeKind::Current) && e.head_to_index.is_some();
        if keep {
            kept.push(e.clone());
            proof {
                assert(entries@.contains(entries@[i as int]));
            }
        }
        i += 1;
    }
    proof {
        assert(entries@.take(entries@.len() as int) =~= entries@);
    }
    kept
}

/// The entries shown under "Changes not staged", in order.
pub fn unstaged_entries(entries: &Vec<StatusEntry>) -> (r: Vec<StatusEntry>)
    ensures
        r@ == entries@.filter(|e: StatusEntry| unstaged_pred(e)),
        forall|i: int| 0 <= i < r@.len() ==> entries@.contains(#[trigger] r@[i]),
{
    let mut kept: Vec<StatusEntry> = Vec::new();
    let mut i: usize = 0;
    while i < entries.len()
        invariant
            i <= entries@.len(),
            kept@ == entries@.take(i as int).filter(|e: StatusEntry| unstaged_pred(e)),
            forall|j: int| 0 <= j < kept@.len() ==> entries@.contains(#[trigger] kept@[j]),
        decreases entries@.len() - i,
    {
        let e = &entries[i];
        proof {
            reveal(Seq::filter);
            assert(entries@.take(i + 1 as int).drop_last() =~= entries@.take(i as int));
            assert(entries@.take(i + 1 as int).last() == entries@[i as int]);
        }
        let keep = !(e.status == ChangeKind::WtNew) && e.index_to_workdir.is_some();
        if keep {
            kept.push(e.clone());
            proof {
                assert(entries@.contains(entries@[i as int]));
            }
        }
        i += 1;
    }
    proof {
        assert(entries@.take(entries@.len() as int) =~= entries@);
    }
    kept
}

/// The entries shown under "Changes untracked", in order: fresh
/// working-tree files outside every child node's directory.
pub fn untracked_entries(entries: &Vec<StatusEntry>, children_names: &Vec<String>) -> (r: Vec<
    StatusEntry,
>)
    requires
        forall|i: int| 0 <= i < entries@.len() ==> entry_wf(#[trigger] entries@[i]),
    ensures
        r@ == entries@.filter(
            |e: StatusEntry| untracked_pred(e, children_names@.map_values(|s: String| s@)),
        ),
        forall|i: int| 0 <= i < r@.len() ==> entries@.contains(#[trigger] r@[i]),
{
    let ghost namesm = children_names@.map_values(|s: String| s@);
    let mut kept: Vec<StatusEntry> = Vec::new();
    let mut i: usize = 0;
    while i < entries.len()
        invariant
            i <= entries@.len(),
            namesm == children_names@.map_values(|s: String| s@),
            forall|j: int| 0 <= j < entries@.len() ==> entry_wf(#[trigger] entries@[j]),
            kept@ == entries@.take(i as int).filter(
                |e: StatusEntry| untracked_pred(e, namesm),
            ),
            forall|j: int| 0 <= j < kept@.len() ==> entries@.contains(#[trigger] kept@[j]),
        decreases entries@.len() - i,
    {
        let e = &entries[i];
        proof {
            reveal(Seq::filter);
            assert(entries@.take(i + 1 as int).drop_last() =~= entries@.take(i as int));
            assert(entries@.take(i + 1 as int).last() == entries@[i as int]);
        }
        let candidate = e.status == ChangeKind::WtNew && e.index_to_workdir.is_some();
        let keep = if candidate {
            let d = e.index_to_workdir.as_ref().unwrap();
            let p = d.new_path.as_ref().unwrap();
            !is_owned_by_child(p.as_str(), children_names)
        } else {
            false
        };
        if keep {
            kept.push(e.clone());
            proof {
                assert(entries@.contains(entries@[i as int]));
            }
        }
        i += 1;
    }
    proof {
        assert(entries@.take(entries@.len() as int) =~= entries@);
    }
    kept
}

/// Untracked suppression: every entry of the untracked report lies outside
/// every child node's directory — an untracked path inside a subdirectory
/// named like a known child never appears in the parent's own list.
pub proof fn lemma_untracked_excludes_child_paths(
    entries: Seq<StatusEntry>,
    names: Seq<Seq<char>>,
    i: int,
)
    requires
        0 <= i < entries.filter(|e: StatusEntry| untracked_pred(e, names)).len(),
    ensures
        !owned_by_child(
            untracked_path(entries.filter(|e: StatusEntry| untracked_pred(e, names))[i]),
            names,
        ),
{
    entries.lemma_filter_pred(|e: StatusEntry| untracked_pred(e, names), i);
}

/// The label a change kind is printed under.
pub open spec fn status_label(kind: ChangeKind) -> Seq<char> {
    match kind {
        ChangeKind::IndexNew | ChangeKind::WtNew => "new"@,
        ChangeKind::IndexModified | ChangeKind::WtModified => "modified"@,
        ChangeKind::IndexDeleted | ChangeKind::WtDeleted => "deleted"@,
        ChangeKind::IndexRenamed | ChangeKind::WtRenamed => "renamed"@,
        ChangeKind::IndexTypechange | ChangeKind::WtTypechange => "typechanged"@,
        _ => "unknown"@,
    }
}

pub fn format_status(status: ChangeKind) -> (r: &'static str)
    ensures
        r@ == status_label(status),
{
    match status {
        ChangeKind::IndexNew | ChangeKind::WtNew => "new",
        ChangeKind::IndexModified | ChangeKind::WtModified => "modified",
        ChangeKind::IndexDeleted | ChangeKind::WtDeleted => "deleted",
        ChangeKind::IndexRenamed | ChangeKind::WtRenamed => "renamed",
        ChangeKind::IndexTypechange | ChangeKind::WtTypechange => "typechanged",
        _ => "unknown",
    }
}

/// How one diff is printed: a rename as `old -> new`, anything else as the
/// one path it carries.
pub open spec fn format_diff_spec(d: DiffPaths) -> Seq<char>
    recommends
        d.old_path is Some || d.new_path is Some,
{
    if d.old_path is Some && d.new_path is Some && d.old_path->0@ != d.new_path->0@ {
        d.old_path->0@ + " -> "@ + d.new_path->0@
    } else if d.old_path is Some {
        d.old_path->0@
    } else {
        d.new_path->0@
    }
}

pub fn format_diff(d: &DiffPaths) -> (r: String)
    requires
        d.old_path is Some || d.new_path is Some,
    ensures
        r@ == format_diff_spec(*d),
{
    match (&d.old_path, &d.new_path) {
        (Some(o), Some(n)) => {
            if !str_eq(o.as_str(), n.as_str()) {
                let mut m = o.clone();
                m.append(" -> ");
                m.append(n.as_str());
                proof {
                    assert(m@ =~= o@ + " -> "@ + n@);
                }
                m
            } else {
                o.clone()
            }
        },
        (Some(o), None) => o.clone(),
        (None, Some(n)) => n.clone(),
        (None, None) => {
            proof {
                assert(false);
            }
            String::new()
        },
    }
}

/// `n` spaces.
pub open spec fn spaces(n: nat) -> Seq<char>
    decreases n,
{
    if n == 0 {
        Seq::<char>::empty()
    } else {
        spaces((n - 1) as nat).push(' ')
    }
}

fn append_spaces(out: &mut String, n: usize)
    ensures
        final(out)@ == old(out)@ + spaces(n as nat),
{
    proof {
        assert(out@ =~= out@ + spaces(0));
    }
    let mut i: usize = 0;
    while i < n
        invariant
            i <= n,
            out@ == old(out)@ + spaces(i as nat),
        decreases n - i,
    {
        push_char(out, ' ');
        proof {
            assert(old(out)@ + spaces((i + 1) as nat) =~= (old(out)@ + spaces(i as nat)).push(
                ' ',
            ));
        }
        i += 1;
    }
}

/// The indentation that precedes content written at the given depth.
pub open spec fn indent_of(depth: int) -> Seq<char> {
    spaces(((depth + 1) * TAB_SIZE) as nat)
}

/// Writes `content` indented one step below the given depth, as the report
/// lays out the body of a node.
pub fn write_with_depth(output: &mut String, depth: usize, content: &str)
    requires
        (depth + 1) * TAB_SIZE <= usize::MAX,
    ensures
        final(output)@ == old(output)@ + indent_of(depth as int) + content@,
{
    let width = (depth + 1) * TAB_SIZE;
    append_spaces(output, width);
    output.append(content);
    proof {
        assert(output@ =~= old(output)@ + indent_of(depth as int) + content@);
    }
}

/// One whole report line at the given depth.
pub open spec fn line_of(depth: int, content: Seq<char>) -> Seq<char> {
    indent_of(depth) + content + "\n"@
}

pub fn writeln_with_depth(output: &mut String, depth: usize, content: &str)
    requires
        (depth + 1) * TAB_SIZE <= usize::MAX,
    ensures
        final(output)@ == old(output)@ + line_of(depth as int, content@),
{
    write_with_depth(output, depth, content);
    output.append("\n");
    proof {
        assert(output@ =~= old(output)@ + line_of(depth as int, content@));
    }
}

/// Green terminal colouring, as staged changes are shown.
pub open spec fn green_spec(s: Seq<char>) -> Seq<char> {
    "\u{1b}[32m"@ + s + "\u{1b}[0m"@
}

/// Red terminal colouring, as unstaged and untracked changes are shown.
pub open spec fn red_spec(s: Seq<char>) -> Seq<char> {
    "\u{1b}[31m"@ + s + "\u{1b}[0m"@
}

fn paint_green(s: &str) -> (r: String)
    ensures
        r@ == green_spec(s@),
{
    let mut m = String::new();
    m.append("\u{1b}[32m");
    m.append(s);
    m.append("\u{1b}[0m");
    proof {
        assert(m@ =~= green_spec(s@));
    }
    m
}

fn paint_red(s: &str) -> (r: String)
    ensures
        r@ == red_spec(s@),
{
    let mut m = String::new();
    m.append("\u{1b}[31m");
    m.append(s);
    m.append("\u{1b}[0m");
    proof {
        assert(m@ =~= red_spec(s@));
    }
    m
}

/// The line one staged entry is reported on.
pub open spec fn staged_line(e: StatusEntry, depth: int) -> Seq<char> {
    line_of(
        depth + 1,
        green_spec(status_label(e.status)) + ": "@ + green_spec(format_diff_spec(
            e.head_to_index->0,
        )),
    )
}

/// The line one unstaged entry is reported on.
pub open spec fn unstaged_line(e: StatusEntry, depth: int) -> Seq<char> {
    line_of(
        depth + 1,
        red_spec(status_label(e.status)) + ": "@ + red_spec(format_diff_spec(
            e.index_to_workdir->0,
        )),
    )
}

/// The line one untracked entry is reported on.
pub open spec fn untracked_line(e: StatusEntry, depth: int) -> Seq<char> {
    line_of(depth + 1, red_spec(format_diff_spec(e.index_to_workdir->0)))
}

/// The lines of a list of entries, one per entry, in order.
pub open spec fn lines_of(
    entries: Seq<StatusEntry>,
    depth: int,
    f: spec_fn(StatusEntry, int) -> Seq<char>,
) -> Seq<char>
    decreases entries.len(),
{
    if entries.len() == 0 {
        Seq::<char>::empty()
    } else {
        lines_of(entries.drop_last(), depth, f) + f(entries.last(), depth)
    }
}

/// One section of the report: nothing when no entry falls under it, else its
/// title line, the entry lines, and a blank line.
pub open spec fn section_of(
    entries: Seq<StatusEntry>,
    depth: int,
    title: Seq<char>,
    f: spec_fn(StatusEntry, int) -> Seq<char>,
) -> Seq<char> {
    if entries.len() == 0 {
        Seq::<char>::empty()
    } else {
        line_of(depth, title) + lines_of(entries, depth, f) + "\n"@
    }
}

/// The whole per-repository report: the staged, unstaged and untracked
/// sections in that order, with untracked paths owned by a child suppressed.
pub open spec fn repo_status_spec(
    entries: Seq<StatusEntry>,
    names: Seq<Seq<char>>,
    depth: int,
) -> Seq<char> {
    section_of(
        entries.filter(|e: StatusEntry| staged_pred(e)),
        depth,
        "Changes to be committed:"@,
        |e: StatusEntry, d: int| staged_line(e, d),
    ) + section_of(
        entries.filter(|e: StatusEntry| unstaged_pred(e)),
        depth,
        "Changes not staged:"@,
        |e: StatusEntry, d: int| unstaged_line(e, d),
    ) + section_of(
        entries.filter(|e: StatusEntry| untracked_pred(e, names)),
        depth,
        "Changes untracked:"@,
        |e: StatusEntry, d: int| untracked_line(e, d),
    )
}

/// Renders the status report of one repository at the given depth onto
/// `output`.
#[verifier::rlimit(100)]
pub fn render_repo_status(
    output: &mut String,
    entries: &Vec<StatusEntry>,
    children_names: &Vec<String>,
    depth: usize,
)
    requires
        (depth + 2) * TAB_SIZE <= usize::MAX,
        forall|i: int| 0 <= i < entries@.len() ==> entry_wf(#[trigger] entries@[i]),
    ensures
        final(output)@ == old(output)@ + repo_status_spec(
            entries@,
            children_names@.map_values(|s: String| s@),
            depth as int,
        ),
{
    let ghost namesm = children_names@.map_values(|s: String| s@);
    let staged = staged_entries(entries);
    if staged.len() > 0 {
        writeln_with_depth(output, depth, "Changes to be committed:");
        let ghost base = output@;
        let mut i: usize = 0;
        while i < staged.len()
            invariant
                i <= staged@.len(),
                (depth + 2) * TAB_SIZE <= usize::MAX,
                forall|j: int| 0 <= j < staged@.len() ==> entries@.contains(#[trigger] staged@[j]),
                forall|j: int| 0 <= j < entries@.len() ==> entry_wf(#[trigger] entries@[j]),
                staged@ == entries@.filter(|e: StatusEntry| staged_pred(e)),
                output@ == base + lines_of(
                    staged@.take(i as int),
                    depth as int,
                    |e: StatusEntry, d: int| staged_line(e, d),
                ),
            decreases staged@.len() - i,
        {
            let e = &staged[i];
            proof {
                entries@.lemma_filter_pred(|en: StatusEntry| staged_pred(en), i as int);
                assert(entries@.contains(staged@[i as int]));
                let j = choose|j: int|
                    0 <= j < entries@.len() && entries@[j] == staged@[i as int];
                assert(entry_wf(*e));
            }
            let label = format_status(e.status);
            let diff = format_diff(e.head_to_index.as_ref().unwrap());
            let mut content = paint_green(label);
            content.append(": ");
            let painted = paint_green(diff.as_str());
            content.append(painted.as_str());
            writeln_with_depth(output, depth + 1, content.as_str());
            proof {
                let ghost f = |en: StatusEntry, d: int| staged_line(en, d);
                assert(content@ =~= green_spec(status_label(e.status)) + ": "@ + green_spec(
                    format_diff_spec(e.head_to_index->0),
                ));
                assert(staged@.take(i + 1 as int).drop_last() =~= staged@.take(i as int));
                assert(staged@.take(i + 1 as int).last() == staged@[i as int]);
                assert(output@ =~= base + lines_of(staged@.take(i + 1 as int), depth as int, f));
            }
            i += 1;
        }
        proof {
            assert(staged@.take(staged@.len() as int) =~= staged@);
        }
        output.append("\n");
    }
    let unstaged = unstaged_entries(entries);
    if unstaged.len() > 0 {
        writeln_with_depth(output, depth, "Changes not staged:");
        let ghost base = output@;
        let mut i: usize = 0;
        while i < unstaged.len()
            invariant
                i <= unstaged@.len(),
                (depth + 2) * TAB_SIZE <= usize::MAX,
                forall|j: int|
                    0 <= j < unstaged@.len() ==> entries@.contains(#[trigger] unstaged@[j]),
                forall|j: int| 0 <= j < entries@.len() ==> entry_wf(#[trigger] entries@[j]),
                unstaged@ == entries@.filter(|e: StatusEntry| unstaged_pred(e)),
                output@ == base + lines_of(
                    unstaged@.take(i as int),
                    depth as int,
                    |e: StatusEntry, d: int| unstaged_line(e, d),
                ),
            decreases unstaged@.len() - i,
        {
            let e = &unstaged[i];
            proof {
                entries@.lemma_filter_pred(|en: StatusEntry| unstaged_pred(en), i as int);
                assert(entries@.contains(unstaged@[i as int]));
                let j = choose|j: int|
                    0 <= j < entries@.len() && entries@[j] == unstaged@[i as int];
                assert(entry_wf(*e));
            }
            let label = format_status(e.status);
            let diff = format_diff(e.index_to_workdir.as_ref().unwrap());
            let mut content = paint_red(label);
            content.append(": ");
            let painted = paint_red(diff.as_str());
            content.append(painted.as_str());
            writeln_with_depth(output, depth + 1, content.as_str());
            proof {
                let ghost f = |en: StatusEntry, d: int| unstaged_line(en, d);
                assert(content@ =~= red_spec(status_label(e.status)) + ": "@ + red_spec(
                    format_diff_spec(e.index_to_workdir->0),
                ));
                assert(unstaged@.take(i + 1 as int).drop_last() =~= unstaged@.take(i as int));
                assert(unstaged@.take(i + 1 as int).last() == unstaged@[i as int]);
                assert(output@ =~= base + lines_of(unstaged@.take(i + 1 as int), depth as int, f));
            }
            i += 1;
        }
        proof {
            assert(unstaged@.take(unstaged@.len() as int) =~= unstaged@);
        }
        output.append("\n");
    }
    let untracked = untracked_entries(entries, children_names);
    if untracked.len() > 0 {
        writeln_with_depth(output, depth, "Changes untracked:");
        let ghost base = output@;
        let mut i: usize = 0;
        while i < untracked.len()
            invariant
                i <= untracked@.len(),
                (depth + 2) * TAB_SIZE <= usize::MAX,
                namesm == children_names@.map_values(|s: String| s@),
                forall|j: int|
                    0 <= j < untracked@.len() ==> entries@.contains(#[trigger] untracked@[j]),
                forall|j: int| 0 <= j < entries@.len() ==> entry_wf(#[trigger] entries@[j]),
                untracked@ == entries@.filter(|e: StatusEntry| untracked_pred(e, namesm)),
                output@ == base + lines_of(
                    untracked@.take(i as int),
                    depth as int,
                    |e: StatusEntry, d: int| untracked_line(e, d),
                ),
            decreases untracked@.len() - i,
        {
            let e = &untracked[i];
            proof {
                entries@.lemma_filter_pred(
                    |en: StatusEntry| untracked_pred(en, namesm),
                    i as int,
                );
                assert(entries@.contains(untracked@[i as int]));
                let j = choose|j: int|
                    0 <= j < entries@.len() && entries@[j] == untracked@[i as int];
                assert(entry_wf(*e));
            }
            let diff = format_diff(e.index_to_workdir.as_ref().unwrap());
            let content = paint_red(diff.as_str());
            writeln_with_depth(output, depth + 1, content.as_str());
            proof {
                let ghost f = |en: StatusEntry, d: int| untracked_line(en, d);
                assert(content@ =~= red_spec(format_diff_spec(e.index_to_workdir->0)));
                assert(untracked@.take(i + 1 as int).drop_last() =~= untracked@.take(i as int));
                assert(untracked@.take(i + 1 as int).last() == untracked@[i as int]);
                assert(output@ =~= base + lines_of(
                    untracked@.take(i + 1 as int),
                    depth as int,
                    f,
                ));
            }
            i += 1;
        }
        proof {
            assert(untracked@.take(untracked@.len() as int) =~= untracked@);
        }
        output.append("\n");
    }
    proof {
        assert(output@ =~= old(output)@ + repo_status_spec(entries@, namesm, depth as int));
    }
}

/// The connector drawn before a node's name: nothing for the root, a corner
/// for the last child handed out, a tee otherwise.
pub open spec fn connector_spec(is_root: bool, tail: bool) -> Seq<char> {
    if is_root {
        ""@
    } else if tail {
        "└─ "@
    } else {
        "├─ "@
    }
}

pub fn connector(is_root: bool, tail: bool) -> (r: &'static str)
    ensures
        r@ == connector_spec(is_root, tail),
{
    if is_root {
        ""
    } else if tail {
        "└─ "
    } else {
        "├─ "
    }
}

/// The header line of one node of the status tree: indentation, connector,
/// name, and what HEAD points at.
pub open spec fn node_header_spec(
    depth: int,
    is_root: bool,
    tail: bool,
    name: Seq<char>,
    head_info: Seq<char>,
) -> Seq<char> {
    spaces((depth * TAB_SIZE) as nat) + connector_spec(is_root, tail) + name + " ("@ + head_info
        + ")\n"@
}

pub fn render_node_header(
    output: &mut String,
    depth: usize,
    is_root: bool,
    tail: bool,
    name: &str,
    head_info: &str,
)
    requires
        depth * TAB_SIZE <= usize::MAX,
    ensures
        final(output)@ == old(output)@ + node_header_spec(
            depth as int,
            is_root,
            tail,
            name@,
            head_info@,
        ),
{
    append_spaces(output, depth * TAB_SIZE);
    output.append(connector(is_root, tail));
    output.append(name);
    output.append(" (");
    output.append(head_info);
    output.append(")\n");
    proof {
        assert(output@ =~= old(output)@ + node_header_spec(
            depth as int,
            is_root,
            tail,
            name@,
            head_info@,
        ));
    }
}

/// The stack entries pushed for a node's children while the status tree is
/// walked: each child one level deeper, the first-listed child marked as the
/// tail it will be drawn as.
pub fn next_status_nodes(children: &Vec<ComponentID>, depth: usize) -> (r: Vec<
    (usize, bool, ComponentID),
>)
    requires
        depth < usize::MAX,
    ensures
        r@.len() == children@.len(),
        forall|i: int|
            0 <= i < r@.len() ==> #[trigger] r@[i] == ((depth + 1) as usize, i == 0, children@[i]),
{
    let mut r: Vec<(usize, bool, ComponentID)> = Vec::new();
    let mut i: usize = 0;
    while i < children.len()
        invariant
            i <= children@.len(),
            depth < usize::MAX,
            r@.len() == i,
            forall|j: int|
                0 <= j < i ==> #[trigger] r@[j] == ((depth + 1) as usize, j == 0, children@[j]),
        decreases children@.len() - i,
    {
        r.push((depth + 1, i == 0, children[i]));
        i += 1;
    }
    r
}

} // verus!
