//! The project writer: it takes the instructions that describe a Rojo
//! project, keeps the project tree, and says which files and folders to
//! write under the project's source folder. The first failure it is told of
//! stops all further output.
use crate::paths::{join_paths, path_join, text_eq};
use vstd::prelude::*;

verus! {

/// A node of the project tree (`$className`, its children by name,
/// `$ignoreUnknownInstances` and `$path` in the project file).
#[derive(Debug)]
pub struct TreePartition {
    pub class_name: String,
    pub children: Vec<(String, TreePartition)>,
    pub ignore_unknown_instances: bool,
    pub path: Option<String>,
}

/// One step of the description of a project.
#[derive(Debug)]
pub enum Instruction {
    AddToTree { name: String, partition: TreePartition },
    CreateFile { filename: String, contents: Vec<u8> },
    CreateFolder { folder: String },
}

/// The project file: its name and its tree of top-level services, in the
/// order they were added; no name occurs twice.
#[derive(Debug)]
pub struct Project {
    name: String,
    tree: Vec<(String, TreePartition)>,
}

/// What became of the source folder when the writer was set up.
#[derive(Debug)]
pub enum SourceFolder {
    Created,
    /// Making it failed with `error`; `already_exists` says whether the error
    /// is that something is already there, and `is_directory` whether what is
    /// there is a folder.
    Failed { error: std::io::Error, already_exists: bool, is_directory: bool },
}

/// Output that the caller is to make on disk for the writer.
#[derive(Debug)]
pub enum OutputAction {
    WriteFile { path: String, contents: Vec<u8> },
    CreateFolder { path: String },
}

/// The kinds of output that can fail after the writer was set up.
#[derive(Debug, Clone, Copy, PartialEq, Eq, Structural)]
pub enum OutputFailure {
    CreateFile,
    WriteFile,
    CreateFolder,
    SerializeProject,
    CreateProjectFile,
    WriteProjectFile,
}

/// Writes a Rojo project under `root`, its files under `root`'s source folder.
#[derive(Debug)]
pub struct FileSystem {
    project: Project,
    root: String,
    source: String,
    error: Option<(&'static str, std::io::Error)>,
}

/// `tree` holds an entry named `name`.
pub open spec fn tree_has(tree: Seq<(String, TreePartition)>, name: Seq<char>) -> bool {
    exists|i: int| 0 <= i < tree.len() && (#[trigger] tree[i]).0@ == name
}

/// No two entries of `tree` share a name.
pub open spec fn names_distinct(tree: Seq<(String, TreePartition)>) -> bool {
    forall|i: int, j: int|
        0 <= i < tree.len() && 0 <= j < tree.len() && i != j ==> (#[trigger] tree[i]).0@ != (
        #[trigger] tree[j]).0@
}

/// No two children of a partition, nor of any partition below it, share a
/// name.
pub open spec fn partition_wf(partition: TreePartition) -> bool
    decreases partition,
{
    &&& names_distinct(partition.children@)
    &&& forall|i: int|
        0 <= i < partition.children@.len() ==> partition_wf(#[trigger] partition.children@[i].1)
}

/// The first failure stays: a later one counts only where none came before.
pub open spec fn keep_first<A>(first: Option<A>, later: Option<A>) -> Option<A> {
    if first is Some {
        first
    } else {
        later
    }
}

/// The failure a writer ends with when it starts with `start` and is then
/// told, in turn, of each of `later` (`None` where a step did not fail).
pub open spec fn failure_after<A>(start: Option<A>, later: Seq<Option<A>>) -> Option<A>
    decreases later.len(),
{
    if later.len() == 0 {
        start
    } else {
        failure_after(keep_first(start, later[0]), later.drop_first())
    }
}

/// The first failure in `steps`, if any.
pub open spec fn first_failure<A>(steps: Seq<Option<A>>) -> Option<A>
    decreases steps.len(),
{
    if steps.len() == 0 {
        None
    } else if steps[0] is Some {
        steps[0]
    } else {
        first_failure(steps.drop_first())
    }
}

/// However many steps follow, a writer ends with the first failure of all
/// its steps, its set-up included: a later failure never replaces an
/// earlier one, and there is none only if no step failed.
pub proof fn lemma_first_failure_is_kept<A>(start: Option<A>, later: Seq<Option<A>>)
    ensures
        failure_after(start, later) == first_failure(seq![start] + later),
    decreases later.len(),
{
    let all = seq![start] + later;
    assert(all[0] == start);
    assert(all.drop_first() =~= later);
    if later.len() > 0 {
        let k = keep_first(start, later[0]);
        lemma_first_failure_is_kept(k, later.drop_first());
        let rest = seq![k] + later.drop_first();
        assert(rest[0] == k);
        assert(failure_after(start, later) == failure_after(k, later.drop_first()));
        if start is None {
            assert(rest =~= later);
            assert(first_failure(all) == first_failure(all.drop_first()));
        } else {
            assert(first_failure(rest) == k);
        }
    } else {
        assert(failure_after(start, later) == start);
        if start is None {
            assert(first_failure(all) == first_failure(all.drop_first()));
        }
    }
}

impl TreePartition {
    /// Whether no two children of this partition, nor of any partition below
    /// it, share a name.
    pub fn has_distinct_children(&self) -> (distinct: bool)
        ensures
            distinct == partition_wf(*self),
        decreases self,
    {
        let n: usize = self.children.len();
        let mut i: usize = 0;
        while i < n
            invariant
                n == self.children@.len(),
                i <= n,
                forall|a: int, b: int|
                    0 <= a < i && a < b < n ==> (#[trigger] self.children@[a]).0@ != (
                    #[trigger] self.children@[b]).0@,
            decreases n - i,
        {
            let mut j: usize = i + 1;
            while j < n
                invariant
                    n == self.children@.len(),
                    i < n,
                    i + 1 <= j <= n,
                    forall|a: int, b: int|
                        0 <= a < i && a < b < n ==> (#[trigger] self.children@[a]).0@ != (
                        #[trigger] self.children@[b]).0@,
                    forall|b: int| i < b < j ==> self.children@[i as int].0@ != (
                    #[trigger] self.children@[b]).0@,
                decreases n - j,
            {
                if text_eq(self.children[i].0.as_str(), self.children[j].0.as_str()) {
                    assert(!names_distinct(self.children@));
                    return false;
                }
                j = j + 1;
            }
            i = i + 1;
        }
        assert(names_distinct(self.children@)) by {
            assert forall|a: int, b: int|
                0 <= a < self.children@.len() && 0 <= b < self.children@.len() && a != b implies (
            #[trigger] self.children@[a]).0@ != (#[trigger] self.children@[b]).0@ by {
                if b < a {
                    assert(self.children@[b].0@ != self.children@[a].0@);
                }
            }
        }
        let mut k: usize = 0;
        while k < n
            invariant
                n == self.children@.len(),
                k <= n,
                forall|m: int| 0 <= m < k ==> partition_wf(#[trigger] self.children@[m].1),
            decreases n - k,
        {
            proof {
                assert(decreases_to!(*self => self.children));
                assert(decreases_to!(self.children => self.children@));
                assert(decreases_to!(self.children@ => self.children@[k as int]));
            }
            if !self.children[k].1.has_distinct_children() {
                return false;
            }
            k = k + 1;
        }
        true
    }
}

/// `new` is `old` taken to be relative to the source folder `src`.
pub open spec fn in_source(old: Option<String>, new: Option<String>) -> bool {
    match old {
        None => new is None,
        Some(p) => new matches Some(q) && q@ == path_join("src"@, p@),
    }
}

/// `new` is the child entry `old` with its path taken into the source folder.
pub open spec fn child_in_source(old: (String, TreePartition), new: (String, TreePartition)) -> bool {
    &&& new.0 == old.0
    &&& new.1.class_name == old.1.class_name
    &&& new.1.children == old.1.children
    &&& new.1.ignore_unknown_instances == old.1.ignore_unknown_instances
    &&& in_source(old.1.path, new.1.path)
}

/// `new` is the partition `old` with its path, and the paths of its direct
/// children, taken into the source folder.
pub open spec fn partition_in_source(old: TreePartition, new: TreePartition) -> bool {
    &&& new.class_name == old.class_name
    &&& new.ignore_unknown_instances == old.ignore_unknown_instances
    &&& in_source(old.path, new.path)
    &&& new.children.len() == old.children.len()
    &&& forall|i: int|
        0 <= i < old.children.len() ==> child_in_source(
            #[trigger] old.children@[i],
            new.children@[i],
        )
}

/// Taking a partition into the source folder moves its paths and nothing
/// else: its class, its `ignore_unknown_instances` flag, and its children's
/// names, classes, flags and own children stay; each path that was there is
/// joined under `src`, and a missing path stays missing.
pub proof fn lemma_only_paths_move(old: TreePartition, new: TreePartition)
    requires
        partition_in_source(old, new),
    ensures
        new.class_name == old.class_name,
        new.ignore_unknown_instances == old.ignore_unknown_instances,
        old.path is None <==> new.path is None,
        old.path matches Some(p) ==> new.path matches Some(q) && q@ == path_join("src"@, p@),
        new.children@.len() == old.children@.len(),
        forall|i: int|
            0 <= i < old.children@.len() ==> {
                let (old_name, old_child) = #[trigger] old.children@[i];
                let (new_name, new_child) = new.children@[i];
                &&& new_name == old_name
                &&& new_child.class_name == old_child.class_name
                &&& new_child.ignore_unknown_instances == old_child.ignore_unknown_instances
                &&& new_child.children == old_child.children
                &&& (old_child.path is None <==> new_child.path is None)
                &&& (old_child.path matches Some(p) ==> new_child.path matches Some(q) && q@
                    == path_join("src"@, p@))
            },
{
    assert forall|i: int| 0 <= i < old.children@.len() implies {
        let (old_name, old_child) = #[trigger] old.children@[i];
        let (new_name, new_child) = new.children@[i];
        &&& new_name == old_name
        &&& new_child.class_name == old_child.class_name
        &&& new_child.ignore_unknown_instances == old_child.ignore_unknown_instances
        &&& new_child.children == old_child.children
        &&& (old_child.path is None <==> new_child.path is None)
        &&& (old_child.path matches Some(p) ==> new_child.path matches Some(q) && q@ == path_join(
            "src"@,
            p@,
        ))
    } by {
        assert(child_in_source(old.children@[i], new.children@[i]));
    }
}

/// The path `path` relative to the source folder.
fn into_source(path: Option<String>) -> (moved: Option<String>)
    ensures
        in_source(path, moved),
{
    match path {
        Some(p) => Some(join_paths("src", p.as_str())),
        None => None,
    }
}

/// Takes a partition's path and its children's paths into the source folder.
fn partition_into_source(partition: TreePartition) -> (moved: TreePartition)
    ensures
        partition_in_source(partition, moved),
        partition_wf(partition) ==> partition_wf(moved),
{
    let ghost given = partition;
    let ghost old_children = partition.children@;
    let TreePartition { class_name, children, ignore_unknown_instances, path } = partition;
    let moved_path = into_source(path);
    let mut rest = children;
    let mut done: Vec<(String, TreePartition)> = Vec::new();
    while rest.len() > 0
        invariant
            done@.len() + rest@.len() == old_children.len(),
            rest@ == old_children.skip(done@.len() as int),
            forall|i: int|
                0 <= i < done@.len() ==> child_in_source(
                    #[trigger] old_children[i],
                    done@[i],
                ),
        decreases rest@.len(),
    {
        let ghost k = done@.len() as int;
        let (name, child) = rest.remove(0);
        assert(old_children[k] == (name, child));
        let TreePartition {
            class_name: child_class,
            children: grandchildren,
            ignore_unknown_instances: child_ignore,
            path: child_path,
        } = child;
        let moved_child = TreePartition {
            class_name: child_class,
            children: grandchildren,
            ignore_unknown_instances: child_ignore,
            path: into_source(child_path),
        };
        done.push((name, moved_child));
        assert(rest@ =~= old_children.skip(done@.len() as int));
    }
    let moved = TreePartition {
        class_name,
        children: done,
        ignore_unknown_instances,
        path: moved_path,
    };
    proof {
        if partition_wf(given) {
            assert forall|i: int|
                0 <= i < moved.children@.len() implies partition_wf(
                #[trigger] moved.children@[i].1,
            ) by {
                assert(child_in_source(given.children@[i], moved.children@[i]));
                assert(partition_wf(given.children@[i].1));
            }
            assert forall|i: int, j: int|
                0 <= i < moved.children@.len() && 0 <= j < moved.children@.len() && i != j implies (
            #[trigger] moved.children@[i]).0@ != (#[trigger] moved.children@[j]).0@ by {
                assert(child_in_source(given.children@[i], moved.children@[i]));
                assert(child_in_source(given.children@[j], moved.children@[j]));
            }
        }
    }
    moved
}

impl Project {
    /// The project's name, as text.
    pub closed spec fn name_text(self) -> Seq<char> {
        self.name@
    }

    /// The project's tree entries.
    pub closed spec fn entries(self) -> Seq<(String, TreePartition)> {
        self.tree@
    }

    /// An empty project named `project`.
    pub fn new() -> (project: Project)
        ensures
            project.name_text() == "project"@,
            project.entries().len() == 0,
    {
        Project { name: String::from_str("project"), tree: Vec::new() }
    }

    /// The project's name.
    pub fn name(&self) -> (name: &String)
        ensures
            name@ == self.name_text(),
    {
        &self.name
    }

    /// The project's tree, in the order the entries were added.
    pub fn tree(&self) -> (tree: &Vec<(String, TreePartition)>)
        ensures
            tree@ == self.entries(),
    {
        &self.tree
    }
}

/// The two disk steps of writing a file: making it, then writing its bytes.
/// Making a folder has only the first.
#[derive(Debug, Clone, Copy, PartialEq, Eq, Structural)]
pub enum DiskStep {
    Create,
    Write,
}

/// The kind of failure when `step` of `action` fails.
pub open spec fn action_failure(action: OutputAction, step: DiskStep) -> OutputFailure {
    match action {
        OutputAction::WriteFile { .. } => match step {
            DiskStep::Create => OutputFailure::CreateFile,
            DiskStep::Write => OutputFailure::WriteFile,
        },
        OutputAction::CreateFolder { .. } => OutputFailure::CreateFolder,
    }
}

/// The kind of failure when `step` of writing the project file fails.
pub open spec fn project_file_failure(step: DiskStep) -> OutputFailure {
    match step {
        DiskStep::Create => OutputFailure::CreateProjectFile,
        DiskStep::Write => OutputFailure::WriteProjectFile,
    }
}

/// What the writer was doing when output of this kind failed.
pub open spec fn failure_text(failure: OutputFailure) -> Seq<char> {
    match failure {
        OutputFailure::CreateFile => "create an output file"@,
        OutputFailure::WriteFile => "write an output file"@,
        OutputFailure::CreateFolder => "create an output folder"@,
        OutputFailure::SerializeProject => "serialize the project file"@,
        OutputFailure::CreateProjectFile => "create the project file"@,
        OutputFailure::WriteProjectFile => "write the project file"@,
    }
}

impl OutputFailure {
    /// What the writer was doing when this output failed, as the error says it.
    pub fn doing_what(self) -> (doing: &'static str)
        ensures
            doing@ == failure_text(self),
    {
        match self {
            OutputFailure::CreateFile => "create an output file",
            OutputFailure::WriteFile => "write an output file",
            OutputFailure::CreateFolder => "create an output folder",
            OutputFailure::SerializeProject => "serialize the project file",
            OutputFailure::CreateProjectFile => "create the project file",
            OutputFailure::WriteProjectFile => "write the project file",
        }
    }
}

impl FileSystem {
    /// The writer is consistent: its source folder is `src` under its root,
    /// its project is named `project`, no tree entry name occurs twice, and
    /// no two children of any entry share a name.
    pub open spec fn wf(self) -> bool {
        &&& self.source_text() == path_join(self.root_text(), "src"@)
        &&& self.project_name() == "project"@
        &&& names_distinct(self.entries())
        &&& forall|i: int| 0 <= i < self.entries().len() ==> partition_wf(#[trigger] self.entries()[i].1)
    }

    /// The name of the project.
    pub closed spec fn project_name(self) -> Seq<char> {
        self.project.name@
    }

    /// The first failure the writer was told of, if any.
    pub closed spec fn failure(self) -> Option<(&'static str, std::io::Error)> {
        self.error
    }

    /// The entries of the project tree.
    pub closed spec fn entries(self) -> Seq<(String, TreePartition)> {
        self.project.tree@
    }

    /// The text of the project's root folder.
    pub closed spec fn root_text(self) -> Seq<char> {
        self.root@
    }

    /// The text of the project's source folder.
    pub closed spec fn source_text(self) -> Seq<char> {
        self.source@
    }

    /// The source folder that a writer rooted at `root` puts its files in.
    pub fn source_folder(root: &str) -> (source: String)
        ensures
            source@ == path_join(root@, "src"@),
    {
        join_paths(root, "src")
    }

    /// A writer rooted at `root`, told what became of making its source
    /// folder: a folder that was made, or that was there already, is fine;
    /// any other outcome is its first failure.
    pub fn from_root(root: String, source_folder: SourceFolder) -> (filesystem: FileSystem)
        ensures
            filesystem.wf(),
            filesystem.root_text() == root@,
            filesystem.source_text() == path_join(root@, "src"@),
            filesystem.entries().len() == 0,
            match source_folder {
                SourceFolder::Created => filesystem.failure() is None,
                SourceFolder::Failed { error, already_exists, is_directory } => if already_exists
                    && is_directory {
                    filesystem.failure() is None
                } else {
                    filesystem.failure() matches Some((d, f)) && d@ == "create the source folder"@
                        && f == error
                },
            },
    {
        let source = FileSystem::source_folder(root.as_str());
        let error = match source_folder {
            SourceFolder::Created => None,
            SourceFolder::Failed { error, already_exists, is_directory } => {
                if already_exists && is_directory {
                    None
                } else {
                    Some(("create the source folder", error))
                }
            },
        };
        FileSystem { project: Project::new(), root, source, error }
    }

    /// The first failure, if any; the writer is used up.
    pub fn into_error(self) -> (error: Option<(&'static str, std::io::Error)>)
        ensures
            error == self.failure(),
    {
        self.error
    }

    /// The project as it stands.
    pub fn project(&self) -> (project: &Project)
        requires
            self.wf(),
        ensures
            project.entries() == self.entries(),
            project.name_text() == "project"@,
    {
        &self.project
    }

    /// The root folder.
    pub fn root(&self) -> (root: &String)
        ensures
            root@ == self.root_text(),
    {
        &self.root
    }

    /// Whether a failure was recorded.
    pub fn has_failed(&self) -> (failed: bool)
        ensures
            failed == self.failure() is Some,
    {
        self.error.is_some()
    }

    /// Whether the tree already holds an entry named `name`.
    pub fn has_tree_entry(&self, name: &str) -> (has: bool)
        ensures
            has == tree_has(self.entries(), name@),
    {
        let n: usize = self.project.tree.len();
        let mut i: usize = 0;
        while i < n
            invariant
                n == self.project.tree@.len(),
                i <= n,
                forall|j: int| 0 <= j < i ==> (#[trigger] self.project.tree@[j]).0@ != name@,
            decreases n - i,
        {
            if text_eq(self.project.tree[i].0.as_str(), name) {
                return true;
            }
            i = i + 1;
        }
        false
    }

    /// Keeps `error` as the failure unless one was recorded before.
    pub fn record_error(&mut self, doing_what: &'static str, error: std::io::Error)
        requires
            old(self).wf(),
        ensures
            final(self).wf(),
            final(self).failure() == keep_first(old(self).failure(), Some((doing_what, error))),
            final(self).entries() == old(self).entries(),
            final(self).root_text() == old(self).root_text(),
            final(self).source_text() == old(self).source_text(),
    {
        if self.error.is_none() {
            self.error = Some((doing_what, error));
        }
    }

    /// Records that the output of `failure`'s kind failed with `error`.
    pub fn record_failure(&mut self, failure: OutputFailure, error: std::io::Error)
        requires
            old(self).wf(),
        ensures
            final(self).wf(),
            match old(self).failure() {
                None => final(self).failure() matches Some((d, e)) && d@ == failure_text(failure)
                    && e == error,
                Some(first) => final(self).failure() == Some(first),
            },
            final(self).entries() == old(self).entries(),
            final(self).root_text() == old(self).root_text(),
            final(self).source_text() == old(self).source_text(),
    {
        let doing_what = failure.doing_what();
        self.record_error(doing_what, error);
    }

    /// Records that `step` of the output `action` failed with `error`.
    pub fn output_failed(&mut self, action: &OutputAction, step: DiskStep, error: std::io::Error)
        requires
            old(self).wf(),
        ensures
            final(self).wf(),
            match old(self).failure() {
                None => final(self).failure() matches Some((d, e)) && d@ == failure_text(
                    action_failure(*action, step),
                ) && e == error,
                Some(first) => final(self).failure() == Some(first),
            },
            final(self).entries() == old(self).entries(),
            final(self).root_text() == old(self).root_text(),
            final(self).source_text() == old(self).source_text(),
    {
        let failure = match action {
            OutputAction::WriteFile { .. } => match step {
                DiskStep::Create => OutputFailure::CreateFile,
                DiskStep::Write => OutputFailure::WriteFile,
            },
            OutputAction::CreateFolder { .. } => OutputFailure::CreateFolder,
        };
        self.record_failure(failure, error);
    }

    /// Records that `step` of writing the project file failed with `error`.
    pub fn project_file_failed(&mut self, step: DiskStep, error: std::io::Error)
        requires
            old(self).wf(),
        ensures
            final(self).wf(),
            match old(self).failure() {
                None => final(self).failure() matches Some((d, e)) && d@ == failure_text(
                    project_file_failure(step),
                ) && e == error,
                Some(first) => final(self).failure() == Some(first),
            },
            final(self).entries() == old(self).entries(),
            final(self).root_text() == old(self).root_text(),
            final(self).source_text() == old(self).source_text(),
    {
        let failure = match step {
            DiskStep::Create => OutputFailure::CreateProjectFile,
            DiskStep::Write => OutputFailure::WriteProjectFile,
        };
        self.record_failure(failure, error);
    }

    /// Takes in one instruction and says what output it needs, if any.
    /// After a failure nothing changes and no output is asked for. Otherwise
    /// a tree entry is added with its paths (and its direct children's paths)
    /// taken into the source folder; a file or folder is asked for under the
    /// source folder. An entry name that the tree already holds is refused.
    pub fn read_instruction(&mut self, instruction: Instruction) -> (action: Option<OutputAction>)
        requires
            old(self).wf(),
            old(self).failure() is None ==> match instruction {
                Instruction::AddToTree { name, partition } => !tree_has(old(self).entries(), name@)
                    && partition_wf(partition),
                _ => true,
            },
        ensures
            final(self).wf(),
            final(self).failure() == old(self).failure(),
            final(self).root_text() == old(self).root_text(),
            final(self).source_text() == old(self).source_text(),
            old(self).failure() is Some ==> action is None && final(self).entries() == old(
                self,
            ).entries(),
            old(self).failure() is None ==> match instruction {
                Instruction::AddToTree { name, partition } => {
                    &&& action is None
                    &&& final(self).entries().len() == old(self).entries().len() + 1
                    &&& final(self).entries().take(old(self).entries().len() as int) == old(
                        self,
                    ).entries()
                    &&& final(self).entries().last().0 == name
                    &&& partition_in_source(partition, final(self).entries().last().1)
                    &&& final(self).entries().last().1.class_name == partition.class_name
                    &&& final(self).entries().last().1.ignore_unknown_instances
                        == partition.ignore_unknown_instances
                    &&& final(self).entries().last().1.children@.len() == partition.children@.len()
                    &&& (partition.path is None <==> final(self).entries().last().1.path is None)
                    &&& (partition.path matches Some(p) ==> final(self).entries().last().1.path
                        matches Some(q) && q@ == path_join("src"@, p@))
                },
                Instruction::CreateFile { filename, contents } => {
                    &&& final(self).entries() == old(self).entries()
                    &&& action matches Some(OutputAction::WriteFile { path, contents: c }) && path@
                        == path_join(old(self).source_text(), filename@) && c == contents
                },
                Instruction::CreateFolder { folder } => {
                    &&& final(self).entries() == old(self).entries()
                    &&& action matches Some(OutputAction::CreateFolder { path }) && path@
                        == path_join(old(self).source_text(), folder@)
                },
            },
    {
        if self.error.is_some() {
            return None;
        }
        match instruction {
            Instruction::AddToTree { name, partition } => {
                let ghost given = partition;
                let moved = partition_into_source(partition);
                proof {
                    lemma_only_paths_move(given, moved);
                }
                let ghost before = self.project.tree@;
                self.project.tree.push((name, moved));
                assert(self.project.tree@.take(before.len() as int) =~= before);
                assert forall|i: int|
                    0 <= i < self.project.tree@.len() implies partition_wf(
                    #[trigger] self.project.tree@[i].1,
                ) by {
                    if i < before.len() {
                        assert(before[i] == self.project.tree@[i]);
                    }
                }
                assert forall|i: int, j: int|
                    0 <= i < self.project.tree@.len() && 0 <= j < self.project.tree@.len() && i
                        != j implies (#[trigger] self.project.tree@[i]).0@ != (
                #[trigger] self.project.tree@[j]).0@ by {
                    if i < before.len() && j < before.len() {
                        assert(before[i] == self.project.tree@[i]);
                        assert(before[j] == self.project.tree@[j]);
                    } else if i < before.len() {
                        assert(before[i] == self.project.tree@[i]);
                    } else {
                        assert(before[j] == self.project.tree@[j]);
                    }
                }
                None
            },
            Instruction::CreateFile { filename, contents } => {
                let path = join_paths(self.source.as_str(), filename.as_str());
                Some(OutputAction::WriteFile { path, contents })
            },
            Instruction::CreateFolder { folder } => {
                let path = join_paths(self.source.as_str(), folder.as_str());
                Some(OutputAction::CreateFolder { path })
            },
        }
    }

    /// Where the project file is to be written once all instructions are in:
    /// `default.project.json` under the root, unless output failed before.
    pub fn finish_instructions(&self) -> (project_file: Option<String>)
        ensures
            match self.failure() {
                Some(_) => project_file is None,
                None => project_file matches Some(p) && p@ == path_join(
                    self.root_text(),
                    "default.project.json"@,
                ),
            },
    {
        if self.error.is_some() {
            return None;
        }
        Some(join_paths(self.root.as_str(), "default.project.json"))
    }
}

} // verus!
