//! Carrying a planned project out, and what that does to a disk.
//!
//! A plan is a list of paths to generate, folders before what is in them.
//! For each one the library asks whether the path exists and decides: what
//! exists is left alone, what does not is created. Creating is the caller's
//! part; the decision is made here.

use crate::paths::texts;
use crate::text::option_text;
use vstd::prelude::*;

verus! {

/// A path to generate: a folder, or a file with its content. A file without
/// content is declared only: nothing is written for it.
#[derive(Debug)]
pub enum GeneratedPath {
    Folder { path: String },
    File { path: String, content: Option<String> },
}

/// What a [`GeneratedPath`] holds.
pub enum GeneratedPathView {
    Folder { path: Seq<char> },
    File { path: Seq<char>, content: Option<Seq<char>> },
}

impl View for GeneratedPath {
    type V = GeneratedPathView;

    open spec fn view(&self) -> GeneratedPathView {
        match *self {
            GeneratedPath::Folder { path } => GeneratedPathView::Folder { path: path@ },
            GeneratedPath::File { path, content } => GeneratedPathView::File {
                path: path@,
                content: option_text(content),
            },
        }
    }
}

/// What becomes of a file that is declared only.
#[derive(Debug, Clone, Copy, PartialEq, Eq, Structural)]
pub enum DeclaredFiles {
    /// Nothing is written for it.
    Skip,
    /// It is created empty.
    CreateEmpty,
}

impl DeclaredFiles {
    /// The content of a file that is declared only.
    pub open spec fn content(self) -> Option<Seq<char>> {
        match self {
            DeclaredFiles::Skip => None,
            DeclaredFiles::CreateEmpty => Some(Seq::empty()),
        }
    }

    /// The content of a file that is declared only.
    pub fn declared_content(self) -> (content: Option<String>)
        ensures
            option_text(content) == self.content(),
    {
        match self {
            DeclaredFiles::Skip => None,
            DeclaredFiles::CreateEmpty => Some(String::new()),
        }
    }
}

/// The views of `plan`, in order.
pub open spec fn plan_view(plan: Seq<GeneratedPath>) -> Seq<GeneratedPathView> {
    plan.map_values(|generated: GeneratedPath| generated@)
}

/// What is done about a path.
#[derive(Debug, Clone, Copy, PartialEq, Eq, Structural)]
pub enum Decision {
    /// The path does not exist: the folder is to be created, with every
    /// missing folder above it, or the file is to be written.
    Create,
    /// The path exists: it is left as it is.
    Exists,
    /// The file does not exist and is declared only: nothing is written.
    Declared,
}

impl GeneratedPathView {
    /// The path.
    pub open spec fn path(self) -> Seq<char> {
        match self {
            GeneratedPathView::Folder { path } => path,
            GeneratedPathView::File { path, .. } => path,
        }
    }

    /// What is done about the path, given whether it exists.
    pub open spec fn decision(self, exists: bool) -> Decision {
        if exists {
            Decision::Exists
        } else {
            match self {
                GeneratedPathView::File { content: None, .. } => Decision::Declared,
                _ => Decision::Create,
            }
        }
    }
}

impl GeneratedPath {
    /// The path, as the value that holds it.
    pub open spec fn spec_path(&self) -> &String {
        match self {
            GeneratedPath::Folder { path } => path,
            GeneratedPath::File { path, .. } => path,
        }
    }

    /// The path.
    #[verifier::when_used_as_spec(spec_path)]
    pub fn path(&self) -> (path: &String)
        ensures
            path == self.spec_path(),
            path@ == self@.path(),
    {
        match self {
            GeneratedPath::Folder { path } => path,
            GeneratedPath::File { path, .. } => path,
        }
    }

    /// Decides what is done about the path, given whether it exists: a path
    /// that exists is never created again.
    pub fn decide(&self, exists: bool) -> (decision: Decision)
        ensures
            decision == self@.decision(exists),
    {
        if exists {
            Decision::Exists
        } else {
            match self {
                GeneratedPath::File { content: None, .. } => Decision::Declared,
                _ => Decision::Create,
            }
        }
    }
}

/// A path of the plan with what was decided about it.
#[derive(Debug)]
pub struct Step<'a> {
    pub generated: &'a GeneratedPath,
    pub decision: Decision,
}

/// Whether `probe` may say of `generated` whether it exists, and `on_path`
/// may then accept the step that follows from the answer.
pub open spec fn step_accepted<E, P: Fn(&String) -> bool, F: Fn(&Step) -> Result<(), E>>(
    probe: &P,
    on_path: &F,
    generated: GeneratedPath,
) -> bool {
    exists|exists: bool, outcome: Result<(), E>|
        {
            &&& call_ensures(probe, (generated.path(),), exists)
            &&& outcome is Ok
            &&& #[trigger] call_ensures(
                on_path,
                (&Step { generated: &generated, decision: generated@.decision(exists) },),
                outcome,
            )
        }
}

/// Whether `probe` may say of `generated` whether it exists, and `on_path`
/// may then refuse the step that follows from the answer with `error`.
pub open spec fn step_refused<E, P: Fn(&String) -> bool, F: Fn(&Step) -> Result<(), E>>(
    probe: &P,
    on_path: &F,
    generated: GeneratedPath,
    error: E,
) -> bool {
    exists|exists: bool|
        {
            &&& call_ensures(probe, (generated.path(),), exists)
            &&& #[trigger] call_ensures(
                on_path,
                (&Step { generated: &generated, decision: generated@.decision(exists) },),
                Err::<(), E>(error),
            )
        }
}

/// What it means to carry `plan` out with `probe` and `on_path`: path by
/// path, `probe` says whether the path exists and `on_path` is handed the
/// path with the decision that follows. On success `on_path` has accepted
/// every step; on failure it has accepted those before one that it refused
/// with the error that is returned.
pub open spec fn carried_out<E, P: Fn(&String) -> bool, F: Fn(&Step) -> Result<(), E>>(
    probe: &P,
    on_path: &F,
    plan: Seq<GeneratedPath>,
    result: Result<(), E>,
) -> bool {
    match result {
        Ok(_) => forall|i: int|
            0 <= i < plan.len() ==> step_accepted(probe, on_path, #[trigger] plan[i]),
        Err(error) => exists|k: int|
            0 <= k < plan.len() && step_refused(probe, on_path, #[trigger] plan[k], error)
                && forall|i: int|
                0 <= i < k ==> step_accepted(probe, on_path, #[trigger] plan[i]),
    }
}

/// Carries `plan` out: for each path in turn, asks `probe` whether it
/// exists, decides, and hands path and decision to `on_path`. Stops at the
/// first step that `on_path` refuses, with its error.
pub fn materialize<E, P: Fn(&String) -> bool, F: Fn(&Step) -> Result<(), E>>(
    plan: &Vec<GeneratedPath>,
    probe: &P,
    on_path: &F,
) -> (result: Result<(), E>)
    requires
        forall|path: &String| call_requires(probe, (path,)),
        forall|step: &Step| call_requires(on_path, (step,)),
    ensures
        carried_out(probe, on_path, plan@, result),
{
    let mut i: usize = 0;
    while i < plan.len()
        invariant
            i <= plan.len(),
            forall|path: &String| call_requires(probe, (path,)),
            forall|step: &Step| call_requires(on_path, (step,)),
            forall|j: int| 0 <= j < i ==> step_accepted(probe, on_path, #[trigger] plan@[j]),
        decreases plan.len() - i,
    {
        let generated = &plan[i];
        let exists = probe(generated.path());
        let step = Step { generated, decision: generated.decide(exists) };
        let outcome = on_path(&step);
        assert(call_ensures(
            on_path,
            (&Step { generated: &plan@[i as int], decision: plan@[i as int]@.decision(exists) },),
            outcome,
        ));
        match outcome {
            Ok(_) => {
                assert(step_accepted(probe, on_path, plan@[i as int]));
            },
            Err(error) => {
                assert(step_refused(probe, on_path, plan@[i as int], error));
                return Err(error);
            },
        }
        i += 1;
    }
    Ok(())
}

/// What a disk holds at a path.
pub enum Entry {
    Folder,
    File { content: Seq<char> },
}

/// A disk: what exists, by path.
pub type Disk = Map<Seq<char>, Entry>;

impl GeneratedPathView {
    /// Whether there is something to create for the path: it is a folder, or
    /// a file with content.
    pub open spec fn creatable(self) -> bool {
        !(self matches GeneratedPathView::File { content: None, .. })
    }

    /// The disk after the path has been decided on and the decision carried
    /// out: a path that exists is left as it is, a folder or a file with
    /// content that does not exist is put there, and nothing is done for a
    /// file that is declared only.
    pub open spec fn after(self, disk: Disk) -> Disk {
        if disk.dom().contains(self.path()) {
            disk
        } else {
            match self {
                GeneratedPathView::Folder { path } => disk.insert(path, Entry::Folder),
                GeneratedPathView::File { path, content: Some(content) } => disk.insert(
                    path,
                    Entry::File { content },
                ),
                GeneratedPathView::File { content: None, .. } => disk,
            }
        }
    }

    /// The disk changes on a decision to create, and on no other.
    pub proof fn lemma_after(self, disk: Disk)
        ensures
            self.decision(disk.dom().contains(self.path())) != Decision::Create ==> self.after(disk)
                == disk,
            self.decision(disk.dom().contains(self.path())) == Decision::Create ==> self.after(
                disk,
            ).dom() == disk.dom().insert(self.path()),
    {
    }
}

/// The disk after `plan` has been carried out on `disk`, path by path.
pub open spec fn after_all(disk: Disk, plan: Seq<GeneratedPathView>) -> Disk
    decreases plan.len(),
{
    if plan.len() == 0 {
        disk
    } else {
        plan.last().after(after_all(disk, plan.drop_last()))
    }
}

/// The decision about each path of `plan` while it is carried out on `disk`.
pub open spec fn decisions(disk: Disk, plan: Seq<GeneratedPathView>) -> Seq<Decision> {
    Seq::new(
        plan.len(),
        |i: int| plan[i].decision(after_all(disk, plan.take(i)).dom().contains(plan[i].path())),
    )
}

/// The paths of `plan` for which there is something to create.
pub open spec fn creatable_paths(plan: Seq<GeneratedPathView>) -> Set<Seq<char>> {
    Set::new(
        |path: Seq<char>|
            exists|i: int| 0 <= i < plan.len() && (#[trigger] plan[i]).creatable() && plan[i].path() == path,
    )
}

/// Nothing is clobbered: what is on the disk before a plan is carried out is
/// on it afterwards, unchanged.
pub proof fn lemma_no_clobber(disk: Disk, plan: Seq<GeneratedPathView>, path: Seq<char>)
    requires
        disk.dom().contains(path),
    ensures
        after_all(disk, plan).dom().contains(path),
        after_all(disk, plan)[path] == disk[path],
    decreases plan.len(),
{
    if plan.len() > 0 {
        lemma_no_clobber(disk, plan.drop_last(), path);
    }
}

/// Only what is planned is created: after a plan has been carried out the
/// disk holds the paths that it held before and the paths of the plan for
/// which there is something to create, and no others.
pub proof fn lemma_only_planned(disk: Disk, plan: Seq<GeneratedPathView>)
    ensures
        after_all(disk, plan).dom() =~= disk.dom().union(creatable_paths(plan)),
    decreases plan.len(),
{
    if plan.len() == 0 {
        assert(creatable_paths(plan) =~= Set::empty());
    } else {
        let front = plan.drop_last();
        let last = plan.last();
        lemma_only_planned(disk, front);
        assert forall|path: Seq<char>| creatable_paths(plan).contains(path) <==> (
        creatable_paths(front).contains(path) || (last.creatable() && last.path() == path)) by {
            if creatable_paths(plan).contains(path) {
                let i = choose|i: int|
                    0 <= i < plan.len() && (#[trigger] plan[i]).creatable() && plan[i].path()
                        == path;
                if i < plan.len() - 1 {
                    assert(front[i] == plan[i]);
                }
            }
            if creatable_paths(front).contains(path) {
                let i = choose|i: int|
                    0 <= i < front.len() && (#[trigger] front[i]).creatable() && front[i].path()
                        == path;
                assert(plan[i] == front[i]);
            }
            if last.creatable() && last.path() == path {
                assert(plan[plan.len() - 1] == last);
            }
        }
    }
}

/// A second run creates nothing. Where a plan has been carried out, carrying
/// out a plan that names no other paths to create changes nothing, whatever
/// content the two plans hold: the disk stays as the first run left it,
/// nothing is decided to be created, and every path for which there is
/// something to create is found to exist.
pub proof fn lemma_second_run(
    disk: Disk,
    first: Seq<GeneratedPathView>,
    second: Seq<GeneratedPathView>,
)
    requires
        creatable_paths(second).subset_of(creatable_paths(first)),
    ensures
        after_all(after_all(disk, first), second) == after_all(disk, first),
        forall|i: int|
            0 <= i < second.len() ==> (#[trigger] decisions(after_all(disk, first), second)[i])
                != Decision::Create,
        forall|i: int|
            0 <= i < second.len() && second[i].creatable() ==> (#[trigger] decisions(
                after_all(disk, first),
                second,
            )[i]) == Decision::Exists,
{
    let done = after_all(disk, first);
    lemma_only_planned(disk, first);
    assert forall|i: int| 0 <= i <= second.len() implies #[trigger] after_all(
        done,
        second.take(i),
    ) == done by {
        lemma_settled(done, second, i);
    }
    assert(second.take(second.len() as int) =~= second);
    assert forall|i: int|
        0 <= i < second.len() && second[i].creatable() implies (#[trigger] decisions(
        done,
        second,
    )[i]) == Decision::Exists by {
        assert(creatable_paths(second).contains(second[i].path()));
    }
}

/// Carrying a plan out a second time changes nothing: the disk stays as the
/// first run left it, and nothing is decided to be created.
pub proof fn lemma_idempotent(disk: Disk, plan: Seq<GeneratedPathView>)
    ensures
        after_all(after_all(disk, plan), plan) == after_all(disk, plan),
        forall|i: int|
            0 <= i < plan.len() ==> (#[trigger] decisions(after_all(disk, plan), plan)[i])
                != Decision::Create,
        forall|i: int|
            0 <= i < plan.len() && plan[i].creatable() ==> (#[trigger] decisions(
                after_all(disk, plan),
                plan,
            )[i]) == Decision::Exists,
{
    lemma_second_run(disk, plan, plan);
}

/// On a disk that holds every path of `plan` for which there is something to
/// create, carrying out the first `n` paths of `plan` changes nothing.
pub proof fn lemma_settled(disk: Disk, plan: Seq<GeneratedPathView>, n: int)
    requires
        0 <= n <= plan.len(),
        creatable_paths(plan).subset_of(disk.dom()),
    ensures
        after_all(disk, plan.take(n)) == disk,
    decreases n,
{
    if n > 0 {
        lemma_settled(disk, plan, n - 1);
        assert(plan.take(n).drop_last() =~= plan.take(n - 1));
        let last = plan.take(n).last();
        assert(last == plan[n - 1]);
        if last.creatable() {
            assert(creatable_paths(plan).contains(last.path()));
        }
    }
}

/// Whether `path` is among `paths`.
pub open spec fn listed(paths: Seq<Seq<char>>, path: Seq<char>) -> bool {
    exists|i: int| 0 <= i < paths.len() && #[trigger] paths[i] == path
}

/// The place of `path` among `paths`.
pub open spec fn place_of(paths: Seq<Seq<char>>, path: Seq<char>) -> int {
    choose|i: int| 0 <= i < paths.len() && #[trigger] paths[i] == path
}

/// What a disk holds where the content is `content`: a folder where there
/// is none, a file otherwise.
pub open spec fn entry_of(content: Option<String>) -> Entry {
    match content {
        Some(content) => Entry::File { content: content@ },
        None => Entry::Folder,
    }
}

/// A disk in memory, on which a plan can be tried out.
#[derive(Debug)]
pub struct MemoryDisk {
    paths: Vec<String>,
    contents: Vec<Option<String>>,
}

impl View for MemoryDisk {
    type V = Disk;

    closed spec fn view(&self) -> Disk {
        Map::new(
            |path: Seq<char>| listed(texts(self.paths@), path),
            |path: Seq<char>| entry_of(self.contents@[place_of(texts(self.paths@), path)]),
        )
    }
}

impl MemoryDisk {
    /// What holds of every disk in memory: each path is there once, with
    /// its content.
    pub closed spec fn wf(&self) -> bool {
        &&& self.paths@.len() == self.contents@.len()
        &&& texts(self.paths@).no_duplicates()
    }

    /// An empty disk.
    pub fn new() -> (disk: Self)
        ensures
            disk.wf(),
            disk@ == Disk::empty(),
    {
        let disk = MemoryDisk { paths: Vec::new(), contents: Vec::new() };
        assert(disk@ =~= Disk::empty());
        disk
    }

    /// The place of `path` on the disk, if it exists.
    fn place(&self, path: &String) -> (place: Option<usize>)
        requires
            self.wf(),
        ensures
            place is Some <==> listed(texts(self.paths@), path@),
            place matches Some(at) ==> at < self.paths@.len() && at == place_of(
                texts(self.paths@),
                path@,
            ),
    {
        let mut i: usize = 0;
        while i < self.paths.len()
            invariant
                i <= self.paths.len(),
                texts(self.paths@).no_duplicates(),
                forall|j: int| 0 <= j < i ==> (#[trigger] texts(self.paths@)[j]) != path@,
            decreases self.paths.len() - i,
        {
            assert(texts(self.paths@)[i as int] == self.paths@[i as int]@);
            if self.paths[i] == *path {
                return Some(i);
            }
            i += 1;
        }
        None
    }

    /// Whether `path` exists.
    pub fn contains(&self, path: &String) -> (found: bool)
        requires
            self.wf(),
        ensures
            found == self@.dom().contains(path@),
    {
        self.place(path).is_some()
    }

    /// The content of the file at `path`; none where there is a folder or
    /// nothing.
    pub fn content(&self, path: &String) -> (content: Option<&String>)
        requires
            self.wf(),
        ensures
            match content {
                Some(content) => self@.dom().contains(path@) && self@[path@] == (Entry::File {
                    content: content@,
                }),
                None => !self@.dom().contains(path@) || self@[path@] == Entry::Folder,
            },
    {
        match self.place(path) {
            Some(at) => match &self.contents[at] {
                Some(content) => Some(content),
                None => None,
            },
            None => None,
        }
    }

    /// The number of paths that exist.
    pub fn len(&self) -> (len: usize)
        requires
            self.wf(),
        ensures
            len == self@.dom().len(),
            self@.dom().finite(),
    {
        proof {
            self.lemma_dom();
        }
        self.paths.len()
    }

    /// The paths that exist are those of the list, each once.
    proof fn lemma_dom(&self)
        requires
            self.wf(),
        ensures
            self@.dom() == texts(self.paths@).to_set(),
            self@.dom().finite(),
            self@.dom().len() == self.paths@.len(),
    {
        let paths = texts(self.paths@);
        assert(self@.dom() =~= paths.to_set()) by {
            assert forall|path: Seq<char>| listed(paths, path) <==> paths.contains(path) by {}
        }
        paths.unique_seq_to_set();
    }

    /// Puts `content` at `path`, which does not exist.
    fn put(&mut self, path: String, content: Option<String>)
        requires
            old(self).wf(),
            !old(self)@.dom().contains(path@),
        ensures
            final(self).wf(),
            final(self)@ == old(self)@.insert(path@, entry_of(content)),
    {
        let ghost before = texts(self.paths@);
        self.paths.push(path);
        self.contents.push(content);
        proof {
            let after = texts(self.paths@);
            assert(after =~= before.push(path@));
            assert(after.no_duplicates());
            assert forall|other: Seq<char>| listed(after, other) <==> (listed(before, other)
                || other == path@) by {
                if listed(before, other) {
                    let i = place_of(before, other);
                    assert(after[i] == other);
                }
                if other == path@ {
                    assert(after[before.len() as int] == other);
                }
            }
            assert forall|other: Seq<char>| listed(before, other) implies place_of(after, other)
                == place_of(before, other) by {
                let i = place_of(before, other);
                assert(after[i] == other);
            }
            assert(after[before.len() as int] == path@);
            assert(place_of(after, path@) == before.len());
            assert(self@ =~= old(self)@.insert(path@, entry_of(content)));
        }
    }

    /// Decides on `generated` and carries the decision out on this disk.
    pub fn apply(&mut self, generated: &GeneratedPath) -> (decision: Decision)
        requires
            old(self).wf(),
        ensures
            final(self).wf(),
            decision == generated@.decision(old(self)@.dom().contains(generated@.path())),
            final(self)@ == generated@.after(old(self)@),
    {
        let found = self.contains(generated.path());
        let decision = generated.decide(found);
        if !found {
            match generated {
                GeneratedPath::Folder { path } => {
                    self.put(path.clone(), None);
                },
                GeneratedPath::File { path, content: Some(content) } => {
                    self.put(path.clone(), Some(content.clone()));
                },
                GeneratedPath::File { content: None, .. } => {},
            }
        }
        decision
    }

    /// Carries `plan` out on this disk, path by path, and returns the
    /// decisions in order.
    pub fn apply_all(&mut self, plan: &Vec<GeneratedPath>) -> (made: Vec<Decision>)
        requires
            old(self).wf(),
        ensures
            final(self).wf(),
            final(self)@ == after_all(old(self)@, plan_view(plan@)),
            made@ == decisions(old(self)@, plan_view(plan@)),
    {
        let ghost views = plan_view(plan@);
        let mut made: Vec<Decision> = Vec::new();
        let mut i: usize = 0;
        assert(views.take(0) =~= Seq::empty());
        while i < plan.len()
            invariant
                i <= plan.len(),
                views == plan_view(plan@),
                self.wf(),
                self@ == after_all(old(self)@, views.take(i as int)),
                made@.len() == i,
                forall|j: int| 0 <= j < i ==> made@[j] == decisions(old(self)@, views)[j],
            decreases plan.len() - i,
        {
            assert(views.take(i + 1).drop_last() =~= views.take(i as int));
            assert(views.take(i + 1).last() == plan@[i as int]@);
            let decision = self.apply(&plan[i]);
            made.push(decision);
            i += 1;
        }
        assert(views.take(i as int) =~= views);
        assert(made@ =~= decisions(old(self)@, views));
        made
    }
}

} // verus!
