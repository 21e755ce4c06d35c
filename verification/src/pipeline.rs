//! Pipeline definitions: what one checkout's configuration file declares.

use crate::order::{
    lemma_precedes_irreflexive, lemma_precedes_total, lemma_precedes_transitive, precedes,
    text_comes_before,
};
use crate::text::same_text;
use vstd::prelude::*;

verus! {

pub type PipelineName = String;

/// The working directory: where the current checkout lives.
pub const CACHE_DIR: &'static str = "/tmp/dcicd/";

/// The configuration file's name, relative to the working directory.
pub const PIPELINE_FILE: &'static str = ".dcicd.toml";

/// One build or deployment job: a base container image, the shell commands
/// to run in order, and the paths of what the job leaves behind.
#[derive(Debug, PartialEq, Eq, PartialOrd, Ord)]
pub struct Pipeline {
    pub container: String,
    pub script: Vec<String>,
    pub artifacts: Option<Vec<String>>,
}

/// What a [`Pipeline`] holds, as sequences of characters.
pub struct PipelineView {
    pub container: Seq<char>,
    pub script: Seq<Seq<char>>,
    pub artifacts: Option<Seq<Seq<char>>>,
}

impl View for Pipeline {
    type V = PipelineView;

    open spec fn view(&self) -> PipelineView {
        PipelineView {
            container: self.container@,
            script: self.script.deep_view(),
            artifacts: self.artifacts.deep_view(),
        }
    }
}

/// A copy of a list of strings.
pub fn clone_lines(lines: &Vec<String>) -> (r: Vec<String>)
    ensures
        r.deep_view() == lines.deep_view(),
{
    let mut r: Vec<String> = Vec::new();
    let mut i: usize = 0;
    while i < lines.len()
        invariant
            i <= lines.len(),
            r.len() == i,
            forall|j: int| 0 <= j < i ==> r@[j]@ == lines@[j]@,
        decreases lines.len() - i,
    {
        r.push(lines[i].clone());
        i += 1;
    }
    assert(r.deep_view() =~= lines.deep_view());
    r
}

impl Clone for Pipeline {
    fn clone(&self) -> (r: Self)
        ensures
            r@ == self@,
    {
        let artifacts = match &self.artifacts {
            Some(paths) => Some(clone_lines(paths)),
            None => None,
        };
        Pipeline {
            container: self.container.clone(),
            script: clone_lines(&self.script),
            artifacts,
        }
    }
}

/// A named pipeline, as the configuration file lists it.
#[derive(Debug, PartialEq, Eq)]
struct Entry {
    name: PipelineName,
    pipeline: Pipeline,
}

/// The pipelines of one configuration file, by name. Each name stands for one
/// pipeline: the entries are kept in the ascending order of their names, so
/// no name occurs twice, and a definition under a name that is there already
/// takes the place of the earlier one. Two values that define the same names
/// as the same pipelines are therefore the same list.
#[derive(Debug, PartialEq, Eq)]
pub struct Pipelines {
    entries: Vec<Entry>,
}

/// Whether the names of a list of entries stand in ascending order.
spec fn ascending_names(entries: Seq<Entry>) -> bool {
    forall|i: int, j: int|
        0 <= i < j < entries.len() ==> precedes(
            (#[trigger] entries[i]).name@,
            (#[trigger] entries[j]).name@,
        )
}

/// Whether no name occurs twice in a list of entries.
spec fn distinct_names(entries: Seq<Entry>) -> bool {
    forall|i: int, j: int|
        0 <= i < j < entries.len() ==> (#[trigger] entries[i]).name@ != (#[trigger] entries[j]).name@
}

/// In a list whose names ascend no name occurs twice.
proof fn lemma_no_name_twice(entries: Seq<Entry>)
    requires
        ascending_names(entries),
    ensures
        distinct_names(entries),
{
    assert forall|i: int, j: int| 0 <= i < j < entries.len() implies (#[trigger] entries[i]).name@
        != (#[trigger] entries[j]).name@ by {
        lemma_precedes_irreflexive(entries[i].name@);
    }
}

/// The mapping that a list of entries stands for.
spec fn entries_map(entries: Seq<Entry>) -> Map<Seq<char>, PipelineView>
    decreases entries.len(),
{
    if entries.len() == 0 {
        Map::empty()
    } else {
        entries_map(entries.drop_last()).insert(entries.last().name@, entries.last().pipeline@)
    }
}

/// What the last entry under `name` defines, if there is one.
spec fn lookup(entries: Seq<Entry>, name: Seq<char>) -> Option<PipelineView>
    decreases entries.len(),
{
    if entries.len() == 0 {
        None
    } else if entries.last().name@ == name {
        Some(entries.last().pipeline@)
    } else {
        lookup(entries.drop_last(), name)
    }
}

/// The mapping defines a name as its last entry does.
proof fn lemma_lookup(entries: Seq<Entry>, name: Seq<char>)
    ensures
        entries_map(entries).contains_key(name) <==> lookup(entries, name) is Some,
        lookup(entries, name) is Some ==> entries_map(entries)[name] == lookup(entries, name)->0,
    decreases entries.len(),
{
    if entries.len() > 0 {
        lemma_lookup(entries.drop_last(), name);
    }
}

/// Putting an entry in the place of the one that has its name defines the
/// name anew and leaves every other name as it was.
proof fn lemma_replaced(entries: Seq<Entry>, i: int, entry: Entry)
    requires
        0 <= i < entries.len(),
        distinct_names(entries),
        entries[i].name@ == entry.name@,
    ensures
        entries_map(entries.update(i, entry)) == entries_map(entries).insert(
            entry.name@,
            entry.pipeline@,
        ),
    decreases entries.len(),
{
    let replaced = entries.update(i, entry);
    let front = entries.drop_last();
    if i == entries.len() - 1 {
        assert(replaced.drop_last() =~= front);
        assert(entries_map(replaced) =~= entries_map(entries).insert(entry.name@, entry.pipeline@));
    } else {
        assert(replaced.drop_last() =~= front.update(i, entry));
        assert(replaced.last() == entries.last());
        assert(entries[i].name@ != entries[entries.len() - 1].name@);
        assert forall|a: int, b: int| 0 <= a < b < front.len() implies (#[trigger] front[a]).name@
            != (#[trigger] front[b]).name@ by {
            assert(entries[a].name@ != entries[b].name@);
        }
        lemma_replaced(front, i, entry);
        assert(entries_map(replaced) =~= entries_map(entries).insert(entry.name@, entry.pipeline@));
    }
}

/// Putting an entry under a new name into a list defines the name and
/// leaves every other name as it was, wherever the entry is put.
proof fn lemma_inserted(entries: Seq<Entry>, i: int, entry: Entry)
    requires
        0 <= i <= entries.len(),
        forall|j: int| 0 <= j < entries.len() ==> (#[trigger] entries[j]).name@ != entry.name@,
    ensures
        entries_map(entries.insert(i, entry)) == entries_map(entries).insert(
            entry.name@,
            entry.pipeline@,
        ),
    decreases entries.len(),
{
    let longer = entries.insert(i, entry);
    if i == entries.len() {
        assert(longer.drop_last() =~= entries);
    } else {
        let front = entries.drop_last();
        assert(longer.drop_last() =~= front.insert(i, entry));
        assert(longer.last() == entries.last());
        assert(entries[entries.len() - 1].name@ != entry.name@);
        assert forall|j: int| 0 <= j < front.len() implies (#[trigger] front[j]).name@
            != entry.name@ by {
            assert(entries[j].name@ != entry.name@);
        }
        lemma_inserted(front, i, entry);
        assert(entries_map(longer) =~= entries_map(entries).insert(entry.name@, entry.pipeline@));
    }
}

impl View for Pipelines {
    type V = Map<Seq<char>, PipelineView>;

    closed spec fn view(&self) -> Map<Seq<char>, PipelineView> {
        entries_map(self.entries@)
    }
}

impl Pipelines {
    /// No pipeline at all.
    pub fn new() -> (r: Pipelines)
        ensures
            r@ == Map::<Seq<char>, PipelineView>::empty(),
    {
        Pipelines { entries: Vec::new() }
    }

    /// The names stand in ascending order, so that no name occurs twice.
    #[verifier::type_invariant]
    spec fn names_ascend(self) -> bool {
        ascending_names(self.entries@)
    }

    /// Defines `name` as `pipeline`, in place of what it was defined as.
    pub fn insert(&mut self, name: PipelineName, pipeline: Pipeline)
        ensures
            final(self)@ == old(self)@.insert(name@, pipeline@),
    {
        proof {
            use_type_invariant(&*self);
        }
        let mut entries: Vec<Entry> = Vec::new();
        core::mem::swap(&mut self.entries, &mut entries);
        let ghost before = entries@;
        let entry = Entry { name, pipeline };
        let mut i: usize = 0;
        while i < entries.len() && text_comes_before(entries[i].name.as_str(), entry.name.as_str())
            invariant
                i <= entries.len(),
                entries@ == before,
                forall|j: int| 0 <= j < i ==> precedes((#[trigger] before[j]).name@, entry.name@),
            decreases entries.len() - i,
        {
            i += 1;
        }
        if i < entries.len() && same_text(entries[i].name.as_str(), entry.name.as_str()) {
            proof {
                lemma_no_name_twice(before);
                lemma_replaced(before, i as int, entry);
            }
            entries.set(i, entry);
            assert forall|a: int, b: int| 0 <= a < b < entries@.len() implies precedes(
                (#[trigger] entries@[a]).name@,
                (#[trigger] entries@[b]).name@,
            ) by {
                assert(entries@[a].name@ == before[a].name@);
                assert(entries@[b].name@ == before[b].name@);
                assert(precedes(before[a].name@, before[b].name@));
            }
        } else {
            proof {
                // the name comes after all that stands before its place and
                // before all that stands from its place on
                assert forall|j: int| i <= j < before.len() implies precedes(
                    entry.name@,
                    (#[trigger] before[j]).name@,
                ) by {
                    lemma_precedes_total(before[i as int].name@, entry.name@);
                    if j > i {
                        assert(precedes(before[i as int].name@, before[j].name@));
                        lemma_precedes_transitive(
                            entry.name@,
                            before[i as int].name@,
                            before[j].name@,
                        );
                    }
                }
                assert forall|j: int| 0 <= j < before.len() implies (#[trigger] before[j]).name@
                    != entry.name@ by {
                    lemma_precedes_irreflexive(entry.name@);
                    if j < i {
                        assert(precedes(before[j].name@, entry.name@));
                    } else {
                        assert(precedes(entry.name@, before[j].name@));
                    }
                }
                lemma_inserted(before, i as int, entry);
            }
            let ghost name = entry.name@;
            entries.insert(i, entry);
            assert forall|a: int, b: int| 0 <= a < b < entries@.len() implies precedes(
                (#[trigger] entries@[a]).name@,
                (#[trigger] entries@[b]).name@,
            ) by {
                if b == i {
                    assert(entries@[a] == before[a]);
                    assert(precedes(before[a].name@, name));
                } else if a == i {
                    assert(entries@[b] == before[b - 1]);
                    assert(precedes(name, before[b - 1].name@));
                } else {
                    let x = if a < i { a } else { a - 1 };
                    let y = if b < i { b } else { b - 1 };
                    assert(entries@[a] == before[x] && entries@[b] == before[y]);
                    assert(precedes(before[x].name@, before[y].name@));
                }
            }
        }
        self.entries = entries;
    }

    /// The pipeline that `name` is defined as, if it is defined.
    pub fn get(&self, name: &str) -> (r: Option<&Pipeline>)
        ensures
            r is Some <==> self@.contains_key(name@),
            r matches Some(pipeline) ==> pipeline@ == self@[name@],
    {
        assert(self.entries@.subrange(0, self.entries.len() as int) =~= self.entries@);
        let mut i: usize = self.entries.len();
        while i > 0
            invariant
                i <= self.entries.len(),
                lookup(self.entries@, name@) == lookup(self.entries@.subrange(0, i as int), name@),
            decreases i,
        {
            let ghost front = self.entries@.subrange(0, i as int);
            i -= 1;
            assert(front.drop_last() =~= self.entries@.subrange(0, i as int));
            assert(front.last() == self.entries@[i as int]);
            if same_text(self.entries[i].name.as_str(), name) {
                proof {
                    lemma_lookup(self.entries@, name@);
                }
                return Some(&self.entries[i].pipeline);
            }
        }
        proof {
            lemma_lookup(self.entries@, name@);
        }
        None
    }

    /// Whether `name` is defined.
    pub fn contains(&self, name: &str) -> (r: bool)
        ensures
            r == self@.contains_key(name@),
    {
        self.get(name).is_some()
    }
}

impl Clone for Pipelines {
    fn clone(&self) -> (r: Self)
        ensures
            r@ == self@,
    {
        proof {
            use_type_invariant(self);
        }
        let mut entries: Vec<Entry> = Vec::new();
        let mut i: usize = 0;
        while i < self.entries.len()
            invariant
                i <= self.entries.len(),
                entries@.len() == i,
                forall|j: int| 0 <= j < i ==> (#[trigger] entries@[j]).name@ == self.entries@[j].name@,
                entries_map(entries@) == entries_map(self.entries@.subrange(0, i as int)),
            decreases self.entries.len() - i,
        {
            let ghost before = entries@;
            let entry = &self.entries[i];
            entries.push(Entry { name: entry.name.clone(), pipeline: entry.pipeline.clone() });
            assert(entries@.drop_last() =~= before);
            assert(self.entries@.subrange(0, i + 1).drop_last() =~= self.entries@.subrange(
                0,
                i as int,
            ));
            i += 1;
        }
        assert(self.entries@.subrange(0, i as int) =~= self.entries@);
        assert forall|a: int, b: int| 0 <= a < b < entries@.len() implies precedes(
            (#[trigger] entries@[a]).name@,
            (#[trigger] entries@[b]).name@,
        ) by {
            assert(precedes(self.entries@[a].name@, self.entries@[b].name@));
        }
        Pipelines { entries }
    }
}

/// What reading the configuration file of the working directory gave.
#[derive(Debug, PartialEq, Eq)]
pub enum ConfigFile {
    /// There is no configuration file.
    Missing,
    /// The file is there and is no table of pipelines; the text says why.
    Invalid(String),
    /// The pipelines that the file declares.
    Parsed(Pipelines),
}

/// What a [`ConfigFile`] holds.
pub enum ConfigFileView {
    Missing,
    Invalid(Seq<char>),
    Parsed(Map<Seq<char>, PipelineView>),
}

impl View for ConfigFile {
    type V = ConfigFileView;

    open spec fn view(&self) -> ConfigFileView {
        match self {
            ConfigFile::Missing => ConfigFileView::Missing,
            ConfigFile::Invalid(reason) => ConfigFileView::Invalid(reason@),
            ConfigFile::Parsed(pipelines) => ConfigFileView::Parsed(pipelines@),
        }
    }
}

} // verus!
