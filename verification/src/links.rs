//! The repositories that were registered: clone URLs by repository name.

use crate::order::{
    ascending, lemma_precedes_irreflexive, lemma_precedes_total, lemma_precedes_transitive,
    precedes, text_comes_before,
};
use crate::repo::{Repo, RepoName};
use crate::text::same_text;
use vstd::prelude::*;

verus! {

/// Clone URLs by repository name. Each name stands for one URL: the
/// registrations are kept in the ascending order of their names, so no name
/// occurs twice, and registering a name again puts the new URL in the place
/// of the old one. Two values that hold the same URLs under the same names
/// are therefore the same list.
#[derive(Debug, PartialEq, Eq)]
pub struct RepoLinks {
    entries: Vec<Repo>,
}

/// Whether the names of a list of registrations stand in ascending order.
spec fn ascending_names(entries: Seq<Repo>) -> bool {
    forall|i: int, j: int|
        0 <= i < j < entries.len() ==> precedes(
            (#[trigger] entries[i]).repo_name@,
            (#[trigger] entries[j]).repo_name@,
        )
}

/// Whether no name occurs twice in a list of registrations.
spec fn distinct_names(entries: Seq<Repo>) -> bool {
    forall|i: int, j: int|
        0 <= i < j < entries.len() ==> (#[trigger] entries[i]).repo_name@ != (
        #[trigger] entries[j]).repo_name@
}

/// In a list whose names ascend no name occurs twice.
proof fn lemma_no_name_twice(entries: Seq<Repo>)
    requires
        ascending_names(entries),
    ensures
        distinct_names(entries),
{
    assert forall|i: int, j: int| 0 <= i < j < entries.len() implies (
    #[trigger] entries[i]).repo_name@ != (#[trigger] entries[j]).repo_name@ by {
        lemma_precedes_irreflexive(entries[i].repo_name@);
    }
}

/// The mapping that a list of registrations stands for.
spec fn links_map(entries: Seq<Repo>) -> Map<Seq<char>, Seq<char>>
    decreases entries.len(),
{
    if entries.len() == 0 {
        Map::empty()
    } else {
        links_map(entries.drop_last()).insert(entries.last().repo_name@, entries.last().url@)
    }
}

/// The URL that the last registration of `name` gave, if there is one.
spec fn last_link(entries: Seq<Repo>, name: Seq<char>) -> Option<Seq<char>>
    decreases entries.len(),
{
    if entries.len() == 0 {
        None
    } else if entries.last().repo_name@ == name {
        Some(entries.last().url@)
    } else {
        last_link(entries.drop_last(), name)
    }
}

/// The mapping holds for a name what its last registration gave.
proof fn lemma_last_link(entries: Seq<Repo>, name: Seq<char>)
    ensures
        links_map(entries).contains_key(name) <==> last_link(entries, name) is Some,
        last_link(entries, name) is Some ==> links_map(entries)[name] == last_link(entries, name)->0,
    decreases entries.len(),
{
    if entries.len() > 0 {
        lemma_last_link(entries.drop_last(), name);
    }
}

/// Putting a registration in the place of the one that has its name gives
/// the name its new URL and leaves every other name as it was.
proof fn lemma_replaced(entries: Seq<Repo>, i: int, entry: Repo)
    requires
        0 <= i < entries.len(),
        distinct_names(entries),
        entries[i].repo_name@ == entry.repo_name@,
    ensures
        links_map(entries.update(i, entry)) == links_map(entries).insert(
            entry.repo_name@,
            entry.url@,
        ),
    decreases entries.len(),
{
    let replaced = entries.update(i, entry);
    let front = entries.drop_last();
    if i == entries.len() - 1 {
        assert(replaced.drop_last() =~= front);
        assert(links_map(replaced) =~= links_map(entries).insert(entry.repo_name@, entry.url@));
    } else {
        assert(replaced.drop_last() =~= front.update(i, entry));
        assert(replaced.last() == entries.last());
        assert(entries[i].repo_name@ != entries[entries.len() - 1].repo_name@);
        assert forall|a: int, b: int| 0 <= a < b < front.len() implies (
        #[trigger] front[a]).repo_name@ != (#[trigger] front[b]).repo_name@ by {
            assert(entries[a].repo_name@ != entries[b].repo_name@);
        }
        lemma_replaced(front, i, entry);
        assert(links_map(replaced) =~= links_map(entries).insert(entry.repo_name@, entry.url@));
    }
}

/// Putting a registration under a new name into a list gives the name its
/// URL and leaves every other name as it was, wherever the registration is
/// put.
proof fn lemma_inserted(entries: Seq<Repo>, i: int, entry: Repo)
    requires
        0 <= i <= entries.len(),
        forall|j: int| 0 <= j < entries.len() ==> (#[trigger] entries[j]).repo_name@
            != entry.repo_name@,
    ensures
        links_map(entries.insert(i, entry)) == links_map(entries).insert(
            entry.repo_name@,
            entry.url@,
        ),
    decreases entries.len(),
{
    let longer = entries.insert(i, entry);
    if i == entries.len() {
        assert(longer.drop_last() =~= entries);
    } else {
        let front = entries.drop_last();
        assert(longer.drop_last() =~= front.insert(i, entry));
        assert(longer.last() == entries.last());
        assert(entries[entries.len() - 1].repo_name@ != entry.repo_name@);
        assert forall|j: int| 0 <= j < front.len() implies (#[trigger] front[j]).repo_name@
            != entry.repo_name@ by {
            assert(entries[j].repo_name@ != entry.repo_name@);
        }
        lemma_inserted(front, i, entry);
        assert(links_map(longer) =~= links_map(entries).insert(entry.repo_name@, entry.url@));
    }
}

/// A name is registered exactly where a registration carries it.
proof fn lemma_named(entries: Seq<Repo>, name: Seq<char>)
    ensures
        links_map(entries).contains_key(name) <==> exists|j: int|
            0 <= j < entries.len() && (#[trigger] entries[j]).repo_name@ == name,
    decreases entries.len(),
{
    if entries.len() > 0 {
        let front = entries.drop_last();
        lemma_named(front, name);
        if links_map(entries).contains_key(name) {
            if entries.last().repo_name@ == name {
                assert(entries[entries.len() - 1].repo_name@ == name);
            } else {
                let j = choose|j: int|
                    0 <= j < front.len() && (#[trigger] front[j]).repo_name@ == name;
                assert(entries[j].repo_name@ == name);
            }
        }
        if exists|j: int| 0 <= j < entries.len() && (#[trigger] entries[j]).repo_name@ == name {
            let j = choose|j: int|
                0 <= j < entries.len() && (#[trigger] entries[j]).repo_name@ == name;
            if j < entries.len() - 1 {
                assert(front[j].repo_name@ == name);
            }
        }
    }
}

/// The names of a mapping in ascending order.
pub open spec fn sorted_names(links: Map<Seq<char>, Seq<char>>) -> Seq<Seq<char>> {
    choose|names: Seq<Seq<char>>| lists_names(names, links)
}

/// Whether `names` lists the names of `links`, each once, in ascending order.
pub open spec fn lists_names(names: Seq<Seq<char>>, links: Map<Seq<char>, Seq<char>>) -> bool {
    &&& ascending(names)
    &&& forall|k: Seq<char>| names.contains(k) <==> links.contains_key(k)
}

/// Two ascending lists of the same strings are the same list.
pub proof fn lemma_ascending_unique(a: Seq<Seq<char>>, b: Seq<Seq<char>>)
    requires
        ascending(a),
        ascending(b),
        forall|k: Seq<char>| a.contains(k) <==> b.contains(k),
    ensures
        a == b,
    decreases a.len(),
{
    if a.len() == 0 {
        if b.len() > 0 {
            assert(b.contains(b[0]));
        }
        assert(a =~= b);
    } else {
        assert(a.contains(a[0]));
        if b.len() == 0 {
            assert(false);
        }
        assert(b.contains(b[0]));
        // the two lists start with the same string: the least of them
        let j = choose|j: int| 0 <= j < b.len() && b[j] == a[0];
        let i = choose|i: int| 0 <= i < a.len() && a[i] == b[0];
        lemma_precedes_irreflexive(a[0]);
        lemma_precedes_total(a[0], b[0]);
        if j > 0 {
            assert(precedes(b[0], b[j]));
            if i > 0 {
                assert(precedes(a[0], a[i]));
            }
        }
        assert(a[0] == b[0]);
        let ta = a.skip(1);
        let tb = b.skip(1);
        assert forall|k: Seq<char>| ta.contains(k) <==> tb.contains(k) by {
            if ta.contains(k) {
                let x = choose|x: int| 0 <= x < ta.len() && ta[x] == k;
                assert(a[x + 1] == k);
                assert(precedes(a[0], a[x + 1]));
                assert(a.contains(k));
                let y = choose|y: int| 0 <= y < b.len() && b[y] == k;
                assert(y > 0);
                assert(tb[y - 1] == k);
            }
            if tb.contains(k) {
                let y = choose|y: int| 0 <= y < tb.len() && tb[y] == k;
                assert(b[y + 1] == k);
                assert(precedes(b[0], b[y + 1]));
                assert(b.contains(k));
                let x = choose|x: int| 0 <= x < a.len() && a[x] == k;
                assert(x > 0);
                assert(ta[x - 1] == k);
            }
        }
        assert forall|x: int, y: int| 0 <= x < y < ta.len() implies precedes(
            #[trigger] ta[x],
            #[trigger] ta[y],
        ) by {
            assert(precedes(a[x + 1], a[y + 1]));
        }
        assert forall|x: int, y: int| 0 <= x < y < tb.len() implies precedes(
            #[trigger] tb[x],
            #[trigger] tb[y],
        ) by {
            assert(precedes(b[x + 1], b[y + 1]));
        }
        lemma_ascending_unique(ta, tb);
        assert(a =~= seq![a[0]] + ta);
        assert(b =~= seq![b[0]] + tb);
    }
}

impl View for RepoLinks {
    type V = Map<Seq<char>, Seq<char>>;

    closed spec fn view(&self) -> Map<Seq<char>, Seq<char>> {
        links_map(self.entries@)
    }
}

impl RepoLinks {
    /// No repository at all.
    pub fn new() -> (r: RepoLinks)
        ensures
            r@ == Map::<Seq<char>, Seq<char>>::empty(),
    {
        RepoLinks { entries: Vec::new() }
    }

    /// The names stand in ascending order, so that no name occurs twice.
    #[verifier::type_invariant]
    spec fn names_ascend(self) -> bool {
        ascending_names(self.entries@)
    }

    /// Registers `url` under `name`, in place of what was registered under it.
    pub fn insert(&mut self, name: RepoName, url: String)
        ensures
            final(self)@ == old(self)@.insert(name@, url@),
    {
        proof {
            use_type_invariant(&*self);
        }
        let mut entries: Vec<Repo> = Vec::new();
        core::mem::swap(&mut self.entries, &mut entries);
        let ghost before = entries@;
        let entry = Repo { repo_name: name, url };
        let mut i: usize = 0;
        while i < entries.len() && text_comes_before(
            entries[i].repo_name.as_str(),
            entry.repo_name.as_str(),
        )
            invariant
                i <= entries.len(),
                entries@ == before,
                forall|j: int|
                    0 <= j < i ==> precedes((#[trigger] before[j]).repo_name@, entry.repo_name@),
            decreases entries.len() - i,
        {
            i += 1;
        }
        if i < entries.len() && same_text(entries[i].repo_name.as_str(), entry.repo_name.as_str()) {
            proof {
                lemma_no_name_twice(before);
                lemma_replaced(before, i as int, entry);
            }
            entries.set(i, entry);
            assert forall|a: int, b: int| 0 <= a < b < entries@.len() implies precedes(
                (#[trigger] entries@[a]).repo_name@,
                (#[trigger] entries@[b]).repo_name@,
            ) by {
                assert(entries@[a].repo_name@ == before[a].repo_name@);
                assert(entries@[b].repo_name@ == before[b].repo_name@);
                assert(precedes(before[a].repo_name@, before[b].repo_name@));
            }
        } else {
            proof {
                // the name comes after all that stands before its place and
                // before all that stands from its place on
                assert forall|j: int| i <= j < before.len() implies precedes(
                    entry.repo_name@,
                    (#[trigger] before[j]).repo_name@,
                ) by {
                    lemma_precedes_total(before[i as int].repo_name@, entry.repo_name@);
                    if j > i {
                        assert(precedes(before[i as int].repo_name@, before[j].repo_name@));
                        lemma_precedes_transitive(
                            entry.repo_name@,
                            before[i as int].repo_name@,
                            before[j].repo_name@,
                        );
                    }
                }
                assert forall|j: int| 0 <= j < before.len() implies (#[trigger] before[j]).repo_name@
                    != entry.repo_name@ by {
                    lemma_precedes_irreflexive(entry.repo_name@);
                    if j < i {
                        assert(precedes(before[j].repo_name@, entry.repo_name@));
                    } else {
                        assert(precedes(entry.repo_name@, before[j].repo_name@));
                    }
                }
                lemma_inserted(before, i as int, entry);
            }
            let ghost name = entry.repo_name@;
            entries.insert(i, entry);
            assert forall|a: int, b: int| 0 <= a < b < entries@.len() implies precedes(
                (#[trigger] entries@[a]).repo_name@,
                (#[trigger] entries@[b]).repo_name@,
            ) by {
                if b == i {
                    assert(entries@[a] == before[a]);
                    assert(precedes(before[a].repo_name@, name));
                } else if a == i {
                    assert(entries@[b] == before[b - 1]);
                    assert(precedes(name, before[b - 1].repo_name@));
                } else {
                    let x = if a < i { a } else { a - 1 };
                    let y = if b < i { b } else { b - 1 };
                    assert(entries@[a] == before[x] && entries@[b] == before[y]);
                    assert(precedes(before[x].repo_name@, before[y].repo_name@));
                }
            }
        }
        self.entries = entries;
    }

    /// The URL registered under `name`, if there is one.
    pub fn get(&self, name: &str) -> (r: Option<&String>)
        ensures
            r is Some <==> self@.contains_key(name@),
            r matches Some(url) ==> url@ == self@[name@],
    {
        assert(self.entries@.subrange(0, self.entries.len() as int) =~= self.entries@);
        let mut i: usize = self.entries.len();
        while i > 0
            invariant
                i <= self.entries.len(),
                last_link(self.entries@, name@) == last_link(
                    self.entries@.subrange(0, i as int),
                    name@,
                ),
            decreases i,
        {
            let ghost front = self.entries@.subrange(0, i as int);
            i -= 1;
            assert(front.drop_last() =~= self.entries@.subrange(0, i as int));
            assert(front.last() == self.entries@[i as int]);
            if same_text(self.entries[i].repo_name.as_str(), name) {
                proof {
                    lemma_last_link(self.entries@, name@);
                }
                return Some(&self.entries[i].url);
            }
        }
        proof {
            lemma_last_link(self.entries@, name@);
        }
        None
    }

    /// The registered names, each once, in ascending order.
    pub fn names(&self) -> (names: Vec<String>)
        ensures
            names.deep_view() == sorted_names(self@),
            lists_names(names.deep_view(), self@),
    {
        proof {
            use_type_invariant(self);
        }
        let mut names: Vec<String> = Vec::new();
        let mut i: usize = 0;
        while i < self.entries.len()
            invariant
                i <= self.entries.len(),
                names@.len() == i,
                forall|j: int| 0 <= j < i ==> (#[trigger] names@[j])@ == self.entries@[j].repo_name@,
            decreases self.entries.len() - i,
        {
            names.push(self.entries[i].repo_name.clone());
            i += 1;
        }
        proof {
            let listed = names.deep_view();
            assert forall|a: int, b: int| 0 <= a < b < listed.len() implies precedes(
                #[trigger] listed[a],
                #[trigger] listed[b],
            ) by {
                assert(listed[a] == names@[a]@ && listed[b] == names@[b]@);
                assert(precedes(self.entries@[a].repo_name@, self.entries@[b].repo_name@));
            }
            assert forall|k: Seq<char>| listed.contains(k) <==> self@.contains_key(k) by {
                lemma_named(self.entries@, k);
                if listed.contains(k) {
                    let j = choose|j: int| 0 <= j < listed.len() && listed[j] == k;
                    assert(names@[j]@ == k);
                    assert(self.entries@[j].repo_name@ == k);
                }
                if self@.contains_key(k) {
                    let j = choose|j: int|
                        0 <= j < self.entries@.len() && (#[trigger] self.entries@[j]).repo_name@
                            == k;
                    assert(names@[j]@ == k);
                    assert(listed[j] == k);
                }
            }
            assert(lists_names(listed, self@));
            assert(lists_names(sorted_names(self@), self@));
            lemma_ascending_unique(listed, sorted_names(self@));
        }
        names
    }
}

} // verus!
