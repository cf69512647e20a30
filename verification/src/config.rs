//! The configuration store: which repositories are deployed, and how.
//!
//! The store is a map from a repository's full name to its configuration. It
//! keeps its entries in a list in which no name occurs twice, in the order in
//! which the names were first stored.

use crate::text::text_equal;
use crate::types::{RepoConfig, RepoConfigView};
use vstd::prelude::*;

verus! {

/// One repository of the store: its full name and its configuration.
#[derive(Debug)]
pub struct RepoEntry {
    pub name: String,
    pub config: RepoConfig,
}

impl Clone for RepoEntry {
    fn clone(&self) -> (copy: Self)
        ensures
            copy.name@ == self.name@,
            copy.config@ == self.config@,
    {
        RepoEntry { name: self.name.clone(), config: self.config.clone() }
    }
}

/// The map that a list of entries stands for. Where a name occurs more than
/// once, the last of its entries prevails.
pub open spec fn entries_map(entries: Seq<RepoEntry>) -> Map<Seq<char>, RepoConfigView>
    decreases entries.len(),
{
    if entries.len() == 0 {
        Map::empty()
    } else {
        entries_map(entries.drop_last()).insert(entries.last().name@, entries.last().config@)
    }
}

/// No name occurs twice in the list.
pub open spec fn distinct_names(entries: Seq<RepoEntry>) -> bool {
    forall|i: int, j: int|
        0 <= i < j < entries.len() ==> (#[trigger] entries[i]).name@ != (#[trigger] entries[j]).name@
}

/// The two lists say the same, entry for entry.
pub open spec fn same_entries(a: Seq<RepoEntry>, b: Seq<RepoEntry>) -> bool {
    &&& a.len() == b.len()
    &&& forall|i: int|
        0 <= i < a.len() ==> (#[trigger] a[i]).name@ == b[i].name@ && a[i].config@ == b[i].config@
}

/// A name is in the map exactly if some entry carries it.
pub proof fn lemma_entries_map_domain(entries: Seq<RepoEntry>, name: Seq<char>)
    ensures
        entries_map(entries).contains_key(name) <==> exists|i: int|
            0 <= i < entries.len() && (#[trigger] entries[i]).name@ == name,
    decreases entries.len(),
{
    if entries.len() > 0 {
        let front = entries.drop_last();
        lemma_entries_map_domain(front, name);
        if entries_map(front).contains_key(name) {
            let i = choose|i: int| 0 <= i < front.len() && (#[trigger] front[i]).name@ == name;
            assert(entries[i].name@ == name);
        }
        if exists|i: int| 0 <= i < entries.len() && (#[trigger] entries[i]).name@ == name {
            let i = choose|i: int| 0 <= i < entries.len() && (#[trigger] entries[i]).name@ == name;
            if i < front.len() {
                assert(front[i].name@ == name);
            }
        }
    }
}

/// A list without its last entry repeats no name if the list repeats none.
proof fn lemma_front_distinct(entries: Seq<RepoEntry>)
    requires
        distinct_names(entries),
        entries.len() > 0,
    ensures
        distinct_names(entries.drop_last()),
{
    let front = entries.drop_last();
    assert forall|a: int, b: int| 0 <= a < b < front.len() implies (#[trigger] front[a]).name@ != (
    #[trigger] front[b]).name@ by {
        assert(entries[a].name@ != entries[b].name@);
    }
}

/// Where no name occurs twice, the map gives each entry's name that entry's
/// configuration.
pub proof fn lemma_entries_map_value(entries: Seq<RepoEntry>, i: int)
    requires
        distinct_names(entries),
        0 <= i < entries.len(),
    ensures
        entries_map(entries).contains_key(entries[i].name@),
        entries_map(entries)[entries[i].name@] == entries[i].config@,
    decreases entries.len(),
{
    if i < entries.len() - 1 {
        lemma_front_distinct(entries);
        lemma_entries_map_value(entries.drop_last(), i);
        assert(entries[i].name@ != entries[entries.len() - 1].name@);
    }
}

/// The map is finite, and where no name occurs twice it has one key for each
/// entry.
pub proof fn lemma_entries_map_len(entries: Seq<RepoEntry>)
    ensures
        entries_map(entries).dom().finite(),
        distinct_names(entries) ==> entries_map(entries).len() == entries.len(),
    decreases entries.len(),
{
    if entries.len() > 0 {
        let front = entries.drop_last();
        lemma_entries_map_len(front);
        if distinct_names(entries) {
            lemma_front_distinct(entries);
            lemma_entries_map_domain(front, entries.last().name@);
            if entries_map(front).contains_key(entries.last().name@) {
                let i = choose|i: int|
                    0 <= i < front.len() && (#[trigger] front[i]).name@ == entries.last().name@;
                assert(entries[i].name@ != entries[entries.len() - 1].name@);
            }
        }
    }
}

/// Lists that say the same stand for the same map, and one repeats a name
/// exactly if the other does.
pub proof fn lemma_same_entries_same_map(a: Seq<RepoEntry>, b: Seq<RepoEntry>)
    requires
        same_entries(a, b),
    ensures
        entries_map(a) == entries_map(b),
        distinct_names(a) <==> distinct_names(b),
    decreases a.len(),
{
    if a.len() > 0 {
        let (a0, b0) = (a.drop_last(), b.drop_last());
        assert forall|i: int| 0 <= i < a0.len() implies (#[trigger] a0[i]).name@ == b0[i].name@
            && a0[i].config@ == b0[i].config@ by {
            assert(a[i].name@ == b[i].name@);
        }
        lemma_same_entries_same_map(a0, b0);
        assert(a[a.len() - 1].name@ == b[a.len() - 1].name@);
    }
    if distinct_names(a) {
        assert forall|i: int, j: int| 0 <= i < j < b.len() implies (#[trigger] b[i]).name@ != (
        #[trigger] b[j]).name@ by {
            assert(a[i].name@ == b[i].name@ && a[j].name@ == b[j].name@);
        }
    }
    if distinct_names(b) {
        assert forall|i: int, j: int| 0 <= i < j < a.len() implies (#[trigger] a[i]).name@ != (
        #[trigger] a[j]).name@ by {
            assert(a[i].name@ == b[i].name@ && a[j].name@ == b[j].name@);
        }
    }
}

/// Replacing the entry of a name by another entry of that name stores the new
/// configuration under the name and touches nothing else.
proof fn lemma_replace_entry(entries: Seq<RepoEntry>, i: int, entry: RepoEntry)
    requires
        distinct_names(entries),
        0 <= i < entries.len(),
        entries[i].name@ == entry.name@,
    ensures
        distinct_names(entries.update(i, entry)),
        entries_map(entries.update(i, entry)) == entries_map(entries).insert(
            entry.name@,
            entry.config@,
        ),
{
    let after = entries.update(i, entry);
    let want = entries_map(entries).insert(entry.name@, entry.config@);
    assert forall|a: int, b: int| 0 <= a < b < after.len() implies (#[trigger] after[a]).name@ != (
    #[trigger] after[b]).name@ by {
        assert(entries[a].name@ != entries[b].name@);
    }
    assert forall|name: Seq<char>| #[trigger]
        entries_map(after).contains_key(name) <==> want.contains_key(name) by {
        lemma_entries_map_domain(after, name);
        lemma_entries_map_domain(entries, name);
        if entries_map(after).contains_key(name) {
            let k = choose|k: int| 0 <= k < after.len() && (#[trigger] after[k]).name@ == name;
            assert(entries[k].name@ == name);
        }
        if entries_map(entries).contains_key(name) {
            let k = choose|k: int| 0 <= k < entries.len() && (#[trigger] entries[k]).name@ == name;
            assert(after[k].name@ == name);
        }
        if name == entry.name@ {
            assert(after[i].name@ == name);
        }
    }
    assert forall|name: Seq<char>| entries_map(after).contains_key(name) implies #[trigger]
        entries_map(after)[name] == want[name] by {
        lemma_entries_map_domain(after, name);
        let k = choose|k: int| 0 <= k < after.len() && (#[trigger] after[k]).name@ == name;
        lemma_entries_map_value(after, k);
        if k != i {
            lemma_entries_map_value(entries, k);
            assert(entries[k].name@ != entries[i].name@);
        }
    }
    assert(entries_map(after) =~= want);
}

/// Where the entry at `k` stood before the entry at `i` was taken out.
spec fn origin(k: int, i: int) -> int {
    if k < i {
        k
    } else {
        k + 1
    }
}

/// Taking the entry of a name out of the list takes the name out of the map
/// and touches nothing else.
proof fn lemma_remove_entry(entries: Seq<RepoEntry>, i: int)
    requires
        distinct_names(entries),
        0 <= i < entries.len(),
    ensures
        distinct_names(entries.remove(i)),
        entries_map(entries.remove(i)) == entries_map(entries).remove(entries[i].name@),
{
    let after = entries.remove(i);
    let want = entries_map(entries).remove(entries[i].name@);
    assert forall|a: int, b: int| 0 <= a < b < after.len() implies (#[trigger] after[a]).name@ != (
    #[trigger] after[b]).name@ by {
        assert(entries[origin(a, i)].name@ != entries[origin(b, i)].name@);
    }
    assert forall|name: Seq<char>| #[trigger]
        entries_map(after).contains_key(name) <==> want.contains_key(name) by {
        lemma_entries_map_domain(after, name);
        lemma_entries_map_domain(entries, name);
        if entries_map(after).contains_key(name) {
            let k = choose|k: int| 0 <= k < after.len() && (#[trigger] after[k]).name@ == name;
            let k0 = origin(k, i);
            assert(entries[k0].name@ == name);
            if k0 < i {
                assert(entries[k0].name@ != entries[i].name@);
            } else {
                assert(entries[i].name@ != entries[k0].name@);
            }
        }
        if want.contains_key(name) {
            let k = choose|k: int| 0 <= k < entries.len() && (#[trigger] entries[k]).name@ == name;
            let k1 = if k < i { k } else { k - 1 };
            assert(after[k1].name@ == name);
        }
    }
    assert forall|name: Seq<char>| entries_map(after).contains_key(name) implies #[trigger]
        entries_map(after)[name] == want[name] by {
        lemma_entries_map_domain(after, name);
        let k = choose|k: int| 0 <= k < after.len() && (#[trigger] after[k]).name@ == name;
        lemma_entries_map_value(after, k);
        lemma_entries_map_value(entries, origin(k, i));
    }
    assert(entries_map(after) =~= want);
}

/// The deployment configurations, by repository full name.
#[derive(Debug)]
pub struct RepoConfigs {
    entries: Vec<RepoEntry>,
}

impl View for RepoConfigs {
    type V = Map<Seq<char>, RepoConfigView>;

    closed spec fn view(&self) -> Map<Seq<char>, RepoConfigView> {
        entries_map(self.entries@)
    }
}

impl RepoConfigs {
    #[verifier::type_invariant]
    spec fn well_formed(&self) -> bool {
        distinct_names(self.entries@)
    }

    /// The entries in the order in which their names were first stored.
    pub closed spec fn listing(&self) -> Seq<RepoEntry> {
        self.entries@
    }

    /// A store without repositories.
    pub fn new() -> (configs: Self)
        ensures
            configs@ == Map::<Seq<char>, RepoConfigView>::empty(),
    {
        RepoConfigs { entries: Vec::new() }
    }

    /// The number of repositories.
    pub fn len(&self) -> (n: usize)
        ensures
            self@.dom().finite(),
            n == self@.len(),
    {
        proof {
            use_type_invariant(self);
            lemma_entries_map_len(self.entries@);
        }
        self.entries.len()
    }

    /// Where the entry of `name` stands, if the store has one.
    fn position(&self, name: &str) -> (found: Option<usize>)
        ensures
            match found {
                Some(i) => i < self.entries.len() && self.entries[i as int].name@ == name@,
                None => forall|i: int| 0 <= i < self.entries.len() ==> (#[trigger] self.entries[i]).name@ != name@,
            },
    {
        let mut i: usize = 0;
        while i < self.entries.len()
            invariant
                i <= self.entries.len(),
                forall|k: int| 0 <= k < i ==> (#[trigger] self.entries[k]).name@ != name@,
            decreases self.entries.len() - i,
        {
            if text_equal(self.entries[i].name.as_str(), name) {
                return Some(i);
            }
            i += 1;
        }
        None
    }

    /// Whether the store has a configuration for `name`.
    pub fn contains(&self, name: &str) -> (present: bool)
        ensures
            present == self@.contains_key(name@),
    {
        proof {
            lemma_entries_map_domain(self.entries@, name@);
        }
        self.position(name).is_some()
    }

    /// The configuration of `name`, if the store has one.
    pub fn get(&self, name: &str) -> (found: Option<&RepoConfig>)
        ensures
            match found {
                Some(config) => self@.contains_key(name@) && config@ == self@[name@],
                None => !self@.contains_key(name@),
            },
    {
        proof {
            use_type_invariant(self);
            lemma_entries_map_domain(self.entries@, name@);
        }
        match self.position(name) {
            Some(i) => {
                proof {
                    lemma_entries_map_value(self.entries@, i as int);
                }
                Some(&self.entries[i].config)
            },
            None => None,
        }
    }

    /// Stores `config` under `name`, in place of what was stored there.
    pub fn upsert(&mut self, name: String, config: RepoConfig)
        ensures
            final(self)@ == old(self)@.insert(name@, config@),
    {
        let found = self.position(name.as_str());
        proof {
            use_type_invariant(&*self);
        }
        let ghost before = self.entries@;
        let entry = RepoEntry { name, config };
        let mut entries: Vec<RepoEntry> = Vec::new();
        core::mem::swap(&mut self.entries, &mut entries);
        match found {
            Some(i) => {
                proof {
                    lemma_replace_entry(before, i as int, entry);
                }
                entries.set(i, entry);
            },
            None => {
                entries.push(entry);
                proof {
                    assert(entries@.drop_last() =~= before);
                    assert(distinct_names(entries@));
                }
            },
        }
        self.entries = entries;
    }

    /// Takes `name` out of the store; says whether it was there.
    pub fn remove(&mut self, name: &str) -> (removed: bool)
        ensures
            removed == old(self)@.contains_key(name@),
            final(self)@ == old(self)@.remove(name@),
    {
        let found = self.position(name);
        proof {
            use_type_invariant(&*self);
            lemma_entries_map_domain(self.entries@, name@);
        }
        match found {
            Some(i) => {
                let ghost before = self.entries@;
                let mut entries: Vec<RepoEntry> = Vec::new();
                core::mem::swap(&mut self.entries, &mut entries);
                proof {
                    lemma_remove_entry(before, i as int);
                }
                entries.remove(i);
                self.entries = entries;
                true
            },
            None => false,
        }
    }

    /// The entries of the store, one for each repository.
    pub fn entries(&self) -> (list: Vec<RepoEntry>)
        ensures
            same_entries(list@, self.listing()),
            distinct_names(list@),
            entries_map(list@) == self@,
    {
        let mut list: Vec<RepoEntry> = Vec::new();
        let mut i: usize = 0;
        while i < self.entries.len()
            invariant
                i <= self.entries.len(),
                same_entries(list@, self.entries@.subrange(0, i as int)),
            decreases self.entries.len() - i,
        {
            list.push(self.entries[i].clone());
            i += 1;
        }
        proof {
            use_type_invariant(self);
            assert(self.entries@.subrange(0, i as int) =~= self.entries@);
            lemma_same_entries_same_map(list@, self.entries@);
        }
        list
    }

    /// A snapshot: a store of its own that says what this one says now.
    pub fn list(&self) -> (snapshot: Self)
        ensures
            snapshot@ == self@,
    {
        let list = self.entries();
        RepoConfigs { entries: list }
    }

    /// The store that a list of entries describes. Where a name occurs more
    /// than once, the last of its entries prevails.
    pub fn from_entries(list: &Vec<RepoEntry>) -> (configs: Self)
        ensures
            configs@ == entries_map(list@),
    {
        let mut configs = RepoConfigs::new();
        let mut i: usize = 0;
        while i < list.len()
            invariant
                i <= list.len(),
                configs@ == entries_map(list@.subrange(0, i as int)),
            decreases list.len() - i,
        {
            let entry = list[i].clone();
            proof {
                let next = list@.subrange(0, i + 1);
                assert(next.drop_last() =~= list@.subrange(0, i as int));
            }
            configs.upsert(entry.name, entry.config);
            i += 1;
        }
        assert(list@.subrange(0, i as int) =~= list@);
        configs
    }
}

impl Clone for RepoConfigs {
    fn clone(&self) -> (copy: Self)
        ensures
            copy@ == self@,
    {
        self.list()
    }
}

/// What a store says where it is within reach; `None` where it is not,
/// because the lock that guards it could not be taken.
pub open spec fn store_view(configs: Option<&RepoConfigs>) -> Option<Map<Seq<char>, RepoConfigView>> {
    match configs {
        Some(store) => Some(store@),
        None => None,
    }
}

/// The map that a persisted record stands for: that of its entries, and the
/// empty map where there is no record.
pub open spec fn loaded_map(record: Option<Seq<RepoEntry>>) -> Map<Seq<char>, RepoConfigView> {
    match record {
        Some(entries) => entries_map(entries),
        None => Map::empty(),
    }
}

/// The view of an optional list of entries.
pub open spec fn record_view(record: Option<Vec<RepoEntry>>) -> Option<Seq<RepoEntry>> {
    match record {
        Some(entries) => Some(entries@),
        None => None,
    }
}

/// Builds the store from what was persisted. A record that is missing, or
/// that could not be read or understood, gives an empty store.
pub fn load_repo_configs(record: Option<Vec<RepoEntry>>) -> (configs: RepoConfigs)
    ensures
        configs@ == loaded_map(record_view(record)),
{
    match record {
        Some(entries) => RepoConfigs::from_entries(&entries),
        None => RepoConfigs::new(),
    }
}

/// Loading a record that says, entry for entry, what a store listed gives a
/// store that says what that store said.
pub proof fn lemma_load_restores(configs: RepoConfigs, record: Seq<RepoEntry>)
    requires
        same_entries(record, configs.listing()),
    ensures
        loaded_map(Some(record)) == configs@,
{
    lemma_same_entries_same_map(record, configs.listing());
}

} // verus!
