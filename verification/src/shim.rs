//! Shims: launchers that forward a command to the tool.

use crate::text::{option_view, str_eq};
use vstd::prelude::*;

verus! {

/// How one shim runs its command.
#[derive(Debug, PartialEq, Eq)]
pub struct ShimConfig {
    /// The binary to run, relative to the tool's directory, in place of the
    /// tool's own.
    pub bin_path: Option<String>,
    /// The binary of another tool that the shim needs.
    pub parent_bin: Option<String>,
    /// Arguments that go before those of the user.
    pub before_args: Option<String>,
    /// Arguments that go after those of the user.
    pub after_args: Option<String>,
}

/// How a shim runs its command, as sequences of characters.
pub struct ShimConfigView {
    pub bin_path: Option<Seq<char>>,
    pub parent_bin: Option<Seq<char>>,
    pub before_args: Option<Seq<char>>,
    pub after_args: Option<Seq<char>>,
}

impl View for ShimConfig {
    type V = ShimConfigView;

    open spec fn view(&self) -> ShimConfigView {
        ShimConfigView {
            bin_path: option_view(self.bin_path),
            parent_bin: option_view(self.parent_bin),
            before_args: option_view(self.before_args),
            after_args: option_view(self.after_args),
        }
    }
}

impl ShimConfigView {
    /// A global shim that runs the tool itself with `args` before the
    /// arguments of the user, and is configured in nothing else.
    pub open spec fn global_with_sub_command(args: Seq<char>) -> ShimConfigView {
        ShimConfigView { bin_path: None, parent_bin: None, before_args: Some(args), after_args: None }
    }
}

impl ShimConfig {
    /// A global shim that runs the tool itself with `args` before the
    /// arguments of the user.
    pub fn global_with_sub_command(args: &str) -> (config: ShimConfig)
        ensures
            config@ == ShimConfigView::global_with_sub_command(args@),
    {
        ShimConfig {
            bin_path: None,
            parent_bin: None,
            before_args: Some(args.to_owned()),
            after_args: None,
        }
    }
}

/// Whether no name occurs twice among `entries`.
pub open spec fn names_distinct(entries: Seq<(String, ShimConfig)>) -> bool {
    forall|i: int, j: int|
        0 <= i < j < entries.len() ==> (#[trigger] entries[i]).0@ != (#[trigger] entries[j]).0@
}

/// Whether one of `entries` has the name `name`.
pub open spec fn has_name(entries: Seq<(String, ShimConfig)>, name: Seq<char>) -> bool {
    exists|i: int| 0 <= i < entries.len() && (#[trigger] entries[i]).0@ == name
}

/// The shims by name, as a list of entries reads.
pub open spec fn shim_map(entries: Seq<(String, ShimConfig)>) -> Map<Seq<char>, ShimConfigView>
    decreases entries.len(),
{
    if entries.len() == 0 {
        Map::empty()
    } else {
        shim_map(entries.drop_last()).insert(entries.last().0@, entries.last().1@)
    }
}

/// The names of the map are the names of the entries.
pub proof fn lemma_shim_map_names(entries: Seq<(String, ShimConfig)>, name: Seq<char>)
    ensures
        shim_map(entries).contains_key(name) <==> has_name(entries, name),
    decreases entries.len(),
{
    if entries.len() > 0 {
        let earlier = entries.drop_last();
        lemma_shim_map_names(earlier, name);
        if has_name(earlier, name) {
            let i = choose|i: int| 0 <= i < earlier.len() && (#[trigger] earlier[i]).0@ == name;
            assert(entries[i].0@ == name);
        }
        if has_name(entries, name) {
            let i = choose|i: int| 0 <= i < entries.len() && (#[trigger] entries[i]).0@ == name;
            if i < earlier.len() {
                assert(earlier[i].0@ == name);
            }
        } else {
            assert(entries[entries.len() - 1].0@ != name);
        }
    }
}

/// Where no name occurs twice, the map holds each entry under its name, and
/// as many shims as there are entries.
pub proof fn lemma_shim_map_entries(entries: Seq<(String, ShimConfig)>)
    requires
        names_distinct(entries),
    ensures
        forall|i: int|
            0 <= i < entries.len() ==> shim_map(entries).contains_key(
                (#[trigger] entries[i]).0@,
            ) && shim_map(entries)[entries[i].0@] == entries[i].1@,
        shim_map(entries).dom().finite(),
        shim_map(entries).len() == entries.len(),
    decreases entries.len(),
{
    if entries.len() > 0 {
        let earlier = entries.drop_last();
        let last = entries.last();
        assert(names_distinct(earlier)) by {
            assert forall|i: int, j: int| 0 <= i < j < earlier.len() implies (
            #[trigger] earlier[i]).0@ != (#[trigger] earlier[j]).0@ by {
                assert(entries[i].0@ != entries[j].0@);
            }
        }
        lemma_shim_map_entries(earlier);
        lemma_shim_map_names(earlier, last.0@);
        assert(!has_name(earlier, last.0@)) by {
            if has_name(earlier, last.0@) {
                let i = choose|i: int|
                    0 <= i < earlier.len() && (#[trigger] earlier[i]).0@ == last.0@;
                assert(entries[i].0@ != entries[entries.len() - 1].0@);
            }
        }
        assert forall|i: int| 0 <= i < entries.len() implies shim_map(entries).contains_key(
            (#[trigger] entries[i]).0@,
        ) && shim_map(entries)[entries[i].0@] == entries[i].1@ by {
            if i < earlier.len() {
                assert(earlier[i] == entries[i]);
                assert(entries[i].0@ != entries[entries.len() - 1].0@);
            }
        }
    }
}

/// Where no name occurs twice, a new entry in the place of one of the same
/// name puts its shim under that name, and still no name occurs twice.
pub proof fn lemma_shim_map_replace(
    entries: Seq<(String, ShimConfig)>,
    at: int,
    entry: (String, ShimConfig),
)
    requires
        names_distinct(entries),
        0 <= at < entries.len(),
        entry.0@ == entries[at].0@,
    ensures
        names_distinct(entries.update(at, entry)),
        shim_map(entries.update(at, entry)) == shim_map(entries).insert(entry.0@, entry.1@),
    decreases entries.len(),
{
    let replaced = entries.update(at, entry);
    assert(names_distinct(replaced)) by {
        assert forall|i: int, j: int| 0 <= i < j < replaced.len() implies (
        #[trigger] replaced[i]).0@ != (#[trigger] replaced[j]).0@ by {
            assert(entries[i].0@ != entries[j].0@);
        }
    }
    let earlier = entries.drop_last();
    if at == entries.len() - 1 {
        assert(replaced.drop_last() =~= earlier);
        assert(shim_map(replaced) =~= shim_map(entries).insert(entry.0@, entry.1@));
    } else {
        assert(names_distinct(earlier)) by {
            assert forall|i: int, j: int| 0 <= i < j < earlier.len() implies (
            #[trigger] earlier[i]).0@ != (#[trigger] earlier[j]).0@ by {
                assert(entries[i].0@ != entries[j].0@);
            }
        }
        lemma_shim_map_replace(earlier, at, entry);
        assert(replaced.drop_last() =~= earlier.update(at, entry));
        assert(replaced.last() == entries.last());
        assert(entries[at].0@ != entries[entries.len() - 1].0@);
        assert(shim_map(replaced) =~= shim_map(entries).insert(entry.0@, entry.1@));
    }
}

/// Shims by name. No name occurs twice.
#[derive(Debug, PartialEq, Eq)]
pub struct ShimMap {
    entries: Vec<(String, ShimConfig)>,
}

impl View for ShimMap {
    type V = Map<Seq<char>, ShimConfigView>;

    closed spec fn view(&self) -> Map<Seq<char>, ShimConfigView> {
        shim_map(self.entries@)
    }
}

impl ShimMap {
    /// No name occurs twice among the entries.
    #[verifier::type_invariant]
    spec fn well_formed(self) -> bool {
        names_distinct(self.entries@)
    }

    /// No shims.
    pub fn new() -> (shims: Self)
        ensures
            shims@ == Map::<Seq<char>, ShimConfigView>::empty(),
    {
        ShimMap { entries: Vec::new() }
    }

    /// The place of the entry of `name`, if there is one.
    fn position(&self, name: &str) -> (found: Option<usize>)
        ensures
            match found {
                Some(at) => at < self.entries@.len() && self.entries@[at as int].0@ == name@,
                None => !has_name(self.entries@, name@),
            },
    {
        let mut at: usize = 0;
        while at < self.entries.len()
            invariant
                at <= self.entries.len(),
                forall|i: int| 0 <= i < at ==> (#[trigger] self.entries@[i]).0@ != name@,
            decreases self.entries.len() - at,
        {
            if str_eq(self.entries[at].0.as_str(), name) {
                return Some(at);
            }
            at += 1;
        }
        None
    }

    /// Records `config` as the shim of `name`, in place of an earlier one.
    pub fn insert(&mut self, name: String, config: ShimConfig)
        ensures
            final(self)@ == old(self)@.insert(name@, config@),
    {
        proof {
            use_type_invariant(&*self);
        }
        let found = self.position(name.as_str());
        let mut entries: Vec<(String, ShimConfig)> = Vec::new();
        core::mem::swap(&mut self.entries, &mut entries);
        match found {
            Some(at) => {
                proof {
                    lemma_shim_map_replace(entries@, at as int, (name, config));
                }
                entries[at] = (name, config);
            },
            None => {
                proof {
                    let added = entries@.push((name, config));
                    assert(added.drop_last() =~= entries@);
                    assert(names_distinct(added));
                }
                entries.push((name, config));
            },
        }
        self.entries = entries;
    }

    /// The shim of `name`, if there is one.
    pub fn get(&self, name: &str) -> (found: Option<&ShimConfig>)
        ensures
            match found {
                Some(config) => self@.contains_key(name@) && config@ == self@[name@],
                None => !self@.contains_key(name@),
            },
    {
        proof {
            use_type_invariant(self);
            lemma_shim_map_entries(self.entries@);
            lemma_shim_map_names(self.entries@, name@);
        }
        match self.position(name) {
            Some(at) => Some(&self.entries[at].1),
            None => None,
        }
    }

    /// The number of shims.
    pub fn len(&self) -> (count: usize)
        ensures
            count == self@.len(),
    {
        proof {
            use_type_invariant(self);
            lemma_shim_map_entries(self.entries@);
        }
        self.entries.len()
    }

    /// The shims with their names, each name once.
    pub fn into_entries(self) -> (entries: Vec<(String, ShimConfig)>)
        ensures
            names_distinct(entries@),
            shim_map(entries@) == self@,
            entries@.len() == self@.len(),
    {
        proof {
            use_type_invariant(&self);
            lemma_shim_map_entries(self.entries@);
        }
        self.entries
    }
}

/// The shims to create.
#[derive(Debug, PartialEq, Eq)]
pub struct CreateShimsOutput {
    /// The global shims beside that of the tool itself, by name.
    pub global_shims: ShimMap,
}

impl View for CreateShimsOutput {
    type V = Map<Seq<char>, ShimConfigView>;

    open spec fn view(&self) -> Map<Seq<char>, ShimConfigView> {
        self.global_shims@
    }
}

} // verus!
