//! The programs that the shell can run, by name.

use vstd::prelude::*;
use crate::text::{chars_of, fields, string_of, strings_view};

verus! {

/// The name of the program at `path`: what stands behind the last `/`, or
/// the whole path if it holds none.
pub open spec fn base_name(path: Seq<char>) -> Seq<char>
    decreases path.len(),
{
    if path.len() == 0 || path.last() == '/' {
        Seq::empty()
    } else {
        base_name(path.drop_last()).push(path.last())
    }
}

/// The name of the program at `path` is the last of the fields into which
/// the `/`s part the path.
pub proof fn name_is_last_field(path: Seq<char>)
    ensures
        fields(path, '/').len() >= 1,
        base_name(path) == fields(path, '/').last(),
    decreases path.len(),
{
    if path.len() > 0 {
        name_is_last_field(path.drop_last());
    }
}

/// The name of the program at `path`.
pub fn command_name(path: &str) -> (name: String)
    ensures
        name@ == base_name(path@),
{
    let path = chars_of(path);
    let mut name: Vec<char> = Vec::new();
    let mut i: usize = 0;
    while i < path.len()
        invariant
            i <= path.len(),
            name@ == base_name(path@.take(i as int)),
        decreases path.len() - i,
    {
        proof {
            assert(path@.take(i + 1).drop_last() =~= path@.take(i as int));
        }
        if path[i] == '/' {
            name = Vec::new();
        } else {
            name.push(path[i]);
        }
        i += 1;
    }
    assert(path@.take(i as int) =~= path@);
    string_of(&name)
}

/// The paths by name after each of `entries`, a name and a path, was
/// entered in order: a later entry replaces an earlier one of the same name.
pub open spec fn entered(entries: Seq<(Seq<char>, Seq<char>)>) -> Map<Seq<char>, Seq<char>>
    decreases entries.len(),
{
    if entries.len() == 0 {
        Map::empty()
    } else {
        entered(entries.drop_last()).insert(entries.last().0, entries.last().1)
    }
}

/// The paths by name after each of `paths` was entered, in order, under the
/// name of its program.
pub open spec fn by_name(paths: Seq<Seq<char>>) -> Map<Seq<char>, Seq<char>>
    decreases paths.len(),
{
    if paths.len() == 0 {
        Map::empty()
    } else {
        by_name(paths.drop_last()).insert(base_name(paths.last()), paths.last())
    }
}

/// A name is known after paths were entered exactly if it is the name of
/// one of them, and it then stands for the last path of that name.
pub proof fn last_path_of_a_name_wins(paths: Seq<Seq<char>>, name: Seq<char>)
    ensures
        by_name(paths).contains_key(name) <==> exists|i: int|
            0 <= i < paths.len() && base_name(#[trigger] paths[i]) == name,
        forall|i: int|
            0 <= i < paths.len() && base_name(#[trigger] paths[i]) == name && (forall|j: int|
                i < j < paths.len() ==> base_name(#[trigger] paths[j]) != name) ==> by_name(
                paths,
            )[name] == paths[i],
    decreases paths.len(),
{
    if paths.len() > 0 {
        let before = paths.drop_last();
        last_path_of_a_name_wins(before, name);
        if base_name(paths.last()) != name {
            if exists|i: int| 0 <= i < paths.len() && base_name(#[trigger] paths[i]) == name {
                let i = choose|i: int|
                    0 <= i < paths.len() && base_name(#[trigger] paths[i]) == name;
                assert(base_name(before[i]) == name);
            }
        }
        assert forall|i: int|
            0 <= i < paths.len() && base_name(#[trigger] paths[i]) == name && (forall|j: int|
                i < j < paths.len() ==> base_name(#[trigger] paths[j]) != name) implies by_name(
            paths,
        )[name] == paths[i] by {
            if i < paths.len() - 1 {
                assert(before[i] == paths[i]);
            }
        }
    }
}

/// What a list of names and paths holds.
pub open spec fn entries_view(entries: Seq<(String, String)>) -> Seq<(Seq<char>, Seq<char>)> {
    entries.map_values(|entry: (String, String)| (entry.0@, entry.1@))
}

/// The programs known by name, each with its path.
#[derive(Debug)]
pub struct CommandCache {
    entries: Vec<(String, String)>,
}

impl View for CommandCache {
    type V = Map<Seq<char>, Seq<char>>;

    closed spec fn view(&self) -> Map<Seq<char>, Seq<char>> {
        entered(entries_view(self.entries@))
    }
}

impl CommandCache {
    /// A cache that knows no program.
    pub fn new() -> (cache: Self)
        ensures
            cache@ == Map::<Seq<char>, Seq<char>>::empty(),
    {
        let cache = Self { entries: Vec::new() };
        cache
    }

    /// Makes `name` stand for `path`, whatever it stood for before.
    pub fn insert(&mut self, name: String, path: String)
        ensures
            final(self)@ == old(self)@.insert(name@, path@),
    {
        self.entries.push((name, path));
        proof {
            let before = entries_view(old(self).entries@);
            let after = entries_view(self.entries@);
            assert(after.drop_last() =~= before);
        }
    }

    /// The path that `name` stands for, if it stands for any.
    pub fn resolve(&self, name: &String) -> (path: Option<String>)
        ensures
            self@.contains_key(name@) ==> (path matches Some(p) && p@ == self@[name@]),
            !self@.contains_key(name@) ==> path is None,
    {
        let ghost all = entries_view(self.entries@);
        let mut i: usize = self.entries.len();
        assert(all.take(i as int) =~= all);
        while i > 0
            invariant
                i <= self.entries.len(),
                all == entries_view(self.entries@),
                entered(all.take(i as int)).contains_key(name@) == self@.contains_key(name@),
                self@.contains_key(name@) ==> entered(all.take(i as int))[name@] == self@[name@],
            decreases i,
        {
            proof {
                assert(all.take(i as int).drop_last() =~= all.take(i - 1));
            }
            i -= 1;
            if self.entries[i].0 == *name {
                return Some(self.entries[i].1.clone());
            }
        }
        None
    }

    /// A cache that knows each of `paths` under the name of its program. Of
    /// two paths of one name the later counts.
    pub fn from_paths(paths: &Vec<String>) -> (cache: Self)
        ensures
            cache@ == by_name(strings_view(paths@)),
    {
        let mut cache = Self::new();
        let mut i: usize = 0;
        while i < paths.len()
            invariant
                i <= paths.len(),
                cache@ == by_name(strings_view(paths@).take(i as int)),
            decreases paths.len() - i,
        {
            proof {
                let all = strings_view(paths@);
                assert(all.take(i + 1).drop_last() =~= all.take(i as int));
            }
            let path = paths[i].clone();
            cache.insert(command_name(path.as_str()), path);
            i += 1;
        }
        assert(strings_view(paths@).take(i as int) =~= strings_view(paths@));
        cache
    }
}

} // verus!
