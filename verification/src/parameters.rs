//! What parameters a connector declares, and the values that it is given.

use vstd::prelude::*;

verus! {

/// The declaration of one parameter of a connector.
#[derive(Clone, Copy, Debug, PartialEq, Eq)]
pub struct ParameterSpec {
    /// The parameter's name, without the connector's prefix.
    pub name: &'static str,
    /// Whether the parameter's value is a secret.
    pub secret: bool,
}

/// The name of a declared parameter and whether its value is a secret.
pub struct ParameterSpecView {
    pub name: Seq<char>,
    pub secret: bool,
}

impl View for ParameterSpec {
    type V = ParameterSpecView;

    open spec fn view(&self) -> ParameterSpecView {
        ParameterSpecView { name: self.name@, secret: self.secret }
    }
}

impl ParameterSpec {
    /// Declares a parameter of the component that the connector serves.
    pub fn component(name: &'static str) -> (spec: Self)
        ensures
            spec@ == (ParameterSpecView { name: name@, secret: false }),
    {
        ParameterSpec { name, secret: false }
    }

    /// Declares the parameter's value a secret.
    pub fn secret(self) -> (spec: Self)
        ensures
            spec@ == (ParameterSpecView { secret: true, ..self@ }),
    {
        ParameterSpec { name: self.name, secret: true }
    }
}

/// A value that is read only where it is asked for by `expose_secret`.
pub struct SecretString {
    value: String,
}

impl View for SecretString {
    type V = Seq<char>;

    closed spec fn view(&self) -> Seq<char> {
        self.value@
    }
}

impl SecretString {
    /// Makes `value` a secret.
    pub fn new(value: String) -> (secret: Self)
        ensures
            secret@ == value@,
    {
        SecretString { value }
    }

    /// The secret's value.
    pub fn expose_secret(&self) -> (value: &str)
        ensures
            value@ == self@,
    {
        self.value.as_str()
    }
}

/// Whether the entry of `entries` at `i` has the name `name`.
pub open spec fn has_entry(entries: Seq<(String, SecretString)>, name: Seq<char>, i: int) -> bool {
    0 <= i < entries.len() && entries[i].0@ == name
}

/// Whether no name occurs twice in `entries`.
pub open spec fn names_are_distinct(entries: Seq<(String, SecretString)>) -> bool {
    forall|i: int, j: int|
        0 <= i < j < entries.len() ==> (#[trigger] entries[i]).0@ != (#[trigger] entries[j]).0@
}

/// The values of `entries` by their names.
pub open spec fn entry_map(entries: Seq<(String, SecretString)>) -> Map<Seq<char>, Seq<char>> {
    Map::new(
        |name: Seq<char>| exists|i: int| has_entry(entries, name, i),
        |name: Seq<char>| entries[choose|i: int| has_entry(entries, name, i)].1@,
    )
}

/// Where names are distinct, each entry's name leads to that entry's value.
proof fn lemma_entry_map_holds_entry(
    entries: Seq<(String, SecretString)>,
    name: Seq<char>,
    i: int,
)
    requires
        names_are_distinct(entries),
        has_entry(entries, name, i),
    ensures
        entry_map(entries).contains_key(name),
        entry_map(entries)[name] == entries[i].1@,
{
    let j = choose|j: int| has_entry(entries, name, j);
    assert(has_entry(entries, name, j));
    assert(i == j) by {
        if i < j {
            assert(entries[i].0@ != entries[j].0@);
        } else if j < i {
            assert(entries[j].0@ != entries[i].0@);
        }
    }
}

/// Giving the entry at `i` another value changes the value of its name alone.
proof fn lemma_entry_map_update(
    before: Seq<(String, SecretString)>,
    after: Seq<(String, SecretString)>,
    name: Seq<char>,
    i: int,
    value: SecretString,
)
    requires
        names_are_distinct(before),
        has_entry(before, name, i),
        after == before.update(i, (before[i].0, value)),
    ensures
        names_are_distinct(after),
        entry_map(after) == entry_map(before).insert(name, value@),
{
    assert(forall|j: int, n: Seq<char>| has_entry(after, n, j) == has_entry(before, n, j));
    lemma_same_entries(before, after, name, i);
    lemma_entry_map_holds_entry(after, name, i);
    assert(entry_map(after) =~= entry_map(before).insert(name, value@));
}

/// An entry with a new name adds that name with its value.
proof fn lemma_entry_map_push(
    before: Seq<(String, SecretString)>,
    name: String,
    value: SecretString,
)
    requires
        names_are_distinct(before),
        forall|i: int| !has_entry(before, name@, i),
    ensures
        names_are_distinct(before.push((name, value))),
        entry_map(before.push((name, value))) == entry_map(before).insert(name@, value@),
{
    let after = before.push((name, value));
    assert forall|i: int, j: int| 0 <= i < j < after.len() implies (#[trigger] after[i]).0@ != (
    #[trigger] after[j]).0@ by {
        assert(!has_entry(before, name@, i));
        if j < before.len() {
            assert(before[i].0@ != before[j].0@);
        }
    }
    lemma_same_entries(before, after, name@, before.len() as int);
    assert(has_entry(after, name@, before.len() as int));
    lemma_entry_map_holds_entry(after, name@, before.len() as int);
    assert(entry_map(after) =~= entry_map(before).insert(name@, value@));
}

/// Sequences that agree but for the entry at `i`, which has the name `name` in
/// the second one, lead every other name to the same value.
proof fn lemma_same_entries(
    before: Seq<(String, SecretString)>,
    after: Seq<(String, SecretString)>,
    name: Seq<char>,
    i: int,
)
    requires
        names_are_distinct(before),
        names_are_distinct(after),
        before.len() <= after.len(),
        has_entry(after, name, i),
        forall|j: int| 0 <= j < after.len() && j != i ==> j < before.len() && after[j] == before[j],
        forall|j: int| has_entry(before, name, j) ==> j == i,
        i < before.len() ==> has_entry(before, name, i),
    ensures
        forall|n: Seq<char>|
            n != name ==> entry_map(after).contains_key(n) == entry_map(before).contains_key(n),
        forall|n: Seq<char>|
            n != name && entry_map(before).contains_key(n) ==> entry_map(after)[n]
                == #[trigger] entry_map(before)[n],
{
    assert forall|n: Seq<char>, j: int| n != name implies #[trigger] has_entry(after, n, j)
        == has_entry(before, n, j) by {}
    assert forall|n: Seq<char>| n != name implies entry_map(after).contains_key(n)
        == entry_map(before).contains_key(n) by {
        if entry_map(after).contains_key(n) {
            let j = choose|j: int| has_entry(after, n, j);
            assert(has_entry(before, n, j));
        }
        if entry_map(before).contains_key(n) {
            let j = choose|j: int| has_entry(before, n, j);
            assert(has_entry(after, n, j));
        }
    }
    assert forall|n: Seq<char>| n != name && entry_map(before).contains_key(n) implies entry_map(
        after,
    )[n] == #[trigger] entry_map(before)[n] by {
        let j = choose|j: int| has_entry(before, n, j);
        assert(has_entry(after, n, j));
        lemma_entry_map_holds_entry(before, n, j);
        lemma_entry_map_holds_entry(after, n, j);
    }
}

/// The values that parameters were given, by the parameters' names.
pub struct SecretMap {
    entries: Vec<(String, SecretString)>,
}

impl View for SecretMap {
    type V = Map<Seq<char>, Seq<char>>;

    closed spec fn view(&self) -> Map<Seq<char>, Seq<char>> {
        entry_map(self.entries@)
    }
}

impl SecretMap {
    #[verifier::type_invariant]
    spec fn well_formed(self) -> bool {
        names_are_distinct(self.entries@)
    }

    /// A map without entries.
    pub fn new() -> (map: Self)
        ensures
            map@ == Map::<Seq<char>, Seq<char>>::empty(),
    {
        let map = SecretMap { entries: Vec::new() };
        assert(map@ =~= Map::<Seq<char>, Seq<char>>::empty()) by {
            assert(forall|name: Seq<char>, i: int| !has_entry(map.entries@, name, i));
        }
        map
    }

    /// Gives the parameter `name` the value `value`, in place of the one it
    /// had.
    pub fn insert(&mut self, name: String, value: SecretString)
        ensures
            final(self)@ == old(self)@.insert(name@, value@),
    {
        proof {
            use_type_invariant(&*self);
        }
        let ghost before = self.entries@;
        let mut entries: Vec<(String, SecretString)> = Vec::new();
        std::mem::swap(&mut entries, &mut self.entries);
        match position(&entries, &name) {
            Some(i) => {
                proof {
                    lemma_entry_map_update(
                        before,
                        before.update(i as int, (before[i as int].0, value)),
                        name@,
                        i as int,
                        value,
                    );
                }
                entries[i].1 = value;
            },
            None => {
                proof {
                    lemma_entry_map_push(before, name, value);
                }
                entries.push((name, value));
            },
        }
        self.entries = entries;
    }

    /// The value of the parameter `name`, if it was given one.
    pub fn get(&self, name: &str) -> (value: Option<&SecretString>)
        ensures
            match value {
                Some(value) => self@.contains_key(name@) && value@ == self@[name@],
                None => !self@.contains_key(name@),
            },
    {
        proof {
            use_type_invariant(self);
        }
        match position(&self.entries, &name.to_owned()) {
            Some(i) => {
                proof {
                    lemma_entry_map_holds_entry(self.entries@, name@, i as int);
                }
                Some(&self.entries[i].1)
            },
            None => None,
        }
    }

    /// The entries of the map, each name once.
    pub fn into_entries(self) -> (entries: Vec<(String, SecretString)>)
        ensures
            names_are_distinct(entries@),
            entry_map(entries@) == self@,
            forall|i: int|
                0 <= i < entries@.len() ==> self@.contains_key((#[trigger] entries@[i]).0@)
                    && self@[entries@[i].0@] == entries@[i].1@,
            forall|name: Seq<char>| #[trigger]
                self@.contains_key(name) ==> exists|i: int|
                    0 <= i < entries@.len() && (#[trigger] entries@[i]).0@ == name,
            forall|i: int, j: int|
                0 <= i < j < entries@.len() ==> (#[trigger] entries@[i]).0@ != (
                #[trigger] entries@[j]).0@,
    {
        proof {
            use_type_invariant(&self);
            assert forall|i: int| 0 <= i < self.entries@.len() implies self@.contains_key(
                (#[trigger] self.entries@[i]).0@,
            ) && self@[self.entries@[i].0@] == self.entries@[i].1@ by {
                lemma_entry_map_holds_entry(self.entries@, self.entries@[i].0@, i);
            }
            assert forall|name: Seq<char>| #[trigger] self@.contains_key(name) implies exists|i: int|
                0 <= i < self.entries@.len() && (#[trigger] self.entries@[i]).0@ == name by {
                let i = choose|i: int| has_entry(self.entries@, name, i);
                assert(has_entry(self.entries@, name, i));
                assert(self.entries@[i].0@ == name);
            }
        }
        self.entries
    }
}

/// The place of the entry of `entries` that has the name `name`.
fn position(entries: &Vec<(String, SecretString)>, name: &String) -> (place: Option<usize>)
    ensures
        match place {
            Some(i) => has_entry(entries@, name@, i as int),
            None => forall|i: int| !has_entry(entries@, name@, i),
        },
{
    let mut i: usize = 0;
    while i < entries.len()
        invariant
            i <= entries.len(),
            forall|j: int| 0 <= j < i ==> !has_entry(entries@, name@, j),
        decreases entries.len() - i,
    {
        if entries[i].0 == *name {
            return Some(i);
        }
        i += 1;
    }
    None
}

} // verus!
