//! The table of registered functions, keyed by name.
use vstd::prelude::*;
use crate::error::RegistryError;
use crate::functions::NativeFunction;

verus! {

/// A function and the name the host calls it by.
struct Entry {
    name: String,
    function: NativeFunction,
}

/// Names mapped to functions. Names are unique and compared case-sensitively;
/// a second registration under a taken name is refused and changes nothing.
pub struct Registry {
    entries: Vec<Entry>,
    table: Ghost<Map<Seq<char>, NativeFunction>>,
}

impl View for Registry {
    type V = Map<Seq<char>, NativeFunction>;

    closed spec fn view(&self) -> Map<Seq<char>, NativeFunction> {
        self.table@
    }
}

impl Registry {
    /// The entries hold each name once, and exactly the names and functions of the table.
    pub closed spec fn wf(&self) -> bool {
        &&& forall|i: int, j: int|
            0 <= i < j < self.entries@.len() ==> self.entries@[i].name@ != self.entries@[j].name@
        &&& forall|i: int|
            0 <= i < self.entries@.len() ==> #[trigger] self.table@.contains_key(self.entries@[i].name@)
                && self.table@[self.entries@[i].name@] == self.entries@[i].function
        &&& forall|k: Seq<char>|
            #[trigger] self.table@.contains_key(k) ==> exists|i: int|
                0 <= i < self.entries@.len() && self.entries@[i].name@ == k
    }

    /// An empty table.
    pub fn new() -> (r: Registry)
        ensures
            r.wf(),
            r@ == Map::<Seq<char>, NativeFunction>::empty(),
    {
        Registry { entries: Vec::new(), table: Ghost(Map::empty()) }
    }

    /// The position of the entry named `name`, if there is one.
    fn find(&self, name: &String) -> (r: Option<usize>)
        requires
            self.wf(),
        ensures
            match r {
                Some(i) => i < self.entries@.len() && self.entries@[i as int].name@ == name@,
                None => !self@.contains_key(name@),
            },
    {
        let mut i: usize = 0;
        while i < self.entries.len()
            invariant
                self.wf(),
                i <= self.entries@.len(),
                forall|j: int| 0 <= j < i ==> self.entries@[j].name@ != name@,
            decreases self.entries@.len() - i,
        {
            if self.entries[i].name == *name {
                return Some(i);
            }
            i = i + 1;
        }
        None
    }

    /// The function registered under `name`, or `None` where there is none.
    pub fn lookup(&self, name: &String) -> (r: Option<NativeFunction>)
        requires
            self.wf(),
        ensures
            r == (if self@.contains_key(name@) {
                Some(self@[name@])
            } else {
                None::<NativeFunction>
            }),
    {
        match self.find(name) {
            Some(i) => Some(self.entries[i].function),
            None => None,
        }
    }

    /// Adds `function` under `name`, unless that name is taken.
    pub fn register(&mut self, name: String, function: NativeFunction) -> (r: Result<(), RegistryError>)
        requires
            old(self).wf(),
        ensures
            final(self).wf(),
            register_step(old(self)@, name@, function, r, final(self)@),
    {
        match self.find(&name) {
            Some(_) => Err(RegistryError::DuplicateName),
            None => {
                let ghost key = name@;
                let ghost old_entries = self.entries@;
                self.entries.push(Entry { name, function });
                self.table = Ghost(self.table@.insert(key, function));
                proof {
                    assert(self.entries@[old_entries.len() as int].name@ == key);
                    assert forall|k: Seq<char>| #[trigger] self.table@.contains_key(k) implies exists|i: int|
                        0 <= i < self.entries@.len() && self.entries@[i].name@ == k by {
                        if k != key {
                            let i = choose|i: int| 0 <= i < old_entries.len() && old_entries[i].name@ == k;
                            assert(self.entries@[i] == old_entries[i]);
                        }
                    }
                }
                Ok(())
            },
        }
    }
}

/// What `register` does: a free name is bound to the function; a taken name is
/// refused and the table stays as it was.
pub open spec fn register_step(
    before: Map<Seq<char>, NativeFunction>,
    name: Seq<char>,
    function: NativeFunction,
    r: Result<(), RegistryError>,
    after: Map<Seq<char>, NativeFunction>,
) -> bool {
    if before.contains_key(name) {
        r == Err::<(), RegistryError>(RegistryError::DuplicateName) && after == before
    } else {
        r == Ok::<(), RegistryError>(()) && after == before.insert(name, function)
    }
}

/// Registering under one name does not bind any other: a name that was never
/// registered stays absent, so `lookup` gives `None` for it.
pub proof fn lemma_other_names_unchanged(
    before: Map<Seq<char>, NativeFunction>,
    name: Seq<char>,
    function: NativeFunction,
    r: Result<(), RegistryError>,
    after: Map<Seq<char>, NativeFunction>,
    other: Seq<char>,
)
    requires
        register_step(before, name, function, r, after),
        other != name,
    ensures
        after.contains_key(other) == before.contains_key(other),
        after.contains_key(other) ==> after[other] == before[other],
{
}

/// After a registration the name is bound: to the function just given when the
/// registration succeeded, and to the earlier one when it was refused.
pub proof fn lemma_registered_name_found(
    before: Map<Seq<char>, NativeFunction>,
    name: Seq<char>,
    function: NativeFunction,
    r: Result<(), RegistryError>,
    after: Map<Seq<char>, NativeFunction>,
)
    requires
        register_step(before, name, function, r, after),
    ensures
        after.contains_key(name),
        r is Ok <==> !before.contains_key(name),
        r is Ok ==> after[name] == function,
        r is Err ==> after[name] == before[name],
{
}

/// Registering a name twice: the second registration is refused, and the name
/// keeps what it was bound to after the first.
pub proof fn lemma_second_registration_refused(
    m0: Map<Seq<char>, NativeFunction>,
    name: Seq<char>,
    f: NativeFunction,
    g: NativeFunction,
    r1: Result<(), RegistryError>,
    m1: Map<Seq<char>, NativeFunction>,
    r2: Result<(), RegistryError>,
    m2: Map<Seq<char>, NativeFunction>,
)
    requires
        register_step(m0, name, f, r1, m1),
        register_step(m1, name, g, r2, m2),
    ensures
        r2 == Err::<(), RegistryError>(RegistryError::DuplicateName),
        m2 == m1,
        !m0.contains_key(name) ==> m2[name] == f,
{
}

} // verus!
