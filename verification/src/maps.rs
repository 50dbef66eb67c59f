//! The two string-keyed tables a task is made of.

use vstd::hash_map::StringHashMap;
use vstd::prelude::*;

verus! {

/// A named operation of a task: run it, get a string back.
///
/// The engine knows nothing of what an operation does. It may keep state of
/// its own and may have effects outside the engine; the engine runs it once
/// for each update instruction that names it. Callers implement this for
/// their own types; a boxed closure behind a small struct will do.
pub trait UpdateOp: Send {
    /// Runs the operation once and returns its result.
    fn invoke(&mut self) -> String;
}

/// The read-only key/value state of a task.
pub struct QueryMap {
    entries: StringHashMap<String>,
}

impl View for QueryMap {
    type V = Map<Seq<char>, Seq<char>>;

    closed spec fn view(&self) -> Map<Seq<char>, Seq<char>> {
        self.entries@.map_values(|value: String| value@)
    }
}

impl QueryMap {
    /// An empty table.
    pub fn new() -> (m: Self)
        ensures
            m@ == Map::<Seq<char>, Seq<char>>::empty(),
    {
        QueryMap { entries: StringHashMap::new() }
    }

    /// Stores `value` under `key`, in place of what `key` held before.
    pub fn insert(&mut self, key: String, value: String)
        ensures
            final(self)@ == old(self)@.insert(key@, value@),
    {
        self.entries.insert(key, value);
    }

    /// The value stored under `key`, if there is one.
    pub fn get(&self, key: &str) -> (value: Option<&String>)
        ensures
            value is Some <==> self@.contains_key(key@),
            value matches Some(v) ==> v@ == self@[key@],
    {
        self.entries.get(key)
    }

    /// Whether anything is stored under `key`.
    pub fn contains_key(&self, key: &str) -> (found: bool)
        ensures
            found == self@.contains_key(key@),
    {
        self.entries.contains_key(key)
    }

    /// The number of keys.
    pub fn len(&self) -> (n: usize)
        ensures
            n == self@.len(),
    {
        broadcast use vstd::hash_map::group_hash_map_axioms;

        proof {
            assert(self@.dom() =~= self.entries@.dom());
        }
        self.entries.len()
    }
}

/// The named operations of a task.
///
/// The operations are kept in the order their names were first bound, and an
/// index from names to positions finds them.
pub struct UpdateMap<Op> {
    index: StringHashMap<usize>,
    ops: Vec<Op>,
}

impl<Op> View for UpdateMap<Op> {
    type V = Map<Seq<char>, Op>;

    closed spec fn view(&self) -> Map<Seq<char>, Op> {
        Map::new(
            |name: Seq<char>| self.index@.contains_key(name),
            |name: Seq<char>| self.ops@[self.index@[name] as int],
        )
    }
}

impl<Op> UpdateMap<Op> {
    /// Every name points at an operation, and no two names at the same one.
    pub closed spec fn wf(&self) -> bool {
        &&& forall|name: Seq<char>| #[trigger]
            self.index@.contains_key(name) ==> self.index@[name] < self.ops@.len()
        &&& forall|a: Seq<char>, b: Seq<char>|
            #![trigger self.index@[a], self.index@[b]]
            self.index@.contains_key(a) && self.index@.contains_key(b) && a != b
                ==> self.index@[a] != self.index@[b]
    }

    /// The names that have an operation.
    pub open spec fn names(&self) -> Set<Seq<char>> {
        self@.dom()
    }

    /// An empty table.
    pub fn new() -> (m: Self)
        ensures
            m.wf(),
            m@ == Map::<Seq<char>, Op>::empty(),
    {
        UpdateMap { index: StringHashMap::new(), ops: Vec::new() }
    }

    /// Binds `name` to `op`, in place of the operation `name` had before.
    pub fn insert(&mut self, name: String, op: Op)
        requires
            old(self).wf(),
        ensures
            final(self).wf(),
            final(self)@ == old(self)@.insert(name@, op),
    {
        let found = match self.index.get(name.as_str()) {
            Some(at) => Some(*at),
            None => None,
        };
        match found {
            Some(at) => {
                self.ops[at] = op;
            },
            None => {
                let at: usize = self.ops.len();
                self.ops.push(op);
                self.index.insert(name, at);
            },
        }
    }

    /// Whether `name` has an operation.
    pub fn contains_key(&self, name: &str) -> (found: bool)
        ensures
            found == self@.contains_key(name@),
    {
        self.index.contains_key(name)
    }

    /// The number of names.
    pub fn len(&self) -> (n: usize)
        ensures
            n == self@.len(),
    {
        broadcast use vstd::hash_map::group_hash_map_axioms;

        proof {
            assert(self@.dom() =~= self.index@.dom());
        }
        self.index.len()
    }

}

impl<Op: UpdateOp> UpdateMap<Op> {
    /// Runs the operation bound to `name` once and returns its result, or
    /// returns `None`, having run nothing, where `name` has no operation.
    ///
    /// The same names stay bound, and every operation but the one that ran is
    /// left as it was.
    pub fn invoke(&mut self, name: &str) -> (value: Option<String>)
        requires
            old(self).wf(),
        ensures
            final(self).wf(),
            value is Some <==> old(self)@.contains_key(name@),
            value is None ==> *final(self) == *old(self),
            final(self)@.dom() == old(self)@.dom(),
            forall|other: Seq<char>|
                other != name@ && old(self)@.contains_key(other) ==> #[trigger] final(self)@[other]
                    == old(self)@[other],
    {
        let found = match self.index.get(name) {
            Some(at) => Some(*at),
            None => None,
        };
        match found {
            Some(at) => {
                let value = self.ops[at].invoke();
                Some(value)
            },
            None => None,
        }
    }
}

} // verus!
