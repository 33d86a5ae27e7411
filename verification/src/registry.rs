use vstd::prelude::*;

verus! {

/// A table of handlers looked up by name. Registering a name that is
/// already present replaces its handler, so a name occurs at most once.
pub struct Registry<H> {
    entries: Vec<(String, H)>,
}

/// What a lookup of `name` gives in a table whose contents are `table`.
pub open spec fn lookup<H>(table: Map<Seq<char>, H>, name: Seq<char>) -> Option<H> {
    if table.contains_key(name) {
        Some(table[name])
    } else {
        None
    }
}

impl<H> Registry<H> {
    /// The name stored at position `i`.
    closed spec fn name_at(self, i: int) -> Seq<char> {
        self.entries@[i].0@
    }

    /// No name is stored twice.
    #[verifier::type_invariant]
    closed spec fn names_distinct(self) -> bool {
        forall|i: int, j: int|
            0 <= i < self.entries@.len() && 0 <= j < self.entries@.len() && i != j
                ==> #[trigger] self.name_at(i) != #[trigger] self.name_at(j)
    }

    /// `name` is stored at some position.
    closed spec fn has(self, name: Seq<char>) -> bool {
        exists|i: int| 0 <= i < self.entries@.len() && #[trigger] self.name_at(i) == name
    }

    /// A position at which `name` is stored, where there is one.
    closed spec fn position(self, name: Seq<char>) -> int {
        choose|i: int| 0 <= i < self.entries@.len() && #[trigger] self.name_at(i) == name
    }

    /// The handlers by name.
    pub closed spec fn contents(self) -> Map<Seq<char>, H> {
        Map::new(|k: Seq<char>| self.has(k), |k: Seq<char>| self.entries@[self.position(k)].1)
    }

    proof fn lemma_position(self, i: int)
        requires
            self.names_distinct(),
            0 <= i < self.entries@.len(),
        ensures
            self.has(self.name_at(i)),
            self.position(self.name_at(i)) == i,
            self.contents().contains_key(self.name_at(i)),
            self.contents()[self.name_at(i)] == self.entries@[i].1,
    {
        let k = self.name_at(i);
        assert(self.has(k));
        let p = self.position(k);
        assert(self.name_at(p) == k);
    }

    /// An empty table.
    pub fn new() -> (r: Self)
        ensures
            r@ == Map::<Seq<char>, H>::empty(),
    {
        let r = Registry { entries: Vec::new() };
        assert(r.contents() =~= Map::<Seq<char>, H>::empty());
        r
    }

    /// Position of `name` in the table, if it is there.
    fn find(&self, name: &str) -> (res: Option<usize>)
        ensures
            match res {
                Some(i) => i < self.entries@.len() && self.name_at(i as int) == name@,
                None => !self.has(name@),
            },
    {
        let key = String::from_str(name);
        let mut i: usize = 0;
        while i < self.entries.len()
            invariant
                i <= self.entries@.len(),
                key@ == name@,
                forall|j: int| 0 <= j < i ==> self.name_at(j) != name@,
            decreases self.entries@.len() - i,
        {
            if self.entries[i].0 == key {
                return Some(i);
            }
            i = i + 1;
        }
        None
    }

    /// The handler registered under `name`, if any.
    pub fn get(&self, name: &str) -> (res: Option<&H>)
        ensures
            res matches Some(h) ==> lookup(self@, name@) == Some(*h),
            res is None <==> lookup(self@, name@) is None,
    {
        proof {
            use_type_invariant(self);
        }
        match self.find(name) {
            Some(i) => {
                proof {
                    self.lemma_position(i as int);
                }
                Some(&self.entries[i].1)
            },
            None => None,
        }
    }

    /// Registers `handler` under `name`, replacing what was registered there.
    pub fn insert(&mut self, name: String, handler: H)
        ensures
            final(self)@ == old(self)@.insert(name@, handler),
    {
        proof {
            use_type_invariant(&*self);
        }
        let ghost before = *self;
        let ghost k = name@;
        let found = self.find(name.as_str());
        let mut entries: Vec<(String, H)> = Vec::new();
        std::mem::swap(&mut entries, &mut self.entries);
        match found {
            Some(i) => {
                entries.set(i, (name, handler));
                proof {
                    assert forall|a: int, b: int|
                        0 <= a < entries@.len() && 0 <= b < entries@.len() && a != b
                            implies entries@[a].0@ != entries@[b].0@ by {
                        assert(before.name_at(a) != before.name_at(b));
                    }
                }
            },
            None => {
                entries.push((name, handler));
                proof {
                    assert forall|a: int, b: int|
                        0 <= a < entries@.len() && 0 <= b < entries@.len() && a != b
                            implies entries@[a].0@ != entries@[b].0@ by {
                        if a < before.entries@.len() && b < before.entries@.len() {
                            assert(before.name_at(a) != before.name_at(b));
                        } else if a < before.entries@.len() {
                            assert(before.name_at(a) != k);
                        } else {
                            assert(before.name_at(b) != k);
                        }
                    }
                }
            },
        }
        self.entries = entries;
        proof {
            let after = *self;
            assert forall|k2: Seq<char>| #[trigger] after.has(k2) <==> before.has(k2) || k2 == k by {
                if after.has(k2) {
                    let p = choose|p: int| 0 <= p < after.entries@.len() && #[trigger] after.name_at(p) == k2;
                    if k2 != k {
                        assert(p < before.entries@.len());
                        assert(before.name_at(p) == k2);
                    }
                }
                if before.has(k2) {
                    let p = choose|p: int| 0 <= p < before.entries@.len() && #[trigger] before.name_at(p) == k2;
                    if k2 != k {
                        assert(after.name_at(p) == k2);
                    }
                }
                if k2 == k {
                    match found {
                        Some(i) => { assert(after.name_at(i as int) == k); },
                        None => { assert(after.name_at(before.entries@.len() as int) == k); },
                    }
                }
            }
            assert forall|k2: Seq<char>| after.has(k2)
                implies after.contents()[k2] == before.contents().insert(k, handler)[k2] by {
                let p = after.position(k2);
                after.lemma_position(p);
                if k2 == k {
                    match found {
                        Some(i) => { after.lemma_position(i as int); },
                        None => { after.lemma_position(before.entries@.len() as int); },
                    }
                } else {
                    match found {
                        Some(i) => { assert(p != i); },
                        None => { assert(p < before.entries@.len()); },
                    }
                    assert(before.name_at(p) == k2);
                    before.lemma_position(p);
                }
            }
            assert(after.contents() =~= before.contents().insert(k, handler));
        }
    }
}

impl<H> View for Registry<H> {
    type V = Map<Seq<char>, H>;

    closed spec fn view(&self) -> Map<Seq<char>, H> {
        self.contents()
    }
}

/// The law of the registry: looking up a name just registered gives the
/// handler registered under it, and every other name keeps what it had.
pub proof fn registered_name_is_found<H>(
    before: Map<Seq<char>, H>,
    name: Seq<char>,
    handler: H,
    other: Seq<char>,
)
    ensures
        lookup(before.insert(name, handler), name) == Some(handler),
        other != name ==> lookup(before.insert(name, handler), other) == lookup(before, other),
{
}

} // verus!
