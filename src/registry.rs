use vstd::prelude::*;

verus! {

/// The room's registry: each active username with the handle of that user's
/// broadcast forwarder. A username is active exactly when it has an entry,
/// and it has at most one.
pub struct Registry<H> {
    entries: Vec<(String, H)>,
    model: Ghost<Map<Seq<char>, H>>,
}

impl<H> View for Registry<H> {
    type V = Map<Seq<char>, H>;

    closed spec fn view(&self) -> Map<Seq<char>, H> {
        self.model@
    }
}

impl<H> Registry<H> {
    /// The entries, in the order they are kept.
    pub closed spec fn entry_seq(&self) -> Seq<(String, H)> {
        self.entries@
    }

    /// Every entry is in the model, every key of the model has an entry, and
    /// no two entries share a username.
    pub closed spec fn wf(&self) -> bool {
        &&& forall|i: int|
            0 <= i < self.entries@.len() ==> {
                &&& #[trigger] self.model@.contains_key(self.entries@[i].0@)
                &&& self.model@[self.entries@[i].0@] == self.entries@[i].1
            }
        &&& forall|k: Seq<char>|
            #[trigger] self.model@.contains_key(k) ==> exists|i: int|
                0 <= i < self.entries@.len() && #[trigger] self.entries@[i].0@ == k
        &&& forall|i: int, j: int|
            0 <= i < self.entries@.len() && 0 <= j < self.entries@.len() && i != j
                ==> #[trigger] self.entries@[i].0@ != #[trigger] self.entries@[j].0@
    }

    /// An active username has exactly one entry.
    pub proof fn lemma_single_entry(&self, username: Seq<char>)
        requires
            self.wf(),
            self@.contains_key(username),
        ensures
            exists|i: int|
                0 <= i < self.entry_seq().len() && self.entry_seq()[i].0@ == username && forall|
                    j: int,
                | 0 <= j < self.entry_seq().len() && #[trigger] self.entry_seq()[j].0@ == username
                    ==> j == i,
    {
        let i = choose|i: int| 0 <= i < self.entries@.len() && #[trigger] self.entries@[i].0@ == username;
        assert(self.entry_seq()[i].0@ == username);
    }

    /// An empty registry.
    pub fn new() -> (r: Registry<H>)
        ensures
            r.wf(),
            r@ == Map::<Seq<char>, H>::empty(),
    {
        Registry { entries: Vec::new(), model: Ghost(Map::empty()) }
    }

    /// The position of `username` among the entries, if it is active.
    fn find(&self, username: &String) -> (r: Option<usize>)
        requires
            self.wf(),
        ensures
            r is None <==> !self@.contains_key(username@),
            r matches Some(i) ==> i < self.entries@.len() && self.entries@[i as int].0@
                == username@,
    {
        let mut i: usize = 0;
        while i < self.entries.len()
            invariant
                self.wf(),
                i <= self.entries@.len(),
                forall|j: int| 0 <= j < i ==> self.entries@[j].0@ != username@,
            decreases self.entries@.len() - i,
        {
            if self.entries[i].0 == *username {
                return Some(i);
            }
            i = i + 1;
        }
        None
    }

    /// Whether `username` is active.
    pub fn contains(&self, username: &String) -> (r: bool)
        requires
            self.wf(),
        ensures
            r == self@.contains_key(username@),
    {
        self.find(username).is_some()
    }

    /// The number of active users.
    pub fn len(&self) -> (n: usize)
        requires
            self.wf(),
        ensures
            n == self@.len(),
    {
        proof { self.lemma_len(); }
        self.entries.len()
    }

    proof fn lemma_len(&self)
        requires
            self.wf(),
        ensures
            self@.dom().finite(),
            self@.len() == self.entries@.len(),
    {
        let keys = Seq::new(self.entries@.len(), |i: int| self.entries@[i].0@);
        assert(keys.no_duplicates());
        assert forall|k: Seq<char>| #[trigger] self@.dom().contains(k) implies keys.contains(k) by {
            let i = choose|i: int| 0 <= i < self.entries@.len() && #[trigger] self.entries@[i].0@ == k;
            assert(keys[i] == k);
        }
        assert forall|k: Seq<char>| #[trigger] keys.contains(k) implies self@.dom().contains(k) by {
            let i = choose|i: int| 0 <= i < keys.len() && keys[i] == k;
            assert(self.model@.contains_key(self.entries@[i].0@));
        }
        assert(self@.dom() =~= keys.to_set());
        keys.unique_seq_to_set();
    }

    /// Adds `username` with `handle` if it is not active yet. Returns
    /// `Err(handle)`, and leaves the registry as it was, if it is.
    pub fn try_register(&mut self, username: String, handle: H) -> (r: Result<(), H>)
        requires
            old(self).wf(),
        ensures
            final(self).wf(),
            old(self)@.contains_key(username@) ==> r == Err::<(), H>(handle) && final(self)@
                == old(self)@,
            !old(self)@.contains_key(username@) ==> r is Ok && final(self)@ == old(self)@.insert(
                username@,
                handle,
            ),
    {
        if self.contains(&username) {
            return Err(handle);
        }
        let ghost key = username@;
        let ghost h = handle;
        self.entries.push((username, handle));
        self.model = Ghost(self.model@.insert(key, h));
        proof {
            let n = self.entries@.len() - 1;
            assert forall|k: Seq<char>| #[trigger] self.model@.contains_key(k) implies exists|
                i: int,
            | 0 <= i < self.entries@.len() && #[trigger] self.entries@[i].0@ == k by {
                if k == key {
                    assert(self.entries@[n].0@ == k);
                } else {
                    assert(old(self).model@.contains_key(k));
                    let i = choose|i: int|
                        0 <= i < old(self).entries@.len() && #[trigger] old(self).entries@[i].0@
                            == k;
                    assert(self.entries@[i].0@ == k);
                }
            }
        }
        Ok(())
    }

    /// Removes `username`, handing back its forwarder's handle; does nothing
    /// and returns `None` if it is not active.
    pub fn unregister(&mut self, username: &String) -> (r: Option<H>)
        requires
            old(self).wf(),
        ensures
            final(self).wf(),
            final(self)@ == old(self)@.remove(username@),
            old(self)@.contains_key(username@) <==> r is Some,
            r matches Some(h) ==> h == old(self)@[username@],
    {
        match self.find(username) {
            None => {
                assert(self@ =~= old(self)@.remove(username@));
                None
            },
            Some(i) => {
                let ghost last = self.entries@.len() - 1;
                let (_, h) = self.entries.swap_remove(i);
                self.model = Ghost(self.model@.remove(username@));
                proof {
                    let old_e = old(self).entries@;
                    let e = self.entries@;
                    assert forall|j: int| 0 <= j < e.len() implies (j == i && e[j] == old_e[last])
                        || (j != i && e[j] == old_e[j]) by {}
                    assert forall|k: Seq<char>| #[trigger] self.model@.contains_key(k) implies exists|
                        j: int,
                    | 0 <= j < e.len() && #[trigger] e[j].0@ == k by {
                        let j = choose|j: int|
                            0 <= j < old_e.len() && #[trigger] old_e[j].0@ == k;
                        if j == last {
                            assert(e[i as int].0@ == k);
                        } else {
                            assert(e[j].0@ == k);
                        }
                    }
                    assert forall|a: int, b: int|
                        0 <= a < e.len() && 0 <= b < e.len() && a != b implies #[trigger] e[a].0@
                        != #[trigger] e[b].0@ by {
                        let oa = if a == i { last } else { a };
                        let ob = if b == i { last } else { b };
                        assert(e[a] == old_e[oa]);
                        assert(e[b] == old_e[ob]);
                    }
                }
                Some(h)
            },
        }
    }
}

impl<H> Registry<H> {
    /// The active usernames, each once.
    pub fn names(&self) -> (r: Vec<String>)
        requires
            self.wf(),
        ensures
            r@.len() == self@.len(),
            forall|i: int| 0 <= i < r@.len() ==> #[trigger] self@.contains_key(r@[i]@),
            forall|k: Seq<char>|
                #[trigger] self@.contains_key(k) ==> exists|i: int| 0 <= i < r@.len() && r@[i]@ == k,
    {
        proof { self.lemma_len(); }
        let mut r: Vec<String> = Vec::new();
        let mut i: usize = 0;
        while i < self.entries.len()
            invariant
                self.wf(),
                i <= self.entries@.len(),
                r@.len() == i,
                forall|j: int| 0 <= j < i ==> #[trigger] r@[j]@ == self.entries@[j].0@,
            decreases self.entries@.len() - i,
        {
            r.push(self.entries[i].0.clone());
            i = i + 1;
        }
        proof {
            assert forall|j: int| 0 <= j < r@.len() implies #[trigger] self@.contains_key(r@[j]@) by {
                assert(r@[j]@ == self.entries@[j].0@);
            }
            assert forall|k: Seq<char>| #[trigger] self@.contains_key(k) implies exists|j: int|
                0 <= j < r@.len() && r@[j]@ == k by {
                let j = choose|j: int| 0 <= j < self.entries@.len() && #[trigger] self.entries@[j].0@ == k;
                assert(r@[j]@ == k);
            }
        }
        r
    }

    /// Empties the registry, handing back every forwarder's handle, one per
    /// user, to be stopped.
    pub fn clear(&mut self) -> (handles: Vec<H>)
        requires
            old(self).wf(),
        ensures
            final(self).wf(),
            final(self)@ == Map::<Seq<char>, H>::empty(),
            handles@.len() == old(self)@.len(),
            forall|k: Seq<char>|
                #[trigger] old(self)@.contains_key(k) ==> exists|i: int|
                    0 <= i < handles@.len() && handles@[i] == old(self)@[k],
    {
        proof { self.lemma_len(); }
        let mut handles: Vec<H> = Vec::new();
        while self.entries.len() > 0
            invariant
                old(self).wf(),
                self.entries@.len() + handles@.len() == old(self).entries@.len(),
                forall|j: int| 0 <= j < self.entries@.len() ==> #[trigger] self.entries@[j] == old(self).entries@[j],
                forall|j: int| 0 <= j < handles@.len() ==> #[trigger] handles@[j] == old(self).entries@[old(self).entries@.len() - 1 - j].1,
            decreases self.entries@.len(),
        {
            let (_, h) = self.entries.pop().unwrap();
            handles.push(h);
        }
        self.model = Ghost(Map::empty());
        proof {
            let n = old(self).entries@.len();
            assert forall|k: Seq<char>| #[trigger] old(self)@.contains_key(k) implies exists|i: int|
                0 <= i < handles@.len() && handles@[i] == old(self)@[k] by {
                let j = choose|j: int| 0 <= j < n && #[trigger] old(self).entries@[j].0@ == k;
                assert(handles@[n - 1 - j] == old(self).entries@[j].1);
            }
        }
        handles
    }
}

} // verus!
