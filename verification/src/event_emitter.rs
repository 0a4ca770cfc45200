use vstd::prelude::*;

verus! {

/// A reaction that the registry runs when a named event fires.
///
/// An implementation is an ordinary callable object. `invocations` is the
/// abstract tally of completed runs; `notify` performs one run and advances
/// that tally by exactly one.
pub trait Listener: Sized {
    /// How many times this listener has run.
    spec fn invocations(&self) -> nat;

    /// Run the listener once.
    fn notify(&mut self)
        ensures
            final(self).invocations() == old(self).invocations() + 1,
    ;
}

/// A listener that does nothing but count how often it has run.
///
/// The ghost tally is exact; the executable readout saturates at `u64::MAX`
/// instead of overflowing.
pub struct CountingListener {
    hits: u64,
    total: Ghost<nat>,
}

impl CountingListener {
    #[verifier::type_invariant]
    spec fn inv(self) -> bool {
        if self.total@ <= u64::MAX {
            self.hits == self.total@
        } else {
            self.hits == u64::MAX
        }
    }

    pub fn new() -> (r: CountingListener)
        ensures
            r.invocations() == 0,
    {
        CountingListener { hits: 0, total: Ghost(0) }
    }

    /// The number of completed runs, saturating at `u64::MAX`.
    pub fn count(&self) -> (r: u64)
        ensures
            self.invocations() <= u64::MAX ==> r == self.invocations(),
            self.invocations() > u64::MAX ==> r == u64::MAX,
    {
        proof {
            use_type_invariant(self);
        }
        self.hits
    }
}

impl Listener for CountingListener {
    closed spec fn invocations(&self) -> nat {
        self.total@
    }

    fn notify(&mut self) {
        proof {
            use_type_invariant(&*self);
        }
        let new_hits = if self.hits < u64::MAX {
            self.hits + 1
        } else {
            self.hits
        };
        *self = CountingListener { hits: new_hits, total: Ghost(self.total@ + 1) };
    }
}

/// The registry after a listener has been added under `name`: the listener is
/// appended to the sequence for `name`, which is created when absent.
pub open spec fn with_listener<L>(
    m: Map<Seq<char>, Seq<L>>,
    name: Seq<char>,
    listener: L,
) -> Map<Seq<char>, Seq<L>> {
    if m.contains_key(name) {
        m.insert(name, m[name].push(listener))
    } else {
        m.insert(name, seq![listener])
    }
}

/// Holds when `post` is the registry `pre` after `name` has been emitted `n`
/// times: the set of registered names is unchanged, every listener under
/// `name` has run exactly `n` more times, listeners under every other name
/// are untouched, and when nothing is registered under `name` the registry is
/// unchanged altogether.
pub open spec fn emitted<L: Listener>(
    pre: Map<Seq<char>, Seq<L>>,
    post: Map<Seq<char>, Seq<L>>,
    name: Seq<char>,
    n: nat,
) -> bool {
    &&& post.dom() == pre.dom()
    &&& forall|k: Seq<char>|
        pre.contains_key(k) && k != name ==> post[k] == pre[k]
    &&& pre.contains_key(name) ==> {
        &&& post[name].len() == pre[name].len()
        &&& forall|i: int|
            0 <= i < pre[name].len() ==> #[trigger] post[name][i].invocations()
                == pre[name][i].invocations() + n
    }
    &&& !pre.contains_key(name) ==> post == pre
}

/// Two consecutive emissions of the same name add up.
pub proof fn lemma_emitted_adds<L: Listener>(
    a: Map<Seq<char>, Seq<L>>,
    b: Map<Seq<char>, Seq<L>>,
    c: Map<Seq<char>, Seq<L>>,
    name: Seq<char>,
    n1: nat,
    n2: nat,
)
    requires
        emitted(a, b, name, n1),
        emitted(b, c, name, n2),
    ensures
        emitted(a, c, name, n1 + n2),
{
    assert(forall|k: Seq<char>| a.contains_key(k) ==> b.contains_key(k));
    if a.contains_key(name) {
        assert(forall|i: int|
            0 <= i < a[name].len() ==> #[trigger] c[name][i].invocations()
                == a[name][i].invocations() + (n1 + n2)) by {
            assert(forall|i: int|
                0 <= i < b[name].len() ==> #[trigger] c[name][i].invocations()
                    == b[name][i].invocations() + n2);
        }
    }
}

/// A named-event registry: each name maps to the listeners registered under
/// it, kept in registration order and never removed.
///
/// The entries are held as a list of pairs with pairwise-distinct names; the
/// abstract view is the map from each name to its listener sequence.
pub struct EventEmitter<L> {
    entries: Vec<(String, Vec<L>)>,
}

impl<L> View for EventEmitter<L> {
    type V = Map<Seq<char>, Seq<L>>;

    closed spec fn view(&self) -> Map<Seq<char>, Seq<L>> {
        EventEmitter::<L>::entries_map(self.entries@)
    }
}

impl<L> EventEmitter<L> {
    /// The map described by a prefix of the entry list, later entries taking
    /// precedence (with distinct names there is no precedence to resolve).
    spec fn entries_map(s: Seq<(String, Vec<L>)>) -> Map<Seq<char>, Seq<L>>
        decreases s.len(),
    {
        if s.len() == 0 {
            Map::empty()
        } else {
            Self::entries_map(s.drop_last()).insert(s.last().0@, s.last().1@)
        }
    }

    spec fn distinct_names(s: Seq<(String, Vec<L>)>) -> bool {
        forall|i: int, j: int|
            0 <= i < j < s.len() ==> #[trigger] s[i].0@ != #[trigger] s[j].0@
    }

    #[verifier::type_invariant]
    spec fn inv(self) -> bool {
        Self::distinct_names(self.entries@)
    }

    /// A name is in the map exactly when some entry carries it.
    proof fn lemma_entries_map_dom(s: Seq<(String, Vec<L>)>, k: Seq<char>)
        ensures
            Self::entries_map(s).contains_key(k) <==> exists|i: int|
                0 <= i < s.len() && #[trigger] s[i].0@ == k,
        decreases s.len(),
    {
        if s.len() > 0 {
            Self::lemma_entries_map_dom(s.drop_last(), k);
            if s.last().0@ == k {
                assert(s[s.len() - 1].0@ == k);
            } else if Self::entries_map(s.drop_last()).contains_key(k) {
                let i = choose|i: int|
                    0 <= i < s.drop_last().len() && #[trigger] s.drop_last()[i].0@ == k;
                assert(s[i].0@ == k);
            } else if exists|i: int| 0 <= i < s.len() && #[trigger] s[i].0@ == k {
                let i = choose|i: int| 0 <= i < s.len() && #[trigger] s[i].0@ == k;
                assert(s.drop_last()[i].0@ == k);
            }
        }
    }

    /// With distinct names, the entry at `i` is what the map holds for its name.
    proof fn lemma_entries_map_index(s: Seq<(String, Vec<L>)>, i: int)
        requires
            Self::distinct_names(s),
            0 <= i < s.len(),
        ensures
            Self::entries_map(s).contains_key(s[i].0@),
            Self::entries_map(s)[s[i].0@] == s[i].1@,
        decreases s.len(),
    {
        if i < s.len() - 1 {
            Self::lemma_entries_map_index(s.drop_last(), i);
            assert(s.drop_last()[i] == s[i]);
            assert(s[i].0@ != s.last().0@);
        }
    }

    /// Replacing the entry at `i` by one with the same name updates the map
    /// at that name alone.
    proof fn lemma_entries_map_update(s: Seq<(String, Vec<L>)>, i: int, t: (String, Vec<L>))
        requires
            Self::distinct_names(s),
            0 <= i < s.len(),
            t.0@ == s[i].0@,
        ensures
            Self::entries_map(s.update(i, t)) == Self::entries_map(s).insert(t.0@, t.1@),
        decreases s.len(),
    {
        let s2 = s.update(i, t);
        if i == s.len() - 1 {
            assert(s2.drop_last() =~= s.drop_last());
            assert(s2.last() == t);
            assert(Self::entries_map(s2)
                =~= Self::entries_map(s).insert(t.0@, t.1@));
        } else {
            assert(s2.drop_last() =~= s.drop_last().update(i, t));
            assert(s2.last() == s.last());
            Self::lemma_entries_map_update(s.drop_last(), i, t);
            assert(s.last().0@ != t.0@);
            assert(Self::entries_map(s2)
                =~= Self::entries_map(s).insert(t.0@, t.1@));
        }
    }

    /// A registry with nothing registered.
    pub fn new() -> (r: EventEmitter<L>)
        ensures
            r@ == Map::<Seq<char>, Seq<L>>::empty(),
    {
        EventEmitter { entries: Vec::new() }
    }

    /// The position of the entry for `name`, if one exists.
    fn find_entry(&self, name: &str) -> (r: Option<usize>)
        ensures
            match r {
                Some(i) => i < self.entries@.len() && self.entries@[i as int].0@ == name@,
                None => forall|j: int|
                    0 <= j < self.entries@.len() ==> #[trigger] self.entries@[j].0@ != name@,
            },
    {
        let name_owned = name.to_owned();
        let n = self.entries.len();
        let mut i: usize = 0;
        while i < n
            invariant
                i <= n,
                n == self.entries@.len(),
                name_owned@ == name@,
                forall|j: int| 0 <= j < i ==> #[trigger] self.entries@[j].0@ != name@,
            decreases n - i,
        {
            if self.entries[i].0 == name_owned {
                return Some(i);
            }
            i = i + 1;
        }
        None
    }

    /// Appends `listener` under `name`, creating the sequence when absent.
    /// Always succeeds; earlier registrations under the same name are kept
    /// and keep their order.
    pub fn on(&mut self, name: &str, listener: L)
        ensures
            final(self)@ == with_listener(old(self)@, name@, listener),
    {
        proof {
            use_type_invariant(&*self);
        }
        let found = self.find_entry(name);
        let mut entries: Vec<(String, Vec<L>)> = Vec::new();
        core::mem::swap(&mut entries, &mut self.entries);
        let ghost pre_entries = entries@;
        match found {
            Some(i) => {
                proof {
                    Self::lemma_entries_map_index(pre_entries, i as int);
                }
                entries[i].1.push(listener);
                proof {
                    assert(entries@ =~= pre_entries.update(
                        i as int,
                        (entries@[i as int].0, entries@[i as int].1),
                    ));
                    Self::lemma_entries_map_update(
                        pre_entries,
                        i as int,
                        (entries@[i as int].0, entries@[i as int].1),
                    );
                    assert(Self::distinct_names(entries@));
                }
            },
            None => {
                proof {
                    Self::lemma_entries_map_dom(pre_entries, name@);
                }
                let mut fresh: Vec<L> = Vec::new();
                fresh.push(listener);
                entries.push((name.to_owned(), fresh));
                proof {
                    assert(entries@.drop_last() =~= pre_entries);
                    assert(fresh@ =~= seq![listener]);
                    assert(Self::distinct_names(entries@));
                }
            },
        }
        core::mem::swap(&mut entries, &mut self.entries);
    }
}

impl<L: Listener> EventEmitter<L> {
    /// Runs every listener registered under `name` once, in registration
    /// order, synchronously. A name with no listeners is a silent no-op.
    pub fn emit(&mut self, name: &str)
        ensures
            emitted(old(self)@, final(self)@, name@, 1),
    {
        proof {
            use_type_invariant(&*self);
        }
        let found = self.find_entry(name);
        match found {
            Some(i) => {
                let mut entries: Vec<(String, Vec<L>)> = Vec::new();
                core::mem::swap(&mut entries, &mut self.entries);
                let ghost pre_entries = entries@;
                proof {
                    Self::lemma_entries_map_index(pre_entries, i as int);
                }
                Self::notify_all(&mut entries[i].1);
                proof {
                    assert(entries@ =~= pre_entries.update(
                        i as int,
                        (entries@[i as int].0, entries@[i as int].1),
                    ));
                    Self::lemma_entries_map_update(
                        pre_entries,
                        i as int,
                        (entries@[i as int].0, entries@[i as int].1),
                    );
                    assert(Self::distinct_names(entries@));
                    assert(Self::entries_map(entries@).dom()
                        =~= Self::entries_map(pre_entries).dom());
                    assert(Self::entries_map(entries@)[name@] == entries@[i as int].1@);
                    assert(Self::entries_map(pre_entries)[name@] == pre_entries[i as int].1@);
                    assert(forall|q: int|
                        0 <= q < pre_entries[i as int].1@.len()
                            ==> #[trigger] Self::entries_map(entries@)[name@][q].invocations()
                                == Self::entries_map(pre_entries)[name@][q].invocations() + 1);
                }
                core::mem::swap(&mut entries, &mut self.entries);
            },
            None => {
                proof {
                    Self::lemma_entries_map_dom(self.entries@, name@);
                }
            },
        }
    }

    /// Runs each listener in the sequence once, front to back.
    fn notify_all(listeners: &mut Vec<L>)
        ensures
            final(listeners)@.len() == old(listeners)@.len(),
            forall|q: int|
                0 <= q < old(listeners)@.len() ==> #[trigger] final(listeners)@[q].invocations()
                    == old(listeners)@[q].invocations() + 1,
    {
        let n = listeners.len();
        let mut j: usize = 0;
        while j < n
            invariant
                j <= n,
                n == listeners@.len(),
                listeners@.len() == old(listeners)@.len(),
                forall|q: int|
                    0 <= q < j ==> #[trigger] listeners@[q].invocations()
                        == old(listeners)@[q].invocations() + 1,
                forall|q: int|
                    j <= q < n ==> #[trigger] listeners@[q] == old(listeners)@[q],
            decreases n - j,
        {
            listeners[j].notify();
            j = j + 1;
        }
    }

    /// The listener at `index` under `name`, if both exist.
    pub fn get_listener(&self, name: &str, index: usize) -> (r: Option<&L>)
        ensures
            match r {
                Some(l) => self@.contains_key(name@) && (index as int) < self@[name@].len()
                    && *l == self@[name@][index as int],
                None => !self@.contains_key(name@) || (index as int) >= self@[name@].len(),
            },
    {
        proof {
            use_type_invariant(self);
        }
        match self.find_entry(name) {
            Some(i) => {
                proof {
                    Self::lemma_entries_map_index(self.entries@, i as int);
                }
                if index < self.entries[i].1.len() {
                    Some(&self.entries[i].1[index])
                } else {
                    None
                }
            },
            None => {
                proof {
                    Self::lemma_entries_map_dom(self.entries@, name@);
                }
                None
            },
        }
    }
}

} // verus!
