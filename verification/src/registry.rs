//! The handler registry: which handler runs the jobs of which class.

use vstd::prelude::*;

verus! {

/// The table that a list of registrations stands for: each class is bound to
/// the handler that was registered for it last.
pub open spec fn table_of<H>(entries: Seq<(String, H)>) -> Map<Seq<char>, H>
    decreases entries.len(),
{
    if entries.len() == 0 {
        Map::empty()
    } else {
        table_of(entries.drop_last()).insert(entries.last().0@, entries.last().1)
    }
}

/// A mapping from class names to handlers. A class has at most one handler.
pub struct Registry<H> {
    entries: Vec<(String, H)>,
}

impl<H> View for Registry<H> {
    type V = Map<Seq<char>, H>;

    closed spec fn view(&self) -> Map<Seq<char>, H> {
        table_of(self.entries@)
    }
}

impl<H> Registry<H> {
    /// A registry without handlers.
    pub fn new() -> (registry: Self)
        ensures
            registry@ == Map::<Seq<char>, H>::empty(),
    {
        Registry { entries: Vec::new() }
    }

    /// Binds `class` to `handler`. An earlier handler of that class is replaced.
    pub fn insert(&mut self, class: &str, handler: H)
        ensures
            final(self)@ == old(self)@.insert(class@, handler),
    {
        let ghost before = self.entries@;
        self.entries.push((String::from_str(class), handler));
        proof {
            assert(self.entries@.drop_last() =~= before);
        }
    }

    /// True when no class has a handler.
    pub fn is_empty(&self) -> (empty: bool)
        ensures
            empty <==> self@ == Map::<Seq<char>, H>::empty(),
    {
        let empty = self.entries.len() == 0;
        proof {
            if !empty {
                let key = self.entries@.last().0@;
                assert(self@.contains_key(key));
                assert(!Map::<Seq<char>, H>::empty().contains_key(key));
            }
        }
        empty
    }

    /// The handler of `class`, if it has one.
    pub fn get(&self, class: &str) -> (found: Option<&H>)
        ensures
            match found {
                Some(handler) => self@.contains_key(class@) && *handler == self@[class@],
                None => !self@.contains_key(class@),
            },
    {
        let wanted = String::from_str(class);
        let mut i: usize = self.entries.len();
        proof {
            assert(self.entries@.take(i as int) =~= self.entries@);
        }
        while i > 0
            invariant
                i <= self.entries.len(),
                wanted@ == class@,
                self@.contains_key(class@) <==> table_of(self.entries@.take(i as int)).contains_key(
                    class@,
                ),
                self@.contains_key(class@) ==> self@[class@] == table_of(
                    self.entries@.take(i as int),
                )[class@],
            decreases i,
        {
            let ghost seen = self.entries@.take(i as int);
            proof {
                assert(seen.drop_last() =~= self.entries@.take(i - 1));
                assert(seen.last() == self.entries@[i - 1]);
            }
            i = i - 1;
            if self.entries[i].0 == wanted {
                return Some(&self.entries[i].1);
            }
        }
        proof {
            assert(self.entries@.take(0).len() == 0);
        }
        None
    }
}

impl<H: Clone> Registry<H> {
    /// A registry of the same classes, each with a clone of its handler.
    pub fn duplicate(&self) -> (copy: Self)
        ensures
            copy@.dom() == self@.dom(),
            forall|class: Seq<char>| #[trigger]
                self@.contains_key(class) ==> cloned(self@[class], copy@[class]),
    {
        let mut entries: Vec<(String, H)> = Vec::new();
        let mut i: usize = 0;
        while i < self.entries.len()
            invariant
                i <= self.entries.len(),
                entries@.len() == i,
                forall|j: int|
                    0 <= j < i ==> (#[trigger] entries@[j]).0@ == self.entries@[j].0@ && cloned(
                        self.entries@[j].1,
                        entries@[j].1,
                    ),
            decreases self.entries.len() - i,
        {
            let name = self.entries[i].0.clone();
            let handler = self.entries[i].1.clone();
            entries.push((name, handler));
            i = i + 1;
        }
        proof {
            lemma_table_of_clones(self.entries@, entries@);
        }
        Registry { entries }
    }
}

/// Two lists of registrations that agree on the classes, entry by entry, and
/// whose handlers are clones of each other, stand for tables with the same
/// classes and cloned handlers.
pub proof fn lemma_table_of_clones<H: Clone>(a: Seq<(String, H)>, b: Seq<(String, H)>)
    requires
        a.len() == b.len(),
        forall|j: int|
            0 <= j < a.len() ==> (#[trigger] b[j]).0@ == a[j].0@ && cloned(a[j].1, b[j].1),
    ensures
        table_of(a).dom() == table_of(b).dom(),
        forall|class: Seq<char>| #[trigger]
            table_of(a).contains_key(class) ==> cloned(table_of(a)[class], table_of(b)[class]),
    decreases a.len(),
{
    if a.len() > 0 {
        lemma_table_of_clones(a.drop_last(), b.drop_last());
        assert(b.last().0@ == a.last().0@);
        assert(table_of(a).dom() =~= table_of(b).dom());
    } else {
        assert(table_of(a).dom() =~= table_of(b).dom());
    }
}

} // verus!
