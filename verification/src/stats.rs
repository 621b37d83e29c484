use vstd::prelude::*;

verus! {

/// The count recorded for `name`: the value of the first entry whose key is
/// `name`, or zero when there is none.
pub open spec fn lookup(entries: Seq<(String, usize)>, name: Seq<char>) -> nat
    decreases entries.len(),
{
    if entries.len() == 0 {
        0
    } else if entries[0].0@ == name {
        entries[0].1 as nat
    } else {
        lookup(entries.drop_first(), name)
    }
}

/// A count after one increment: counters saturate at the largest value a
/// machine word can hold instead of wrapping.
pub open spec fn bumped(n: nat) -> nat {
    if n < usize::MAX as nat {
        n + 1
    } else {
        n
    }
}

/// How counters look after one pass of increments: every name in `names`
/// went up by one (saturating) and every other name is untouched.
pub open spec fn bumps(new: Stats, prev: Stats, names: Set<Seq<char>>) -> bool {
    forall|m: Seq<char>|
        #[trigger] new.count(m) == if names.contains(m) {
            bumped(prev.count(m))
        } else {
            prev.count(m)
        }
}

proof fn lemma_lookup_no_match(s: Seq<(String, usize)>, name: Seq<char>)
    requires
        forall|j: int| 0 <= j < s.len() ==> (#[trigger] s[j]).0@ != name,
    ensures
        lookup(s, name) == 0,
    decreases s.len(),
{
    if s.len() > 0 {
        lemma_lookup_no_match(s.drop_first(), name);
    }
}

proof fn lemma_lookup_first_match(s: Seq<(String, usize)>, i: int, name: Seq<char>)
    requires
        0 <= i < s.len(),
        s[i].0@ == name,
        forall|j: int| 0 <= j < i ==> (#[trigger] s[j]).0@ != name,
    ensures
        lookup(s, name) == s[i].1 as nat,
    decreases i,
{
    if i > 0 {
        lemma_lookup_first_match(s.drop_first(), i - 1, name);
    }
}

proof fn lemma_lookup_update(s: Seq<(String, usize)>, i: int, e: (String, usize), m: Seq<char>)
    requires
        0 <= i < s.len(),
        e.0@ == s[i].0@,
    ensures
        m != s[i].0@ ==> lookup(s.update(i, e), m) == lookup(s, m),
        (forall|j: int| 0 <= j < i ==> (#[trigger] s[j]).0@ != s[i].0@) ==> lookup(
            s.update(i, e),
            s[i].0@,
        ) == e.1 as nat,
    decreases i,
{
    if i == 0 {
        assert(s.update(0, e).drop_first() =~= s.drop_first());
    } else {
        assert(s.update(i, e).drop_first() =~= s.drop_first().update(i - 1, e));
        lemma_lookup_update(s.drop_first(), i - 1, e, m);
    }
}

proof fn lemma_lookup_push(s: Seq<(String, usize)>, e: (String, usize), m: Seq<char>)
    ensures
        e.0@ != m ==> lookup(s.push(e), m) == lookup(s, m),
        (e.0@ == m && forall|j: int| 0 <= j < s.len() ==> (#[trigger] s[j]).0@ != m) ==> lookup(
            s.push(e),
            m,
        ) == e.1 as nat,
    decreases s.len(),
{
    if s.len() == 0 {
        assert(s.push(e)[0] == e);
        assert(s.push(e).drop_first() =~= Seq::<(String, usize)>::empty());
        assert(lookup(s.push(e).drop_first(), m) == 0);
        assert(lookup(s, m) == 0);
    } else {
        assert(s.push(e)[0] == s[0]);
        assert(s.push(e).drop_first() =~= s.drop_first().push(e));
        assert(forall|j: int|
            0 <= j < s.drop_first().len() ==> #[trigger] s.drop_first()[j] == s[j + 1]);
        lemma_lookup_push(s.drop_first(), e, m);
    }
}

/// Named monotone counters, accumulated over one simulation run and read
/// back once the run completes. Insertion order is irrelevant; a name that
/// was never incremented counts as zero.
pub struct Stats {
    entries: Vec<(String, usize)>,
}

impl Stats {
    /// The count this instance records for `name`.
    pub closed spec fn count(self, name: Seq<char>) -> nat {
        lookup(self.entries@, name)
    }

    /// A fresh instance records zero for every name.
    pub fn new() -> (stats: Self)
        ensures
            forall|m: Seq<char>| #[trigger] stats.count(m) == 0,
    {
        Self { entries: Vec::new() }
    }

    /// Index of the first entry whose key equals `name`, if any.
    fn find(entries: &Vec<(String, usize)>, name: &String) -> (found: Option<usize>)
        ensures
            match found {
                Some(i) => i < entries@.len() && entries@[i as int].0@ == name@ && forall|j: int|
                    0 <= j < i ==> (#[trigger] entries@[j]).0@ != name@,
                None => forall|j: int|
                    0 <= j < entries@.len() ==> (#[trigger] entries@[j]).0@ != name@,
            },
    {
        let mut i: usize = 0;
        while i < entries.len()
            invariant
                i <= entries@.len(),
                forall|j: int| 0 <= j < i ==> (#[trigger] entries@[j]).0@ != name@,
            decreases entries@.len() - i,
        {
            if entries[i].0.eq(name) {
                return Some(i);
            }
            i = i + 1;
        }
        None
    }

    /// Add one to the counter called `name`, starting it at one if it was
    /// never incremented before. The count saturates instead of wrapping
    /// once it reaches the largest value a machine word can hold. No other
    /// counter changes.
    pub fn incr(&mut self, name: &str)
        ensures
            final(self).count(name@) == bumped(old(self).count(name@)),
            forall|m: Seq<char>| m != name@ ==> final(self).count(m) == old(self).count(m),
    {
        let key: String = name.to_owned();
        match Self::find(&self.entries, &key) {
            Some(i) => {
                let ghost s0 = self.entries@;
                let c = self.entries[i].1;
                proof {
                    lemma_lookup_first_match(s0, i as int, name@);
                }
                if c < usize::MAX {
                    self.entries[i].1 = c + 1;
                    proof {
                        let e = self.entries@[i as int];
                        lemma_lookup_update(s0, i as int, e, name@);
                        assert forall|m: Seq<char>| m != name@ implies lookup(
                            self.entries@,
                            m,
                        ) == lookup(s0, m) by {
                            lemma_lookup_update(s0, i as int, e, m);
                        }
                    }
                }
            },
            None => {
                let ghost s0 = self.entries@;
                self.entries.push((key, 1));
                proof {
                    let e = self.entries@.last();
                    lemma_lookup_no_match(s0, name@);
                    lemma_lookup_push(s0, e, name@);
                    assert forall|m: Seq<char>| m != name@ implies lookup(self.entries@, m)
                        == lookup(s0, m) by {
                        lemma_lookup_push(s0, e, m);
                    }
                }
            },
        }
    }

    /// Read the counter called `name`; a name never incremented reads zero.
    pub fn get(&self, name: &str) -> (count: usize)
        ensures
            count as nat == self.count(name@),
    {
        let key: String = name.to_owned();
        match Self::find(&self.entries, &key) {
            Some(i) => {
                proof {
                    lemma_lookup_first_match(self.entries@, i as int, name@);
                }
                self.entries[i].1
            },
            None => {
                proof {
                    lemma_lookup_no_match(self.entries@, name@);
                }
                0
            },
        }
    }
}

} // verus!
