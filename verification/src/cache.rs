//! Per-run memo of document identifier to resolved title.
//!
//! A lookup miss is answered by one remote fetch made by the caller; the
//! fetched title (or a sentinel when the document has no title) is then
//! recorded and returned. Entries are never invalidated and live for one
//! export run.

use vstd::prelude::*;

verus! {

/// The map an entry list stands for: later entries shadow earlier ones with
/// the same key, though a well-formed cache never holds two.
pub open spec fn entries_map(s: Seq<(String, String)>) -> Map<Seq<char>, Seq<char>>
    decreases s.len(),
{
    if s.len() == 0 {
        Map::empty()
    } else {
        entries_map(s.drop_last()).insert(s.last().0@, s.last().1@)
    }
}

proof fn lemma_key_absent(s: Seq<(String, String)>, key: Seq<char>)
    requires
        forall|i: int| 0 <= i < s.len() ==> s[i].0@ != key,
    ensures
        !entries_map(s).contains_key(key),
    decreases s.len(),
{
    if s.len() > 0 {
        lemma_key_absent(s.drop_last(), key);
    }
}

proof fn lemma_key_at(s: Seq<(String, String)>, i: int)
    requires
        0 <= i < s.len(),
        forall|p: int, q: int| 0 <= p < q < s.len() ==> s[p].0@ != s[q].0@,
    ensures
        entries_map(s).contains_key(s[i].0@),
        entries_map(s)[s[i].0@] == s[i].1@,
    decreases s.len(),
{
    if i == s.len() - 1 {
    } else {
        lemma_key_at(s.drop_last(), i);
        assert(s.last().0@ != s[i].0@);
    }
}

proof fn lemma_map_update(s: Seq<(String, String)>, i: int, pair: (String, String))
    requires
        0 <= i < s.len(),
        forall|p: int, q: int| 0 <= p < q < s.len() ==> s[p].0@ != s[q].0@,
        pair.0@ == s[i].0@,
    ensures
        entries_map(s.update(i, pair)) == entries_map(s).insert(pair.0@, pair.1@),
    decreases s.len(),
{
    if i == s.len() - 1 {
        assert(s.update(i, pair).drop_last() == s.drop_last());
        assert(entries_map(s.drop_last()).insert(s.last().0@, s.last().1@).insert(
            pair.0@,
            pair.1@,
        ) =~= entries_map(s.drop_last()).insert(pair.0@, pair.1@));
    } else {
        assert(s.update(i, pair).drop_last() == s.drop_last().update(i, pair));
        assert(s.update(i, pair).last() == s.last());
        lemma_map_update(s.drop_last(), i, pair);
        assert(s.last().0@ != pair.0@);
        assert(entries_map(s.drop_last()).insert(pair.0@, pair.1@).insert(
            s.last().0@,
            s.last().1@,
        ) =~= entries_map(s.drop_last()).insert(s.last().0@, s.last().1@).insert(
            pair.0@,
            pair.1@,
        ));
    }
}

/// Memo of document identifier to resolved title, for one export run.
pub struct PageIdCache {
    entries: Vec<(String, String)>,
}

impl View for PageIdCache {
    type V = Map<Seq<char>, Seq<char>>;

    closed spec fn view(&self) -> Map<Seq<char>, Seq<char>> {
        entries_map(self.entries@)
    }
}

impl PageIdCache {
    /// No two entries share an identifier.
    pub closed spec fn wf(&self) -> bool {
        forall|p: int, q: int|
            0 <= p < q < self.entries@.len() ==> self.entries@[p].0@ != self.entries@[q].0@
    }

    /// An empty cache.
    pub fn new() -> (r: PageIdCache)
        ensures
            r@ == Map::<Seq<char>, Seq<char>>::empty(),
            r.wf(),
    {
        PageIdCache { entries: Vec::new() }
    }

    /// The memoized title for the identifier, with no remote work: the stored
    /// title on a hit, nothing on a miss.
    pub fn cached_title(&self, id: &String) -> (r: Option<String>)
        requires
            self.wf(),
        ensures
            match r {
                Some(t) => self@.contains_key(id@) && t@ == self@[id@],
                None => !self@.contains_key(id@),
            },
    {
        let mut i: usize = 0;
        while i < self.entries.len()
            invariant
                i <= self.entries@.len(),
                self.wf(),
                forall|k: int| 0 <= k < i ==> self.entries@[k].0@ != id@,
            decreases self.entries@.len() - i,
        {
            if self.entries[i].0 == *id {
                proof {
                    lemma_key_at(self.entries@, i as int);
                }
                return Some(self.entries[i].1.clone());
            }
            i = i + 1;
        }
        proof {
            lemma_key_absent(self.entries@, id@);
        }
        None
    }

    /// Records the outcome of one remote fetch for the identifier and returns
    /// the resolved title: the fetched title, or the sentinel when the
    /// document has no title field.
    pub fn record_title(&mut self, id: &String, fetched: Option<String>) -> (r: String)
        requires
            old(self).wf(),
        ensures
            final(self).wf(),
            r@ == match fetched {
                Some(t) => t@,
                None => "UNKNOWN_TITLE"@,
            },
            final(self)@ == old(self)@.insert(id@, r@),
    {
        let title: String = match fetched {
            Some(t) => t,
            None => "UNKNOWN_TITLE".to_owned(),
        };
        let mut i: usize = 0;
        while i < self.entries.len()
            invariant
                i <= self.entries@.len(),
                self.wf(),
                self.entries@ == old(self).entries@,
                forall|k: int| 0 <= k < i ==> self.entries@[k].0@ != id@,
                title@ == match fetched {
                    Some(t) => t@,
                    None => "UNKNOWN_TITLE"@,
                },
            decreases self.entries@.len() - i,
        {
            if self.entries[i].0 == *id {
                let pair = (id.clone(), title.clone());
                proof {
                    lemma_map_update(self.entries@, i as int, pair);
                }
                self.entries.set(i, pair);
                assert(self.wf()) by {
                    assert(forall|k: int|
                        0 <= k < self.entries@.len() && k != i ==> self.entries@[k]
                            == old(self).entries@[k]);
                }
                return title;
            }
            i = i + 1;
        }
        proof {
            lemma_key_absent(self.entries@, id@);
        }
        let pair = (id.clone(), title.clone());
        self.entries.push(pair);
        proof {
            assert(self.entries@.drop_last() == old(self).entries@);
        }
        title
    }
}

} // verus!
