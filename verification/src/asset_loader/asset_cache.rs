use vstd::prelude::*;

verus! {

/// Whether no two entries share a path.
pub open spec fn distinct_paths<H>(s: Seq<(String, H)>) -> bool {
    forall|i: int, j: int| 0 <= i < j < s.len() ==> s[i].0@ != s[j].0@
}

/// The map from path to handle that a list of entries holds; a later entry
/// would win over an earlier one with the same path.
pub open spec fn entries_map<H>(s: Seq<(String, H)>) -> Map<Seq<char>, H>
    decreases s.len(),
{
    if s.len() == 0 {
        Map::empty()
    } else {
        entries_map(s.drop_last()).insert(s.last().0@, s.last().1)
    }
}

proof fn lemma_entries_map_absent<H>(s: Seq<(String, H)>, k: Seq<char>)
    requires
        forall|i: int| 0 <= i < s.len() ==> s[i].0@ != k,
    ensures
        !entries_map(s).contains_key(k),
    decreases s.len(),
{
    if s.len() > 0 {
        lemma_entries_map_absent(s.drop_last(), k);
    }
}

proof fn lemma_entries_map_index<H>(s: Seq<(String, H)>, i: int)
    requires
        distinct_paths(s),
        0 <= i < s.len(),
    ensures
        entries_map(s).contains_key(s[i].0@),
        entries_map(s)[s[i].0@] == s[i].1,
    decreases s.len(),
{
    if i < s.len() - 1 {
        lemma_entries_map_index(s.drop_last(), i);
    }
}

/// How a load of `path` leaves the cache: as it was on a hit; on a miss, with
/// one entry added for the path and nothing else changed.
pub open spec fn cache_load_post<H>(before: Map<Seq<char>, H>, path: Seq<char>, after: Map<Seq<char>, H>) -> bool {
    &&& after.contains_key(path)
    &&& before.contains_key(path) ==> after == before
    &&& !before.contains_key(path) ==> after == before.insert(path, after[path])
}

/// A load makes its path cached and leaves every other path as it was; a
/// second load of the same path is then a hit that leaves the cache unchanged.
pub proof fn lemma_load_is_memoized<H>(
    m0: Map<Seq<char>, H>,
    m1: Map<Seq<char>, H>,
    m2: Map<Seq<char>, H>,
    path: Seq<char>,
)
    requires
        cache_load_post(m0, path, m1),
        cache_load_post(m1, path, m2),
    ensures
        m1.contains_key(path),
        m2 == m1,
        forall|k: Seq<char>| k != path ==> (m1.contains_key(k) == m0.contains_key(k)
            && (m0.contains_key(k) ==> m1[k] == m0[k])),
{
}

/// A cache of loaded assets, keyed by the path they were loaded from. The
/// entries are kept in a list with no path twice: the specifications that
/// Verus gives the standard hash map hold for integer keys, not for strings.
pub struct AssetCache<H> {
    entries: Vec<(String, H)>,
}

impl<H> AssetCache<H> {
    #[verifier::type_invariant]
    spec fn paths_are_distinct(self) -> bool {
        distinct_paths(self.entries@)
    }

    /// The handle cached for each path.
    pub closed spec fn view(&self) -> Map<Seq<char>, H> {
        entries_map(self.entries@)
    }

    pub fn new() -> (c: Self)
        ensures
            c.view() == Map::<Seq<char>, H>::empty(),
    {
        AssetCache { entries: Vec::new() }
    }
}

impl<H: Clone> AssetCache<H> {
    /// Gives the handle cached for `path`; on a miss, loads it with `load`,
    /// keeps a clone of the loaded handle for the path, and gives the loaded one.
    /// On a hit the loader is given back untouched: being called once consumes
    /// it, so a loader that comes back was never called.
    pub fn cache_load<F: FnOnce(&str) -> H>(&mut self, path: &str, load: F) -> (r: (H, Option<F>))
        requires
            load.requires((path,)),
        ensures
            cache_load_post(old(self).view(), path@, final(self).view()),
            final(self).view().contains_key(path@),
            old(self).view().contains_key(path@) ==> final(self).view() == old(self).view(),
            !old(self).view().contains_key(path@) ==> final(self).view() == old(self).view().insert(path@, final(self).view()[path@]),
            old(self).view().contains_key(path@) ==> {
                &&& cloned(old(self).view()[path@], r.0)
                &&& r.1 == Some(load)
            },
            !old(self).view().contains_key(path@) ==> {
                &&& load.ensures((path,), r.0)
                &&& cloned(r.0, final(self).view()[path@])
                &&& r.1 is None
            },
    {
        proof {
            use_type_invariant(&*self);
        }
        let cache_path: String = path.to_owned();
        let mut i: usize = 0;
        while i < self.entries.len()
            invariant
                0 <= i <= self.entries.len(),
                self.entries@ == old(self).entries@,
                distinct_paths(self.entries@),
                cache_path@ == path@,
                forall|j: int| 0 <= j < i ==> self.entries@[j].0@ != path@,
            decreases self.entries.len() - i,
        {
            if self.entries[i].0 == cache_path {
                proof {
                    lemma_entries_map_index(self.entries@, i as int);
                }
                return (self.entries[i].1.clone(), Some(load));
            }
            i = i + 1;
        }
        proof {
            lemma_entries_map_absent(self.entries@, path@);
        }
        let handle: H = load(path);
        let stored: H = handle.clone();
        let mut entries: Vec<(String, H)> = Vec::new();
        std::mem::swap(&mut entries, &mut self.entries);
        let ghost before = entries@;
        entries.push((cache_path, stored));
        proof {
            assert(entries@.drop_last() =~= before);
        }
        self.entries = entries;
        (handle, None)
    }
}

} // verus!
