//! Environment resolution for the execution context.
//!
//! Entries of the form `KEY=VALUE` are split at the first `=`; entries
//! without one are ignored. The resolved environment is a map with
//! unique keys where the last entry for a key wins.

use vstd::prelude::*;
use vstd::string::{StrSliceExecFns, StringExecFns};

verus! {

/// `i` is the position of the first `=` in `s`.
pub open spec fn is_first_eq(s: Seq<char>, i: int) -> bool {
    &&& 0 <= i < s.len()
    &&& s[i] == '='
    &&& forall|j: int| 0 <= j < i ==> s[j] != '='
}

/// The entry contains an `=` and therefore parses to a key and a value.
pub open spec fn has_eq(s: Seq<char>) -> bool {
    exists|i: int| is_first_eq(s, i)
}

/// Position of the first `=` in `s` (meaningful only when `has_eq(s)`).
pub open spec fn first_eq(s: Seq<char>) -> int {
    choose|i: int| is_first_eq(s, i)
}

/// The key of an entry: everything before the first `=`.
pub open spec fn entry_key(s: Seq<char>) -> Seq<char> {
    s.take(first_eq(s))
}

/// The value of an entry: everything after the first `=`.
pub open spec fn entry_val(s: Seq<char>) -> Seq<char> {
    s.skip(first_eq(s) + 1)
}

/// The first `=` position is unique, so any witness pins `first_eq`.
pub proof fn lemma_first_eq_unique(s: Seq<char>, i: int)
    requires
        is_first_eq(s, i),
    ensures
        has_eq(s),
        first_eq(s) == i,
{
    assert(has_eq(s));
    let i0 = first_eq(s);
    assert(is_first_eq(s, i0));
    if i0 < i {
        assert(s[i0] != '=');
    } else if i < i0 {
        assert(s[i] != '=');
    }
}

/// Splits one `KEY=VALUE` entry at its first `=`; an entry without `=`
/// yields nothing.
pub fn parse_env_entry(s: &String) -> (r: Option<(String, String)>)
    ensures
        r is Some <==> has_eq(s@),
        r matches Some(kv) ==> kv.0@ == entry_key(s@) && kv.1@ == entry_val(s@),
{
    let st = s.as_str();
    let n = st.unicode_len();
    for i in 0..n
        invariant
            st@ == s@,
            n == s@.len(),
            forall|j: int| 0 <= j < i ==> s@[j] != '=',
    {
        if st.get_char(i) == '=' {
            proof {
                lemma_first_eq_unique(s@, i as int);
            }
            let k = st.substring_char(0, i);
            let v = st.substring_char(i + 1, n);
            return Some((String::from_str(k), String::from_str(v)));
        }
    }
    proof {
        if has_eq(s@) {
            let w = first_eq(s@);
            assert(is_first_eq(s@, w));
            assert(false);
        }
    }
    None
}

/// No two entries share a key.
pub open spec fn unique_keys(s: Seq<(String, String)>) -> bool {
    forall|i: int, j: int| 0 <= i < j < s.len() ==> (#[trigger] s[i]).0@ != (#[trigger] s[j]).0@
}

/// The map an association list denotes: entries are inserted in order,
/// so a later pair for the same key wins.
pub open spec fn entries_map(s: Seq<(String, String)>) -> Map<Seq<char>, Seq<char>>
    decreases s.len(),
{
    if s.len() == 0 {
        Map::empty()
    } else {
        entries_map(s.drop_last()).insert(s.last().0@, s.last().1@)
    }
}

pub proof fn lemma_entries_map_contains(s: Seq<(String, String)>, k: Seq<char>)
    ensures
        entries_map(s).dom().contains(k) <==> exists|i: int|
            0 <= i < s.len() && (#[trigger] s[i]).0@ == k,
    decreases s.len(),
{
    if s.len() > 0 {
        lemma_entries_map_contains(s.drop_last(), k);
        if s.last().0@ == k {
            assert(s[s.len() - 1].0@ == k);
        } else {
            assert(forall|i: int|
                0 <= i < s.len() - 1 ==> s.drop_last()[i] == (#[trigger] s[i]));
            if exists|i: int| 0 <= i < s.len() && (#[trigger] s[i]).0@ == k {
                let i = choose|i: int| 0 <= i < s.len() && (#[trigger] s[i]).0@ == k;
                assert(i < s.len() - 1);
                assert(s.drop_last()[i].0@ == k);
            }
        }
    }
}

pub proof fn lemma_entries_map_value(s: Seq<(String, String)>, i: int)
    requires
        unique_keys(s),
        0 <= i < s.len(),
    ensures
        entries_map(s).dom().contains(s[i].0@),
        entries_map(s)[s[i].0@] == s[i].1@,
    decreases s.len(),
{
    if i == s.len() - 1 {
    } else {
        assert(forall|j: int| 0 <= j < s.len() - 1 ==> s.drop_last()[j] == (#[trigger] s[j]));
        lemma_entries_map_value(s.drop_last(), i);
        assert(s[i].0@ != s.last().0@);
    }
}

pub proof fn lemma_entries_map_update(s: Seq<(String, String)>, i: int, kv: (String, String))
    requires
        unique_keys(s),
        0 <= i < s.len(),
        s[i].0@ == kv.0@,
    ensures
        unique_keys(s.update(i, kv)),
        entries_map(s.update(i, kv)) =~= entries_map(s).insert(kv.0@, kv.1@),
    decreases s.len(),
{
    let s2 = s.update(i, kv);
    assert(forall|j: int| 0 <= j < s.len() && j != i ==> s2[j] == (#[trigger] s[j]));
    if i == s.len() - 1 {
        assert(s2.drop_last() =~= s.drop_last());
    } else {
        assert(s2.drop_last() =~= s.drop_last().update(i, kv));
        assert(forall|j: int| 0 <= j < s.len() - 1 ==> s.drop_last()[j] == (#[trigger] s[j]));
        lemma_entries_map_update(s.drop_last(), i, kv);
        assert(s.last().0@ != kv.0@);
        assert(s2.last() == s.last());
    }
}

pub proof fn lemma_entries_map_len(s: Seq<(String, String)>)
    requires
        unique_keys(s),
    ensures
        entries_map(s).dom().finite(),
        entries_map(s).dom().len() == s.len(),
    decreases s.len(),
{
    if s.len() > 0 {
        assert(forall|j: int| 0 <= j < s.len() - 1 ==> s.drop_last()[j] == (#[trigger] s[j]));
        lemma_entries_map_len(s.drop_last());
        lemma_entries_map_contains(s.drop_last(), s.last().0@);
        assert(!entries_map(s.drop_last()).dom().contains(s.last().0@));
    }
}

/// The resolved environment: an association list with unique keys,
/// viewed as a map from key to value.
pub struct EnvMap {
    entries: Vec<(String, String)>,
}

impl View for EnvMap {
    type V = Map<Seq<char>, Seq<char>>;

    closed spec fn view(&self) -> Map<Seq<char>, Seq<char>> {
        entries_map(self.entries@)
    }
}

impl EnvMap {
    /// Keys are unique, so the list holds exactly one entry per
    /// resolved variable.
    pub closed spec fn wf(&self) -> bool {
        unique_keys(self.entries@)
    }

    pub fn new() -> (r: EnvMap)
        ensures
            r.wf(),
            r@ == Map::<Seq<char>, Seq<char>>::empty(),
    {
        EnvMap { entries: Vec::new() }
    }

    /// Sets `k` to `v`, replacing an earlier entry for the same key.
    pub fn set_var(&mut self, k: String, v: String)
        requires
            old(self).wf(),
        ensures
            final(self).wf(),
            final(self)@ == old(self)@.insert(k@, v@),
    {
        let n = self.entries.len();
        for i in 0..n
            invariant
                n == self.entries.len(),
                self.wf(),
                self.entries@ == old(self).entries@,
                forall|j: int| 0 <= j < i ==> (#[trigger] self.entries@[j]).0@ != k@,
        {
            if self.entries[i].0.eq(&k) {
                proof {
                    lemma_entries_map_update(self.entries@, i as int, (k, v));
                }
                self.entries.set(i, (k, v));
                return;
            }
        }
        proof {
            lemma_entries_map_contains(self.entries@, k@);
            assert(self.entries@.push((k, v)).drop_last() =~= self.entries@);
            assert(forall|j: int|
                0 <= j < self.entries@.len() ==> self.entries@.push((k, v))[j] == (
                #[trigger] self.entries@[j]));
        }
        self.entries.push((k, v));
    }

    /// Looks a variable up.
    pub fn get(&self, k: &String) -> (r: Option<&String>)
        requires
            self.wf(),
        ensures
            r is Some <==> self@.dom().contains(k@),
            r matches Some(v) ==> v@ == self@[k@],
    {
        let n = self.entries.len();
        for i in 0..n
            invariant
                n == self.entries.len(),
                self.wf(),
                forall|j: int| 0 <= j < i ==> (#[trigger] self.entries@[j]).0@ != k@,
        {
            if self.entries[i].0.eq(k) {
                proof {
                    lemma_entries_map_value(self.entries@, i as int);
                }
                return Some(&self.entries[i].1);
            }
        }
        proof {
            lemma_entries_map_contains(self.entries@, k@);
        }
        None
    }

    /// Number of resolved variables; equals the size of the map, since
    /// keys are unique.
    pub fn len(&self) -> (r: usize)
        requires
            self.wf(),
        ensures
            r == self@.dom().len(),
            self@.dom().finite(),
    {
        proof {
            lemma_entries_map_len(self.entries@);
        }
        self.entries.len()
    }

    /// The entry at `i`, for callers that hand the environment over in
    /// list form.
    pub fn entry_at(&self, i: usize) -> (r: (String, String))
        requires
            self.wf(),
            i < self@.dom().len(),
        ensures
            self@.dom().contains(r.0@),
            self@[r.0@] == r.1@,
    {
        proof {
            lemma_entries_map_len(self.entries@);
            lemma_entries_map_value(self.entries@, i as int);
        }
        let kv = &self.entries[i];
        (kv.0.clone(), kv.1.clone())
    }
}

/// The views of a list of entry strings.
pub open spec fn env_entry_views(es: Seq<String>) -> Seq<Seq<char>> {
    es.map_values(|e: String| e@)
}

/// The environment map a list of `KEY=VALUE` entries denotes: entries
/// are resolved in order, entries without `=` are ignored, and for a
/// duplicate key the last value wins.
pub open spec fn env_map_of(es: Seq<Seq<char>>) -> Map<Seq<char>, Seq<char>>
    decreases es.len(),
{
    if es.len() == 0 {
        Map::empty()
    } else {
        let m = env_map_of(es.drop_last());
        if has_eq(es.last()) {
            m.insert(entry_key(es.last()), entry_val(es.last()))
        } else {
            m
        }
    }
}

/// Parses a list of `KEY=VALUE` entries into the resolved environment.
pub fn parse_env(envs: &Vec<String>) -> (r: EnvMap)
    ensures
        r.wf(),
        r@ == env_map_of(env_entry_views(envs@)),
{
    let mut r = EnvMap::new();
    let n = envs.len();
    for i in 0..n
        invariant
            n == envs.len(),
            r.wf(),
            r@ == env_map_of(env_entry_views(envs@.take(i as int))),
    {
        let ghost prefix = env_entry_views(envs@.take(i as int));
        let ghost next = env_entry_views(envs@.take(i + 1));
        proof {
            assert(envs@.take(i + 1).drop_last() =~= envs@.take(i as int));
            assert(next.drop_last() =~= prefix);
            assert(next.last() == envs@[i as int]@);
        }
        match parse_env_entry(&envs[i]) {
            Some(kv) => {
                r.set_var(kv.0, kv.1);
            },
            None => {},
        }
    }
    proof {
        assert(envs@.take(n as int) =~= envs@);
    }
    r
}

/// Last write wins: when `j` indexes the last entry that parses to a
/// given key, the resolved environment holds that entry's value for the
/// key — even when earlier entries (duplicates) used the same key.
pub proof fn lemma_env_last_wins(es: Seq<Seq<char>>, j: int)
    requires
        0 <= j < es.len(),
        has_eq(es[j]),
        forall|l: int|
            j < l < es.len() && has_eq(#[trigger] es[l]) ==> entry_key(es[l]) != entry_key(es[j]),
    ensures
        env_map_of(es).dom().contains(entry_key(es[j])),
        env_map_of(es)[entry_key(es[j])] == entry_val(es[j]),
    decreases es.len(),
{
    if j == es.len() - 1 {
    } else {
        assert(forall|l: int| 0 <= l < es.len() - 1 ==> es.drop_last()[l] == (#[trigger] es[l]));
        lemma_env_last_wins(es.drop_last(), j);
    }
}

} // verus!
