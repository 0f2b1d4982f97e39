//! Declarative resolution of the namespace set.
//!
//! Each namespace type in the Linux block maps to "create new" (no path
//! given) or "join existing" (an absolute path to join); a type that is
//! not listed is inherited. A malformed entry — a join path that is not
//! absolute — is a fatal error before any kernel call is made, so no
//! partial namespace state is ever attempted from invalid input.

use vstd::prelude::*;

use crate::error::NamespaceError;
use crate::paths::is_absolute;

verus! {

/// The namespace kinds a container can create or join.
#[derive(Debug, Clone, Copy, PartialEq, Eq, Hash, Structural)]
pub enum NamespaceType {
    Mount,
    Uts,
    Ipc,
    User,
    Pid,
    Network,
    Cgroup,
    Time,
}

/// One namespace entry of the Linux block: join the namespace at
/// `path`, or create a new one when no path is given.
#[derive(Debug)]
pub struct LinuxNamespace {
    pub typ: NamespaceType,
    pub path: Option<String>,
}

/// The view of an entry's optional join path.
pub open spec fn path_view(p: Option<String>) -> Option<Seq<char>> {
    match p {
        Some(s) => Some(s@),
        None => None,
    }
}

/// A well-formed entry either creates a new namespace or joins one at
/// an absolute path.
pub open spec fn ns_entry_valid(n: LinuxNamespace) -> bool {
    match n.path {
        Some(p) => is_absolute(p@),
        None => true,
    }
}

/// Every entry in the list is well formed.
pub open spec fn all_ns_valid(s: Seq<LinuxNamespace>) -> bool {
    forall|i: int| 0 <= i < s.len() ==> ns_entry_valid(#[trigger] s[i])
}

/// The resolved set a list of entries denotes: entries are resolved in
/// order, so a later entry for the same type wins.
pub open spec fn ns_map_of(s: Seq<LinuxNamespace>) -> Map<NamespaceType, Option<Seq<char>>>
    decreases s.len(),
{
    if s.len() == 0 {
        Map::empty()
    } else {
        ns_map_of(s.drop_last()).insert(s.last().typ, path_view(s.last().path))
    }
}

/// No two resolved pairs share a namespace type.
pub open spec fn unique_types(s: Seq<(NamespaceType, Option<String>)>) -> bool {
    forall|i: int, j: int| 0 <= i < j < s.len() ==> (#[trigger] s[i]).0 != (#[trigger] s[j]).0
}

/// The map a list of resolved pairs denotes.
pub open spec fn pairs_map(s: Seq<(NamespaceType, Option<String>)>) -> Map<
    NamespaceType,
    Option<Seq<char>>,
>
    decreases s.len(),
{
    if s.len() == 0 {
        Map::empty()
    } else {
        pairs_map(s.drop_last()).insert(s.last().0, path_view(s.last().1))
    }
}

pub proof fn lemma_pairs_map_contains(s: Seq<(NamespaceType, Option<String>)>, t: NamespaceType)
    ensures
        pairs_map(s).dom().contains(t) <==> exists|i: int|
            0 <= i < s.len() && (#[trigger] s[i]).0 == t,
    decreases s.len(),
{
    if s.len() > 0 {
        lemma_pairs_map_contains(s.drop_last(), t);
        if s.last().0 == t {
            assert(s[s.len() - 1].0 == t);
        } else {
            assert(forall|i: int| 0 <= i < s.len() - 1 ==> s.drop_last()[i] == (#[trigger] s[i]));
            if exists|i: int| 0 <= i < s.len() && (#[trigger] s[i]).0 == t {
                let i = choose|i: int| 0 <= i < s.len() && (#[trigger] s[i]).0 == t;
                assert(i < s.len() - 1);
                assert(s.drop_last()[i].0 == t);
            }
        }
    }
}

pub proof fn lemma_pairs_map_value(s: Seq<(NamespaceType, Option<String>)>, i: int)
    requires
        unique_types(s),
        0 <= i < s.len(),
    ensures
        pairs_map(s).dom().contains(s[i].0),
        pairs_map(s)[s[i].0] == path_view(s[i].1),
    decreases s.len(),
{
    if i == s.len() - 1 {
    } else {
        assert(forall|j: int| 0 <= j < s.len() - 1 ==> s.drop_last()[j] == (#[trigger] s[j]));
        lemma_pairs_map_value(s.drop_last(), i);
        assert(s[i].0 != s.last().0);
    }
}

pub proof fn lemma_pairs_map_update(
    s: Seq<(NamespaceType, Option<String>)>,
    i: int,
    kv: (NamespaceType, Option<String>),
)
    requires
        unique_types(s),
        0 <= i < s.len(),
        s[i].0 == kv.0,
    ensures
        unique_types(s.update(i, kv)),
        pairs_map(s.update(i, kv)) =~= pairs_map(s).insert(kv.0, path_view(kv.1)),
    decreases s.len(),
{
    let s2 = s.update(i, kv);
    assert(forall|j: int| 0 <= j < s.len() && j != i ==> s2[j] == (#[trigger] s[j]));
    if i == s.len() - 1 {
        assert(s2.drop_last() =~= s.drop_last());
    } else {
        assert(s2.drop_last() =~= s.drop_last().update(i, kv));
        assert(forall|j: int| 0 <= j < s.len() - 1 ==> s.drop_last()[j] == (#[trigger] s[j]));
        lemma_pairs_map_update(s.drop_last(), i, kv);
        assert(s.last().0 != kv.0);
        assert(s2.last() == s.last());
    }
}

/// The resolved namespace set: at most one source per namespace type; a
/// type outside the map is inherited from the caller.
pub struct Namespaces {
    entries: Vec<(NamespaceType, Option<String>)>,
}

impl View for Namespaces {
    type V = Map<NamespaceType, Option<Seq<char>>>;

    closed spec fn view(&self) -> Map<NamespaceType, Option<Seq<char>>> {
        pairs_map(self.entries@)
    }
}

impl Namespaces {
    pub closed spec fn wf(&self) -> bool {
        unique_types(self.entries@)
    }

    fn set_entry(&mut self, t: NamespaceType, p: Option<String>)
        requires
            old(self).wf(),
        ensures
            final(self).wf(),
            final(self)@ == old(self)@.insert(t, path_view(p)),
    {
        let n = self.entries.len();
        for i in 0..n
            invariant
                n == self.entries.len(),
                self.wf(),
                self.entries@ == old(self).entries@,
                forall|j: int| 0 <= j < i ==> (#[trigger] self.entries@[j]).0 != t,
        {
            if self.entries[i].0 == t {
                proof {
                    lemma_pairs_map_update(self.entries@, i as int, (t, p));
                }
                self.entries.set(i, (t, p));
                return;
            }
        }
        proof {
            lemma_pairs_map_contains(self.entries@, t);
            assert(self.entries@.push((t, p)).drop_last() =~= self.entries@);
            assert(forall|j: int|
                0 <= j < self.entries@.len() ==> self.entries@.push((t, p))[j] == (
                #[trigger] self.entries@[j]));
        }
        self.entries.push((t, p));
    }

    /// Resolves the declared namespace list. An absent list resolves to
    /// the empty set (everything inherited); a malformed entry is
    /// rejected before any kernel call.
    pub fn try_from(nss: Option<&Vec<LinuxNamespace>>) -> (r: Result<Namespaces, NamespaceError>)
        ensures
            nss is None ==> r is Ok,
            nss matches Some(v) ==> (r is Ok <==> all_ns_valid(v@)),
            r is Err ==> r == Err::<Namespaces, NamespaceError>(NamespaceError::MalformedPath),
            r matches Ok(ns) ==> ns.wf(),
            r matches Ok(ns) ==> (match nss {
                Some(v) => ns@ == ns_map_of(v@),
                None => ns@ == Map::<NamespaceType, Option<Seq<char>>>::empty(),
            }),
    {
        let mut ns = Namespaces { entries: Vec::new() };
        let v = match nss {
            None => {
                return Ok(ns);
            },
            Some(v) => v,
        };
        let n = v.len();
        for i in 0..n
            invariant
                nss == Some(v),
                n == v@.len(),
                ns.wf(),
                ns@ == ns_map_of(v@.take(i as int)),
                forall|j: int| 0 <= j < i ==> ns_entry_valid(#[trigger] v@[j]),
        {
            proof {
                assert(v@.take(i + 1).drop_last() =~= v@.take(i as int));
                assert(v@.take(i + 1).last() == v@[i as int]);
            }
            let entry = &v[i];
            let p: Option<String> = match &entry.path {
                Some(p) => {
                    if !crate::paths::check_absolute(p) {
                        assert(!ns_entry_valid(v@[i as int]));
                        return Err(NamespaceError::MalformedPath);
                    }
                    Some(p.clone())
                },
                None => None,
            };
            proof {
                assert(path_view(p) == path_view(v@[i as int].path));
            }
            ns.set_entry(entry.typ, p);
        }
        proof {
            assert(v@.take(n as int) =~= v@);
        }
        Ok(ns)
    }

    /// Whether the type is declared at all; an undeclared type is
    /// inherited.
    pub fn is_declared(&self, t: NamespaceType) -> (r: bool)
        requires
            self.wf(),
        ensures
            r == self@.dom().contains(t),
    {
        let n = self.entries.len();
        for i in 0..n
            invariant
                n == self.entries.len(),
                self.wf(),
                forall|j: int| 0 <= j < i ==> (#[trigger] self.entries@[j]).0 != t,
        {
            if self.entries[i].0 == t {
                proof {
                    lemma_pairs_map_value(self.entries@, i as int);
                }
                return true;
            }
        }
        proof {
            lemma_pairs_map_contains(self.entries@, t);
        }
        false
    }

    /// The resolved source for a declared type: the join path, or
    /// nothing when a new namespace is to be created.
    pub fn get(&self, t: NamespaceType) -> (r: Option<Option<String>>)
        requires
            self.wf(),
        ensures
            r is Some <==> self@.dom().contains(t),
            r matches Some(p) ==> path_view(p) == self@[t],
    {
        let n = self.entries.len();
        for i in 0..n
            invariant
                n == self.entries.len(),
                self.wf(),
                forall|j: int| 0 <= j < i ==> (#[trigger] self.entries@[j]).0 != t,
        {
            if self.entries[i].0 == t {
                proof {
                    lemma_pairs_map_value(self.entries@, i as int);
                }
                let p = match &self.entries[i].1 {
                    Some(s) => Some(s.clone()),
                    None => None,
                };
                return Some(p);
            }
        }
        proof {
            lemma_pairs_map_contains(self.entries@, t);
        }
        None
    }
}

} // verus!
