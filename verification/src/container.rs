//! Container records and the lifecycle state machine.
//!
//! A record is created at `create` time, mutated at each transition by
//! the managing process alone, and removed at `delete` time; `deleted`
//! is not a stored state but the absence of a record. The legality of
//! every operation against every state is given by the `*_spec`
//! transition functions, and each executable operation is proved to
//! implement its transition function exactly.

use vstd::prelude::*;

verus! {

/// The externally observable lifecycle states. `Creating` is transient:
/// the table operations never store it, but queries and transitions are
/// defined over it.
#[derive(Debug, Clone, Copy, PartialEq, Eq, Hash, Structural)]
pub enum ContainerStatus {
    Creating,
    Created,
    Running,
    Stopped,
}

/// The lower-case name a state query reports for a status.
pub open spec fn status_name(s: ContainerStatus) -> Seq<char> {
    match s {
        ContainerStatus::Creating => "creating"@,
        ContainerStatus::Created => "created"@,
        ContainerStatus::Running => "running"@,
        ContainerStatus::Stopped => "stopped"@,
    }
}

impl ContainerStatus {
    /// The lower-case name of the status, as persisted and queried.
    pub fn name(&self) -> (r: String)
        ensures
            r@ == status_name(*self),
    {
        match self {
            ContainerStatus::Creating => "creating".to_owned(),
            ContainerStatus::Created => "created".to_owned(),
            ContainerStatus::Running => "running".to_owned(),
            ContainerStatus::Stopped => "stopped".to_owned(),
        }
    }
}

/// Why a lifecycle operation was refused.
#[derive(Debug, Clone, Copy, PartialEq, Eq, Structural)]
pub enum LifecycleError {
    /// No record exists for the identifier.
    NotFound,
    /// A record already exists for the identifier.
    AlreadyExists,
    /// The identifier was empty.
    EmptyIdentifier,
    /// The operation needs a freshly created container.
    NotCreated,
    /// The process already finished; there is nothing left to signal.
    ProcessAlreadyFinished,
    /// A running container must be stopped (or the delete forced)
    /// before its record can be removed.
    MustStopFirst,
    /// Creation has not completed yet.
    StillCreating,
}

/// One container record, owned by the managing process and persisted as
/// the single source of truth for state queries.
#[derive(Debug, Clone)]
pub struct Container {
    /// Unique identifier, immutable once created.
    pub id: String,
    pub status: ContainerStatus,
    /// Process id of the init process, once known.
    pub pid: Option<i32>,
    /// Path of the bundle the container was created from.
    pub bundle: String,
}

/// Mathematical image of one record.
pub struct ContainerView {
    pub id: Seq<char>,
    pub status: ContainerStatus,
    pub pid: Option<int>,
    pub bundle: Seq<char>,
}

/// The pid field widened to the mathematical integers.
pub open spec fn pid_view(p: Option<i32>) -> Option<int> {
    match p {
        Some(x) => Some(x as int),
        None => None,
    }
}

impl View for Container {
    type V = ContainerView;

    open spec fn view(&self) -> ContainerView {
        ContainerView {
            id: self.id@,
            status: self.status,
            pid: pid_view(self.pid),
            bundle: self.bundle@,
        }
    }
}

/// The persisted table as a map from identifier to record.
pub type TableView = Map<Seq<char>, ContainerView>;

/// `create`: succeeds only on an absent identifier and stores the new
/// record in state `Created` with the init process id; a second call
/// for the same identifier fails with an already-exists condition.
pub open spec fn create_spec(m: TableView, id: Seq<char>, bundle: Seq<char>, pid: int) -> (
    Result<(), LifecycleError>,
    TableView,
) {
    if m.dom().contains(id) {
        (Err(LifecycleError::AlreadyExists), m)
    } else {
        (
            Ok(()),
            m.insert(
                id,
                ContainerView {
                    id: id,
                    status: ContainerStatus::Created,
                    pid: Some(pid),
                    bundle: bundle,
                },
            ),
        )
    }
}

/// The record `cv` with its status replaced.
pub open spec fn with_status(cv: ContainerView, s: ContainerStatus) -> ContainerView {
    ContainerView { id: cv.id, status: s, pid: cv.pid, bundle: cv.bundle }
}

/// `start`: legal only from `Created`, and moves the record to
/// `Running`.
pub open spec fn start_spec(m: TableView, id: Seq<char>) -> (Result<(), LifecycleError>, TableView) {
    if !m.dom().contains(id) {
        (Err(LifecycleError::NotFound), m)
    } else if m[id].status == ContainerStatus::Created {
        (Ok(()), m.insert(id, with_status(m[id], ContainerStatus::Running)))
    } else {
        (Err(LifecycleError::NotCreated), m)
    }
}

/// `kill`: an empty identifier always fails, an absent identifier
/// always fails, a container whose process already finished rejects the
/// signal, and a created or running container moves to `Stopped`. The
/// outcome does not depend on which signal is sent.
pub open spec fn kill_spec(m: TableView, id: Seq<char>) -> (Result<(), LifecycleError>, TableView) {
    if id.len() == 0 {
        (Err(LifecycleError::EmptyIdentifier), m)
    } else if !m.dom().contains(id) {
        (Err(LifecycleError::NotFound), m)
    } else if m[id].status == ContainerStatus::Created || m[id].status == ContainerStatus::Running {
        (Ok(()), m.insert(id, with_status(m[id], ContainerStatus::Stopped)))
    } else if m[id].status == ContainerStatus::Stopped {
        (Err(LifecycleError::ProcessAlreadyFinished), m)
    } else {
        (Err(LifecycleError::StillCreating), m)
    }
}

/// The managing process observed that the container's process exited on
/// its own: a created or running record moves to `Stopped`; anything
/// else is left as it is.
pub open spec fn exited_spec(m: TableView, id: Seq<char>) -> TableView {
    if m.dom().contains(id) && (m[id].status == ContainerStatus::Created || m[id].status
        == ContainerStatus::Running) {
        m.insert(id, with_status(m[id], ContainerStatus::Stopped))
    } else {
        m
    }
}

/// `delete`: fails on an absent identifier without creating anything;
/// removes a created or stopped record; refuses a running container
/// without side effects unless the delete is forced, in which case the
/// process group is killed before the record is removed.
pub open spec fn delete_spec(m: TableView, id: Seq<char>, force: bool) -> (
    Result<(), LifecycleError>,
    TableView,
) {
    if !m.dom().contains(id) {
        (Err(LifecycleError::NotFound), m)
    } else if m[id].status == ContainerStatus::Created || m[id].status
        == ContainerStatus::Stopped {
        (Ok(()), m.remove(id))
    } else if m[id].status == ContainerStatus::Running {
        if force {
            (Ok(()), m.remove(id))
        } else {
            (Err(LifecycleError::MustStopFirst), m)
        }
    } else {
        (Err(LifecycleError::StillCreating), m)
    }
}

/// A state query returns the record as it stands, and never mutates.
pub open spec fn state_spec(m: TableView, id: Seq<char>) -> Result<ContainerView, LifecycleError> {
    if m.dom().contains(id) {
        Ok(m[id])
    } else {
        Err(LifecycleError::NotFound)
    }
}

/// What a state query reports: identifier, lower-case status name,
/// init process id and bundle path, read as one consistent snapshot.
#[derive(Debug, Clone, PartialEq, Eq)]
pub struct StateReport {
    pub id: String,
    pub status: String,
    pub pid: Option<i32>,
    pub bundle: String,
}

/// No two records share an identifier.
pub open spec fn unique_ids(s: Seq<Container>) -> bool {
    forall|i: int, j: int| 0 <= i < j < s.len() ==> (#[trigger] s[i]).id@ != (#[trigger] s[j]).id@
}

/// The map a list of records denotes.
pub open spec fn records_map(s: Seq<Container>) -> TableView
    decreases s.len(),
{
    if s.len() == 0 {
        Map::empty()
    } else {
        records_map(s.drop_last()).insert(s.last().id@, s.last()@)
    }
}

pub proof fn lemma_records_contains(s: Seq<Container>, k: Seq<char>)
    ensures
        records_map(s).dom().contains(k) <==> exists|i: int|
            0 <= i < s.len() && (#[trigger] s[i]).id@ == k,
    decreases s.len(),
{
    if s.len() > 0 {
        lemma_records_contains(s.drop_last(), k);
        if s.last().id@ == k {
            assert(s[s.len() - 1].id@ == k);
        } else {
            assert(forall|i: int| 0 <= i < s.len() - 1 ==> s.drop_last()[i] == (#[trigger] s[i]));
            if exists|i: int| 0 <= i < s.len() && (#[trigger] s[i]).id@ == k {
                let i = choose|i: int| 0 <= i < s.len() && (#[trigger] s[i]).id@ == k;
                assert(i < s.len() - 1);
                assert(s.drop_last()[i].id@ == k);
            }
        }
    }
}

pub proof fn lemma_records_value(s: Seq<Container>, i: int)
    requires
        unique_ids(s),
        0 <= i < s.len(),
    ensures
        records_map(s).dom().contains(s[i].id@),
        records_map(s)[s[i].id@] == s[i]@,
    decreases s.len(),
{
    if i == s.len() - 1 {
    } else {
        assert(forall|j: int| 0 <= j < s.len() - 1 ==> s.drop_last()[j] == (#[trigger] s[j]));
        lemma_records_value(s.drop_last(), i);
        assert(s[i].id@ != s.last().id@);
    }
}

pub proof fn lemma_records_update(s: Seq<Container>, i: int, c: Container)
    requires
        unique_ids(s),
        0 <= i < s.len(),
        s[i].id@ == c.id@,
    ensures
        unique_ids(s.update(i, c)),
        records_map(s.update(i, c)) =~= records_map(s).insert(c.id@, c@),
    decreases s.len(),
{
    let s2 = s.update(i, c);
    assert(forall|j: int| 0 <= j < s.len() && j != i ==> s2[j] == (#[trigger] s[j]));
    if i == s.len() - 1 {
        assert(s2.drop_last() =~= s.drop_last());
    } else {
        assert(s2.drop_last() =~= s.drop_last().update(i, c));
        assert(forall|j: int| 0 <= j < s.len() - 1 ==> s.drop_last()[j] == (#[trigger] s[j]));
        lemma_records_update(s.drop_last(), i, c);
        assert(s.last().id@ != c.id@);
        assert(s2.last() == s.last());
    }
}

pub proof fn lemma_records_remove(s: Seq<Container>, i: int)
    requires
        unique_ids(s),
        0 <= i < s.len(),
    ensures
        unique_ids(s.remove(i)),
        records_map(s.remove(i)) =~= records_map(s).remove(s[i].id@),
    decreases s.len(),
{
    let s2 = s.remove(i);
    s.remove_ensures(i);
    if i == s.len() - 1 {
        assert(s2 =~= s.drop_last());
        lemma_records_contains(s.drop_last(), s.last().id@);
        assert(forall|j: int| 0 <= j < s.len() - 1 ==> s.drop_last()[j] == (#[trigger] s[j]));
        assert(!records_map(s.drop_last()).dom().contains(s.last().id@));
        assert(records_map(s.drop_last()) =~= records_map(s).remove(s[i].id@));
    } else {
        assert(s2.drop_last() =~= s.drop_last().remove(i));
        assert(forall|j: int| 0 <= j < s.len() - 1 ==> s.drop_last()[j] == (#[trigger] s[j]));
        lemma_records_remove(s.drop_last(), i);
        assert(s2.last() == s.last());
        assert(s[i].id@ != s.last().id@);
    }
}

pub proof fn lemma_records_len(s: Seq<Container>)
    requires
        unique_ids(s),
    ensures
        records_map(s).dom().finite(),
        records_map(s).dom().len() == s.len(),
    decreases s.len(),
{
    if s.len() > 0 {
        assert(forall|j: int| 0 <= j < s.len() - 1 ==> s.drop_last()[j] == (#[trigger] s[j]));
        lemma_records_len(s.drop_last());
        lemma_records_contains(s.drop_last(), s.last().id@);
        assert(!records_map(s.drop_last()).dom().contains(s.last().id@));
    }
}

/// The persisted container table, keyed by identifier.
pub struct ContainerTable {
    records: Vec<Container>,
}

impl View for ContainerTable {
    type V = TableView;

    closed spec fn view(&self) -> TableView {
        records_map(self.records@)
    }
}

impl ContainerTable {
    /// Identifiers are unique, so each container has exactly one
    /// record.
    pub closed spec fn wf(&self) -> bool {
        unique_ids(self.records@)
    }

    pub fn new() -> (r: ContainerTable)
        ensures
            r.wf(),
            r@ == Map::<Seq<char>, ContainerView>::empty(),
    {
        ContainerTable { records: Vec::new() }
    }

    fn find_index(&self, id: &String) -> (r: Option<usize>)
        requires
            self.wf(),
        ensures
            r matches Some(i) ==> i < self.records@.len() && self.records@[i as int].id@ == id@
                && self@.dom().contains(id@) && self@[id@] == self.records@[i as int]@,
            r is None ==> !self@.dom().contains(id@),
    {
        let n = self.records.len();
        for i in 0..n
            invariant
                n == self.records.len(),
                self.wf(),
                forall|j: int| 0 <= j < i ==> (#[trigger] self.records@[j]).id@ != id@,
        {
            if self.records[i].id.eq(id) {
                proof {
                    lemma_records_value(self.records@, i as int);
                }
                return Some(i);
            }
        }
        proof {
            lemma_records_contains(self.records@, id@);
        }
        None
    }

    /// Creates a record for `id` in state `Created`, recording the init
    /// process id; fails with an already-exists condition when a record
    /// for `id` is present, leaving the table unchanged.
    pub fn create(&mut self, id: &String, bundle: &String, pid: i32) -> (r: Result<
        (),
        LifecycleError,
    >)
        requires
            old(self).wf(),
        ensures
            final(self).wf(),
            (r, final(self)@) == create_spec(old(self)@, id@, bundle@, pid as int),
    {
        match self.find_index(id) {
            Some(_) => Err(LifecycleError::AlreadyExists),
            None => {
                let c = Container {
                    id: id.clone(),
                    status: ContainerStatus::Created,
                    pid: Some(pid),
                    bundle: bundle.clone(),
                };
                proof {
                    lemma_records_contains(self.records@, id@);
                    assert(self.records@.push(c).drop_last() =~= self.records@);
                    assert(forall|j: int|
                        0 <= j < self.records@.len() ==> self.records@.push(c)[j] == (
                        #[trigger] self.records@[j]));
                }
                self.records.push(c);
                Ok(())
            },
        }
    }

    /// Starts a created container; any other state is refused without
    /// side effects.
    pub fn start(&mut self, id: &String) -> (r: Result<(), LifecycleError>)
        requires
            old(self).wf(),
        ensures
            final(self).wf(),
            (r, final(self)@) == start_spec(old(self)@, id@),
    {
        match self.find_index(id) {
            None => Err(LifecycleError::NotFound),
            Some(i) => {
                if matches!(self.records[i].status, ContainerStatus::Created) {
                    let mut c = self.records[i].clone_record();
                    c.status = ContainerStatus::Running;
                    proof {
                        lemma_records_update(self.records@, i as int, c);
                    }
                    self.records.set(i, c);
                    Ok(())
                } else {
                    Err(LifecycleError::NotCreated)
                }
            },
        }
    }

    /// Sends `signal` to the container's process. The outcome depends
    /// only on the record's state, never on the signal value.
    #[allow(unused_variables)]
    pub fn kill(&mut self, id: &String, signal: i32) -> (r: Result<(), LifecycleError>)
        requires
            old(self).wf(),
        ensures
            final(self).wf(),
            (r, final(self)@) == kill_spec(old(self)@, id@),
    {
        if id.as_str().unicode_len() == 0 {
            return Err(LifecycleError::EmptyIdentifier);
        }
        match self.find_index(id) {
            None => Err(LifecycleError::NotFound),
            Some(i) => {
                match self.records[i].status {
                    ContainerStatus::Created | ContainerStatus::Running => {
                        let mut c = self.records[i].clone_record();
                        c.status = ContainerStatus::Stopped;
                        proof {
                            lemma_records_update(self.records@, i as int, c);
                        }
                        self.records.set(i, c);
                        Ok(())
                    },
                    ContainerStatus::Stopped => Err(LifecycleError::ProcessAlreadyFinished),
                    ContainerStatus::Creating => Err(LifecycleError::StillCreating),
                }
            },
        }
    }

    /// Records that the container's process exited on its own.
    pub fn process_exited(&mut self, id: &String)
        requires
            old(self).wf(),
        ensures
            final(self).wf(),
            final(self)@ == exited_spec(old(self)@, id@),
    {
        match self.find_index(id) {
            None => {},
            Some(i) => {
                match self.records[i].status {
                    ContainerStatus::Created | ContainerStatus::Running => {
                        let mut c = self.records[i].clone_record();
                        c.status = ContainerStatus::Stopped;
                        proof {
                            lemma_records_update(self.records@, i as int, c);
                        }
                        self.records.set(i, c);
                    },
                    _ => {},
                }
            },
        }
    }

    /// Removes the record of a created or stopped container. A running
    /// container is refused without side effects unless `force` is set;
    /// the forced path kills the process group first and removes the
    /// record only after.
    pub fn delete(&mut self, id: &String, force: bool) -> (r: Result<(), LifecycleError>)
        requires
            old(self).wf(),
        ensures
            final(self).wf(),
            (r, final(self)@) == delete_spec(old(self)@, id@, force),
    {
        match self.find_index(id) {
            None => Err(LifecycleError::NotFound),
            Some(i) => {
                match self.records[i].status {
                    ContainerStatus::Created | ContainerStatus::Stopped => {
                        proof {
                            lemma_records_remove(self.records@, i as int);
                        }
                        self.records.remove(i);
                        Ok(())
                    },
                    ContainerStatus::Running => {
                        if force {
                            // Kill first: the record must never disappear
                            // while the process group still runs.
                            let mut c = self.records[i].clone_record();
                            c.status = ContainerStatus::Stopped;
                            proof {
                                lemma_records_update(self.records@, i as int, c);
                                lemma_records_remove(self.records@.update(i as int, c), i as int);
                            }
                            self.records.set(i, c);
                            self.records.remove(i);
                            proof {
                                assert(self@ =~= old(self)@.remove(id@));
                            }
                            Ok(())
                        } else {
                            Err(LifecycleError::MustStopFirst)
                        }
                    },
                    ContainerStatus::Creating => Err(LifecycleError::StillCreating),
                }
            },
        }
    }

    /// Queries one record; reads never mutate, and the report is one
    /// consistent snapshot of state and pid.
    pub fn state(&self, id: &String) -> (r: Result<StateReport, LifecycleError>)
        requires
            self.wf(),
        ensures
            state_spec(self@, id@) matches Ok(cv) ==> r matches Ok(rep) && rep.id@ == cv.id
                && rep.status@ == status_name(cv.status) && pid_view(rep.pid) == cv.pid
                && rep.bundle@ == cv.bundle,
            state_spec(self@, id@) is Err ==> r == Err::<StateReport, LifecycleError>(
                LifecycleError::NotFound,
            ),
    {
        match self.find_index(id) {
            None => Err(LifecycleError::NotFound),
            Some(i) => {
                let c = &self.records[i];
                Ok(
                    StateReport {
                        id: c.id.clone(),
                        status: c.status.name(),
                        pid: c.pid,
                        bundle: c.bundle.clone(),
                    },
                )
            },
        }
    }

    /// Number of records in the table.
    pub fn count(&self) -> (r: usize)
        requires
            self.wf(),
        ensures
            r == self@.dom().len(),
            self@.dom().finite(),
    {
        proof {
            lemma_records_len(self.records@);
        }
        self.records.len()
    }
}

/// `delete` on a non-existent identifier always fails, and never
/// creates a record as a side effect.
pub proof fn lemma_delete_absent(m: TableView, id: Seq<char>, force: bool)
    requires
        !m.dom().contains(id),
    ensures
        delete_spec(m, id, force) == (Err::<(), LifecycleError>(LifecycleError::NotFound), m),
{
}

/// `delete` immediately after `create` succeeds and leaves no persisted
/// record: the table is exactly what it was before the `create`.
pub proof fn lemma_create_then_delete(m: TableView, id: Seq<char>, bundle: Seq<char>, pid: int)
    requires
        !m.dom().contains(id),
    ensures
        ({
            let (r1, m1) = create_spec(m, id, bundle, pid);
            let (r2, m2) = delete_spec(m1, id, false);
            r1 is Ok && r2 is Ok && !m2.dom().contains(id) && m2 == m
        }),
{
    let (r1, m1) = create_spec(m, id, bundle, pid);
    let (r2, m2) = delete_spec(m1, id, false);
    assert(m2 =~= m);
}

/// A second `create` for an identifier that was created fails with an
/// already-exists condition, and forks nothing: the table is unchanged.
pub proof fn lemma_create_twice(
    m: TableView,
    id: Seq<char>,
    bundle1: Seq<char>,
    pid1: int,
    bundle2: Seq<char>,
    pid2: int,
)
    ensures
        ({
            let (r1, m1) = create_spec(m, id, bundle1, pid1);
            r1 is Ok ==> create_spec(m1, id, bundle2, pid2) == (
                Err::<(), LifecycleError>(LifecycleError::AlreadyExists),
                m1,
            )
        }),
{
}

/// `delete` while the container runs fails without altering the record;
/// once `kill` has moved it to `Stopped`, a subsequent `delete`
/// succeeds and removes the record.
pub proof fn lemma_delete_running_then_kill(m: TableView, id: Seq<char>)
    requires
        m.dom().contains(id),
        m[id].status == ContainerStatus::Running,
        id.len() > 0,
    ensures
        delete_spec(m, id, false) == (Err::<(), LifecycleError>(LifecycleError::MustStopFirst), m),
        ({
            let (rk, mk) = kill_spec(m, id);
            rk is Ok && mk.dom().contains(id) && mk[id].status == ContainerStatus::Stopped
                && delete_spec(mk, id, false) == (Ok::<(), LifecycleError>(()), mk.remove(id))
                && !mk.remove(id).dom().contains(id)
        }),
{
}

/// The full life of a container: `create` then `start` then `kill`
/// then `delete` each succeed in turn, walk the record through
/// `Created`, `Running` and `Stopped`, and leave the table exactly as
/// it was before the container existed.
pub proof fn lemma_full_lifecycle(m: TableView, id: Seq<char>, bundle: Seq<char>, pid: int)
    requires
        !m.dom().contains(id),
        id.len() > 0,
    ensures
        ({
            let (r1, m1) = create_spec(m, id, bundle, pid);
            let (r2, m2) = start_spec(m1, id);
            let (r3, m3) = kill_spec(m2, id);
            let (r4, m4) = delete_spec(m3, id, false);
            r1 is Ok && m1[id].status == ContainerStatus::Created && r2 is Ok && m2[id].status
                == ContainerStatus::Running && r3 is Ok && m3[id].status
                == ContainerStatus::Stopped && r4 is Ok && m4 == m
        }),
{
    let (r1, m1) = create_spec(m, id, bundle, pid);
    let (r2, m2) = start_spec(m1, id);
    let (r3, m3) = kill_spec(m2, id);
    let (r4, m4) = delete_spec(m3, id, false);
    assert(m4 =~= m);
}

/// `kill` with an empty identifier always fails; `kill` on a
/// non-existent container always fails. Neither touches the table.
pub proof fn lemma_kill_invalid_target(m: TableView, id: Seq<char>)
    ensures
        id.len() == 0 ==> kill_spec(m, id) == (
            Err::<(), LifecycleError>(LifecycleError::EmptyIdentifier),
            m,
        ),
        id.len() > 0 && !m.dom().contains(id) ==> kill_spec(m, id) == (
            Err::<(), LifecycleError>(LifecycleError::NotFound),
            m,
        ),
{
}

/// A container whose process exits on its own becomes `Stopped`; a
/// subsequent `kill` is rejected — the process already finished — and
/// leaves the table as it is, while `delete` succeeds and removes the
/// record.
pub proof fn lemma_natural_exit(m: TableView, id: Seq<char>)
    requires
        m.dom().contains(id),
        m[id].status == ContainerStatus::Running,
    ensures
        ({
            let m1 = exited_spec(m, id);
            m1[id].status == ContainerStatus::Stopped && kill_spec(m1, id).0 is Err && kill_spec(
                m1,
                id,
            ).1 == m1 && (id.len() > 0 ==> kill_spec(m1, id).0 == Err::<(), LifecycleError>(
                LifecycleError::ProcessAlreadyFinished,
            )) && delete_spec(m1, id, false) == (Ok::<(), LifecycleError>(()), m1.remove(id))
        }),
{
}

impl Container {
    /// A field-for-field copy of the record.
    fn clone_record(&self) -> (r: Container)
        ensures
            r@ == self@,
            r.id@ == self.id@,
            r.status == self.status,
            r.pid == self.pid,
            r.bundle@ == self.bundle@,
    {
        Container {
            id: self.id.clone(),
            status: self.status,
            pid: self.pid,
            bundle: self.bundle.clone(),
        }
    }
}

} // verus!
