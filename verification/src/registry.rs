//! The cluster registry: the durable record of which clusters this tool
//! believes exist.
//!
//! On disk the registry is one directory per cluster under a fixed root;
//! this module models that state in memory as a sequence of records with
//! unique names and gives every mutation an exact contract. The surrounding
//! binary loads the model from the directory listing, drives each decision
//! through these functions, and mirrors every accepted mutation back to the
//! filesystem.
//!
//! A record holds the cluster's name (the directory name and primary key),
//! the backend-opaque handle used to address the cluster remotely, and the
//! cached kubeconfig blob. A record whose handle or kubeconfig is absent is
//! a partially created cluster: a legitimate, detectable state left behind
//! when creation failed between the remote call and local persistence.

use vstd::prelude::*;

use crate::errors::Error;

verus! {

/// One registered cluster, as persisted in its registry directory.
pub struct ClusterRecord {
    /// Unique cluster name; also the name of the registry directory.
    pub name: String,
    /// Backend handle (cloud cluster id, or the name itself for the local
    /// backend); `None` while only the directory exists.
    pub handle: Option<String>,
    /// Cached cluster access configuration; `None` while not yet persisted.
    pub kubeconfig: Option<Vec<u8>>,
}

/// Mathematical image of a [`ClusterRecord`].
pub struct RecordView {
    pub name: Seq<char>,
    pub handle: Option<Seq<char>>,
    pub kubeconfig: Option<Seq<u8>>,
}

impl View for ClusterRecord {
    type V = RecordView;

    open spec fn view(&self) -> RecordView {
        RecordView {
            name: self.name@,
            handle: match self.handle {
                Option::Some(h) => Option::Some(h@),
                Option::None => Option::None,
            },
            kubeconfig: match self.kubeconfig {
                Option::Some(k) => Option::Some(k@),
                Option::None => Option::None,
            },
        }
    }
}

/// A record with both its handle and its kubeconfig persisted.
pub open spec fn record_complete(r: RecordView) -> bool {
    r.handle is Some && r.kubeconfig is Some
}

/// A freshly created record: directory only, nothing persisted yet.
pub open spec fn pending_record(name: Seq<char>) -> RecordView {
    RecordView { name, handle: Option::None, kubeconfig: Option::None }
}

/// A fully persisted record.
pub open spec fn complete_record(name: Seq<char>, handle: Seq<char>, kubeconfig: Seq<u8>) -> RecordView {
    RecordView { name, handle: Option::Some(handle), kubeconfig: Option::Some(kubeconfig) }
}

/// A character acceptable in a cluster name: ASCII letters, digits, dot,
/// dash, underscore.
pub open spec fn name_char_ok(c: char) -> bool {
    ('a' <= c && c <= 'z') || ('A' <= c && c <= 'Z') || ('0' <= c && c <= '9')
        || c == '.' || c == '-' || c == '_'
}

/// A filesystem-safe cluster name: non-empty, made of acceptable
/// characters, and not one of the special directory entries `.` and `..`.
/// The name doubles as the registry directory name, so this is what makes
/// a record representable on disk.
pub open spec fn valid_name(s: Seq<char>) -> bool {
    s.len() > 0 && (forall|i: int| 0 <= i < s.len() ==> name_char_ok(s[i]))
        && s != "."@ && s != ".."@
}

/// Whether `s` is a filesystem-safe cluster name.
pub fn is_valid_name(s: &str) -> (r: bool)
    ensures
        r == valid_name(s@),
{
    proof {
        reveal_strlit(".");
        reveal_strlit("..");
    }
    let n = s.unicode_len();
    if n == 0 {
        return false;
    }
    if n == 1 && s.get_char(0) == '.' {
        proof {
            assert(s@ =~= "."@);
        }
        return false;
    }
    if n == 2 && s.get_char(0) == '.' && s.get_char(1) == '.' {
        proof {
            assert(s@ =~= ".."@);
        }
        return false;
    }
    let mut i: usize = 0;
    while i < n
        invariant
            n == s@.len(),
            i <= n,
            forall|j: int| 0 <= j < i ==> name_char_ok(s@[j]),
        decreases n - i,
    {
        let c = s.get_char(i);
        if !(('a' <= c && c <= 'z') || ('A' <= c && c <= 'Z') || ('0' <= c && c <= '9')
            || c == '.' || c == '-' || c == '_') {
            return false;
        }
        i += 1;
    }
    proof {
        if s@ == "."@ {
            assert(s@.len() == 1);
        }
        if s@ == ".."@ {
            assert(s@.len() == 2);
        }
    }
    true
}

/// The character sequences of a list of strings.
pub open spec fn names_of(v: Seq<String>) -> Seq<Seq<char>> {
    v.map_values(|s: String| s@)
}

/// No two records carry the same name.
pub open spec fn unique_names(reg: Seq<RecordView>) -> bool {
    forall|i: int, j: int| 0 <= i < j < reg.len() ==> reg[i].name != reg[j].name
}

/// Whether the backend reports the cluster behind `r` as live: the record
/// must carry a handle, and that handle must be in the backend's list.
pub open spec fn record_live(r: RecordView, live: Seq<Seq<char>>) -> bool {
    match r.handle {
        Option::Some(h) => live.contains(h),
        Option::None => false,
    }
}

/// An orphaned record: locally incomplete, or no longer (or never) live on
/// its backend. Completeness gates orphan detection deliberately: a
/// partially created entry is treated as drift even when its remote handle
/// is still live, so that creation failures between the remote call and
/// local persistence are found and repaired.
pub open spec fn orphaned(r: RecordView, live: Seq<Seq<char>>) -> bool {
    !(record_complete(r) && record_live(r, live))
}

/// The names of the orphaned records, in registry order.
pub open spec fn orphan_names(reg: Seq<RecordView>, live: Seq<Seq<char>>) -> Seq<Seq<char>>
    decreases reg.len(),
{
    if reg.len() == 0 {
        Seq::empty()
    } else {
        let rest = orphan_names(reg.drop_last(), live);
        if orphaned(reg.last(), live) {
            rest.push(reg.last().name)
        } else {
            rest
        }
    }
}

/// The records that are not orphaned, in registry order.
pub open spec fn kept_records(reg: Seq<RecordView>, live: Seq<Seq<char>>) -> Seq<RecordView>
    decreases reg.len(),
{
    if reg.len() == 0 {
        Seq::empty()
    } else {
        let rest = kept_records(reg.drop_last(), live);
        if orphaned(reg.last(), live) {
            rest
        } else {
            rest.push(reg.last())
        }
    }
}

/// Every record kept by reconciliation was already in the registry.
pub proof fn lemma_kept_records_contains(reg: Seq<RecordView>, live: Seq<Seq<char>>)
    ensures
        forall|x: RecordView| #[trigger] kept_records(reg, live).contains(x) ==> reg.contains(x),
    decreases reg.len(),
{
    if reg.len() == 0 {
    } else {
        let prefix = reg.drop_last();
        lemma_kept_records_contains(prefix, live);
        assert forall|x: RecordView| #[trigger] kept_records(reg, live).contains(x)
            implies reg.contains(x) by {
            let kept = kept_records(reg, live);
            let j = choose|j: int| 0 <= j < kept.len() && kept[j] == x;
            if orphaned(reg.last(), live) || j < kept.len() - 1 {
                assert(kept_records(prefix, live).contains(x));
                let i = choose|i: int| 0 <= i < prefix.len() && prefix[i] == x;
                assert(reg[i] == x);
            } else {
                assert(reg[reg.len() - 1] == x);
            }
        }
    }
}

/// Reconciliation keeps exactly the records that are complete and live:
/// a record is kept if and only if it was registered and is not orphaned.
pub proof fn lemma_kept_records_iff(reg: Seq<RecordView>, live: Seq<Seq<char>>)
    ensures
        forall|x: RecordView| #[trigger] kept_records(reg, live).contains(x)
            <==> (reg.contains(x) && !orphaned(x, live)),
    decreases reg.len(),
{
    if reg.len() == 0 {
    } else {
        let prefix = reg.drop_last();
        lemma_kept_records_iff(prefix, live);
        let kept = kept_records(reg, live);
        let kp = kept_records(prefix, live);
        assert forall|x: RecordView| #[trigger] kept.contains(x)
            implies (reg.contains(x) && !orphaned(x, live)) by {
            let j = choose|j: int| 0 <= j < kept.len() && kept[j] == x;
            if orphaned(reg.last(), live) || j < kp.len() {
                assert(kp.contains(x));
                let i = choose|i: int| 0 <= i < prefix.len() && prefix[i] == x;
                assert(reg[i] == x);
            } else {
                assert(reg[reg.len() - 1] == x);
            }
        }
        assert forall|x: RecordView| reg.contains(x) && !orphaned(x, live)
            implies #[trigger] kept.contains(x) by {
            let i = choose|i: int| 0 <= i < reg.len() && reg[i] == x;
            if i < reg.len() - 1 {
                assert(prefix[i] == x);
                assert(prefix.contains(x));
                assert(kp.contains(x));
                let j = choose|j: int| 0 <= j < kp.len() && kp[j] == x;
                assert(kept[j] == x);
            } else {
                assert(kept[kp.len() as int] == x);
            }
        }
    }
}

/// Reconciliation reports exactly the orphaned names: a name is reported
/// if and only if some registered record carries it and is orphaned.
pub proof fn lemma_orphan_names_iff(reg: Seq<RecordView>, live: Seq<Seq<char>>)
    ensures
        forall|n: Seq<char>| #[trigger] orphan_names(reg, live).contains(n)
            <==> exists|i: int| 0 <= i < reg.len() && reg[i].name == n && orphaned(reg[i], live),
    decreases reg.len(),
{
    if reg.len() == 0 {
    } else {
        let prefix = reg.drop_last();
        lemma_orphan_names_iff(prefix, live);
        let names = orphan_names(reg, live);
        let np = orphan_names(prefix, live);
        assert forall|n: Seq<char>| #[trigger] names.contains(n)
            implies exists|i: int| 0 <= i < reg.len() && reg[i].name == n && orphaned(reg[i], live) by {
            let j = choose|j: int| 0 <= j < names.len() && names[j] == n;
            if !orphaned(reg.last(), live) || j < np.len() {
                assert(np.contains(n));
                let i = choose|i: int| 0 <= i < prefix.len() && prefix[i].name == n
                    && orphaned(prefix[i], live);
                assert(reg[i].name == n && orphaned(reg[i], live));
            } else {
                assert(reg[reg.len() - 1].name == n && orphaned(reg[reg.len() - 1], live));
            }
        }
        assert forall|n: Seq<char>|
            exists|i: int| 0 <= i < reg.len() && reg[i].name == n && orphaned(reg[i], live)
            implies #[trigger] names.contains(n) by {
            let i = choose|i: int| 0 <= i < reg.len() && reg[i].name == n && orphaned(reg[i], live);
            if i < reg.len() - 1 {
                assert(prefix[i].name == n && orphaned(prefix[i], live));
                assert(np.contains(n));
                let j = choose|j: int| 0 <= j < np.len() && np[j] == n;
                assert(names[j] == n);
            } else {
                assert(names[np.len() as int] == n);
            }
        }
    }
}

/// Reconciliation keeps names unique.
pub proof fn lemma_kept_records_unique(reg: Seq<RecordView>, live: Seq<Seq<char>>)
    requires
        unique_names(reg),
    ensures
        unique_names(kept_records(reg, live)),
    decreases reg.len(),
{
    if reg.len() == 0 {
    } else {
        let prefix = reg.drop_last();
        assert(unique_names(prefix)) by {
            assert forall|i: int, j: int| 0 <= i < j < prefix.len()
                implies prefix[i].name != prefix[j].name by {
                assert(reg[i].name != reg[j].name);
            }
        }
        lemma_kept_records_unique(prefix, live);
        lemma_kept_records_contains(prefix, live);
        let kept = kept_records(reg, live);
        if !orphaned(reg.last(), live) {
            let kp = kept_records(prefix, live);
            assert forall|a: int, b: int| 0 <= a < b < kept.len()
                implies kept[a].name != kept[b].name by {
                if b < kp.len() {
                } else {
                    assert(kept[b] == reg.last());
                    assert(kp.contains(kp[a]));
                    assert(prefix.contains(kept[a]));
                    let i = choose|i: int| 0 <= i < prefix.len() && prefix[i] == kept[a];
                    assert(reg[i].name != reg[reg.len() - 1].name);
                }
            }
        }
    }
}

/// Whether some record in `reg` carries the name `n`.
pub open spec fn contains_name(reg: Seq<RecordView>, n: Seq<char>) -> bool {
    exists|i: int| 0 <= i < reg.len() && reg[i].name == n
}

/// Index of the first record named `n` (meaningful when one exists).
pub open spec fn first_idx(reg: Seq<RecordView>, n: Seq<char>) -> int
    decreases reg.len(),
{
    if reg.len() == 0 {
        0
    } else if reg[0].name == n {
        0
    } else {
        1 + first_idx(reg.subrange(1, reg.len() as int), n)
    }
}

/// `first_idx` is pinned by the first-occurrence characterisation.
pub proof fn lemma_first_idx_is(reg: Seq<RecordView>, n: Seq<char>, i: int)
    requires
        0 <= i < reg.len(),
        reg[i].name == n,
        forall|j: int| 0 <= j < i ==> reg[j].name != n,
    ensures
        first_idx(reg, n) == i,
    decreases reg.len(),
{
    if reg[0].name == n {
        assert(i == 0);
    } else {
        let tail = reg.subrange(1, reg.len() as int);
        assert(tail[i - 1] == reg[i]);
        assert forall|j: int| 0 <= j < i - 1 implies tail[j].name != n by {
            assert(tail[j] == reg[j + 1]);
        }
        lemma_first_idx_is(tail, n, i - 1);
    }
}

/// Registry after recording that creation of `name` has begun: a pending
/// record is appended.
pub open spec fn spec_begin(reg: Seq<RecordView>, name: Seq<char>) -> Seq<RecordView> {
    reg.push(pending_record(name))
}

/// Registry after persisting handle and kubeconfig for `name`.
pub open spec fn spec_finish(
    reg: Seq<RecordView>,
    name: Seq<char>,
    handle: Seq<char>,
    kubeconfig: Seq<u8>,
) -> Seq<RecordView> {
    if contains_name(reg, name) {
        reg.update(first_idx(reg, name), complete_record(name, handle, kubeconfig))
    } else {
        reg
    }
}

/// Registry after removing the record named `name`.
pub open spec fn spec_remove(reg: Seq<RecordView>, name: Seq<char>) -> Seq<RecordView> {
    if contains_name(reg, name) {
        reg.remove(first_idx(reg, name))
    } else {
        reg
    }
}

/// The cached kubeconfig of `name`, when a record for it exists.
pub open spec fn kubeconfig_of(reg: Seq<RecordView>, name: Seq<char>) -> Option<Seq<u8>> {
    if contains_name(reg, name) {
        reg[first_idx(reg, name)].kubeconfig
    } else {
        Option::None
    }
}

/// In-memory model of the on-disk registry.
pub struct Registry {
    records: Vec<ClusterRecord>,
}

impl View for Registry {
    type V = Seq<RecordView>;

    closed spec fn view(&self) -> Seq<RecordView> {
        self.records@.map_values(|r: ClusterRecord| r@)
    }
}

impl Registry {
    /// Names are unique: the registry mirrors a directory listing, in which
    /// no name can occur twice.
    pub open spec fn wf(self) -> bool {
        unique_names(self@)
    }

    /// An empty registry.
    pub fn new() -> (r: Registry)
        ensures
            r@ == Seq::<RecordView>::empty(),
            r.wf(),
    {
        let r = Registry { records: Vec::new() };
        proof {
            assert(r@ =~= Seq::<RecordView>::empty());
        }
        r
    }

    /// Number of registered clusters.
    pub fn len(&self) -> (r: usize)
        ensures
            r == self@.len(),
    {
        self.records.len()
    }

    /// First index of the record named `name`, when one exists.
    fn find(&self, name: &String) -> (r: Option<usize>)
        ensures
            match r {
                Option::Some(i) => contains_name(self@, name@) && i < self@.len()
                    && self@[i as int].name == name@ && first_idx(self@, name@) == i as int,
                Option::None => !contains_name(self@, name@),
            },
    {
        let n = self.records.len();
        let mut i: usize = 0;
        while i < n
            invariant
                n == self@.len(),
                i <= n,
                forall|j: int| 0 <= j < i ==> self@[j].name != name@,
            decreases n - i,
        {
            if self.records[i].name == *name {
                proof {
                    assert(self@[i as int].name == name@);
                    lemma_first_idx_is(self@, name@, i as int);
                }
                return Option::Some(i);
            }
            i += 1;
        }
        Option::None
    }

    /// Whether a cluster of this name is registered.
    pub fn contains(&self, name: &String) -> (r: bool)
        ensures
            r == contains_name(self@, name@),
    {
        match self.find(name) {
            Option::Some(_) => true,
            Option::None => false,
        }
    }

    /// Adds a record, refusing a duplicate name. Loading the registry from
    /// the directory listing goes through this, as does `begin_create`.
    pub fn insert(&mut self, rec: ClusterRecord) -> (r: Result<(), Error>)
        ensures
            match r {
                Ok(_) => !contains_name(old(self)@, rec@.name)
                    && final(self)@ == old(self)@.push(rec@),
                Err(e) => e is StateError && contains_name(old(self)@, rec@.name)
                    && final(self)@ == old(self)@,
            },
            old(self).wf() ==> final(self).wf(),
    {
        if self.contains(&rec.name) {
            return Err(Error::StateError("a cluster with this name is already registered".to_owned()));
        }
        let ghost prev = self@;
        self.records.push(rec);
        proof {
            assert(self@ =~= prev.push(rec@));
        }
        Ok(())
    }

    /// Records that creation of `name` has begun: the registry directory for
    /// `name` exists, nothing is persisted in it yet.
    ///
    /// This is the uniqueness gate of the lifecycle: when a record of this
    /// name already exists the call fails with `StateError`, the registry is
    /// unchanged, and the caller must not invoke any provider.
    pub fn begin_create(&mut self, name: &String) -> (r: Result<(), Error>)
        ensures
            match r {
                Ok(_) => !contains_name(old(self)@, name@)
                    && final(self)@ == spec_begin(old(self)@, name@),
                Err(e) => e is StateError && contains_name(old(self)@, name@)
                    && final(self)@ == old(self)@,
            },
            old(self).wf() ==> final(self).wf(),
    {
        let rec = ClusterRecord { name: name.clone(), handle: Option::None, kubeconfig: Option::None };
        proof {
            assert(rec@ == pending_record(name@));
        }
        self.insert(rec)
    }

    /// Persists the backend handle and the fetched kubeconfig into the
    /// record for `name`. Fails with `StateError` when no record exists.
    pub fn finish_create(&mut self, name: &String, handle: String, kubeconfig: Vec<u8>) -> (r: Result<(), Error>)
        ensures
            match r {
                Ok(_) => contains_name(old(self)@, name@)
                    && final(self)@ == spec_finish(old(self)@, name@, handle@, kubeconfig@),
                Err(e) => e is StateError && !contains_name(old(self)@, name@)
                    && final(self)@ == old(self)@,
            },
            old(self).wf() ==> final(self).wf(),
    {
        let i = match self.find(name) {
            Option::Some(i) => i,
            Option::None => {
                return Err(Error::StateError("no cluster of this name is registered".to_owned()));
            },
        };
        let ghost prev = self@;
        let rec = ClusterRecord {
            name: name.clone(),
            handle: Option::Some(handle),
            kubeconfig: Option::Some(kubeconfig),
        };
        self.records.remove(i);
        self.records.insert(i, rec);
        proof {
            assert(self@ =~= prev.update(i as int, rec@));
            assert(self@ == spec_finish(prev, name@, handle@, kubeconfig@));
            if old(self).wf() {
                assert forall|a: int, b: int| 0 <= a < b < self@.len()
                    implies self@[a].name != self@[b].name by {
                    assert(prev[a].name != prev[b].name);
                }
            }
        }
        Ok(())
    }

    /// Removes the record for `name` and hands it back, so that the caller
    /// can address the backend with its handle. Fails with `StateError`
    /// when no record exists.
    pub fn remove(&mut self, name: &String) -> (r: Result<ClusterRecord, Error>)
        ensures
            match r {
                Ok(rec) => contains_name(old(self)@, name@)
                    && rec@ == old(self)@[first_idx(old(self)@, name@)]
                    && final(self)@ == spec_remove(old(self)@, name@),
                Err(e) => e is StateError && !contains_name(old(self)@, name@)
                    && final(self)@ == old(self)@,
            },
            old(self).wf() ==> final(self).wf(),
    {
        let i = match self.find(name) {
            Option::Some(i) => i,
            Option::None => {
                return Err(Error::StateError("no cluster of this name is registered".to_owned()));
            },
        };
        let ghost prev = self@;
        let rec = self.records.remove(i);
        proof {
            assert(self@ =~= prev.remove(i as int));
            if old(self).wf() {
                assert forall|a: int, b: int| 0 <= a < b < self@.len()
                    implies self@[a].name != self@[b].name by {
                    if b < i as int {
                        assert(prev[a].name != prev[b].name);
                    } else if a < i as int {
                        assert(prev[a].name != prev[b + 1].name);
                    } else {
                        assert(prev[a + 1].name != prev[b + 1].name);
                    }
                }
            }
        }
        Ok(rec)
    }

    /// The backend handle recorded for `name`: `StateError` when no record
    /// exists, `FilesystemError` when the record is partial and its handle
    /// was never persisted.
    pub fn get_handle(&self, name: &String) -> (r: Result<&String, Error>)
        ensures
            match r {
                Ok(h) => contains_name(self@, name@)
                    && self@[first_idx(self@, name@)].handle == Option::Some(h@),
                Err(e) => match e {
                    Error::StateError(_) => !contains_name(self@, name@),
                    Error::FilesystemError(_) => contains_name(self@, name@)
                        && self@[first_idx(self@, name@)].handle is None,
                    _ => false,
                },
            },
    {
        let i = match self.find(name) {
            Option::Some(i) => i,
            Option::None => {
                return Err(Error::StateError("no cluster of this name is registered".to_owned()));
            },
        };
        match &self.records[i].handle {
            Option::Some(h) => Ok(h),
            Option::None => Err(Error::FilesystemError("no backend handle is persisted for this cluster".to_owned())),
        }
    }

    /// The cached kubeconfig for `name`: a pure read of the registry, with
    /// no network or process call behind it. `StateError` when no record
    /// exists, `FilesystemError` when the record is partial and no
    /// kubeconfig was ever persisted.
    pub fn get_kubeconfig(&self, name: &String) -> (r: Result<&Vec<u8>, Error>)
        ensures
            match r {
                Ok(k) => kubeconfig_of(self@, name@) == Option::Some(k@),
                Err(e) => match e {
                    Error::StateError(_) => !contains_name(self@, name@),
                    Error::FilesystemError(_) => contains_name(self@, name@)
                        && kubeconfig_of(self@, name@) is None,
                    _ => false,
                },
            },
    {
        let i = match self.find(name) {
            Option::Some(i) => i,
            Option::None => {
                return Err(Error::StateError("no cluster of this name is registered".to_owned()));
            },
        };
        match &self.records[i].kubeconfig {
            Option::Some(k) => Ok(k),
            Option::None => Err(Error::FilesystemError("no kubeconfig is persisted for this cluster".to_owned())),
        }
    }

    /// The registered names, in registry order. This is the whole of the
    /// `list` operation: no liveness check stands behind it, so partially
    /// created entries are listed too.
    pub fn names(&self) -> (r: Vec<String>)
        ensures
            r@.map_values(|s: String| s@) == self@.map_values(|rec: RecordView| rec.name),
    {
        let n = self.records.len();
        let mut out: Vec<String> = Vec::new();
        let mut i: usize = 0;
        while i < n
            invariant
                n == self@.len(),
                i <= n,
                out@.len() == i,
                forall|j: int| 0 <= j < i ==> out@[j]@ == self@[j].name,
            decreases n - i,
        {
            out.push(self.records[i].name.clone());
            i += 1;
        }
        proof {
            assert(out@.map_values(|s: String| s@)
                =~= self@.map_values(|rec: RecordView| rec.name));
        }
        out
    }

    /// Read access to a record, for mirroring the model to disk.
    pub fn record_at(&self, i: usize) -> (r: &ClusterRecord)
        requires
            i < self@.len(),
        ensures
            r@ == self@[i as int],
    {
        &self.records[i]
    }

    /// Removes every orphaned record in one pass, leaving exactly the
    /// records that are complete and live on their backend, in order.
    pub fn remove_orphans(&mut self, live: &Vec<String>)
        ensures
            final(self)@ == kept_records(old(self)@, names_of(live@)),
            old(self).wf() ==> final(self).wf(),
    {
        let ghost orig = self@;
        let ghost lv = names_of(live@);
        let ghost mut k: int = 0;
        let mut i: usize = 0;
        while i < self.records.len()
            invariant
                0 <= k <= orig.len(),
                i as int == kept_records(orig.take(k), lv).len(),
                self@ =~= kept_records(orig.take(k), lv) + orig.skip(k),
                lv == names_of(live@),
            decreases orig.len() - k,
        {
            proof {
                assert(self@.len() == i + (orig.len() - k));
                assert(k < orig.len());
                assert(self@[i as int] == orig.skip(k)[0]);
                assert(orig.take(k + 1).drop_last() =~= orig.take(k));
                assert(orig.take(k + 1).last() == orig[k]);
            }
            if record_is_orphaned(&self.records[i], live) {
                let ghost prev = self@;
                self.records.remove(i);
                proof {
                    assert(self@ =~= prev.remove(i as int));
                    assert(prev.remove(i as int)
                        =~= kept_records(orig.take(k), lv) + orig.skip(k + 1));
                    assert(kept_records(orig.take(k + 1), lv) =~= kept_records(orig.take(k), lv));
                    assert(self@ =~= kept_records(orig.take(k + 1), lv) + orig.skip(k + 1));
                }
            } else {
                proof {
                    assert(kept_records(orig.take(k + 1), lv)
                        =~= kept_records(orig.take(k), lv).push(orig[k]));
                    assert(self@ =~= kept_records(orig.take(k + 1), lv) + orig.skip(k + 1));
                }
                i += 1;
            }
            proof {
                k = k + 1;
            }
        }
        proof {
            assert(k == orig.len());
            assert(orig.take(k) =~= orig);
            assert(self@ =~= kept_records(orig, lv));
            if old(self).wf() {
                lemma_kept_records_unique(orig, lv);
            }
        }
    }
}

/// Whether `v` holds a string equal to `x`.
pub fn vec_contains_string(v: &Vec<String>, x: &String) -> (r: bool)
    ensures
        r == names_of(v@).contains(x@),
{
    let n = v.len();
    let mut i: usize = 0;
    while i < n
        invariant
            n == v@.len(),
            i <= n,
            forall|j: int| 0 <= j < i ==> v@[j]@ != x@,
        decreases n - i,
    {
        if v[i] == *x {
            proof {
                assert(names_of(v@)[i as int] == x@);
            }
            return true;
        }
        i += 1;
    }
    proof {
        assert forall|j: int| 0 <= j < names_of(v@).len() implies names_of(v@)[j] != x@ by {
            assert(v@[j]@ != x@);
        }
    }
    false
}

/// Whether this record is orphaned with respect to the backend's live list.
pub fn record_is_orphaned(rec: &ClusterRecord, live: &Vec<String>) -> (r: bool)
    ensures
        r == orphaned(rec@, names_of(live@)),
{
    match &rec.handle {
        Option::None => true,
        Option::Some(h) => {
            if rec.kubeconfig.is_none() {
                true
            } else {
                !vec_contains_string(live, h)
            }
        },
    }
}

/// Creating a cluster and then deleting it returns the registry to its
/// prior state: for a name not yet registered, `begin_create`, then
/// `finish_create`, then `remove` compose to the identity on the registry.
pub proof fn lemma_create_delete_round_trip(
    reg: Seq<RecordView>,
    name: Seq<char>,
    handle: Seq<char>,
    kubeconfig: Seq<u8>,
)
    requires
        !contains_name(reg, name),
    ensures
        spec_remove(spec_finish(spec_begin(reg, name), name, handle, kubeconfig), name) == reg,
        !contains_name(spec_remove(spec_finish(spec_begin(reg, name), name, handle, kubeconfig), name), name),
{
    let s1 = spec_begin(reg, name);
    assert(s1[reg.len() as int].name == name);
    assert(contains_name(s1, name));
    assert forall|j: int| 0 <= j < reg.len() as int implies s1[j].name != name by {
        assert(s1[j] == reg[j]);
    }
    lemma_first_idx_is(s1, name, reg.len() as int);
    let s2 = spec_finish(s1, name, handle, kubeconfig);
    assert(s2 == s1.update(reg.len() as int, complete_record(name, handle, kubeconfig)));
    assert(s2[reg.len() as int].name == name);
    assert(contains_name(s2, name));
    assert forall|j: int| 0 <= j < reg.len() as int implies s2[j].name != name by {
        assert(s2[j] == reg[j]);
    }
    lemma_first_idx_is(s2, name, reg.len() as int);
    let s3 = spec_remove(s2, name);
    assert(s3 =~= reg);
}

/// Two reads of the cached kubeconfig with no registry mutation between
/// them return byte-identical output: the read is a pure function of the
/// registry value and the name, and performs no network or process call.
pub proof fn lemma_kubeconfig_read_idempotent(
    reg1: Seq<RecordView>,
    reg2: Seq<RecordView>,
    name: Seq<char>,
)
    requires
        reg1 == reg2,
    ensures
        kubeconfig_of(reg1, name) == kubeconfig_of(reg2, name),
{
}

} // verus!
