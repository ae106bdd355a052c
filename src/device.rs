//! The device registry: one record per device identity, with optional metadata.

use vstd::prelude::*;

verus! {

/// An already-parsed JSON value; the registry stores it and never looks inside.
#[verifier::external_type_specification]
#[verifier::external_body]
pub struct ExValue(serde_json::Value);

/// Relies on serde_json's derived `Clone` for `Value`: a deep copy equal to the value copied.
pub assume_specification[ <serde_json::Value as Clone>::clone ](v: &serde_json::Value) -> (r:
    serde_json::Value)
    ensures
        r == *v,
;

/// A registered device: its identity (a 128-bit UUID) and its metadata, if any was set.
#[derive(Debug)]
pub struct Device {
    pub id: u128,
    pub metadata: Option<serde_json::Value>,
}

impl Device {
    /// An independent copy of this record.
    pub fn duplicate(&self) -> (r: Device)
        ensures
            r == *self,
    {
        let metadata = match &self.metadata {
            Some(v) => Some(v.clone()),
            None => None,
        };
        Device { id: self.id, metadata }
    }
}

/// A registration request: the identity the registrant chose.
#[derive(Clone, Copy, Debug, PartialEq, Eq, Structural)]
pub struct DeviceRegister {
    pub id: u128,
}

/// Why a registry operation was refused.
#[derive(Clone, Copy, Debug, PartialEq, Eq, Structural)]
pub enum DeviceError {
    /// A device with this identity is already registered.
    Conflict(u128),
    /// No device with this identity is registered.
    NotFound(u128),
    /// The caller may not perform the operation.
    Unauthorized,
}

/// The records of `s` are exactly the entries of `m`: each record's identity is
/// a key of `m` holding that record's metadata, each key has a record, and no
/// identity occurs twice.
pub open spec fn lists(s: Seq<Device>, m: Map<u128, Option<serde_json::Value>>) -> bool {
    &&& forall|i: int|
        0 <= i < s.len() ==> #[trigger] m.contains_key(s[i].id) && m[s[i].id] == s[i].metadata
    &&& forall|k: u128| #[trigger] m.contains_key(k) ==> exists|i: int| 0 <= i < s.len() && s[i].id == k
    &&& forall|i: int, j: int| 0 <= i < s.len() && 0 <= j < s.len() && #[trigger] s[i].id == #[trigger] s[j].id ==> i == j
}

/// The in-memory registry of devices, in order of registration.
pub struct Registry {
    devices: Vec<Device>,
    model: Ghost<Map<u128, Option<serde_json::Value>>>,
}

impl View for Registry {
    type V = Map<u128, Option<serde_json::Value>>;

    /// Each registered identity, mapped to its metadata.
    closed spec fn view(&self) -> Self::V {
        self.model@
    }
}

impl Registry {
    /// The registry's records agree with its map of identities.
    pub closed spec fn wf(&self) -> bool {
        lists(self.devices@, self.model@)
    }

    /// An empty registry.
    pub fn new() -> (r: Registry)
        ensures
            r.wf(),
            r@ == Map::<u128, Option<serde_json::Value>>::empty(),
    {
        Registry { devices: Vec::new(), model: Ghost(Map::empty()) }
    }

    /// Position of the record with identity `id`, if there is one.
    fn position(&self, id: u128) -> (r: Option<usize>)
        requires
            self.wf(),
        ensures
            match r {
                Some(i) => i < self.devices@.len() && self.devices@[i as int].id == id,
                None => !self@.contains_key(id),
            },
    {
        let mut i: usize = 0;
        while i < self.devices.len()
            invariant
                self.wf(),
                i <= self.devices@.len(),
                forall|j: int| 0 <= j < i ==> self.devices@[j].id != id,
            decreases self.devices@.len() - i,
        {
            if self.devices[i].id == id {
                return Some(i);
            }
            i = i + 1;
        }
        None
    }

    /// Whether a device with identity `id` is registered.
    pub fn is_registered(&self, id: u128) -> (r: bool)
        requires
            self.wf(),
        ensures
            r == self@.contains_key(id),
    {
        self.position(id).is_some()
    }

    /// Register a new device with no metadata. Fails with `Conflict` when the
    /// identity is already registered, leaving the registry unchanged.
    pub fn register(&mut self, id: u128) -> (r: Result<Device, DeviceError>)
        requires
            old(self).wf(),
        ensures
            final(self).wf(),
            final(self)@ == registered(old(self)@, id),
            old(self)@.contains_key(id) ==> r == Err::<Device, DeviceError>(DeviceError::Conflict(id)),
            !old(self)@.contains_key(id) ==> r == Ok::<Device, DeviceError>(Device { id, metadata: None }),
    {
        if self.position(id).is_some() {
            return Err(DeviceError::Conflict(id));
        }
        let ghost s = self.devices@;
        self.devices.push(Device { id, metadata: None });
        self.model = Ghost(self.model@.insert(id, None));
        assert forall|k: u128| #[trigger] self.model@.contains_key(k) implies exists|i: int|
            0 <= i < self.devices@.len() && self.devices@[i].id == k by {
            if k == id {
                assert(self.devices@[s.len() as int].id == k);
            } else {
                let i = choose|i: int| 0 <= i < s.len() && s[i].id == k;
                assert(self.devices@[i].id == k);
            }
        }
        Ok(Device { id, metadata: None })
    }

    /// A snapshot of every record, in order of registration.
    pub fn list(&self) -> (r: Vec<Device>)
        requires
            self.wf(),
        ensures
            lists(r@, self@),
    {
        let mut out: Vec<Device> = Vec::new();
        let mut i: usize = 0;
        while i < self.devices.len()
            invariant
                self.wf(),
                i <= self.devices@.len(),
                out@ == self.devices@.subrange(0, i as int),
            decreases self.devices@.len() - i,
        {
            out.push(self.devices[i].duplicate());
            i = i + 1;
        }
        assert(out@ =~= self.devices@);
        out
    }

    /// Replace the whole metadata of device `id` with `value`. Fails with
    /// `NotFound` when no such device is registered, leaving the registry unchanged.
    pub fn set_metadata(&mut self, id: u128, value: serde_json::Value) -> (r: Result<(), DeviceError>)
        requires
            old(self).wf(),
        ensures
            final(self).wf(),
            old(self)@.contains_key(id) ==> r == Ok::<(), DeviceError>(()) && final(self)@ == old(
                self,
            )@.insert(id, Some(value)),
            !old(self)@.contains_key(id) ==> r == Err::<(), DeviceError>(DeviceError::NotFound(id))
                && final(self)@ == old(self)@,
    {
        match self.position(id) {
            None => Err(DeviceError::NotFound(id)),
            Some(i) => {
                let ghost s = self.devices@;
                let ghost v = value;
                self.devices.set(i, Device { id, metadata: Some(value) });
                self.model = Ghost(self.model@.insert(id, Some(v)));
                assert forall|k: u128| #[trigger] self.model@.contains_key(k) implies exists|j: int|
                    0 <= j < self.devices@.len() && self.devices@[j].id == k by {
                    let j = choose|j: int| 0 <= j < s.len() && s[j].id == k;
                    assert(self.devices@[j].id == k);
                }
                Ok(())
            },
        }
    }

    /// Remove device `id`; returns whether a record was removed.
    pub fn delete(&mut self, id: u128) -> (r: bool)
        requires
            old(self).wf(),
        ensures
            final(self).wf(),
            r == old(self)@.contains_key(id),
            final(self)@ == old(self)@.remove(id),
    {
        match self.position(id) {
            None => {
                assert(self.model@.remove(id) =~= self.model@);
                false
            },
            Some(i) => {
                let ghost s = self.devices@;
                self.devices.remove(i);
                self.model = Ghost(self.model@.remove(id));
                let ghost t = self.devices@;
                assert forall|j: int| 0 <= j < t.len() implies t[j] == (if j < i { s[j] } else { s[j + 1] }) by {}
                assert forall|k: u128| #[trigger] self.model@.contains_key(k) implies exists|j: int|
                    0 <= j < t.len() && t[j].id == k by {
                    let j = choose|j: int| 0 <= j < s.len() && s[j].id == k;
                    if j < i {
                        assert(t[j].id == k);
                    } else {
                        assert(t[j - 1].id == k);
                    }
                }
                assert forall|a: int, b: int| 0 <= a < t.len() && 0 <= b < t.len() && #[trigger] t[a].id == #[trigger] t[b].id implies a == b by {
                    let a2 = if a < i { a } else { a + 1 };
                    let b2 = if b < i { b } else { b + 1 };
                    assert(s[a2].id == s[b2].id);
                }
                true
            },
        }
    }
}

/// The registry map after `register(id)`: unchanged when `id` is present,
/// otherwise with `id` added and no metadata.
pub open spec fn registered(m: Map<u128, Option<serde_json::Value>>, id: u128) -> Map<u128, Option<serde_json::Value>> {
    if m.contains_key(id) {
        m
    } else {
        m.insert(id, None)
    }
}

/// The registry map after registering each identity of `ids` in turn.
pub open spec fn register_run(m: Map<u128, Option<serde_json::Value>>, ids: Seq<u128>) -> Map<u128, Option<serde_json::Value>>
    decreases ids.len(),
{
    if ids.len() == 0 {
        m
    } else {
        registered(register_run(m, ids.drop_last()), ids.last())
    }
}

/// Whether the `k`-th of the registrations `ids`, started from `m`, succeeds.
pub open spec fn register_succeeds(m: Map<u128, Option<serde_json::Value>>, ids: Seq<u128>, k: int) -> bool {
    !register_run(m, ids.take(k)).contains_key(ids[k])
}

/// Registrations only add identities.
proof fn lemma_run_keeps(m: Map<u128, Option<serde_json::Value>>, ids: Seq<u128>, k: int, n: int)
    requires
        0 <= k <= n <= ids.len(),
    ensures
        forall|key: u128| #[trigger] register_run(m, ids.take(k)).contains_key(key) ==> register_run(m, ids.take(n)).contains_key(key),
    decreases n - k,
{
    if k < n {
        lemma_run_keeps(m, ids, k, n - 1);
        assert(ids.take(n).drop_last() =~= ids.take(n - 1));
    }
}

/// After the `i`-th registration its identity is registered.
proof fn lemma_run_holds(m: Map<u128, Option<serde_json::Value>>, ids: Seq<u128>, i: int)
    requires
        0 <= i < ids.len(),
    ensures
        register_run(m, ids.take(i + 1)).contains_key(ids[i]),
{
    assert(ids.take(i + 1).drop_last() =~= ids.take(i));
}

/// Uniqueness: in any sequence of registrations, a call whose identity was
/// already named by an earlier call fails with `Conflict` and leaves the
/// registry, and so the existing record's metadata, untouched. Hence at most
/// one call per distinct identity succeeds.
pub proof fn lemma_register_unique(m: Map<u128, Option<serde_json::Value>>, ids: Seq<u128>)
    ensures
        forall|i: int, j: int|
            #![trigger ids[i], register_succeeds(m, ids, j)]
            0 <= i < j < ids.len() && ids[i] == ids[j] ==> !register_succeeds(m, ids, j)
                && register_run(m, ids.take(j + 1)) == register_run(m, ids.take(j)),
{
    assert forall|i: int, j: int|
        #![trigger ids[i], register_succeeds(m, ids, j)]
        0 <= i < j < ids.len() && ids[i] == ids[j] implies !register_succeeds(m, ids, j)
        && register_run(m, ids.take(j + 1)) == register_run(m, ids.take(j)) by {
        lemma_repeat_conflicts(m, ids, i, j);
    }
}

/// A registration whose identity an earlier one named changes nothing.
proof fn lemma_repeat_conflicts(m: Map<u128, Option<serde_json::Value>>, ids: Seq<u128>, i: int, j: int)
    requires
        0 <= i < j < ids.len(),
        ids[i] == ids[j],
    ensures
        !register_succeeds(m, ids, j),
        register_run(m, ids.take(j + 1)) == register_run(m, ids.take(j)),
{
    lemma_run_holds(m, ids, i);
    lemma_run_keeps(m, ids, i + 1, j);
    let before = register_run(m, ids.take(j));
    assert(before.contains_key(ids[j]));
    assert(ids.take(j + 1).drop_last() =~= ids.take(j));
    assert(ids.take(j + 1).last() == ids[j]);
}

/// `n` calls with the same identity.
pub open spec fn repeated(id: u128, n: nat) -> Seq<u128> {
    Seq::new(n, |k: int| id)
}

/// Concurrent registration: `n` calls that all register the same new
/// identity, in whatever order the registry serialises them, give exactly one
/// success (the first) and `n - 1` conflicts, and leave the registry with that
/// one record added.
pub proof fn lemma_register_same_identity(m: Map<u128, Option<serde_json::Value>>, id: u128, n: nat)
    requires
        !m.contains_key(id),
        m.dom().finite(),
        n >= 1,
    ensures
        register_succeeds(m, repeated(id, n), 0),
        forall|k: int| 0 < k < n ==> !#[trigger] register_succeeds(m, repeated(id, n), k),
        register_run(m, repeated(id, n)) == m.insert(id, None),
        register_run(m, repeated(id, n)).len() == m.len() + 1,
{
    let ids = repeated(id, n);
    assert(ids.take(0) =~= Seq::<u128>::empty());
    lemma_register_unique(m, ids);
    assert forall|k: int| 0 < k < n implies !#[trigger] register_succeeds(m, ids, k) by {
        assert(ids[0] == ids[k]);
    }
    lemma_same_identity_run(m, id, n);
}

/// Registering one new identity `n` times adds it once.
proof fn lemma_same_identity_run(m: Map<u128, Option<serde_json::Value>>, id: u128, n: nat)
    requires
        !m.contains_key(id),
        n >= 1,
    ensures
        register_run(m, repeated(id, n)) == m.insert(id, None),
    decreases n,
{
    let ids = repeated(id, n);
    assert(ids.last() == id);
    if n == 1 {
        assert(ids.drop_last() =~= Seq::<u128>::empty());
        assert(register_run(m, ids.drop_last()) == m);
    } else {
        lemma_same_identity_run(m, id, (n - 1) as nat);
        assert(ids.drop_last() =~= repeated(id, (n - 1) as nat));
        assert(register_run(m, ids.drop_last()).contains_key(id));
    }
}

/// Round trip of registration: after `register(id)` succeeds, a listing holds
/// exactly one record with that identity, and its metadata is absent.
pub proof fn lemma_register_then_list(m: Map<u128, Option<serde_json::Value>>, id: u128, s: Seq<Device>)
    requires
        !m.contains_key(id),
        lists(s, registered(m, id)),
    ensures
        exists|i: int| 0 <= i < s.len() && s[i].id == id && s[i].metadata is None,
        forall|i: int, j: int| 0 <= i < s.len() && 0 <= j < s.len() && s[i].id == id && s[j].id == id ==> i == j,
{
    assert(registered(m, id).contains_key(id));
    let i = choose|i: int| 0 <= i < s.len() && s[i].id == id;
    assert(s[i].metadata is None);
}

/// Round trip of annotation: after `set_metadata(id, v)` succeeds, a listing
/// holds exactly one record with that identity, and its metadata is exactly
/// `v`, whatever it held before.
pub proof fn lemma_set_metadata_then_list(
    m: Map<u128, Option<serde_json::Value>>,
    id: u128,
    v: serde_json::Value,
    s: Seq<Device>,
)
    requires
        m.contains_key(id),
        lists(s, m.insert(id, Some(v))),
    ensures
        exists|i: int| 0 <= i < s.len() && s[i].id == id && s[i].metadata == Some(v),
        forall|i: int, j: int| 0 <= i < s.len() && 0 <= j < s.len() && s[i].id == id && s[j].id == id ==> i == j,
{
    assert(m.insert(id, Some(v)).contains_key(id));
    let i = choose|i: int| 0 <= i < s.len() && s[i].id == id;
    assert(s[i].metadata == Some(v));
}

/// Deletion is final: after `delete(id)` removes a record, no listing holds
/// that identity, and a second `delete(id)` removes nothing and returns false.
pub proof fn lemma_delete_final(m: Map<u128, Option<serde_json::Value>>, id: u128, s: Seq<Device>)
    requires
        m.contains_key(id),
        lists(s, m.remove(id)),
    ensures
        forall|i: int| 0 <= i < s.len() ==> s[i].id != id,
        !m.remove(id).contains_key(id),
        m.remove(id).remove(id) == m.remove(id),
{
    assert forall|i: int| 0 <= i < s.len() implies s[i].id != id by {
        assert(m.remove(id).contains_key(s[i].id));
    }
    assert(m.remove(id).remove(id) =~= m.remove(id));
}

/// Existence gating: against an identity that is not registered, annotation
/// and deletion change nothing (and so not the registry's size).
pub proof fn lemma_absent_identity(m: Map<u128, Option<serde_json::Value>>, id: u128)
    requires
        !m.contains_key(id),
    ensures
        m.remove(id) == m,
        m.remove(id).len() == m.len(),
{
    assert(m.remove(id) =~= m);
}

} // verus!
