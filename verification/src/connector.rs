//! The connector core: discovery filter, index registry, ready set and
//! characteristic resolution.
//!
//! The embedding layer owns the radio stack and the async runtime. It
//! forwards each decision to this module as plain values: a discovery
//! event arrives as an identifier token plus the advertised local name,
//! a read or write request arrives as an index, two UUIDs and the
//! peripheral's current characteristic list.

use vstd::prelude::*;

use crate::error::Error;

verus! {

/// The caller-visible handle of a peripheral: opaque, unique and strictly
/// increasing for the lifetime of a connector. Indices are never reused.
#[derive(Clone, Copy, Debug, Default, Eq, Hash, PartialEq, Structural)]
pub struct PeripheralIndex(pub u64);

/// A token standing for the platform's native peripheral identifier.
/// The core never looks inside it; the embedding layer issues the tokens
/// and resolves them back to whatever the radio stack addresses
/// peripherals with.
#[derive(Clone, Copy, Debug, Eq, Hash, PartialEq, Structural)]
pub struct NativeId(pub u64);

/// A 128-bit UUID as its high and low 64-bit halves, the shape in which
/// the foreign-call boundary passes UUIDs.
#[derive(Clone, Copy, Debug, Eq, Hash, PartialEq, Structural)]
pub struct UuidPair {
    pub hi: u64,
    pub lo: u64,
}

/// One entry of a peripheral's characteristic list: the UUID of the owning
/// service and the UUID of the characteristic itself.
#[derive(Clone, Copy, Debug, Eq, PartialEq, Structural)]
pub struct CharacteristicRef {
    pub service_uuid: UuidPair,
    pub uuid: UuidPair,
}

/// The advertised-name prefix a peripheral must carry to be managed.
pub open spec fn filter_prefix() -> Seq<char> {
    "D-LAB ESTIM"@
}

/// Whether an advertised local name passes the discovery filter: an exact
/// prefix match against `filter_prefix`.
pub open spec fn name_matches(name: Seq<char>) -> bool {
    name.len() >= filter_prefix().len() && name.subrange(0, filter_prefix().len() as int)
        == filter_prefix()
}

/// Exact prefix check of an advertised local name against the fixed filter.
pub fn name_passes_filter(name: &str) -> (r: bool)
    ensures
        r == name_matches(name@),
{
    let prefix: &str = "D-LAB ESTIM";
    proof {
        reveal_strlit("D-LAB ESTIM");
    }
    let prefix_len: usize = prefix.unicode_len();
    if name.unicode_len() < prefix_len {
        return false;
    }
    let mut i: usize = 0;
    while i < prefix_len
        invariant
            i <= prefix_len,
            prefix_len == filter_prefix().len(),
            prefix@ == filter_prefix(),
            name@.len() >= prefix_len,
            forall|j: int| 0 <= j < i ==> name@[j] == filter_prefix()[j],
        decreases prefix_len - i,
    {
        if name.get_char(i) != prefix.get_char(i) {
            assert(!name_matches(name@)) by {
                assert(name@.subrange(0, filter_prefix().len() as int)[i as int]
                    != filter_prefix()[i as int]);
            }
            return false;
        }
        i += 1;
    }
    assert(name@.subrange(0, filter_prefix().len() as int) =~= filter_prefix());
    true
}

/// The connector core: the registry mapping each issued index to its
/// native-identifier token, the set of indices whose peripheral is ready
/// for read/write, and the counter the next index is drawn from.
///
/// Registrations are only ever appended, so the order of
/// `peripheral_ids` is the order in which indices were issued.
pub struct Connector {
    /// Registration log: one `(index, native id)` pair per accepted
    /// discovery event, in issue order, indices strictly increasing.
    pub peripheral_ids: Vec<(PeripheralIndex, NativeId)>,
    /// Indices whose peripheral has completed connect + service
    /// discovery; always a duplicate-free subset of the registered ones.
    pub managed_devices: Vec<PeripheralIndex>,
    /// The next index to issue.
    pub next_peripheral_id: u64,
}

impl Connector {
    /// Whether `i` has been issued and mapped to a native identifier.
    pub open spec fn is_registered(self, i: u64) -> bool {
        exists|k: int|
            0 <= k < self.peripheral_ids@.len() && #[trigger] self.peripheral_ids@[k].0.0 == i
    }

    /// Whether `i` is in the managed (ready) set.
    pub open spec fn is_ready(self, i: u64) -> bool {
        exists|k: int|
            0 <= k < self.managed_devices@.len() && #[trigger] self.managed_devices@[k].0 == i
    }

    /// Well-formedness: indices were issued strictly increasing and below
    /// the counter, and the ready set is a duplicate-free subset of the
    /// registered indices.
    pub open spec fn wf(self) -> bool {
        &&& forall|j: int, k: int|
            0 <= j < k < self.peripheral_ids@.len() ==> (#[trigger] self.peripheral_ids@[j].0.0)
                < (#[trigger] self.peripheral_ids@[k].0.0)
        &&& forall|k: int|
            0 <= k < self.peripheral_ids@.len() ==> (#[trigger] self.peripheral_ids@[k].0.0)
                < self.next_peripheral_id
        &&& forall|j: int, k: int|
            0 <= j < self.managed_devices@.len() && 0 <= k < self.managed_devices@.len() && j != k
                ==> (#[trigger] self.managed_devices@[j].0) != (#[trigger] self.managed_devices@[k].0)
        &&& forall|k: int|
            0 <= k < self.managed_devices@.len() ==> self.is_registered(
                #[trigger] self.managed_devices@[k].0,
            )
    }

    /// Creation decision: the platform must expose exactly one adapter.
    /// On success the connector starts with an empty registry, an empty
    /// managed set and the counter at zero.
    pub fn create(adapter_count: usize) -> (r: Result<Connector, Error>)
        ensures
            r is Ok <==> adapter_count == 1,
            r matches Ok(c) ==> {
                &&& c.wf()
                &&& c.peripheral_ids@ == Seq::<(PeripheralIndex, NativeId)>::empty()
                &&& c.managed_devices@ == Seq::<PeripheralIndex>::empty()
                &&& c.next_peripheral_id == 0
            },
            r matches Err(e) ==> e == Error::WrongAdapterCount,
    {
        if adapter_count != 1 {
            return Err(Error::WrongAdapterCount);
        }
        let c = Connector {
            peripheral_ids: Vec::new(),
            managed_devices: Vec::new(),
            next_peripheral_id: 0,
        };
        Ok(c)
    }

    /// Discovery decision for one "device discovered" event.
    ///
    /// `id` is the token of the peripheral's native identifier and
    /// `local_name` its advertised local name, if it advertised one.
    /// A peripheral whose name passes the filter is issued the next index
    /// and its id mapping is written before any connection attempt, so a
    /// caller racing to look the index up finds "not ready" rather than
    /// "unknown". `Some(index)` asks the embedding layer to connect and
    /// discover services, then report back through [`Self::mark_ready`].
    /// Everything else leaves the connector untouched. A repeated event
    /// for the same identifier is re-evaluated from scratch and, when it
    /// passes the filter, is issued a fresh index.
    pub fn device_discovered(&mut self, id: NativeId, local_name: Option<&str>) -> (r: Option<
        PeripheralIndex,
    >)
        requires
            old(self).wf(),
            old(self).next_peripheral_id < u64::MAX,
        ensures
            final(self).wf(),
            r is Some <==> (local_name matches Some(n) && name_matches(n@)),
            r is None ==> *final(self) == *old(self),
            r matches Some(ix) ==> {
                &&& ix.0 == old(self).next_peripheral_id
                &&& !old(self).is_registered(ix.0)
                &&& final(self).next_peripheral_id == old(self).next_peripheral_id + 1
                &&& final(self).peripheral_ids@ == old(self).peripheral_ids@.push((ix, id))
                &&& final(self).managed_devices@ == old(self).managed_devices@
                &&& !final(self).is_ready(ix.0)
            },
    {
        let name = match local_name {
            Some(n) => n,
            None => {
                return None;
            },
        };
        if !name_passes_filter(name) {
            return None;
        }
        let index = PeripheralIndex(self.next_peripheral_id);
        self.next_peripheral_id = self.next_peripheral_id + 1;
        self.peripheral_ids.push((index, id));
        proof {
            assert forall|j: int, k: int|
                0 <= j < k < self.peripheral_ids@.len() implies (
            #[trigger] self.peripheral_ids@[j].0.0) < (
            #[trigger] self.peripheral_ids@[k].0.0) by {
                if k < old(self).peripheral_ids@.len() {
                    assert(old(self).peripheral_ids@[j].0.0 < old(self).peripheral_ids@[k].0.0);
                } else {
                    assert(old(self).peripheral_ids@[j].0.0 < old(self).next_peripheral_id);
                }
            }
            assert forall|k: int|
                0 <= k < self.peripheral_ids@.len() implies (
            #[trigger] self.peripheral_ids@[k].0.0) < self.next_peripheral_id by {
                if k < old(self).peripheral_ids@.len() {
                    assert(old(self).peripheral_ids@[k].0.0 < old(self).next_peripheral_id);
                }
            }
            assert forall|k: int|
                0 <= k < self.managed_devices@.len() implies self.is_registered(
                #[trigger] self.managed_devices@[k].0,
            ) by {
                assert(old(self).is_registered(self.managed_devices@[k].0));
                let w = choose|w: int|
                    0 <= w < old(self).peripheral_ids@.len()
                        && #[trigger] old(self).peripheral_ids@[w].0.0
                        == self.managed_devices@[k].0;
                assert(self.peripheral_ids@[w].0.0 == self.managed_devices@[k].0);
            }
            assert(!self.is_ready(index.0)) by {
                if self.is_ready(index.0) {
                    assert(old(self).is_registered(index.0));
                }
            }
        }
        Some(index)
    }

    /// Position of `index` in the registration log, if it was issued.
    fn position_of(&self, index: PeripheralIndex) -> (r: Option<usize>)
        ensures
            r matches Some(k) ==> k < self.peripheral_ids@.len()
                && self.peripheral_ids@[k as int].0 == index,
            r is None <==> !self.is_registered(index.0),
    {
        let mut i: usize = 0;
        while i < self.peripheral_ids.len()
            invariant
                i <= self.peripheral_ids@.len(),
                forall|j: int| 0 <= j < i ==> (#[trigger] self.peripheral_ids@[j].0.0) != index.0,
            decreases self.peripheral_ids@.len() - i,
        {
            if self.peripheral_ids[i].0.0 == index.0 {
                return Some(i);
            }
            i += 1;
        }
        None
    }

    /// The registry lookup every read/write call makes before touching
    /// the radio stack: the native-identifier token registered under
    /// `index`, or `NoSuchPeripheral` when the index was never issued.
    pub fn lookup_peripheral_id(&self, index: PeripheralIndex) -> (r: Result<NativeId, Error>)
        ensures
            r is Ok <==> self.is_registered(index.0),
            r matches Ok(nid) ==> exists|k: int|
                0 <= k < self.peripheral_ids@.len() && #[trigger] self.peripheral_ids@[k] == (
                index,
                nid,
                ),
            r matches Err(e) ==> e == Error::NoSuchPeripheral,
    {
        match self.position_of(index) {
            Some(k) => Ok(self.peripheral_ids[k].1),
            None => Err(Error::NoSuchPeripheral),
        }
    }

    /// Readiness decision: once the embedding layer has connected the
    /// peripheral issued as `index` and discovered its services, the
    /// index joins the managed set and becomes visible to
    /// [`Self::list_devices`]. An index the registry never issued is
    /// refused with `NoSuchPeripheral` and changes nothing; marking an
    /// already-ready index again changes nothing.
    #[verifier::loop_isolation(false)]
    pub fn mark_ready(&mut self, index: PeripheralIndex) -> (r: Result<(), Error>)
        requires
            old(self).wf(),
        ensures
            final(self).wf(),
            r is Ok <==> old(self).is_registered(index.0),
            r matches Err(e) ==> e == Error::NoSuchPeripheral && *final(self) == *old(self),
            r is Ok ==> {
                &&& final(self).peripheral_ids@ == old(self).peripheral_ids@
                &&& final(self).next_peripheral_id == old(self).next_peripheral_id
                &&& final(self).is_ready(index.0)
                &&& final(self).managed_devices@ == if old(self).is_ready(index.0) {
                    old(self).managed_devices@
                } else {
                    old(self).managed_devices@.push(index)
                }
            },
    {
        if self.position_of(index).is_none() {
            return Err(Error::NoSuchPeripheral);
        }
        let mut i: usize = 0;
        while i < self.managed_devices.len()
            invariant
                i <= self.managed_devices@.len(),
                forall|j: int| 0 <= j < i ==> (#[trigger] self.managed_devices@[j].0) != index.0,
            decreases self.managed_devices@.len() - i,
        {
            if self.managed_devices[i].0 == index.0 {
                assert(self.is_ready(index.0));
                return Ok(());
            }
            i += 1;
        }
        assert(!self.is_ready(index.0));
        self.managed_devices.push(index);
        proof {
            assert(self.managed_devices@[old(self).managed_devices@.len() as int].0 == index.0);
            assert forall|k: int|
                0 <= k < self.managed_devices@.len() implies self.is_registered(
                #[trigger] self.managed_devices@[k].0,
            ) by {
                let x = self.managed_devices@[k].0;
                if k < old(self).managed_devices@.len() {
                    assert(old(self).is_registered(x));
                } else {
                    assert(x == index.0);
                    assert(old(self).is_registered(x));
                }
                let w = choose|w: int|
                    0 <= w < old(self).peripheral_ids@.len()
                        && #[trigger] old(self).peripheral_ids@[w].0.0 == x;
                assert(self.peripheral_ids@[w].0.0 == x);
            }
            assert forall|j: int, k: int|
                0 <= j < self.managed_devices@.len() && 0 <= k < self.managed_devices@.len() && j
                    != k implies (#[trigger] self.managed_devices@[j].0) != (
            #[trigger] self.managed_devices@[k].0) by {
                if j < old(self).managed_devices@.len() && k < old(self).managed_devices@.len() {
                    assert(old(self).managed_devices@[j].0 != old(self).managed_devices@[k].0);
                }
            }
        }
        Ok(())
    }

    /// Snapshot of the managed set: every index whose peripheral is ready
    /// for read/write. Each listed index is registered — a reader never
    /// observes a managed entry without its id mapping.
    pub fn list_devices(&self) -> (r: Vec<PeripheralIndex>)
        requires
            self.wf(),
        ensures
            r@ == self.managed_devices@,
            forall|k: int| 0 <= k < r@.len() ==> self.is_registered(#[trigger] r@[k].0),
    {
        let mut r: Vec<PeripheralIndex> = Vec::new();
        let mut i: usize = 0;
        while i < self.managed_devices.len()
            invariant
                i <= self.managed_devices@.len(),
                r@ == self.managed_devices@.subrange(0, i as int),
            decreases self.managed_devices@.len() - i,
        {
            r.push(self.managed_devices[i]);
            proof {
                assert(r@ =~= self.managed_devices@.subrange(0, i + 1));
            }
            i += 1;
        }
        proof {
            assert(r@ =~= self.managed_devices@);
        }
        r
    }
}

/// Whether one characteristic-list entry matches a requested
/// (service UUID, characteristic UUID) pair exactly.
pub open spec fn characteristic_matches(
    c: CharacteristicRef,
    service_id: UuidPair,
    characteristic_id: UuidPair,
) -> bool {
    c.service_uuid == service_id && c.uuid == characteristic_id
}

impl Connector {
    /// Characteristic resolution: the position of the first entry of the
    /// peripheral's current characteristic list matching both the owning
    /// service UUID and the characteristic UUID, or `NoSuchCharacteristic`
    /// when no entry matches. The list is not cached anywhere: the caller
    /// passes the peripheral's own snapshot on every call.
    pub fn find_characteristic(
        characteristics: &Vec<CharacteristicRef>,
        service_id: UuidPair,
        characteristic_id: UuidPair,
    ) -> (r: Result<usize, Error>)
        ensures
            r matches Ok(k) ==> {
                &&& k < characteristics@.len()
                &&& characteristic_matches(characteristics@[k as int], service_id, characteristic_id)
                &&& forall|j: int|
                    0 <= j < k ==> !characteristic_matches(
                        #[trigger] characteristics@[j],
                        service_id,
                        characteristic_id,
                    )
            },
            r is Err <==> forall|j: int|
                0 <= j < characteristics@.len() ==> !characteristic_matches(
                    #[trigger] characteristics@[j],
                    service_id,
                    characteristic_id,
                ),
            r matches Err(e) ==> e == Error::NoSuchCharacteristic,
    {
        let mut i: usize = 0;
        while i < characteristics.len()
            invariant
                i <= characteristics@.len(),
                forall|j: int|
                    0 <= j < i ==> !characteristic_matches(
                        #[trigger] characteristics@[j],
                        service_id,
                        characteristic_id,
                    ),
            decreases characteristics@.len() - i,
        {
            let c = characteristics[i];
            if c.service_uuid.hi == service_id.hi && c.service_uuid.lo == service_id.lo && c.uuid.hi
                == characteristic_id.hi && c.uuid.lo == characteristic_id.lo {
                return Ok(i);
            }
            i += 1;
        }
        Err(Error::NoSuchCharacteristic)
    }
}

/// Law: an index appears in the managed set only with its id mapping in
/// place — a well-formed connector has no dangling managed entry, so a
/// `list_devices` snapshot never shows an index that `lookup_peripheral_id`
/// would refuse.
pub proof fn lemma_ready_implies_registered(c: Connector, i: u64)
    requires
        c.wf(),
        c.is_ready(i),
    ensures
        c.is_registered(i),
{
    let k = choose|k: int|
        0 <= k < c.managed_devices@.len() && #[trigger] c.managed_devices@[k].0 == i;
    assert(c.is_registered(c.managed_devices@[k].0));
}

/// Law: index issue is strictly monotonic and never reuses a value — of
/// any two registrations in a well-formed connector, the later one
/// carries the strictly greater index.
pub proof fn lemma_indices_strictly_monotonic(c: Connector, j: int, k: int)
    requires
        c.wf(),
        0 <= j < k < c.peripheral_ids@.len(),
    ensures
        c.peripheral_ids@[j].0.0 < c.peripheral_ids@[k].0.0,
{
}

} // verus!
