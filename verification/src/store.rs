use vstd::prelude::*;
use crate::address::{derived_for, find_incident_address, incident_address};
use crate::error::IncidentError;
use crate::fields::{first_violation, texts, valid_fields, Fields};
use crate::layout::{lemma_valid_fields_fit, space_of};
use crate::record::{same_identity, update_record, Incident, IncidentView};

verus! {

/// What a create request carries besides the identifier and the fields.
#[derive(Clone, Copy, Debug)]
pub struct CreateIncident {
    /// Identity of the caller: it funds the new slot and becomes the owner.
    pub reporter: [u8; 32],
    /// Reading of the host clock, in seconds, taken for this request.
    pub timestamp: i64,
}

/// What an update request carries besides the fields.
#[derive(Clone, Copy, Debug)]
pub struct UpdateIncident {
    /// Address of the record to update.
    pub incident: [u8; 32],
    /// Identity of the caller.
    pub reporter: [u8; 32],
}

/// A storage slot as mathematical values: the record it holds and the
/// number of bytes allotted to it.
pub struct SlotView {
    pub record: IncidentView,
    pub size: nat,
}

/// One storage slot: a record, where it lives and how many bytes it has.
struct Slot {
    address: [u8; 32],
    incident: Incident,
    size: usize,
}

impl View for Slot {
    type V = SlotView;

    closed spec fn view(&self) -> SlotView {
        SlotView { record: self.incident@, size: self.size as nat }
    }
}

/// The registry: every record that exists, each in a slot of its own, found
/// by its address.
pub struct RecordStore {
    slots: Vec<Slot>,
}

/// What holds of every slot of a registry: the record's fields are valid,
/// the slot has exactly the bytes that the record needs, and the slot sits at
/// the address derived from the record's reporter and identifier, with the
/// bump that the record keeps.
pub open spec fn slot_consistent(address: Seq<u8>, slot: SlotView) -> bool {
    &&& valid_fields(slot.record.fields)
    &&& slot.size == space_of(slot.record.fields)
    &&& derived_for(slot.record.reporter, slot.record.incident_id, address, slot.record.bump)
}

/// What holds of a registry at all times: every slot is consistent.
pub open spec fn consistent(registry: Map<Seq<u8>, SlotView>) -> bool {
    forall|address: Seq<u8>| #[trigger]
        registry.contains_key(address) ==> slot_consistent(address, registry[address])
}

/// What a create request leaves behind, and what it answers, once the
/// address and the bump of the new record are derived. The fields are
/// validated first; then the address must be free; only then is the record
/// written, into a slot of exactly the size it needs.
pub open spec fn create_step(
    registry: Map<Seq<u8>, SlotView>,
    reporter: Seq<u8>,
    timestamp: i64,
    incident_id: u64,
    f: Fields,
    address: Seq<u8>,
    bump: u8,
) -> (Map<Seq<u8>, SlotView>, Result<(), IncidentError>) {
    match first_violation(f) {
        Some(e) => (registry, Err(e)),
        None => if registry.contains_key(address) {
            (registry, Err(IncidentError::DuplicateIncident))
        } else {
            (
                registry.insert(
                    address,
                    SlotView {
                        record: IncidentView { incident_id, reporter, timestamp, fields: f, bump },
                        size: space_of(f),
                    },
                ),
                Ok(()),
            )
        },
    }
}

/// What an update request for the record at `address` leaves behind, and
/// what it answers. The record changes as `update_record` says, and on
/// success its slot is resized to exactly what the new fields need. Nothing
/// else in the registry changes.
pub open spec fn update_step(
    registry: Map<Seq<u8>, SlotView>,
    address: Seq<u8>,
    caller: Seq<u8>,
    f: Fields,
) -> (Map<Seq<u8>, SlotView>, Result<(), IncidentError>) {
    let (record, answer) = update_record(registry[address].record, caller, f);
    match answer {
        Ok(()) => (registry.insert(address, SlotView { record, size: space_of(f) }), answer),
        Err(_) => (registry, answer),
    }
}

impl RecordStore {
    /// Whether some slot sits at `address`.
    spec fn holds(&self, address: Seq<u8>) -> bool {
        exists|i: int| 0 <= i < self.slots.len() && (#[trigger] self.slots[i]).address@ == address
    }

    /// Position of the slot at `address`.
    spec fn index_of(&self, address: Seq<u8>) -> int {
        choose|i: int| 0 <= i < self.slots.len() && (#[trigger] self.slots[i]).address@ == address
    }

    /// The registry as a map from addresses to slots.
    pub closed spec fn view(&self) -> Map<Seq<u8>, SlotView> {
        Map::new(|a: Seq<u8>| self.holds(a), |a: Seq<u8>| self.slots[self.index_of(a)]@)
    }

    /// The registry is well formed: no two slots share an address, and every
    /// slot is consistent.
    pub closed spec fn wf(&self) -> bool {
        &&& forall|i: int, j: int|
            0 <= i < j < self.slots.len() ==> (#[trigger] self.slots[i]).address@ != (
            #[trigger] self.slots[j]).address@
        &&& forall|i: int|
            0 <= i < self.slots.len() ==> slot_consistent(
                (#[trigger] self.slots[i]).address@,
                self.slots[i]@,
            )
    }

    /// A well-formed registry is consistent.
    pub proof fn lemma_consistent(&self)
        requires
            self.wf(),
        ensures
            consistent(self@),
    {
        assert forall|address: Seq<u8>| #[trigger] self@.contains_key(address) implies slot_consistent(
            address,
            self@[address],
        ) by {
            let i = self.index_of(address);
            assert(self.slots[i].address@ == address);
        }
    }

    /// The slot at position `i` is the one the map holds at its address.
    proof fn lemma_slot_at(&self, i: int)
        requires
            self.wf(),
            0 <= i < self.slots.len(),
        ensures
            self@.contains_key(self.slots[i].address@),
            self@[self.slots[i].address@] == self.slots[i]@,
            self.index_of(self.slots[i].address@) == i,
    {
        let a = self.slots[i].address@;
        assert(self.holds(a));
        let k = self.index_of(a);
        assert(self.slots[k].address@ == a);
        if k < i {
            assert(self.slots[k].address@ != self.slots[i].address@);
        } else if i < k {
            assert(self.slots[i].address@ != self.slots[k].address@);
        }
    }

    /// An empty registry.
    pub fn new() -> (store: RecordStore)
        ensures
            store.wf(),
            store@ == Map::<Seq<u8>, SlotView>::empty(),
    {
        let store = RecordStore { slots: Vec::new() };
        assert(store@ =~= Map::<Seq<u8>, SlotView>::empty());
        store
    }

    /// Number of records in the registry.
    pub fn len(&self) -> (n: usize)
        requires
            self.wf(),
        ensures
            n == self@.dom().len(),
            self@.dom().finite(),
    {
        proof {
            self.lemma_domain_len();
        }
        self.slots.len()
    }

    /// The map holds as many addresses as there are slots.
    proof fn lemma_domain_len(&self)
        requires
            self.wf(),
        ensures
            self@.dom().finite(),
            self@.dom().len() == self.slots.len(),
    {
        let addresses = Seq::new(self.slots.len() as nat, |i: int| self.slots[i].address@);
        assert forall|i: int, j: int| 0 <= i < j < addresses.len() implies addresses[i]
            != addresses[j] by {
            assert(self.slots[i].address@ != self.slots[j].address@);
        }
        assert(addresses.no_duplicates());
        addresses.unique_seq_to_set();
        assert(addresses.to_set() =~= self@.dom()) by {
            assert forall|a: Seq<u8>| addresses.to_set().contains(a) <==> self@.dom().contains(
                a,
            ) by {
                if addresses.contains(a) {
                    let i = choose|i: int| 0 <= i < addresses.len() && addresses[i] == a;
                    assert(self.slots[i].address@ == a);
                }
                if self.holds(a) {
                    let i = self.index_of(a);
                    assert(addresses[i] == a);
                }
            }
        }
    }

    /// Position of the slot at `address`, if there is one.
    fn position(&self, address: &[u8; 32]) -> (p: Option<usize>)
        requires
            self.wf(),
        ensures
            match p {
                Some(i) => i < self.slots.len() && self.slots[i as int].address@ == address@
                    && self@.contains_key(address@) && self@[address@] == self.slots[i as int]@,
                None => !self@.contains_key(address@),
            },
    {
        let mut i: usize = 0;
        while i < self.slots.len()
            invariant
                self.wf(),
                i <= self.slots.len(),
                forall|j: int| 0 <= j < i ==> (#[trigger] self.slots[j]).address@ != address@,
            decreases self.slots.len() - i,
        {
            if same_identity(&self.slots[i].address, address) {
                proof {
                    self.lemma_slot_at(i as int);
                }
                return Some(i);
            }
            i += 1;
        }
        None
    }

    /// Whether a record lives at `address`.
    pub fn contains(&self, address: &[u8; 32]) -> (found: bool)
        requires
            self.wf(),
        ensures
            found == self@.contains_key(address@),
    {
        self.position(address).is_some()
    }

    /// Reads the record at `address`.
    pub fn get(&self, address: &[u8; 32]) -> (found: Option<&Incident>)
        requires
            self.wf(),
        ensures
            match found {
                Some(incident) => self@.contains_key(address@) && incident@
                    == self@[address@].record,
                None => !self@.contains_key(address@),
            },
    {
        match self.position(address) {
            Some(i) => Some(&self.slots[i].incident),
            None => None,
        }
    }

    /// Number of bytes allotted to the slot at `address`.
    pub fn slot_size(&self, address: &[u8; 32]) -> (found: Option<usize>)
        requires
            self.wf(),
        ensures
            match found {
                Some(size) => self@.contains_key(address@) && size == self@[address@].size,
                None => !self@.contains_key(address@),
            },
    {
        match self.position(address) {
            Some(i) => Some(self.slots[i].size),
            None => None,
        }
    }

    /// Adding a consistent slot at a free address inserts it into the map.
    proof fn lemma_push(before: RecordStore, after: RecordStore, slot: Slot)
        requires
            before.wf(),
            after.slots@ == before.slots@.push(slot),
            !before@.contains_key(slot.address@),
            slot_consistent(slot.address@, slot@),
        ensures
            after.wf(),
            after@ == before@.insert(slot.address@, slot@),
    {
        let n = before.slots.len() as int;
        assert forall|i: int, j: int| 0 <= i < j < after.slots.len() implies (
        #[trigger] after.slots[i]).address@ != (#[trigger] after.slots[j]).address@ by {
            if j < n {
                assert(before.slots[i].address@ != before.slots[j].address@);
            } else {
                before.lemma_slot_at(i);
            }
        }
        assert forall|i: int| 0 <= i < after.slots.len() implies slot_consistent(
            (#[trigger] after.slots[i]).address@,
            after.slots[i]@,
        ) by {
            if i < n {
                assert(slot_consistent(before.slots[i].address@, before.slots[i]@));
            }
        }
        assert forall|a: Seq<u8>| #[trigger]
            after@.contains_key(a) <==> before@.insert(slot.address@, slot@).contains_key(a) by {
            if after.holds(a) {
                let i = after.index_of(a);
                if i < n {
                    before.lemma_slot_at(i);
                }
            }
            if before.holds(a) {
                let i = before.index_of(a);
                after.lemma_slot_at(i);
            }
            if a == slot.address@ {
                after.lemma_slot_at(n);
            }
        }
        assert forall|a: Seq<u8>| #[trigger] after@.contains_key(a) implies after@[a]
            == before@.insert(slot.address@, slot@)[a] by {
            let i = after.index_of(a);
            after.lemma_slot_at(i);
            if i < n {
                before.lemma_slot_at(i);
            }
        }
        assert(after@ =~= before@.insert(slot.address@, slot@));
    }

    /// Replacing a slot by a consistent one at the same address replaces it
    /// in the map.
    proof fn lemma_replace(before: RecordStore, after: RecordStore, i: int, slot: Slot)
        requires
            before.wf(),
            0 <= i < before.slots.len(),
            after.slots@ == before.slots@.update(i, slot),
            slot.address@ == before.slots[i].address@,
            slot_consistent(slot.address@, slot@),
        ensures
            after.wf(),
            after@ == before@.insert(slot.address@, slot@),
    {
        assert forall|j: int, k: int| 0 <= j < k < after.slots.len() implies (
        #[trigger] after.slots[j]).address@ != (#[trigger] after.slots[k]).address@ by {
            assert(before.slots[j].address@ != before.slots[k].address@);
        }
        assert forall|j: int| 0 <= j < after.slots.len() implies slot_consistent(
            (#[trigger] after.slots[j]).address@,
            after.slots[j]@,
        ) by {
            if j != i {
                assert(slot_consistent(before.slots[j].address@, before.slots[j]@));
            }
        }
        assert forall|a: Seq<u8>| #[trigger]
            after@.contains_key(a) <==> before@.insert(slot.address@, slot@).contains_key(a) by {
            if after.holds(a) {
                let j = after.index_of(a);
                before.lemma_slot_at(j);
            }
            if before.holds(a) {
                let j = before.index_of(a);
                after.lemma_slot_at(j);
            }
            if a == slot.address@ {
                after.lemma_slot_at(i);
            }
        }
        assert forall|a: Seq<u8>| #[trigger] after@.contains_key(a) implies after@[a]
            == before@.insert(slot.address@, slot@)[a] by {
            let j = after.index_of(a);
            after.lemma_slot_at(j);
            before.lemma_slot_at(j);
        }
        assert(after@ =~= before@.insert(slot.address@, slot@));
    }
}

/// Creates the record `incident_id` of the caller at `address`, the address
/// derived for it, and keeps `bump` with it. It asks that the address and
/// the bump are those that `find_incident_address` gives for the caller and
/// the identifier.
///
/// The fields are validated before anything else, and the first broken
/// constraint is reported. A record that already lives at the address makes
/// the request a duplicate. A rejected request changes nothing. On success
/// the record holds the fields as given, the caller as its reporter and the
/// request's timestamp, in a slot of exactly the size the record needs.
pub fn create_incident_at(
    store: &mut RecordStore,
    address: [u8; 32],
    bump: u8,
    ctx: &CreateIncident,
    incident_id: u64,
    perpetrator_name: String,
    title: String,
    description: String,
    incident_date: String,
    location: String,
    species: u8,
    media_uris: Vec<String>,
) -> (r: Result<(), IncidentError>)
    requires
        old(store).wf(),
        derived_for(ctx.reporter@, incident_id, address@, bump),
    ensures
        final(store).wf(),
        (final(store)@, r) == create_step(
            old(store)@,
            ctx.reporter@,
            ctx.timestamp,
            incident_id,
            (Fields {
                perpetrator_name: perpetrator_name@,
                title: title@,
                description: description@,
                incident_date: incident_date@,
                location: location@,
                species,
                media_uris: texts(media_uris@),
            }),
            address@,
            bump,
        ),
{
    let ghost before = *store;
    let incident = match Incident::create(
        incident_id,
        ctx.reporter,
        ctx.timestamp,
        bump,
        perpetrator_name,
        title,
        description,
        incident_date,
        location,
        species,
        media_uris,
    ) {
        Ok(incident) => incident,
        Err(e) => {
            return Err(e);
        },
    };
    if store.contains(&address) {
        return Err(IncidentError::DuplicateIncident);
    }
    proof {
        lemma_valid_fields_fit(incident@.fields);
    }
    let size = incident.required_space();
    let slot = Slot { address, incident, size };
    store.slots.push(slot);
    proof {
        RecordStore::lemma_push(before, *store, slot);
    }
    Ok(())
}

/// Creates the record `incident_id` of the caller at the address derived
/// from the caller's identity and the identifier, as `create_incident_at`
/// does. It asks that such an address exists; `try_create_incident` asks
/// nothing.
pub fn create_incident(
    store: &mut RecordStore,
    ctx: &CreateIncident,
    incident_id: u64,
    perpetrator_name: String,
    title: String,
    description: String,
    incident_date: String,
    location: String,
    species: u8,
    media_uris: Vec<String>,
) -> (r: Result<(), IncidentError>)
    requires
        old(store).wf(),
        incident_address(ctx.reporter@, incident_id) is Some,
    ensures
        final(store).wf(),
        incident_address(ctx.reporter@, incident_id) matches Some((address, bump)) && (
            final(store)@,
            r,
        ) == create_step(
            old(store)@,
            ctx.reporter@,
            ctx.timestamp,
            incident_id,
            (Fields {
                perpetrator_name: perpetrator_name@,
                title: title@,
                description: description@,
                incident_date: incident_date@,
                location: location@,
                species,
                media_uris: texts(media_uris@),
            }),
            address,
            bump,
        ),
{
    let (address, bump) = find_incident_address(&ctx.reporter, incident_id).unwrap();
    create_incident_at(
        store,
        address,
        bump,
        ctx,
        incident_id,
        perpetrator_name,
        title,
        description,
        incident_date,
        location,
        species,
        media_uris,
    )
}

/// Creates the record `incident_id` of the caller where an address can be
/// derived for it, and answers what `create_incident` answers. Where no
/// address exists for the caller and the identifier, it answers `None` and
/// changes nothing.
pub fn try_create_incident(
    store: &mut RecordStore,
    ctx: &CreateIncident,
    incident_id: u64,
    perpetrator_name: String,
    title: String,
    description: String,
    incident_date: String,
    location: String,
    species: u8,
    media_uris: Vec<String>,
) -> (r: Option<Result<(), IncidentError>>)
    requires
        old(store).wf(),
    ensures
        final(store).wf(),
        match incident_address(ctx.reporter@, incident_id) {
            None => r is None && final(store)@ == old(store)@,
            Some((address, bump)) => r is Some && (final(store)@, r->0) == create_step(
                old(store)@,
                ctx.reporter@,
                ctx.timestamp,
                incident_id,
                (Fields {
                    perpetrator_name: perpetrator_name@,
                    title: title@,
                    description: description@,
                    incident_date: incident_date@,
                    location: location@,
                    species,
                    media_uris: texts(media_uris@),
                }),
                address,
                bump,
            ),
        },
{
    match find_incident_address(&ctx.reporter, incident_id) {
        None => None,
        Some(_) => Some(
            create_incident(
                store,
                ctx,
                incident_id,
                perpetrator_name,
                title,
                description,
                incident_date,
                location,
                species,
                media_uris,
            ),
        ),
    }
}

/// Updates the record at `ctx.incident` at the request of `ctx.reporter`.
/// It asks that a record lives at that address: `RecordStore::contains`
/// tells.
///
/// The caller must be the record's reporter: this is checked before the
/// fields are looked at. Then the fields are validated and the first broken
/// constraint is reported. A rejected request changes nothing. On success
/// the seven replaceable fields are replaced as a whole and the slot is
/// resized to exactly what the new fields need; the identifier, the
/// reporter, the timestamp and the bump stay as they were, and so does every
/// other record.
pub fn update_incident(
    store: &mut RecordStore,
    ctx: &UpdateIncident,
    perpetrator_name: String,
    title: String,
    description: String,
    incident_date: String,
    location: String,
    species: u8,
    media_uris: Vec<String>,
) -> (r: Result<(), IncidentError>)
    requires
        old(store).wf(),
        old(store)@.contains_key(ctx.incident@),
    ensures
        final(store).wf(),
        (final(store)@, r) == update_step(
            old(store)@,
            ctx.incident@,
            ctx.reporter@,
            (Fields {
                perpetrator_name: perpetrator_name@,
                title: title@,
                description: description@,
                incident_date: incident_date@,
                location: location@,
                species,
                media_uris: texts(media_uris@),
            }),
        ),
{
    let ghost before = *store;
    let i = store.position(&ctx.incident).unwrap();
    let slot = &mut store.slots[i];
    let answer = slot.incident.update(
        &ctx.reporter,
        perpetrator_name,
        title,
        description,
        incident_date,
        location,
        species,
        media_uris,
    );
    if answer.is_ok() {
        proof {
            lemma_valid_fields_fit(slot.incident@.fields);
        }
        slot.size = slot.incident.required_space();
    }
    proof {
        if answer is Ok {
            RecordStore::lemma_replace(before, *store, i as int, store.slots[i as int]);
        } else {
            assert(store.slots@ =~= before.slots@);
        }
    }
    answer
}

} // verus!
