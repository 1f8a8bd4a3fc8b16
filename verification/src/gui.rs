use vstd::prelude::*;

use std::collections::{HashMap, HashSet};

use crate::text::{numbered, spec_decimal};

verus! {

broadcast use vstd::std_specs::hash::group_hash_axioms;

/// A device id as the engine reports it.
pub type DeviceId = i64;

/// A player's place in the versus setup, with the devices assigned to it.
pub struct PlayerSlot {
    pub name: String,
    pub devices: HashSet<DeviceId>,
}

impl PlayerSlot {
    /// A slot called `name` with no devices.
    pub fn new(name: String) -> (r: Self)
        ensures
            r.name@ == name@,
            r.devices@ == Set::<DeviceId>::empty(),
    {
        PlayerSlot { name, devices: HashSet::new() }
    }

    /// Takes the device `id` away from the slot.
    pub fn remove_device(&mut self, id: DeviceId)
        ensures
            final(self).devices@ == old(self).devices@.remove(id),
            final(self).name == old(self).name,
    {
        self.devices.remove(&id);
    }
}

/// The name of the slot with index `index`: "P" and the index.
pub open spec fn spec_slot_name(index: usize) -> Seq<char> {
    "P"@ + spec_decimal(index as nat)
}

/// The devices that are connected, each with the slot it is assigned to (if any), and the
/// player slots by index.
pub struct VersusSetupController {
    pub connected_devices: HashMap<DeviceId, Option<usize>>,
    pub slots: HashMap<usize, PlayerSlot>,
}

impl VersusSetupController {
    /// Whether taking the device `id` from its slot finds that slot.
    pub open spec fn slot_of_exists(&self, id: DeviceId) -> bool {
        self.connected_devices@.contains_key(id) && self.connected_devices@[id] is Some
            ==> self.slots@.contains_key(self.connected_devices@[id]->0)
    }

    /// A setup with `slots` empty slots named "P0", "P1", …, and the joypads `joypads`
    /// connected but not assigned.
    pub fn new(slots: usize, joypads: &Vec<DeviceId>) -> (r: Self)
        ensures
            r.connected_devices@ == Map::new(
                |k: DeviceId| joypads@.contains(k),
                |k: DeviceId| None::<usize>,
            ),
            r.slots@.dom() == Set::new(|k: usize| k < slots),
            forall|k: usize|
                k < slots ==> (#[trigger] r.slots@[k]).name@ == spec_slot_name(k)
                    && r.slots@[k].devices@ == Set::<DeviceId>::empty(),
    {
        let mut connected_devices: HashMap<DeviceId, Option<usize>> = HashMap::new();
        let mut i: usize = 0;
        while i < joypads.len()
            invariant
                0 <= i <= joypads@.len(),
                connected_devices@ == Map::new(
                    |k: DeviceId| joypads@.subrange(0, i as int).contains(k),
                    |k: DeviceId| None::<usize>,
                ),
            decreases joypads@.len() - i,
        {
            let id = joypads[i];
            connected_devices.insert(id, None);
            proof {
                let prefix = joypads@.subrange(0, i as int);
                let next = joypads@.subrange(0, i + 1);
                assert(next =~= prefix.push(id));
                assert forall|k: DeviceId| next.contains(k) <==> (prefix.contains(k) || k == id) by {
                    if next.contains(k) {
                        let j = choose|j: int| 0 <= j < next.len() && next[j] == k;
                        if j < i {
                            assert(prefix[j] == k);
                        }
                    }
                    if prefix.contains(k) {
                        let j = choose|j: int| 0 <= j < prefix.len() && prefix[j] == k;
                        assert(next[j] == k);
                    }
                    if k == id {
                        assert(next[i as int] == k);
                    }
                }
                assert(connected_devices@ =~= Map::new(
                    |k: DeviceId| next.contains(k),
                    |k: DeviceId| None::<usize>,
                ));
            }
            i = i + 1;
        }
        assert(joypads@.subrange(0, joypads@.len() as int) =~= joypads@);
        let mut slot_map: HashMap<usize, PlayerSlot> = HashMap::new();
        let mut index: usize = 0;
        while index < slots
            invariant
                0 <= index <= slots,
                slot_map@.dom() == Set::new(|k: usize| k < index),
                forall|k: usize|
                    k < index ==> (#[trigger] slot_map@[k]).name@ == spec_slot_name(k)
                        && slot_map@[k].devices@ == Set::<DeviceId>::empty(),
            decreases slots - index,
        {
            let name = numbered("P", "", index);
            proof {
                reveal_strlit("");
                assert("P"@ + ""@ =~= "P"@);
            }
            slot_map.insert(index, PlayerSlot::new(name));
            assert(slot_map@.dom() =~= Set::new(|k: usize| k < index + 1));
            index = index + 1;
        }
        VersusSetupController { connected_devices, slots: slot_map }
    }

    /// A device was connected; it is not assigned to a slot.
    pub fn add_device(&mut self, id: DeviceId)
        ensures
            final(self).connected_devices@ == old(self).connected_devices@.insert(id, None),
            final(self).slots == old(self).slots,
    {
        self.connected_devices.insert(id, None);
    }

    /// Takes the device `id` out of the slot `slot`.
    fn release_from_slot(&mut self, slot: usize, id: DeviceId)
        requires
            old(self).slots@.contains_key(slot),
        ensures
            final(self).connected_devices == old(self).connected_devices,
            final(self).slots@.dom() == old(self).slots@.dom(),
            final(self).slots@[slot].devices@ == old(self).slots@[slot].devices@.remove(id),
            final(self).slots@[slot].name == old(self).slots@[slot].name,
            forall|k: usize| k != slot ==> #[trigger] final(self).slots@[k] == old(self).slots@[k],
    {
        match self.slots.remove(&slot) {
            Some(mut p) => {
                p.remove_device(id);
                self.slots.insert(slot, p);
                assert(self.slots@.dom() =~= old(self).slots@.dom());
            },
            None => {},
        }
    }

    /// A device was disconnected: it is forgotten and taken out of its slot, if it had one.
    pub fn remove_device(&mut self, id: DeviceId)
        requires
            old(self).slot_of_exists(id),
        ensures
            final(self).connected_devices@ == old(self).connected_devices@.remove(id),
            final(self).slots@.dom() == old(self).slots@.dom(),
            forall|k: usize|
                #[trigger] final(self).slots@[k] == old(self).slots@[k] || (old(
                    self,
                ).connected_devices@.contains_key(id) && old(self).connected_devices@[id] == Some(k)
                    && final(self).slots@[k].name == old(self).slots@[k].name
                    && final(self).slots@[k].devices@ == old(self).slots@[k].devices@.remove(id)),
            old(self).connected_devices@.contains_key(id) && old(self).connected_devices@[id] is Some
                ==> final(self).slots@[old(self).connected_devices@[id]->0].devices@ == old(
                self,
            ).slots@[old(self).connected_devices@[id]->0].devices@.remove(id),
    {
        if let Some(Some(slot)) = self.connected_devices.remove(&id) {
            self.release_from_slot(slot, id);
        }
    }

    /// Assigns the device `device` to `slot` (or to none), taking it out of the slot it had.
    pub fn set_device_slot(&mut self, device: DeviceId, slot: Option<usize>)
        requires
            old(self).slot_of_exists(device),
        ensures
            final(self).connected_devices@ == old(self).connected_devices@.insert(device, slot),
            final(self).slots@.dom() == old(self).slots@.dom(),
            forall|k: usize|
                #[trigger] final(self).slots@[k] == old(self).slots@[k] || (old(
                    self,
                ).connected_devices@.contains_key(device) && old(self).connected_devices@[device]
                    == Some(k) && final(self).slots@[k].name == old(self).slots@[k].name
                    && final(self).slots@[k].devices@ == old(self).slots@[k].devices@.remove(device)),
            old(self).connected_devices@.contains_key(device) && old(self).connected_devices@[device] is Some
                ==> final(self).slots@[old(self).connected_devices@[device]->0].devices@ == old(
                self,
            ).slots@[old(self).connected_devices@[device]->0].devices@.remove(device),
    {
        let old_slot = match self.connected_devices.get(&device) {
            Some(s) => *s,
            None => None,
        };
        if let Some(old_slot) = old_slot {
            self.release_from_slot(old_slot, device);
        }
        self.connected_devices.insert(device, slot);
    }
}

} // verus!
