use rayon::iter::ParallelIterator;
use crate::errors::WizError;
use vstd::prelude::*;

verus! {

/// A device found on the network: the source address of its response and
/// its hardware identifier, which keys the registry.
#[derive(Clone, Debug)]
pub struct DiscoveredBulb {
    pub ip_address: String,
    pub mac_address: String,
}

impl DiscoveredBulb {
    pub fn new(ip: String, mac: String) -> (r: Self)
        ensures
            r.ip_address == ip,
            r.mac_address == mac,
    {
        Self { ip_address: ip, mac_address: mac }
    }

    /// Both fields hold text: the state of every device the registry accepts.
    pub open spec fn wf(&self) -> bool {
        self.ip_address@.len() > 0 && self.mac_address@.len() > 0
    }
}

/// The map of devices by hardware identifier, held in a `hashbrown` map.
#[verifier::external_body]
pub struct BulbTable {
    map: hashbrown::HashMap<String, DiscoveredBulb>,
}

/// What a table holds: each key's text mapped to its device.
pub uninterp spec fn table_contents(t: BulbTable) -> Map<Seq<char>, DiscoveredBulb>;

/// Relies on `hashbrown::HashMap::new`: a new map holds nothing.
#[verifier::external_body]
fn table_new() -> (r: BulbTable)
    ensures
        table_contents(r).dom().is_empty(),
{
    BulbTable { map: hashbrown::HashMap::new() }
}

/// Relies on `hashbrown::HashMap::insert`: the key now maps to the value,
/// replacing any earlier value, and no other entry changes.
#[verifier::external_body]
fn table_insert(t: &mut BulbTable, k: String, v: DiscoveredBulb)
    ensures
        table_contents(*final(t)) == table_contents(*old(t)).insert(k@, v),
{
    t.map.insert(k, v);
}

/// Relies on `hashbrown::HashMap::get`: the value stored under the key, if any.
#[verifier::external_body]
fn table_get<'a>(t: &'a BulbTable, k: &str) -> (r: Option<&'a DiscoveredBulb>)
    ensures
        match r {
            Some(b) => table_contents(*t).contains_key(k@) && *b == table_contents(*t)[k@],
            None => !table_contents(*t).contains_key(k@),
        },
{
    t.map.get(k)
}

/// Relies on `hashbrown::HashMap::len`: the number of entries.
#[verifier::external_body]
fn table_len(t: &BulbTable) -> (r: usize)
    ensures
        r == table_contents(*t).len(),
{
    t.map.len()
}

/// `r` holds the value of every entry of `m` once: as many values as
/// entries, each the value of an entry, every entry's value present, and two
/// positions holding the values of two different entries.
pub open spec fn lists_entries(m: Map<Seq<char>, DiscoveredBulb>, r: Seq<&DiscoveredBulb>) -> bool {
    &&& r.len() == m.len()
    &&& forall|i: int|
        #![trigger r[i]]
        0 <= i < r.len() ==> exists|k: Seq<char>| #[trigger] m.contains_key(k) && m[k] == *r[i]
    &&& forall|k: Seq<char>|
        #[trigger] m.contains_key(k) ==> exists|i: int| 0 <= i < r.len() && *r[i] == m[k]
    &&& forall|i: int, j: int|
        #![trigger r[i], r[j]]
        0 <= i < j < r.len() ==> exists|k1: Seq<char>, k2: Seq<char>|
            k1 != k2 && m.contains_key(k1) && m.contains_key(k2) && m[k1] == *r[i] && m[k2] == *r[j]
}

/// Relies on `hashbrown::HashMap::par_values` (rayon): the value of every
/// entry once, in no particular order; two positions hold the values of two
/// different entries.
#[verifier::external_body]
fn table_values(t: &BulbTable) -> (r: Vec<&DiscoveredBulb>)
    ensures
        lists_entries(table_contents(*t), r@),
{
    t.map.par_values().collect()
}

impl BulbTable {
    /// The device stored under `mac`, if any.
    pub fn get(&self, mac: &str) -> (r: Option<&DiscoveredBulb>)
        ensures
            r == (if table_contents(*self).contains_key(mac@) {
                Some(&table_contents(*self)[mac@])
            } else {
                None
            }),
    {
        table_get(self, mac)
    }

    /// The number of entries.
    pub fn len(&self) -> (r: usize)
        ensures
            r == table_contents(*self).len(),
    {
        table_len(self)
    }

    /// The stored devices, each entry once, in no particular order.
    pub fn values(&self) -> (r: Vec<&DiscoveredBulb>)
        ensures
            lists_entries(table_contents(*self), r@),
    {
        table_values(self)
    }
}

/// The registry of discovered devices, keyed by hardware identifier.
/// Registering a device whose identifier is already present replaces it.
pub struct BulbRegistry {
    bulbs_by_mac: BulbTable,
}

impl BulbRegistry {
    /// The registered devices by identifier.
    pub closed spec fn view(&self) -> Map<Seq<char>, DiscoveredBulb> {
        table_contents(self.bulbs_by_mac)
    }

    /// Finitely many entries, each stored under its own identifier.
    pub open spec fn wf(&self) -> bool {
        &&& self@.dom().finite()
        &&& forall|k: Seq<char>| #[trigger] self@.contains_key(k) ==> self@[k].mac_address@ == k
    }

    pub fn new() -> (r: Self)
        ensures
            r.wf(),
            r@ == Map::<Seq<char>, DiscoveredBulb>::empty(),
    {
        let r = BulbRegistry { bulbs_by_mac: table_new() };
        assert(r@ =~= Map::<Seq<char>, DiscoveredBulb>::empty());
        r
    }

    /// Inserts the device under its identifier, replacing an earlier entry.
    pub fn register(&mut self, bulb: DiscoveredBulb)
        requires
            old(self).wf(),
        ensures
            final(self).wf(),
            final(self)@ == old(self)@.insert(bulb.mac_address@, bulb),
    {
        let key = bulb.mac_address.clone();
        table_insert(&mut self.bulbs_by_mac, key, bulb);
    }

    /// A snapshot of all registered devices, each once, in no particular order.
    pub fn bulbs(&self) -> (r: Vec<&DiscoveredBulb>)
        requires
            self.wf(),
        ensures
            r@.len() == self@.len(),
            forall|i: int|
                0 <= i < r@.len() ==> #[trigger] self@.contains_key(r@[i].mac_address@)
                    && self@[r@[i].mac_address@] == *r@[i],
            forall|k: Seq<char>|
                #[trigger] self@.contains_key(k) ==> exists|i: int|
                    0 <= i < r@.len() && *r@[i] == self@[k],
            forall|i: int, j: int|
                0 <= i < j < r@.len() ==> (#[trigger] r@[i]).mac_address@ != (
                #[trigger] r@[j]).mac_address@,
    {
        let r = self.bulbs_by_mac.values();
        assert forall|i: int| 0 <= i < r@.len() implies #[trigger] self@.contains_key(
            r@[i].mac_address@,
        ) && self@[r@[i].mac_address@] == *r@[i] by {
            let k = choose|k: Seq<char>|
                #[trigger] self@.contains_key(k) && self@[k] == *r@[i];
            assert(self@[k].mac_address@ == k);
        }
        assert forall|i: int, j: int| 0 <= i < j < r@.len() implies (#[trigger] r@[i]).mac_address@
            != (#[trigger] r@[j]).mac_address@ by {
            let (k1, k2) = choose|k1: Seq<char>, k2: Seq<char>|
                k1 != k2 && self@.contains_key(k1) && self@.contains_key(k2) && self@[k1] == *r@[i]
                    && self@[k2] == *r@[j];
            assert(self@[k1].mac_address@ == k1);
            assert(self@[k2].mac_address@ == k2);
        }
        r
    }

    /// The underlying table.
    pub fn inner(&self) -> (r: &BulbTable)
        ensures
            table_contents(*r) == self@,
    {
        &self.bulbs_by_mac
    }

    /// Gives up the registry for its table.
    pub fn into_inner(self) -> (r: BulbTable)
        ensures
            table_contents(r) == self@,
    {
        self.bulbs_by_mac
    }

    pub fn is_registered(&self, mac: &str) -> (r: bool)
        ensures
            r == self@.contains_key(mac@),
    {
        self.bulbs_by_mac.get(mac).is_some()
    }

    pub fn get(&self, mac: &str) -> (r: Option<&DiscoveredBulb>)
        ensures
            r == (if self@.contains_key(mac@) {
                Some(&self@[mac@])
            } else {
                None
            }),
            self.wf() && r is Some ==> r.unwrap().mac_address@ == mac@,
    {
        self.bulbs_by_mac.get(mac)
    }

    /// The number of registered devices.
    pub fn len(&self) -> (r: usize)
        ensures
            r == self@.len(),
    {
        self.bulbs_by_mac.len()
    }
}

impl Default for BulbRegistry {
    fn default() -> (r: Self)
        ensures
            r.wf(),
            r@.dom().is_empty(),
    {
        Self::new()
    }
}

/// The `result` object of a registration response.
#[derive(Debug, Clone)]
pub struct BulbRegistration {
    pub mac: String,
    pub success: bool,
}

/// A registration response as a device sends it, with the sender's IPv4
/// address attached by the receiver (it is not part of the payload).
#[derive(Debug, Clone)]
pub struct RegistrationMessage {
    pub method: String,
    pub env: String,
    pub result: BulbRegistration,
    pub ip: Option<String>,
}

impl RegistrationMessage {
    /// A sender address is attached and is not empty.
    pub open spec fn has_source(&self) -> bool {
        self.ip matches Some(ip) && ip@.len() > 0
    }

    /// The device the response describes. Refused when the device refused
    /// the registration, else when no sender address is attached, else when
    /// the hardware identifier is empty.
    pub fn try_into(self) -> (r: Result<DiscoveredBulb, WizError>)
        ensures
            !self.result.success ==> r == Err::<DiscoveredBulb, WizError>(WizError::RegErr(self)),
            self.result.success && !self.has_source() ==> r == Err::<DiscoveredBulb, WizError>(
                WizError::NoIP(self),
            ),
            self.result.success && self.has_source() && self.result.mac@.len() == 0 ==> r
                == Err::<DiscoveredBulb, WizError>(WizError::NoMac(self)),
            self.result.success && self.has_source() && self.result.mac@.len() > 0 ==> r
                == Ok::<DiscoveredBulb, WizError>(
                DiscoveredBulb { ip_address: self.ip.unwrap(), mac_address: self.result.mac },
            ),
            r matches Ok(b) ==> b.wf(),
    {
        if !self.result.success {
            return Err(WizError::RegErr(self));
        }
        let has_ip = match &self.ip {
            Some(ip) => !ip.as_str().is_empty(),
            None => false,
        };
        if !has_ip {
            return Err(WizError::NoIP(self));
        }
        if self.result.mac.as_str().is_empty() {
            return Err(WizError::NoMac(self));
        }
        let RegistrationMessage { ip, result, .. } = self;
        Ok(DiscoveredBulb { ip_address: ip.unwrap(), mac_address: result.mac })
    }
}

} // verus!
