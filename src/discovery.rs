use crate::errors::WizError;
use crate::models::{BulbRegistry, DiscoveredBulb, RegistrationMessage};
use vstd::prelude::*;

verus! {

/// The port devices listen on, and the one the probe is sent to by default.
pub const PORT: u16 = 38899;

/// The default length of the listening window, in milliseconds.
pub const DEFAULT_WAIT_MS: u64 = 5000;

/// The size of the buffer each datagram is read into; longer ones are cut.
pub const RECV_BUFFER_LEN: usize = 1024;

/// The IPv4 limited-broadcast address, 255.255.255.255, as a number.
pub const BROADCAST_IP: u32 = 0xffff_ffff;

/// The probe that asks every device on the segment to register.
pub const REGISTER_MESSAGE: &'static str =
    "{\"method\":\"registration\",\"params\":{\"phoneMac\":\"AAAAAAAAAAAA\",\"register\":false,\"phoneIp\":\"1.2.3.4\",\"id\":\"1\"}}";

/// An IPv4 socket address: the address as a big-endian number, and a port.
#[derive(Clone, Copy, Debug, PartialEq, Eq, Structural)]
pub struct Endpoint {
    pub ip: u32,
    pub port: u16,
}

/// The stage a discovery pass has reached.
#[derive(Clone, Copy, Debug, PartialEq, Eq, Structural)]
pub enum Phase {
    /// Set up; the probe is not sent yet.
    Idle,
    /// The probe is out; responses are being collected.
    Probing,
    /// The window has closed, or the transport failed.
    Complete,
}

/// What the driver of a pass does next.
#[derive(Clone, Copy, Debug, PartialEq, Eq, Structural)]
pub enum Action {
    /// Send the probe to this address, then start the clock of the window.
    Send { target: Endpoint },
    /// Wait at most this long for the next datagram.
    Receive { timeout_ms: u64 },
    /// The pass is over, with this many devices registered.
    Done { devices: usize },
}

/// What became of one received datagram.
#[derive(Debug)]
pub enum Verdict {
    /// It came while no pass was collecting.
    Late,
    /// Its sender has no IPv4 address.
    NotIpv4,
    /// It came from one of this host's own addresses.
    OwnAddress,
    /// Its payload is not a registration response.
    Malformed,
    /// The response does not describe a device that can be registered.
    Refused(WizError),
    /// The device with this hardware identifier was registered.
    Registered(String),
}

/// The state of one discovery pass: the registry it fills, where the probe
/// goes, this host's own addresses, and the length of the window.
pub struct BroadcastProtocol {
    pub reg: BulbRegistry,
    broadcast_addr: Endpoint,
    local_addrs: Vec<String>,
    wait_ms: u64,
    phase: Phase,
}

/// The response `m` with the sender's address attached.
pub open spec fn with_source(m: RegistrationMessage, sender: String) -> RegistrationMessage {
    RegistrationMessage { method: m.method, env: m.env, result: m.result, ip: Some(sender) }
}

/// The device a datagram describes, when its sender has an address and its
/// payload is a successful registration with a hardware identifier.
pub open spec fn accepted_device(sender: Option<String>, payload: Option<RegistrationMessage>) -> Option<
    DiscoveredBulb,
> {
    match sender {
        Some(s) => match payload {
            Some(m) => if m.result.success && s@.len() > 0 && m.result.mac@.len() > 0 {
                Some(DiscoveredBulb { ip_address: s, mac_address: m.result.mac })
            } else {
                None
            },
            None => None,
        },
        None => None,
    }
}

/// The registry after a collecting pass has handled one datagram: the
/// datagram's device is added unless it came from one of `locals`.
pub open spec fn registry_after(
    reg: Map<Seq<char>, DiscoveredBulb>,
    locals: Seq<Seq<char>>,
    sender: Option<String>,
    payload: Option<RegistrationMessage>,
) -> Map<Seq<char>, DiscoveredBulb> {
    if sender is Some && locals.contains(sender.unwrap()@) {
        reg
    } else {
        match accepted_device(sender, payload) {
            Some(b) => reg.insert(b.mac_address@, b),
            None => reg,
        }
    }
}

/// Where the probe goes: the address asked for, or the limited broadcast
/// address on the devices' port.
pub open spec fn target_for(addr: Option<Endpoint>) -> Endpoint {
    match addr {
        Some(a) => a,
        None => Endpoint { ip: BROADCAST_IP, port: PORT },
    }
}

impl BroadcastProtocol {
    /// The registered devices by identifier.
    pub closed spec fn registry(&self) -> Map<Seq<char>, DiscoveredBulb> {
        self.reg@
    }

    pub closed spec fn phase(&self) -> Phase {
        self.phase
    }

    pub closed spec fn target(&self) -> Endpoint {
        self.broadcast_addr
    }

    pub closed spec fn wait_ms(&self) -> u64 {
        self.wait_ms
    }

    /// This host's own addresses, as text.
    pub closed spec fn local_addresses(&self) -> Seq<Seq<char>> {
        self.local_addrs@.map_values(|a: String| a@)
    }

    pub closed spec fn wf(&self) -> bool {
        self.reg.wf()
    }

    /// A pass in its idle stage with the default window.
    pub fn new(addr: Option<Endpoint>, local_addrs: Vec<String>) -> (r: Self)
        ensures
            r.wf(),
            r.phase() == Phase::Idle,
            r.target() == target_for(addr),
            r.wait_ms() == DEFAULT_WAIT_MS,
            r.local_addresses() == local_addrs@.map_values(|a: String| a@),
            r.registry().dom().is_empty(),
    {
        Self::with_wait_time(addr, local_addrs, DEFAULT_WAIT_MS)
    }

    /// A pass in its idle stage with a window of `wait_ms` milliseconds.
    pub fn with_wait_time(addr: Option<Endpoint>, local_addrs: Vec<String>, wait_ms: u64) -> (r:
        Self)
        ensures
            r.wf(),
            r.phase() == Phase::Idle,
            r.target() == target_for(addr),
            r.wait_ms() == wait_ms,
            r.local_addresses() == local_addrs@.map_values(|a: String| a@),
            r.registry().dom().is_empty(),
    {
        let broadcast_addr = match addr {
            Some(a) => a,
            None => Endpoint { ip: BROADCAST_IP, port: PORT },
        };
        BroadcastProtocol {
            reg: BulbRegistry::new(),
            broadcast_addr,
            local_addrs,
            wait_ms,
            phase: Phase::Idle,
        }
    }

    /// The registry the pass fills.
    pub fn bulb_registry(&self) -> (r: &BulbRegistry)
        ensures
            r@ == self.registry(),
            self.wf() ==> r.wf(),
    {
        &self.reg
    }

    pub fn current_phase(&self) -> (r: Phase)
        ensures
            r == self.phase(),
    {
        self.phase
    }

    /// Whether `sender` is one of this host's own addresses, by text.
    pub fn is_local(&self, sender: &String) -> (r: bool)
        ensures
            r == self.local_addresses().contains(sender@),
    {
        let n = self.local_addrs.len();
        let mut i: usize = 0;
        while i < n
            invariant
                n == self.local_addrs@.len(),
                i <= n,
                forall|j: int| 0 <= j < i ==> self.local_addrs@[j]@ != sender@,
            decreases n - i,
        {
            if self.local_addrs[i] == *sender {
                assert(self.local_addresses()[i as int] == sender@);
                return true;
            }
            i = i + 1;
        }
        assert(!self.local_addresses().contains(sender@)) by {
            if self.local_addresses().contains(sender@) {
                let j = choose|j: int|
                    0 <= j < self.local_addresses().len() && self.local_addresses()[j] == sender@;
                assert(self.local_addrs@[j]@ == sender@);
            }
        }
        false
    }

    /// The next step of the pass, `elapsed_ms` after the probe was sent.
    /// An idle pass sends the probe. A collecting pass waits for the rest of
    /// the window, and closes once the window has run out, however many or
    /// few responses came. A closed pass stays closed: it never probes again.
    pub fn next_action(&mut self, elapsed_ms: u64) -> (r: Action)
        ensures
            final(self).registry() == old(self).registry(),
            final(self).wf() == old(self).wf(),
            final(self).target() == old(self).target(),
            final(self).wait_ms() == old(self).wait_ms(),
            final(self).local_addresses() == old(self).local_addresses(),
            old(self).phase() == Phase::Idle ==> r == (Action::Send { target: old(self).target() })
                && final(self).phase() == Phase::Probing,
            old(self).phase() == Phase::Probing && elapsed_ms < old(self).wait_ms() ==> r == (
            Action::Receive { timeout_ms: (old(self).wait_ms() - elapsed_ms) as u64 })
                && final(self).phase() == Phase::Probing,
            old(self).phase() == Phase::Probing && elapsed_ms >= old(self).wait_ms() ==> r == (
            Action::Done { devices: old(self).registry().len() as usize }) && final(self).phase()
                == Phase::Complete,
            old(self).phase() == Phase::Complete ==> r == (Action::Done {
                devices: old(self).registry().len() as usize,
            }) && final(self).phase() == Phase::Complete,
            r is Receive ==> elapsed_ms + r->timeout_ms == old(self).wait_ms(),
    {
        match self.phase {
            Phase::Idle => {
                self.phase = Phase::Probing;
                Action::Send { target: self.broadcast_addr }
            },
            Phase::Probing => {
                if elapsed_ms < self.wait_ms {
                    Action::Receive { timeout_ms: self.wait_ms - elapsed_ms }
                } else {
                    self.phase = Phase::Complete;
                    Action::Done { devices: self.reg.len() }
                }
            },
            Phase::Complete => Action::Done { devices: self.reg.len() },
        }
    }

    /// Handles one datagram of the window: `sender` is the IPv4 address it
    /// came from, if it came from one, and `payload` its content, if that
    /// reads as a registration response. A device is registered only while
    /// the pass collects, only from a foreign sender, and only when the
    /// response, with the sender's address attached, converts to a device.
    /// Nothing that a datagram holds ends the pass.
    pub fn handle_datagram(&mut self, sender: Option<String>, payload: Option<RegistrationMessage>) -> (r:
        Verdict)
        requires
            old(self).wf(),
        ensures
            final(self).wf(),
            final(self).phase() == old(self).phase(),
            final(self).target() == old(self).target(),
            final(self).wait_ms() == old(self).wait_ms(),
            final(self).local_addresses() == old(self).local_addresses(),
            !(r is Registered) ==> final(self).registry() == old(self).registry(),
            old(self).phase() == Phase::Probing ==> final(self).registry() == registry_after(
                old(self).registry(),
                old(self).local_addresses(),
                sender,
                payload,
            ),
            old(self).phase() != Phase::Probing ==> r is Late,
            old(self).phase() == Phase::Probing && sender is None ==> r is NotIpv4,
            old(self).phase() == Phase::Probing && sender is Some && old(self).local_addresses().contains(
                sender.unwrap()@,
            ) ==> r is OwnAddress,
            old(self).phase() == Phase::Probing && sender is Some && !old(self).local_addresses().contains(
                sender.unwrap()@,
            ) ==> {
                let m = with_source(payload.unwrap(), sender.unwrap());
                &&& payload is None ==> r is Malformed
                &&& payload is Some && !m.result.success ==> r == Verdict::Refused(WizError::RegErr(m))
                &&& payload is Some && m.result.success && !m.has_source() ==> r == Verdict::Refused(
                    WizError::NoIP(m),
                )
                &&& payload is Some && m.result.success && m.has_source() && m.result.mac@.len() == 0
                    ==> r == Verdict::Refused(WizError::NoMac(m))
                &&& payload is Some && m.result.success && m.has_source() && m.result.mac@.len() > 0
                    ==> r == Verdict::Registered(m.result.mac) && final(self).registry()
                    == old(self).registry().insert(
                    m.result.mac@,
                    DiscoveredBulb { ip_address: sender.unwrap(), mac_address: m.result.mac },
                )
            },
    {
        match self.phase {
            Phase::Probing => {},
            _ => return Verdict::Late,
        }
        let source = match sender {
            Some(s) => s,
            None => return Verdict::NotIpv4,
        };
        if self.is_local(&source) {
            return Verdict::OwnAddress;
        }
        let m = match payload {
            Some(m) => m,
            None => return Verdict::Malformed,
        };
        let msg = RegistrationMessage { method: m.method, env: m.env, result: m.result, ip: Some(source) };
        match msg.try_into() {
            Ok(bulb) => {
                let mac = bulb.mac_address.clone();
                self.reg.register(bulb);
                Verdict::Registered(mac)
            },
            Err(e) => Verdict::Refused(e),
        }
    }

    /// Closes the pass after a failure of the transport.
    pub fn abort(&mut self)
        ensures
            final(self).registry() == old(self).registry(),
            final(self).wf() == old(self).wf(),
            final(self).target() == old(self).target(),
            final(self).wait_ms() == old(self).wait_ms(),
            final(self).local_addresses() == old(self).local_addresses(),
            final(self).phase() == Phase::Complete,
    {
        self.phase = Phase::Complete;
    }
}

/// Registering two devices with the same hardware identifier leaves one
/// entry for it, holding the device registered last.
pub proof fn lemma_last_write_wins(
    reg: Map<Seq<char>, DiscoveredBulb>,
    first: DiscoveredBulb,
    second: DiscoveredBulb,
)
    requires
        first.mac_address@ == second.mac_address@,
    ensures
        reg.insert(first.mac_address@, first).insert(second.mac_address@, second) == reg.insert(
            second.mac_address@,
            second,
        ),
        reg.insert(first.mac_address@, first).insert(second.mac_address@, second)[second.mac_address@]
            == second,
        reg.insert(first.mac_address@, first).insert(second.mac_address@, second).dom() == reg.dom().insert(
            second.mac_address@,
        ),
{
    assert(reg.insert(first.mac_address@, first).insert(second.mac_address@, second) =~= reg.insert(
        second.mac_address@,
        second,
    ));
}

/// A datagram from one of this host's own addresses registers nothing,
/// whatever its payload.
pub proof fn lemma_own_address_ignored(
    reg: Map<Seq<char>, DiscoveredBulb>,
    locals: Seq<Seq<char>>,
    sender: String,
    payload: Option<RegistrationMessage>,
)
    requires
        locals.contains(sender@),
    ensures
        registry_after(reg, locals, Some(sender), payload) == reg,
{
}

/// A response whose device refused the registration adds no entry.
pub proof fn lemma_refusal_registers_nothing(
    reg: Map<Seq<char>, DiscoveredBulb>,
    locals: Seq<Seq<char>>,
    sender: Option<String>,
    m: RegistrationMessage,
)
    requires
        !m.result.success,
    ensures
        registry_after(reg, locals, sender, Some(m)) == reg,
{
}

/// A datagram whose payload is not a registration response changes nothing,
/// and a valid response from a foreign sender that follows it in the same
/// window is still registered.
pub proof fn lemma_malformed_then_valid(
    reg: Map<Seq<char>, DiscoveredBulb>,
    locals: Seq<Seq<char>>,
    first_sender: Option<String>,
    sender: String,
    m: RegistrationMessage,
)
    requires
        !locals.contains(sender@),
        sender@.len() > 0,
        m.result.success,
        m.result.mac@.len() > 0,
    ensures
        registry_after(reg, locals, first_sender, None) == reg,
        registry_after(registry_after(reg, locals, first_sender, None), locals, Some(sender), Some(m))
            == reg.insert(
            m.result.mac@,
            DiscoveredBulb { ip_address: sender, mac_address: m.result.mac },
        ),
{
}

} // verus!
