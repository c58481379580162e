use rand::rngs::OsRng;
use rand::seq::SliceRandom;
use vstd::prelude::*;

verus! {

/// The port devices answer on.
pub const RESPOND_PORT: u16 = 38899;

/// The port this host listens on for pushed updates.
pub const LISTEN_PORT: u16 = 38900;

/// A lower-case hexadecimal digit.
pub open spec fn is_hex_lower(c: char) -> bool {
    ('0' <= c && c <= '9') || ('a' <= c && c <= 'f')
}

/// The parameters of a push registration: this host's address, whether to
/// register, and the hardware identifier this host announces.
#[derive(Debug)]
pub struct RegParams {
    pub phone_ip: String,
    pub register: bool,
    pub phone_mac: String,
}

impl RegParams {
    pub fn new(phone_ip: String, register: bool, phone_mac: String) -> (r: Self)
        ensures
            r.phone_ip == phone_ip,
            r.register == register,
            r.phone_mac == phone_mac,
    {
        Self { phone_ip, register, phone_mac }
    }
}

/// The message that asks a device to push its state changes to this host.
#[derive(Debug)]
pub struct PushRegisterMessage {
    pub params: RegParams,
    pub method: String,
}

impl PushRegisterMessage {
    /// A registration from this host's address `local_ip`, announcing
    /// `phone_mac`.
    pub fn with_mac(local_ip: String, phone_mac: String) -> (r: Self)
        ensures
            r.params.phone_ip == local_ip,
            r.params.register,
            r.params.phone_mac == phone_mac,
            r.method@ == "registration"@,
    {
        let params = RegParams::new(local_ip, true, phone_mac);
        Self { params, method: String::from_str("registration") }
    }

    /// A registration from this host's address `local_ip`, announcing a
    /// fresh random identifier.
    pub fn new(local_ip: String) -> (r: Self)
        ensures
            r.params.phone_ip == local_ip,
            r.params.register,
            r.method@ == "registration"@,
            r.params.phone_mac@.len() == 12,
            forall|i: int|
                0 <= i < r.params.phone_mac@.len() ==> is_hex_lower(#[trigger] r.params.phone_mac@[i]),
    {
        Self::with_mac(local_ip, gen_mac())
    }
}

/// The sixteen lower-case hexadecimal digits, one per string, in order.
pub fn mac_chars() -> (r: Vec<String>)
    ensures
        r@.len() == 16,
        forall|i: int| 0 <= i < 16 ==> (#[trigger] r@[i])@.len() == 1 && is_hex_lower(r@[i]@[0]),
        forall|i: int, j: int| 0 <= i < j < 16 ==> (#[trigger] r@[i])@[0] != (#[trigger] r@[j])@[0],
{
    let hex = "0123456789abcdef";
    proof {
        reveal_strlit("0123456789abcdef");
    }
    let mut r: Vec<String> = Vec::new();
    let mut i: usize = 0;
    while i < 16
        invariant
            hex@ == "0123456789abcdef"@,
            hex@.len() == 16,
            i <= 16,
            r@.len() == i,
            forall|k: int| 0 <= k < i ==> (#[trigger] r@[k])@ == hex@.subrange(k, k + 1),
        decreases 16 - i,
    {
        r.push(String::from_str(hex.substring_char(i, i + 1)));
        i = i + 1;
    }
    assert forall|i: int| 0 <= i < 16 implies (#[trigger] r@[i])@.len() == 1 && is_hex_lower(
        r@[i]@[0],
    ) && r@[i]@[0] == hex@[i] by {
        assert(r@[i]@[0] == hex@.subrange(i, i + 1)[0]);
    }
    r
}

/// Relies on rand's `SliceRandom::choose_multiple` with the operating
/// system's generator: `amount` elements of `pool` (all of them when it
/// holds fewer), each position of `pool` taken at most once.
#[verifier::external_body]
fn choose_distinct(pool: &Vec<String>, amount: usize) -> (r: Vec<String>)
    ensures
        r@.len() == (if amount <= pool@.len() {
            amount as int
        } else {
            pool@.len() as int
        }),
        forall|i: int|
            #![trigger r@[i]]
            0 <= i < r@.len() ==> exists|j: int| 0 <= j < pool@.len() && r@[i] == pool@[j],
        forall|i: int, k: int|
            #![trigger r@[i], r@[k]]
            0 <= i < k < r@.len() ==> exists|j1: int, j2: int|
                0 <= j1 < pool@.len() && 0 <= j2 < pool@.len() && j1 != j2 && r@[i] == pool@[j1]
                    && r@[k] == pool@[j2],
{
    pool.choose_multiple(&mut OsRng, amount).cloned().collect()
}

/// A random hardware identifier: twelve different lower-case hexadecimal
/// digits.
pub fn gen_mac() -> (r: String)
    ensures
        r@.len() == 12,
        forall|i: int| 0 <= i < r@.len() ==> is_hex_lower(#[trigger] r@[i]),
        forall|i: int, k: int| 0 <= i < k < r@.len() ==> (#[trigger] r@[i]) != (#[trigger] r@[k]),
{
    let pool = mac_chars();
    let picks = choose_distinct(&pool, 12);
    let mac = join_digits(&picks);
    proof {
        assert forall|i: int| 0 <= i < picks@.len() implies (#[trigger] picks@[i])@.len() == 1 by {
            let j = choose|j: int| 0 <= j < pool@.len() && picks@[i] == pool@[j];
        }
        lemma_concat_singles(picks@);
    }
    assert forall|i: int| 0 <= i < mac@.len() implies is_hex_lower(#[trigger] mac@[i]) by {
        assert(mac@[i] == picks@[i]@[0]);
        let j = choose|j: int| 0 <= j < pool@.len() && picks@[i] == pool@[j];
        assert(is_hex_lower(pool@[j]@[0]));
    }
    assert forall|i: int, k: int| 0 <= i < k < mac@.len() implies (#[trigger] mac@[i]) != (
    #[trigger] mac@[k]) by {
        assert(mac@[i] == picks@[i]@[0]);
        assert(mac@[k] == picks@[k]@[0]);
        let (j1, j2) = choose|j1: int, j2: int|
            0 <= j1 < pool@.len() && 0 <= j2 < pool@.len() && j1 != j2 && picks@[i] == pool@[j1]
                && picks@[k] == pool@[j2];
        if j1 < j2 {
            assert(pool@[j1]@[0] != pool@[j2]@[0]);
        } else {
            assert(pool@[j2]@[0] != pool@[j1]@[0]);
        }
    }
    mac
}

/// The strings of `s` written one after another.
pub open spec fn concat_all(s: Seq<String>) -> Seq<char>
    decreases s.len(),
{
    if s.len() == 0 {
        Seq::empty()
    } else {
        concat_all(s.drop_last()) + s.last()@
    }
}

/// Strings of one character each concatenate to those characters, in order.
pub proof fn lemma_concat_singles(s: Seq<String>)
    requires
        forall|i: int| 0 <= i < s.len() ==> (#[trigger] s[i])@.len() == 1,
    ensures
        concat_all(s).len() == s.len(),
        forall|k: int| 0 <= k < s.len() ==> concat_all(s)[k] == (#[trigger] s[k])@[0],
    decreases s.len(),
{
    if s.len() > 0 {
        let init = s.drop_last();
        assert forall|i: int| 0 <= i < init.len() implies (#[trigger] init[i])@.len() == 1 by {
            assert(init[i] == s[i]);
        }
        lemma_concat_singles(init);
        assert(s[s.len() - 1]@.len() == 1);
        assert forall|k: int| 0 <= k < s.len() implies concat_all(s)[k] == (#[trigger] s[k])@[0] by {
            if k < s.len() - 1 {
                assert(init[k] == s[k]);
            }
        }
    }
}

/// The strings of `picks` joined with nothing between them.
pub fn join_digits(picks: &Vec<String>) -> (r: String)
    ensures
        r@ == concat_all(picks@),
{
    let mut joined = String::new();
    let mut i: usize = 0;
    while i < picks.len()
        invariant
            i <= picks@.len(),
            joined@ == concat_all(picks@.subrange(0, i as int)),
        decreases picks@.len() - i,
    {
        assert(picks@.subrange(0, i + 1).drop_last() =~= picks@.subrange(0, i as int));
        joined.append(picks[i].as_str());
        i = i + 1;
    }
    assert(picks@.subrange(0, picks@.len() as int) =~= picks@);
    joined
}

} // verus!
