use crate::errors::WizError;
use crate::text::{contains_seq, contains_text, find_char_from, first_index_from};
use rayon::slice::ParallelSliceMut;
use vstd::prelude::*;

verus! {

/// What a device can do, with the metadata it reported.
#[derive(Debug, Default)]
pub struct Features {
    pub color: bool,
    pub color_tmp: bool,
    pub effect: bool,
    pub brightness: bool,
    pub dual_head: bool,
    pub name: String,
    pub kelvin_range: Option<KelvinRange>,
    pub fw_version: Option<String>,
    pub white_channels: Option<i64>,
    pub white_to_color_ratio: Option<i64>,
}

impl Features {
    /// The other fields, as given.
    pub open spec fn keeps(
        &self,
        name: String,
        fw_version: Option<String>,
        effect: bool,
        dual_head: bool,
        white_channels: Option<i64>,
        white_to_color_ratio: Option<i64>,
        kelvin_range: Option<KelvinRange>,
    ) -> bool {
        &&& self.name == name
        &&& self.fw_version == fw_version
        &&& self.effect == effect
        &&& self.dual_head == dual_head
        &&& self.white_channels == white_channels
        &&& self.white_to_color_ratio == white_to_color_ratio
        &&& self.kelvin_range == kelvin_range
    }

    /// Features of a colour device: colour, colour temperature, brightness.
    pub fn rgb_new(
        name: String,
        fw_version: Option<String>,
        effect: bool,
        dual_head: bool,
        white_channels: Option<i64>,
        white_to_color_ratio: Option<i64>,
        kelvin_range: Option<KelvinRange>,
    ) -> (r: Self)
        ensures
            r.color && r.color_tmp && r.brightness,
            r.keeps(
                name,
                fw_version,
                effect,
                dual_head,
                white_channels,
                white_to_color_ratio,
                kelvin_range,
            ),
    {
        Self {
            color: true,
            color_tmp: true,
            brightness: true,
            name,
            fw_version,
            effect,
            dual_head,
            white_channels,
            white_to_color_ratio,
            kelvin_range,
        }
    }

    /// Features of a tunable-white device: colour temperature, brightness.
    pub fn tw_new(
        name: String,
        fw_version: Option<String>,
        effect: bool,
        dual_head: bool,
        white_channels: Option<i64>,
        white_to_color_ratio: Option<i64>,
        kelvin_range: Option<KelvinRange>,
    ) -> (r: Self)
        ensures
            !r.color && r.color_tmp && r.brightness,
            r.keeps(
                name,
                fw_version,
                effect,
                dual_head,
                white_channels,
                white_to_color_ratio,
                kelvin_range,
            ),
    {
        Self {
            color: false,
            color_tmp: true,
            brightness: true,
            name,
            fw_version,
            effect,
            dual_head,
            white_channels,
            white_to_color_ratio,
            kelvin_range,
        }
    }

    /// Features of a dimmable-white device: brightness only.
    pub fn dw_new(
        name: String,
        fw_version: Option<String>,
        effect: bool,
        dual_head: bool,
        white_channels: Option<i64>,
        white_to_color_ratio: Option<i64>,
        kelvin_range: Option<KelvinRange>,
    ) -> (r: Self)
        ensures
            !r.color && !r.color_tmp && r.brightness,
            r.keeps(
                name,
                fw_version,
                effect,
                dual_head,
                white_channels,
                white_to_color_ratio,
                kelvin_range,
            ),
    {
        Self {
            color: false,
            color_tmp: false,
            brightness: true,
            name,
            fw_version,
            effect,
            dual_head,
            white_channels,
            white_to_color_ratio,
            kelvin_range,
        }
    }

    /// Features of a socket: on and off only.
    pub fn sock_new(
        name: String,
        fw_version: Option<String>,
        effect: bool,
        dual_head: bool,
        white_channels: Option<i64>,
        white_to_color_ratio: Option<i64>,
        kelvin_range: Option<KelvinRange>,
    ) -> (r: Self)
        ensures
            !r.color && !r.color_tmp && !r.brightness,
            r.keeps(
                name,
                fw_version,
                effect,
                dual_head,
                white_channels,
                white_to_color_ratio,
                kelvin_range,
            ),
    {
        Self {
            color: false,
            color_tmp: false,
            brightness: false,
            name,
            fw_version,
            effect,
            dual_head,
            white_channels,
            white_to_color_ratio,
            kelvin_range,
        }
    }
}

/// The colour temperatures a device supports, in kelvin.
#[derive(Debug, Default, Clone, Copy, PartialEq, Eq, Structural)]
pub struct KelvinRange {
    pub max: u32,
    pub min: u32,
}

impl KelvinRange {
    pub fn new(max: u32, min: u32) -> (r: Self)
        ensures
            r.max == max,
            r.min == min,
    {
        Self { max, min }
    }
}

/// The class of a device, with its features.
#[derive(Debug)]
pub enum BulbClass {
    /// Tunable white: cool white and warm white LEDs.
    TW(Features),
    /// Dimmable white: dimmable white LEDs only.
    DW(Features),
    /// Colour: RGB LEDs.
    Rgb(Features),
    /// Socket: on and off only.
    Socket(Features),
}

/// The second `_`-separated segment of a model name, if it has one.
pub open spec fn ident_of(s: Seq<char>) -> Option<Seq<char>> {
    let i = first_index_from(s, '_', 0);
    if i >= s.len() {
        None
    } else {
        Some(s.subrange(i + 1, first_index_from(s, '_', i + 1)))
    }
}

/// `m` is the largest value of `s`.
pub open spec fn is_max(s: Seq<u32>, m: u32) -> bool {
    s.contains(m) && forall|i: int| 0 <= i < s.len() ==> s[i] <= m
}

/// `m` is the smallest value of `s`.
pub open spec fn is_min(s: Seq<u32>, m: u32) -> bool {
    s.contains(m) && forall|i: int| 0 <= i < s.len() ==> m <= s[i]
}

/// `k` spans the values of `kelvins`: none without a list or with an empty
/// one, else from its smallest to its largest value.
pub open spec fn spans(k: Option<KelvinRange>, kelvins: Option<Vec<u32>>) -> bool {
    match kelvins {
        Some(l) => if l@.len() == 0 {
            k is None
        } else {
            k matches Some(range) && is_max(l@, range.max) && is_min(l@, range.min)
        },
        None => k is None,
    }
}

impl BulbClass {
    pub open spec fn features(&self) -> Features {
        match self {
            BulbClass::TW(f) => *f,
            BulbClass::DW(f) => *f,
            BulbClass::Rgb(f) => *f,
            BulbClass::Socket(f) => *f,
        }
    }

    /// The class the segment `ident` of a model name selects, checked in
    /// this order: "RGB" colour, "TW" tunable white, "SOCKET" socket, and
    /// dimmable white otherwise, with effects when "DH" or "SH" occurs.
    pub open spec fn selected_by(&self, ident: Seq<char>) -> bool {
        let f = self.features();
        if contains_seq(ident, "RGB"@) {
            self is Rgb && f.color && f.color_tmp && f.brightness && f.effect
        } else if contains_seq(ident, "TW"@) {
            self is TW && !f.color && f.color_tmp && f.brightness && f.effect
        } else if contains_seq(ident, "SOCKET"@) {
            self is Socket && !f.color && !f.color_tmp && !f.brightness && !f.effect
        } else {
            &&& self is DW
            &&& !f.color && !f.color_tmp && f.brightness
            &&& f.effect == (contains_seq(ident, "DH"@) || contains_seq(ident, "SH"@))
        }
    }

    /// Classifies a device by its model name. The second `_`-separated
    /// segment of the name selects the class; "DH" in it marks a dual-head
    /// device. The reported colour temperatures give the range from the
    /// smallest to the largest; without a list, or with an empty one, there
    /// is no range. Only a name without a second segment fails.
    pub fn from_data(
        module_name: &str,
        kelvin_list: Option<Vec<u32>>,
        fw_version: Option<String>,
        white_channels: Option<i64>,
        white_to_color_ratio: Option<i64>,
    ) -> (r: Result<Self, WizError>)
        ensures
            ident_of(module_name@) is None ==> (r matches Err(WizError::NoIdent(s)) && s@
                == module_name@),
            ident_of(module_name@) is Some ==> (
            r matches Ok(c) && {
                let ident = ident_of(module_name@).unwrap();
                let f = c.features();
                &&& c.selected_by(ident)
                &&& f.name@ == module_name@
                &&& f.dual_head == contains_seq(ident, "DH"@)
                &&& spans(f.kelvin_range, kelvin_list)
                &&& f.fw_version == fw_version
                &&& f.white_channels == white_channels
                &&& f.white_to_color_ratio == white_to_color_ratio
            }),
    {
        let n = module_name.unicode_len();
        let first = find_char_from(module_name, n, '_', 0);
        if first >= n {
            return Err(WizError::NoIdent(String::from_str(module_name)));
        }
        let end = find_char_from(module_name, n, '_', first + 1);
        let ident = module_name.substring_char(first + 1, end);
        let dual = contains_text(ident, "DH");
        let k_range = match kelvin_list {
            Some(k_list) => kelvin_span(k_list),
            None => None,
        };
        let name = String::from_str(module_name);
        if contains_text(ident, "RGB") {
            let feat = Features::rgb_new(
                name,
                fw_version,
                true,
                dual,
                white_channels,
                white_to_color_ratio,
                k_range,
            );
            Ok(BulbClass::Rgb(feat))
        } else if contains_text(ident, "TW") {
            let feat = Features::tw_new(
                name,
                fw_version,
                true,
                dual,
                white_channels,
                white_to_color_ratio,
                k_range,
            );
            Ok(BulbClass::TW(feat))
        } else if contains_text(ident, "SOCKET") {
            let feat = Features::sock_new(
                name,
                fw_version,
                false,
                dual,
                white_channels,
                white_to_color_ratio,
                k_range,
            );
            Ok(BulbClass::Socket(feat))
        } else {
            let eff = dual || contains_text(ident, "SH");
            let feat = Features::dw_new(
                name,
                fw_version,
                eff,
                dual,
                white_channels,
                white_to_color_ratio,
                k_range,
            );
            Ok(BulbClass::DW(feat))
        }
    }
}

/// Relies on rayon's `par_sort_unstable`: the same values, in ascending order.
#[verifier::external_body]
fn sort_ascending(v: &mut Vec<u32>)
    ensures
        final(v)@.to_multiset() == old(v)@.to_multiset(),
        forall|i: int, j: int| 0 <= i <= j < final(v)@.len() ==> final(v)@[i] <= final(v)@[j],
{
    v.par_sort_unstable();
}

/// The range from the smallest to the largest value of a list; none for an
/// empty list.
pub fn kelvin_span(k_list: Vec<u32>) -> (r: Option<KelvinRange>)
    ensures
        k_list@.len() == 0 ==> r is None,
        k_list@.len() > 0 ==> (r matches Some(k) && is_max(k_list@, k.max) && is_min(
            k_list@,
            k.min,
        )),
{
    let mut sorted = k_list;
    sort_ascending(&mut sorted);
    let len = sorted.len();
    if len == 0 {
        proof {
            k_list@.to_multiset_ensures();
            sorted@.to_multiset_ensures();
        }
        return None;
    }
    let min = sorted[0];
    let max = sorted[len - 1];
    proof {
        k_list@.to_multiset_ensures();
        sorted@.to_multiset_ensures();
        assert(sorted@.contains(min) && sorted@.contains(max)) by {
            assert(sorted@[0] == min);
            assert(sorted@[len - 1] == max);
        }
        assert(sorted@.to_multiset().count(min) > 0 && sorted@.to_multiset().count(max) > 0);
        assert(k_list@.to_multiset().count(min) > 0 && k_list@.to_multiset().count(max) > 0);
        assert forall|i: int| 0 <= i < k_list@.len() implies min <= k_list@[i] && k_list@[i]
            <= max by {
            let x = k_list@[i];
            assert(k_list@.contains(x));
            assert(k_list@.to_multiset().count(x) > 0);
            assert(sorted@.to_multiset().count(x) > 0);
            assert(sorted@.contains(x));
            let j = choose|j: int| 0 <= j < sorted@.len() && sorted@[j] == x;
            assert(sorted@[0] <= sorted@[j]);
            assert(sorted@[j] <= sorted@[len - 1]);
        }
    }
    Some(KelvinRange::new(max, min))
}

} // verus!
