use vstd::prelude::*;

use crate::model::opt_view;
use crate::text::{chars_of, str_eq};

verus! {

/// Highway kinds whose default access differs between countries.
#[derive(Clone, Copy, Debug, PartialEq, Eq, Hash, Structural)]
pub enum HighwayType {
    Trunk,
    TrunkLink,
    Track,
    Footway,
    Pedestrian,
    Bridleway,
    Cycleway,
    Path,
    Motorroad,
}

/// Travel modes of the routing engine, each with one bit of an access mask.
#[derive(Clone, Copy, Debug, PartialEq, Eq, Hash, Structural)]
pub enum AccessMode {
    Auto,
    Pedestrian,
    Bicycle,
    Truck,
    Emergency,
    Taxi,
    Bus,
    Hov,
    Wheelchair,
    Moped,
    Motorcycle,
}

/// The mask bit of a mode: `1 << n` for the mode's place `n` in the list.
pub open spec fn mode_bit(m: AccessMode) -> i64 {
    match m {
        AccessMode::Auto => 1,
        AccessMode::Pedestrian => 2,
        AccessMode::Bicycle => 4,
        AccessMode::Truck => 8,
        AccessMode::Emergency => 16,
        AccessMode::Taxi => 32,
        AccessMode::Bus => 64,
        AccessMode::Hov => 128,
        AccessMode::Wheelchair => 256,
        AccessMode::Moped => 512,
        AccessMode::Motorcycle => 1024,
    }
}

impl AccessMode {
    /// The mode's bit in an access mask.
    pub fn bit(self) -> (r: i64)
        ensures
            r == mode_bit(self),
    {
        match self {
            AccessMode::Auto => 1,
            AccessMode::Pedestrian => 2,
            AccessMode::Bicycle => 4,
            AccessMode::Truck => 8,
            AccessMode::Emergency => 16,
            AccessMode::Taxi => 32,
            AccessMode::Bus => 64,
            AccessMode::Hov => 128,
            AccessMode::Wheelchair => 256,
            AccessMode::Moped => 512,
            AccessMode::Motorcycle => 1024,
        }
    }
}

/// The union of the bits of `modes`.
pub open spec fn mask_of(modes: Seq<AccessMode>) -> i64
    decreases modes.len(),
{
    if modes.len() == 0 {
        0
    } else {
        mask_of(modes.drop_last()) | mode_bit(modes.last())
    }
}

/// The access mask of a list of modes: the union of their bits, or nothing
/// for an empty list.
pub fn modes_to_bitmask(modes: &[AccessMode]) -> (r: Option<i64>)
    ensures
        r == if modes@.len() == 0 {
            None
        } else {
            Some(mask_of(modes@))
        },
{
    let mut bm: i64 = 0;
    let mut i: usize = 0;
    while i < modes.len()
        invariant
            i <= modes@.len(),
            bm == mask_of(modes@.take(i as int)),
            i > 0 ==> bm != 0,
        decreases modes@.len() - i,
    {
        let bit = modes[i].bit();
        let prev = bm;
        bm = bm | bit;
        assert(bit != 0);
        assert((prev | bit) != 0) by (bit_vector)
            requires
                bit != 0,
        ;
        assert(modes@.take(i + 1).drop_last() =~= modes@.take(i as int));
        i = i + 1;
    }
    assert(modes@.take(modes@.len() as int) =~= modes@);
    if bm == 0 {
        None
    } else {
        Some(bm)
    }
}

/// The modes allowed on one highway kind.
#[derive(Clone, Debug)]
pub struct HighwayAccess {
    pub highway: HighwayType,
    pub modes: Vec<AccessMode>,
}

/// The access rules of one country (or region), by highway kind.
#[derive(Clone, Debug)]
pub struct CountryAccess {
    pub country: String,
    pub rules: Vec<HighwayAccess>,
}

/// Settings for building the administrative database: which countries allow
/// intersection names, and the per-country access of some highway kinds.
/// A lookup takes the first entry for its key.
#[derive(Clone, Debug)]
pub struct AdminConfig {
    pub allow_intersection_names: Vec<(String, bool)>,
    pub admin_access: Vec<CountryAccess>,
}

/// `i` is the first entry of `entries` for `country`.
pub open spec fn is_first_entry(entries: Seq<(String, bool)>, country: Seq<char>, i: int) -> bool {
    &&& 0 <= i < entries.len()
    &&& entries[i].0@ == country
    &&& forall|j: int| 0 <= j < i ==> (#[trigger] entries[j]).0@ != country
}

/// Whether `country` is listed as allowing intersection names.
pub open spec fn allows_intersection_names(entries: Seq<(String, bool)>, country: Seq<char>) -> bool {
    if exists|i: int| is_first_entry(entries, country, i) {
        entries[choose|i: int| is_first_entry(entries, country, i)].1
    } else {
        false
    }
}

/// 1 when the configuration allows intersection names in `country`, else 0.
pub fn get_allow_intersection_names(country: &str, admin_config: &AdminConfig) -> (r: i64)
    ensures
        r == if allows_intersection_names(admin_config.allow_intersection_names@, country@) {
            1i64
        } else {
            0i64
        },
{
    let entries = &admin_config.allow_intersection_names;
    let mut i: usize = 0;
    while i < entries.len()
        invariant
            entries == &admin_config.allow_intersection_names,
            i <= entries@.len(),
            forall|j: int| 0 <= j < i ==> (#[trigger] entries@[j]).0@ != country@,
        decreases entries@.len() - i,
    {
        if str_eq(entries[i].0.as_str(), country) {
            assert(is_first_entry(entries@, country@, i as int));
            assert forall|m: int| is_first_entry(entries@, country@, m) implies m == i by {
                if m < i {
                    assert(entries@[m].0@ != country@);
                } else if m > i {
                    assert(entries@[i as int].0@ != country@);
                }
            }
            let allow = entries[i].1;
            return if allow {
                1
            } else {
                0
            };
        }
        i = i + 1;
    }
    assert forall|m: int| !is_first_entry(entries@, country@, m) by {
        if 0 <= m < entries@.len() {
            assert(entries@[m].0@ != country@);
        }
    }
    0
}

/// `i` is the first rule of `rules` for highway kind `h`.
pub open spec fn is_first_rule(rules: Seq<HighwayAccess>, h: HighwayType, i: int) -> bool {
    &&& 0 <= i < rules.len()
    &&& rules[i].highway == h
    &&& forall|j: int| 0 <= j < i ==> (#[trigger] rules[j]).highway != h
}

/// The access mask that `rules` give highway kind `h`: that of the first
/// rule for it, or nothing when no rule names it or its list is empty.
pub open spec fn highway_mask(rules: Seq<HighwayAccess>, h: HighwayType) -> Option<i64> {
    if exists|i: int| is_first_rule(rules, h, i) {
        let i = choose|i: int| is_first_rule(rules, h, i);
        if rules[i].modes@.len() == 0 {
            None
        } else {
            Some(mask_of(rules[i].modes@))
        }
    } else {
        None
    }
}

/// The access mask of one highway kind under a country's rules.
pub fn highway_access_mask(rules: &Vec<HighwayAccess>, h: HighwayType) -> (r: Option<i64>)
    ensures
        r == highway_mask(rules@, h),
{
    let mut i: usize = 0;
    while i < rules.len()
        invariant
            i <= rules@.len(),
            forall|j: int| 0 <= j < i ==> (#[trigger] rules@[j]).highway != h,
        decreases rules@.len() - i,
    {
        if rules[i].highway == h {
            assert(is_first_rule(rules@, h, i as int));
            assert forall|m: int| is_first_rule(rules@, h, m) implies m == i by {
                if m < i {
                    assert(rules@[m].highway != h);
                } else if m > i {
                    assert(rules@[i as int].highway != h);
                }
            }
            return modes_to_bitmask(rules[i].modes.as_slice());
        }
        i = i + 1;
    }
    assert forall|m: int| !is_first_rule(rules@, h, m) by {
        if 0 <= m < rules@.len() {
            assert(rules@[m].highway != h);
        }
    }
    None
}

/// The highway kinds of the columns of the access table, in column order.
pub open spec fn access_columns() -> Seq<HighwayType> {
    seq![
        HighwayType::Trunk,
        HighwayType::TrunkLink,
        HighwayType::Track,
        HighwayType::Footway,
        HighwayType::Pedestrian,
        HighwayType::Bridleway,
        HighwayType::Cycleway,
        HighwayType::Path,
        HighwayType::Motorroad,
    ]
}

/// The values of one country's row of the access table: the access mask of
/// each highway kind, in column order (trunk, trunk link, track, footway,
/// pedestrian, bridleway, cycleway, path, motorroad).
pub fn admin_access_row(rules: &Vec<HighwayAccess>) -> (r: Vec<Option<i64>>)
    ensures
        r@.len() == access_columns().len(),
        forall|c: int| 0 <= c < r@.len() ==> #[trigger] r@[c] == highway_mask(rules@, access_columns()[c]),
{
    let r = vec![
        highway_access_mask(rules, HighwayType::Trunk),
        highway_access_mask(rules, HighwayType::TrunkLink),
        highway_access_mask(rules, HighwayType::Track),
        highway_access_mask(rules, HighwayType::Footway),
        highway_access_mask(rules, HighwayType::Pedestrian),
        highway_access_mask(rules, HighwayType::Bridleway),
        highway_access_mask(rules, HighwayType::Cycleway),
        highway_access_mask(rules, HighwayType::Path),
        highway_access_mask(rules, HighwayType::Motorroad),
    ];
    r
}

/// Every highway kind of `c` lists at least one mode.
pub open spec fn modes_listed(c: CountryAccess) -> bool {
    forall|j: int| 0 <= j < c.rules@.len() ==> (#[trigger] c.rules@[j]).modes@.len() > 0
}

fn highway_rule(highway: HighwayType, modes: Vec<AccessMode>) -> (r: HighwayAccess)
    requires
        modes@.len() > 0,
    ensures
        r.highway == highway,
        r.modes@ == modes@,
{
    HighwayAccess { highway, modes }
}

fn country_rules(country: &str, rules: Vec<HighwayAccess>) -> (r: CountryAccess)
    requires
        forall|j: int| 0 <= j < rules@.len() ==> (#[trigger] rules@[j]).modes@.len() > 0,
    ensures
        r.country@ == country@,
        r.rules@ == rules@,
        modes_listed(r),
{
    CountryAccess { country: country.to_owned(), rules }
}

fn intersection_names(country: &str) -> (r: (String, bool))
    ensures
        r.0@ == country@,
        r.1,
{
    (country.to_owned(), true)
}

impl AdminConfig {
    /// The built-in configuration: intersection names in Japan, both Koreas
    /// and Nicaragua, and the access exceptions of 32 countries and regions,
    /// each highway kind of which lists at least one mode.
    pub fn default() -> (r: AdminConfig)
        ensures
            r.allow_intersection_names@.map_values(|e: (String, bool)| (e.0@, e.1)) == seq![
                ("JP"@, true),
                ("KP"@, true),
                ("KR"@, true),
                ("NI"@, true),
            ],
            forall|i: int| 0 <= i < r.admin_access@.len() ==> modes_listed(#[trigger] r.admin_access@[i]),
            r.admin_access@.map_values(|c: CountryAccess| c.country@) == seq!["AU"@, "AT"@, "BY"@, "BE"@, "BR"@, "CN"@, "DK"@, "ENG"@, "FR"@, "FI"@, "GR"@, "HU"@, "IS"@, "IE"@, "IT"@, "NL"@, "NO"@, "NIR"@, "OM"@, "PH"@, "PL"@, "RO"@, "RU"@, "TH"@, "TR"@, "SCT"@, "SK"@, "ES"@, "SE"@, "CH"@, "US"@, "WLS"@],
    {
        let allow_intersection_names = vec![
            intersection_names("JP"),
            intersection_names("KP"),
            intersection_names("KR"),
            intersection_names("NI"),
        ];
        let admin_access = vec![
            country_rules(
                "AU",
                vec![
                    highway_rule(HighwayType::Footway, vec![AccessMode::Pedestrian, AccessMode::Wheelchair, AccessMode::Bicycle]),
                ],
            ),
            country_rules(
                "AT",
                vec![
                    highway_rule(HighwayType::Trunk, vec![AccessMode::Auto, AccessMode::Truck, AccessMode::Bus, AccessMode::Hov, AccessMode::Taxi, AccessMode::Motorcycle]),
                    highway_rule(HighwayType::TrunkLink, vec![AccessMode::Auto, AccessMode::Truck, AccessMode::Bus, AccessMode::Hov, AccessMode::Taxi, AccessMode::Motorcycle]),
                    highway_rule(HighwayType::Path, vec![AccessMode::Pedestrian, AccessMode::Wheelchair]),
                ],
            ),
            country_rules(
                "BY",
                vec![
                    highway_rule(HighwayType::Footway, vec![AccessMode::Pedestrian, AccessMode::Wheelchair, AccessMode::Bicycle]),
                    highway_rule(HighwayType::Pedestrian, vec![AccessMode::Pedestrian, AccessMode::Wheelchair, AccessMode::Bicycle]),
                    highway_rule(HighwayType::Cycleway, vec![AccessMode::Pedestrian, AccessMode::Wheelchair, AccessMode::Bicycle]),
                ],
            ),
            country_rules(
                "BE",
                vec![
                    highway_rule(HighwayType::Trunk, vec![AccessMode::Auto, AccessMode::Truck, AccessMode::Bus, AccessMode::Hov, AccessMode::Taxi, AccessMode::Motorcycle]),
                    highway_rule(HighwayType::TrunkLink, vec![AccessMode::Auto, AccessMode::Truck, AccessMode::Bus, AccessMode::Hov, AccessMode::Taxi, AccessMode::Motorcycle]),
                    highway_rule(HighwayType::Track, vec![AccessMode::Pedestrian, AccessMode::Wheelchair, AccessMode::Bicycle, AccessMode::Moped]),
                    highway_rule(HighwayType::Pedestrian, vec![AccessMode::Pedestrian, AccessMode::Wheelchair, AccessMode::Bicycle]),
                    highway_rule(HighwayType::Bridleway, vec![AccessMode::Pedestrian, AccessMode::Wheelchair]),
                    highway_rule(HighwayType::Cycleway, vec![AccessMode::Pedestrian, AccessMode::Wheelchair, AccessMode::Bicycle, AccessMode::Moped]),
                    highway_rule(HighwayType::Path, vec![AccessMode::Pedestrian, AccessMode::Wheelchair, AccessMode::Bicycle, AccessMode::Moped]),
                ],
            ),
            country_rules(
                "BR",
                vec![
                    highway_rule(HighwayType::Bridleway, vec![AccessMode::Pedestrian, AccessMode::Wheelchair, AccessMode::Bicycle]),
                ],
            ),
            country_rules(
                "CN",
                vec![
                    highway_rule(HighwayType::Pedestrian, vec![AccessMode::Pedestrian, AccessMode::Wheelchair, AccessMode::Bicycle]),
                    highway_rule(HighwayType::Path, vec![AccessMode::Pedestrian, AccessMode::Wheelchair, AccessMode::Bicycle, AccessMode::Moped]),
                ],
            ),
            country_rules(
                "DK",
                vec![
                    highway_rule(HighwayType::Trunk, vec![AccessMode::Auto, AccessMode::Truck, AccessMode::Bus, AccessMode::Hov, AccessMode::Taxi, AccessMode::Motorcycle]),
                    highway_rule(HighwayType::TrunkLink, vec![AccessMode::Auto, AccessMode::Truck, AccessMode::Bus, AccessMode::Hov, AccessMode::Taxi, AccessMode::Motorcycle]),
                    highway_rule(HighwayType::Track, vec![AccessMode::Pedestrian, AccessMode::Wheelchair, AccessMode::Bicycle]),
                    highway_rule(HighwayType::Cycleway, vec![AccessMode::Pedestrian, AccessMode::Wheelchair, AccessMode::Bicycle]),
                ],
            ),
            country_rules(
                "ENG",
                vec![
                    highway_rule(HighwayType::Bridleway, vec![AccessMode::Pedestrian, AccessMode::Wheelchair, AccessMode::Bicycle]),
                    highway_rule(HighwayType::Cycleway, vec![AccessMode::Pedestrian, AccessMode::Wheelchair, AccessMode::Bicycle]),
                ],
            ),
            country_rules(
                "FR",
                vec![
                    highway_rule(HighwayType::Trunk, vec![AccessMode::Auto, AccessMode::Truck, AccessMode::Bus, AccessMode::Hov, AccessMode::Taxi, AccessMode::Motorcycle]),
                    highway_rule(HighwayType::TrunkLink, vec![AccessMode::Auto, AccessMode::Truck, AccessMode::Bus, AccessMode::Hov, AccessMode::Taxi, AccessMode::Motorcycle]),
                    highway_rule(HighwayType::Pedestrian, vec![AccessMode::Pedestrian, AccessMode::Wheelchair, AccessMode::Bicycle]),
                    highway_rule(HighwayType::Path, vec![AccessMode::Pedestrian, AccessMode::Wheelchair, AccessMode::Bicycle, AccessMode::Moped]),
                ],
            ),
            country_rules(
                "FI",
                vec![
                    highway_rule(HighwayType::Pedestrian, vec![AccessMode::Pedestrian, AccessMode::Wheelchair, AccessMode::Bicycle]),
                    highway_rule(HighwayType::Cycleway, vec![AccessMode::Pedestrian, AccessMode::Wheelchair, AccessMode::Bicycle]),
                ],
            ),
            country_rules(
                "GR",
                vec![
                    highway_rule(HighwayType::Bridleway, vec![AccessMode::Pedestrian, AccessMode::Wheelchair, AccessMode::Bicycle]),
                    highway_rule(HighwayType::Cycleway, vec![AccessMode::Pedestrian, AccessMode::Wheelchair, AccessMode::Bicycle]),
                ],
            ),
            country_rules(
                "HU",
                vec![
                    highway_rule(HighwayType::Trunk, vec![AccessMode::Auto, AccessMode::Truck, AccessMode::Bus, AccessMode::Hov, AccessMode::Taxi, AccessMode::Motorcycle]),
                    highway_rule(HighwayType::TrunkLink, vec![AccessMode::Auto, AccessMode::Truck, AccessMode::Bus, AccessMode::Hov, AccessMode::Taxi, AccessMode::Motorcycle]),
                    highway_rule(HighwayType::Cycleway, vec![AccessMode::Pedestrian, AccessMode::Wheelchair, AccessMode::Bicycle]),
                ],
            ),
            country_rules(
                "IS",
                vec![
                    highway_rule(HighwayType::Footway, vec![AccessMode::Pedestrian, AccessMode::Wheelchair, AccessMode::Bicycle]),
                    highway_rule(HighwayType::Pedestrian, vec![AccessMode::Pedestrian, AccessMode::Wheelchair, AccessMode::Bicycle]),
                    highway_rule(HighwayType::Cycleway, vec![AccessMode::Pedestrian, AccessMode::Wheelchair, AccessMode::Bicycle]),
                ],
            ),
            country_rules(
                "IE",
                vec![
                    highway_rule(HighwayType::Bridleway, vec![AccessMode::Pedestrian, AccessMode::Wheelchair, AccessMode::Bicycle]),
                ],
            ),
            country_rules(
                "IT",
                vec![
                    highway_rule(HighwayType::Pedestrian, vec![AccessMode::Pedestrian, AccessMode::Wheelchair, AccessMode::Bicycle]),
                ],
            ),
            country_rules(
                "NL",
                vec![
                    highway_rule(HighwayType::Cycleway, vec![AccessMode::Pedestrian, AccessMode::Wheelchair, AccessMode::Bicycle]),
                    highway_rule(HighwayType::Path, vec![AccessMode::Pedestrian, AccessMode::Wheelchair, AccessMode::Bicycle, AccessMode::Moped]),
                ],
            ),
            country_rules(
                "NO",
                vec![
                    highway_rule(HighwayType::Track, vec![AccessMode::Pedestrian, AccessMode::Wheelchair, AccessMode::Bicycle, AccessMode::Moped]),
                    highway_rule(HighwayType::Footway, vec![AccessMode::Pedestrian, AccessMode::Wheelchair, AccessMode::Bicycle]),
                    highway_rule(HighwayType::Pedestrian, vec![AccessMode::Pedestrian, AccessMode::Wheelchair, AccessMode::Bicycle]),
                    highway_rule(HighwayType::Cycleway, vec![AccessMode::Pedestrian, AccessMode::Wheelchair, AccessMode::Bicycle]),
                ],
            ),
            country_rules(
                "NIR",
                vec![
                    highway_rule(HighwayType::Bridleway, vec![AccessMode::Pedestrian, AccessMode::Wheelchair, AccessMode::Bicycle]),
                ],
            ),
            country_rules(
                "OM",
                vec![
                    highway_rule(HighwayType::Bridleway, vec![AccessMode::Pedestrian, AccessMode::Wheelchair, AccessMode::Bicycle]),
                    highway_rule(HighwayType::Cycleway, vec![AccessMode::Pedestrian, AccessMode::Wheelchair, AccessMode::Bicycle]),
                ],
            ),
            country_rules(
                "PH",
                vec![
                    highway_rule(HighwayType::Pedestrian, vec![AccessMode::Pedestrian, AccessMode::Wheelchair, AccessMode::Bicycle]),
                    highway_rule(HighwayType::Bridleway, vec![AccessMode::Pedestrian, AccessMode::Wheelchair, AccessMode::Bicycle]),
                    highway_rule(HighwayType::Cycleway, vec![AccessMode::Pedestrian, AccessMode::Wheelchair, AccessMode::Bicycle]),
                    highway_rule(HighwayType::Path, vec![AccessMode::Pedestrian, AccessMode::Wheelchair, AccessMode::Bicycle, AccessMode::Moped]),
                ],
            ),
            country_rules(
                "PL",
                vec![
                    highway_rule(HighwayType::Bridleway, vec![AccessMode::Pedestrian, AccessMode::Wheelchair, AccessMode::Bicycle]),
                    highway_rule(HighwayType::Cycleway, vec![AccessMode::Pedestrian, AccessMode::Wheelchair, AccessMode::Bicycle]),
                ],
            ),
            country_rules(
                "RO",
                vec![
                    highway_rule(HighwayType::Bridleway, vec![AccessMode::Pedestrian, AccessMode::Wheelchair, AccessMode::Bicycle, AccessMode::Moped]),
                    highway_rule(HighwayType::Cycleway, vec![AccessMode::Bicycle, AccessMode::Moped]),
                    highway_rule(HighwayType::Path, vec![AccessMode::Pedestrian, AccessMode::Wheelchair, AccessMode::Bicycle, AccessMode::Moped]),
                ],
            ),
            country_rules(
                "RU",
                vec![
                    highway_rule(HighwayType::Cycleway, vec![AccessMode::Moped, AccessMode::Bicycle]),
                ],
            ),
            country_rules(
                "TH",
                vec![
                    highway_rule(HighwayType::Pedestrian, vec![AccessMode::Pedestrian, AccessMode::Wheelchair, AccessMode::Bicycle]),
                    highway_rule(HighwayType::Bridleway, vec![AccessMode::Pedestrian, AccessMode::Wheelchair, AccessMode::Bicycle]),
                    highway_rule(HighwayType::Cycleway, vec![AccessMode::Pedestrian, AccessMode::Wheelchair, AccessMode::Bicycle]),
                    highway_rule(HighwayType::Path, vec![AccessMode::Pedestrian, AccessMode::Wheelchair, AccessMode::Bicycle, AccessMode::Moped]),
                ],
            ),
            country_rules(
                "TR",
                vec![
                    highway_rule(HighwayType::Bridleway, vec![AccessMode::Pedestrian, AccessMode::Wheelchair]),
                    highway_rule(HighwayType::Cycleway, vec![AccessMode::Pedestrian, AccessMode::Wheelchair, AccessMode::Bicycle]),
                ],
            ),
            country_rules(
                "SCT",
                vec![
                    highway_rule(HighwayType::Bridleway, vec![AccessMode::Pedestrian, AccessMode::Wheelchair, AccessMode::Bicycle]),
                    highway_rule(HighwayType::Cycleway, vec![AccessMode::Pedestrian, AccessMode::Wheelchair, AccessMode::Bicycle]),
                ],
            ),
            country_rules(
                "SK",
                vec![
                    highway_rule(HighwayType::Trunk, vec![AccessMode::Auto, AccessMode::Truck, AccessMode::Bus, AccessMode::Hov, AccessMode::Taxi, AccessMode::Motorcycle]),
                    highway_rule(HighwayType::TrunkLink, vec![AccessMode::Auto, AccessMode::Truck, AccessMode::Bus, AccessMode::Hov, AccessMode::Taxi, AccessMode::Motorcycle]),
                ],
            ),
            country_rules(
                "ES",
                vec![
                    highway_rule(HighwayType::Pedestrian, vec![AccessMode::Pedestrian, AccessMode::Wheelchair, AccessMode::Bicycle]),
                    highway_rule(HighwayType::Path, vec![AccessMode::Pedestrian, AccessMode::Wheelchair, AccessMode::Bicycle, AccessMode::Moped]),
                ],
            ),
            country_rules(
                "SE",
                vec![
                    highway_rule(HighwayType::Pedestrian, vec![AccessMode::Pedestrian, AccessMode::Wheelchair, AccessMode::Bicycle]),
                    highway_rule(HighwayType::Bridleway, vec![AccessMode::Pedestrian, AccessMode::Wheelchair]),
                    highway_rule(HighwayType::Cycleway, vec![AccessMode::Pedestrian, AccessMode::Wheelchair, AccessMode::Bicycle, AccessMode::Moped]),
                ],
            ),
            country_rules(
                "CH",
                vec![
                    highway_rule(HighwayType::Trunk, vec![AccessMode::Auto, AccessMode::Truck, AccessMode::Bus, AccessMode::Hov, AccessMode::Taxi, AccessMode::Motorcycle]),
                    highway_rule(HighwayType::TrunkLink, vec![AccessMode::Auto, AccessMode::Truck, AccessMode::Bus, AccessMode::Hov, AccessMode::Taxi, AccessMode::Motorcycle]),
                    highway_rule(HighwayType::Cycleway, vec![AccessMode::Pedestrian, AccessMode::Wheelchair, AccessMode::Bicycle, AccessMode::Moped]),
                ],
            ),
            country_rules(
                "US",
                vec![
                    highway_rule(HighwayType::Pedestrian, vec![AccessMode::Pedestrian, AccessMode::Wheelchair, AccessMode::Bicycle]),
                    highway_rule(HighwayType::Bridleway, vec![AccessMode::Pedestrian, AccessMode::Wheelchair, AccessMode::Bicycle]),
                    highway_rule(HighwayType::Cycleway, vec![AccessMode::Pedestrian, AccessMode::Wheelchair, AccessMode::Bicycle]),
                    highway_rule(HighwayType::Path, vec![AccessMode::Pedestrian, AccessMode::Wheelchair, AccessMode::Bicycle, AccessMode::Moped]),
                ],
            ),
            country_rules(
                "WLS",
                vec![
                    highway_rule(HighwayType::Bridleway, vec![AccessMode::Pedestrian, AccessMode::Wheelchair, AccessMode::Bicycle]),
                    highway_rule(HighwayType::Cycleway, vec![AccessMode::Pedestrian, AccessMode::Wheelchair, AccessMode::Bicycle]),
                ],
            ),
        ];
        assert(allow_intersection_names@.map_values(|e: (String, bool)| (e.0@, e.1)) =~= seq![
            ("JP"@, true),
            ("KP"@, true),
            ("KR"@, true),
            ("NI"@, true),
        ]);
        assert(admin_access@.map_values(|c: CountryAccess| c.country@) =~= seq!["AU"@, "AT"@, "BY"@, "BE"@, "BR"@, "CN"@, "DK"@, "ENG"@, "FR"@, "FI"@, "GR"@, "HU"@, "IS"@, "IE"@, "IT"@, "NL"@, "NO"@, "NIR"@, "OM"@, "PH"@, "PL"@, "RO"@, "RU"@, "TH"@, "TR"@, "SCT"@, "SK"@, "ES"@, "SE"@, "CH"@, "US"@, "WLS"@]);
        assert forall|i: int| 0 <= i < admin_access@.len() implies modes_listed(#[trigger] admin_access@[i]) by {}
        AdminConfig { allow_intersection_names, admin_access }
    }
}

/// `p` is the position of the first `-` of `s`.
pub open spec fn is_first_dash(s: Seq<char>, p: int) -> bool {
    &&& 0 <= p < s.len()
    &&& s[p] == '-'
    &&& forall|j: int| 0 <= j < p ==> s[j] != '-'
}

/// The text of `s` before its first `-`, or all of it.
pub open spec fn first_piece(s: Seq<char>) -> Seq<char> {
    if exists|p: int| is_first_dash(s, p) {
        s.subrange(0, choose|p: int| is_first_dash(s, p))
    } else {
        s
    }
}

/// The second `-`-separated piece of a region code (`WA` of `US-WA`), or
/// the whole code when it has no `-`.
pub open spec fn region_code(r: Seq<char>) -> Seq<char> {
    if exists|p: int| is_first_dash(r, p) {
        first_piece(r.subrange((choose|p: int| is_first_dash(r, p)) + 1, r.len() as int))
    } else {
        r
    }
}

fn dash_position(s: &str) -> (r: Option<usize>)
    ensures
        match r {
            Some(p) => is_first_dash(s@, p as int),
            None => forall|p: int| !is_first_dash(s@, p),
        },
{
    let chars = chars_of(s);
    let mut i: usize = 0;
    while i < chars.len()
        invariant
            chars@ == s@,
            i <= chars@.len(),
            forall|j: int| 0 <= j < i ==> chars@[j] != '-',
        decreases chars@.len() - i,
    {
        if chars[i] == '-' {
            return Some(i);
        }
        i = i + 1;
    }
    None
}

proof fn lemma_first_dash_unique(s: Seq<char>, p: int)
    requires
        is_first_dash(s, p),
    ensures
        forall|q: int| #[trigger] is_first_dash(s, q) ==> q == p,
{
    assert forall|q: int| #[trigger] is_first_dash(s, q) implies q == p by {
        if q < p {
            assert(s[q] != '-');
        } else if q > p {
            assert(s[p] != '-');
        }
    }
}

fn first_piece_of(s: &str) -> (r: String)
    ensures
        r@ == first_piece(s@),
{
    match dash_position(s) {
        Some(p) => {
            proof {
                lemma_first_dash_unique(s@, p as int);
            }
            s.substring_char(0, p).to_owned()
        },
        None => s.to_owned(),
    }
}

/// The ISO code of an area of level `admin_level` in `country` and `region`.
pub open spec fn iso_code_of(admin_level: i64, country: Seq<char>, region: Option<Seq<char>>) -> Option<Seq<char>> {
    if admin_level == 2 {
        Some(country)
    } else if admin_level == 4 {
        match region {
            Some(g) => Some(region_code(g)),
            None => None,
        }
    } else {
        None
    }
}

/// The ISO code of an administrative area: the country code for a country
/// (level 2), the region part of the region code for a region (level 4),
/// and none otherwise.
pub fn get_iso_code(admin_level: i64, country: &str, region: &Option<String>) -> (r: Option<String>)
    ensures
        opt_view(r) == iso_code_of(admin_level, country@, opt_view(*region)),
{
    if admin_level == 2 {
        Some(country.to_owned())
    } else if admin_level == 4 {
        match region {
            Some(g) => {
                let code = g.as_str();
                let n = code.unicode_len();
                match dash_position(code) {
                    Some(p) => {
                        proof {
                            lemma_first_dash_unique(code@, p as int);
                        }
                        let rest = code.substring_char(p + 1, n);
                        Some(first_piece_of(rest))
                    },
                    None => Some(code.to_owned()),
                }
            },
            None => None,
        }
    } else {
        None
    }
}

/// The driving side as a flag: 1 for `right`, 0 for `left`, none otherwise.
pub fn get_drive_on_right(driving_side: &Option<String>) -> (r: Option<i64>)
    ensures
        r == match driving_side {
            Some(d) => if d@ == "right"@ {
                Some(1i64)
            } else if d@ == "left"@ {
                Some(0i64)
            } else {
                None
            },
            None => None::<i64>,
        },
{
    match driving_side {
        Some(d) => if str_eq(d.as_str(), "right") {
            Some(1)
        } else if str_eq(d.as_str(), "left") {
            Some(0)
        } else {
            None
        },
        None => None,
    }
}

/// One row of the joined division and division-area tables.
#[derive(Clone, Debug)]
pub struct AdminSourceRow {
    pub division_id: String,
    pub parent_division_id: Option<String>,
    pub admin_level: Option<i64>,
    pub country: String,
    pub region: Option<String>,
    pub name: Option<String>,
    pub name_en: Option<String>,
    pub driving_side: Option<String>,
    pub geom_wkt: String,
}

/// The values of one row of the admins table.
#[derive(Clone, Debug)]
pub struct AdminRecord {
    pub admin_level: i64,
    pub iso_code: Option<String>,
    pub name: String,
    pub name_en: String,
    pub drive_on_right: Option<i64>,
    pub allow_intersection_names: i64,
    pub geom_wkt: String,
    pub division_id: String,
    pub parent_division_id: Option<String>,
}

pub open spec fn or_empty(s: Option<String>) -> Seq<char> {
    match s {
        Some(x) => x@,
        None => Seq::empty(),
    }
}

fn copy_or_empty(s: &Option<String>) -> (r: String)
    ensures
        r@ == or_empty(*s),
{
    match s {
        Some(x) => x.clone(),
        None => String::new(),
    }
}

/// The admins-table row of a source row: none when the area has no admin
/// level (it is neither a country, a dependency nor a region); missing names
/// become empty.
pub fn admin_record(row: &AdminSourceRow, admin_config: &AdminConfig) -> (r: Option<AdminRecord>)
    ensures
        r is None <==> row.admin_level is None,
        r matches Some(rec) ==> {
            &&& Some(rec.admin_level) == row.admin_level
            &&& opt_view(rec.iso_code) == iso_code_of(rec.admin_level, row.country@, opt_view(row.region))
            &&& rec.name@ == or_empty(row.name)
            &&& rec.name_en@ == or_empty(row.name_en)
            &&& rec.drive_on_right == (match row.driving_side {
                Some(d) => if d@ == "right"@ {
                    Some(1i64)
                } else if d@ == "left"@ {
                    Some(0i64)
                } else {
                    None
                },
                None => None::<i64>,
            })
            &&& rec.allow_intersection_names == if allows_intersection_names(
                admin_config.allow_intersection_names@,
                row.country@,
            ) {
                1i64
            } else {
                0i64
            }
            &&& rec.geom_wkt@ == row.geom_wkt@
            &&& rec.division_id@ == row.division_id@
            &&& opt_view(rec.parent_division_id) == opt_view(row.parent_division_id)
        },
{
    let admin_level = match row.admin_level {
        Some(level) => level,
        None => {
            return None;
        },
    };
    let parent_division_id = match &row.parent_division_id {
        Some(p) => Some(p.clone()),
        None => None,
    };
    Some(AdminRecord {
        admin_level,
        iso_code: get_iso_code(admin_level, row.country.as_str(), &row.region),
        name: copy_or_empty(&row.name),
        name_en: copy_or_empty(&row.name_en),
        drive_on_right: get_drive_on_right(&row.driving_side),
        allow_intersection_names: get_allow_intersection_names(row.country.as_str(), admin_config),
        geom_wkt: row.geom_wkt.clone(),
        division_id: row.division_id.clone(),
        parent_division_id,
    })
}

} // verus!
