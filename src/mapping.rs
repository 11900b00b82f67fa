use vstd::prelude::*;

use crate::properties::AccessRestriction;
use crate::text::{contains, has_prefix, has_substring, starts_with, str_eq};

verus! {

/// Road classes of the routing engine.
#[derive(Clone, Copy, Debug, PartialEq, Eq, Structural)]
pub enum ValhallaRoadClass {
    KMotorway,
    KTrunk,
    KPrimary,
    KSecondary,
    KTertiary,
    KResidential,
    KUnclassified,
    KServiceOther,
}

/// Surface kinds of the routing engine.
#[derive(Clone, Copy, Debug, PartialEq, Eq, Structural)]
pub enum ValhallaSurface {
    PavedSmooth,
    Paved,
    PavedRough,
    Compacted,
    Dirt,
    Gravel,
    Path,
    Impassable,
}

/// The road class of the engine for a class name of the input data.
pub open spec fn road_class_of(c: Seq<char>) -> ValhallaRoadClass {
    if c == "motorway"@ {
        ValhallaRoadClass::KMotorway
    } else if c == "trunk"@ {
        ValhallaRoadClass::KTrunk
    } else if c == "primary"@ {
        ValhallaRoadClass::KPrimary
    } else if c == "secondary"@ {
        ValhallaRoadClass::KSecondary
    } else if c == "tertiary"@ {
        ValhallaRoadClass::KTertiary
    } else if c == "residential"@ {
        ValhallaRoadClass::KResidential
    } else if c == "unclassified"@ {
        ValhallaRoadClass::KUnclassified
    } else {
        ValhallaRoadClass::KServiceOther
    }
}

/// Maps a road class name to the engine's road class; service roads, paths
/// and every other name become `KServiceOther`.
pub fn map_road_class(overture_class: &str) -> (r: ValhallaRoadClass)
    ensures
        r == road_class_of(overture_class@),
{
    if str_eq(overture_class, "motorway") {
        ValhallaRoadClass::KMotorway
    } else if str_eq(overture_class, "trunk") {
        ValhallaRoadClass::KTrunk
    } else if str_eq(overture_class, "primary") {
        ValhallaRoadClass::KPrimary
    } else if str_eq(overture_class, "secondary") {
        ValhallaRoadClass::KSecondary
    } else if str_eq(overture_class, "tertiary") {
        ValhallaRoadClass::KTertiary
    } else if str_eq(overture_class, "residential") {
        ValhallaRoadClass::KResidential
    } else if str_eq(overture_class, "unclassified") {
        ValhallaRoadClass::KUnclassified
    } else {
        ValhallaRoadClass::KServiceOther
    }
}

/// The engine's surface kind for a surface name of the input data.
pub open spec fn surface_of(s: Seq<char>) -> ValhallaSurface {
    if s == "metal"@ || s == "rubber"@ {
        ValhallaSurface::PavedSmooth
    } else if s == "paved"@ || s == "asphalt"@ {
        ValhallaSurface::Paved
    } else if s == "bricks"@ || s == "wood"@ {
        ValhallaSurface::PavedRough
    } else if s == "paving_stones"@ || s == "cobblestone"@ || s == "tiles"@ {
        ValhallaSurface::Compacted
    } else if s == "dirt"@ || s == "unpaved"@ {
        ValhallaSurface::Dirt
    } else if s == "gravel"@ || s == "shells"@ || s == "rock"@ {
        ValhallaSurface::Gravel
    } else if s == "service"@ {
        ValhallaSurface::Impassable
    } else {
        ValhallaSurface::Path
    }
}

/// Maps a surface name to the engine's surface kind; unknown names become
/// `Path`.
pub fn map_surface_type(surface: &str) -> (r: ValhallaSurface)
    ensures
        r == surface_of(surface@),
{
    if str_eq(surface, "metal") || str_eq(surface, "rubber") {
        ValhallaSurface::PavedSmooth
    } else if str_eq(surface, "paved") || str_eq(surface, "asphalt") {
        ValhallaSurface::Paved
    } else if str_eq(surface, "bricks") || str_eq(surface, "wood") {
        ValhallaSurface::PavedRough
    } else if str_eq(surface, "paving_stones") || str_eq(surface, "cobblestone") || str_eq(surface, "tiles") {
        ValhallaSurface::Compacted
    } else if str_eq(surface, "dirt") || str_eq(surface, "unpaved") {
        ValhallaSurface::Dirt
    } else if str_eq(surface, "gravel") || str_eq(surface, "shells") || str_eq(surface, "rock") {
        ValhallaSurface::Gravel
    } else if str_eq(surface, "service") {
        ValhallaSurface::Impassable
    } else {
        ValhallaSurface::Path
    }
}

/// The default speed, in km/h, of a road class.
pub open spec fn default_speed(road_class: ValhallaRoadClass) -> u32 {
    match road_class {
        ValhallaRoadClass::KMotorway => 120,
        ValhallaRoadClass::KTrunk => 100,
        ValhallaRoadClass::KPrimary => 80,
        ValhallaRoadClass::KSecondary => 60,
        ValhallaRoadClass::KTertiary => 50,
        ValhallaRoadClass::KResidential => 30,
        ValhallaRoadClass::KUnclassified => 50,
        ValhallaRoadClass::KServiceOther => 20,
    }
}

/// The posted speed limit when there is one, else the default speed of the
/// road class.
pub fn map_speed_limit(speed_limit: Option<u32>, road_class: ValhallaRoadClass) -> (r: u32)
    ensures
        r == match speed_limit {
            Some(s) => s,
            None => default_speed(road_class),
        },
{
    if let Some(speed) = speed_limit {
        return speed;
    }
    match road_class {
        ValhallaRoadClass::KMotorway => 120,
        ValhallaRoadClass::KTrunk => 100,
        ValhallaRoadClass::KPrimary => 80,
        ValhallaRoadClass::KSecondary => 60,
        ValhallaRoadClass::KTertiary => 50,
        ValhallaRoadClass::KResidential => 30,
        ValhallaRoadClass::KUnclassified => 50,
        ValhallaRoadClass::KServiceOther => 20,
    }
}

/// The qualifier of an access rule, by rising precedence.
#[derive(Clone, Copy, Debug, PartialEq, Eq, Structural)]
pub enum AccessPrecedence {
    Allowed,
    Denied,
    Designated,
}

pub open spec fn rank(p: AccessPrecedence) -> int {
    match p {
        AccessPrecedence::Allowed => 1,
        AccessPrecedence::Denied => 2,
        AccessPrecedence::Designated => 3,
    }
}

/// The travel modes whose access is tracked.
#[derive(Clone, Copy, Debug, PartialEq, Eq, Structural)]
pub enum TravelMode {
    Pedestrian,
    Bicycle,
    Bus,
    Truck,
    Auto,
}

/// The qualifier that an access type begins with.
pub open spec fn precedence_of(t: Seq<char>) -> AccessPrecedence {
    if starts_with(t, "designated_"@) {
        AccessPrecedence::Designated
    } else if starts_with(t, "denied_"@) {
        AccessPrecedence::Denied
    } else {
        AccessPrecedence::Allowed
    }
}

/// Whether a rule of this qualifier allows its mode.
pub open spec fn allows(p: AccessPrecedence) -> bool {
    p != AccessPrecedence::Denied
}

/// The travel mode that an access type updates, the first of foot, bicycle,
/// bus, hgv and car / motor_vehicle / vehicle that it names.
pub open spec fn mode_of(t: Seq<char>) -> Option<TravelMode> {
    if contains(t, "foot"@) {
        Some(TravelMode::Pedestrian)
    } else if contains(t, "bicycle"@) {
        Some(TravelMode::Bicycle)
    } else if contains(t, "bus"@) {
        Some(TravelMode::Bus)
    } else if contains(t, "hgv"@) {
        Some(TravelMode::Truck)
    } else if contains(t, "car"@) || contains(t, "motor_vehicle"@) || contains(t, "vehicle"@) {
        Some(TravelMode::Auto)
    } else {
        None
    }
}

/// Per-mode access of a segment, with the precedence that set each flag.
#[derive(Clone, Copy, Debug)]
pub struct ValhallaAccess {
    pub k_auto_access: bool,
    pub k_bicycle_access: bool,
    pub k_bus_access: bool,
    pub k_truck_access: bool,
    pub k_pedestrian_access: bool,
    pub auto_set_by: Option<AccessPrecedence>,
    pub bicycle_set_by: Option<AccessPrecedence>,
    pub bus_set_by: Option<AccessPrecedence>,
    pub truck_set_by: Option<AccessPrecedence>,
    pub pedestrian_set_by: Option<AccessPrecedence>,
}

impl ValhallaAccess {
    /// Whether `mode` is allowed.
    pub open spec fn allowed(self, mode: TravelMode) -> bool {
        match mode {
            TravelMode::Pedestrian => self.k_pedestrian_access,
            TravelMode::Bicycle => self.k_bicycle_access,
            TravelMode::Bus => self.k_bus_access,
            TravelMode::Truck => self.k_truck_access,
            TravelMode::Auto => self.k_auto_access,
        }
    }

    /// The precedence of the rule that last set the flag of `mode`.
    pub open spec fn set_by(self, mode: TravelMode) -> Option<AccessPrecedence> {
        match mode {
            TravelMode::Pedestrian => self.pedestrian_set_by,
            TravelMode::Bicycle => self.bicycle_set_by,
            TravelMode::Bus => self.bus_set_by,
            TravelMode::Truck => self.truck_set_by,
            TravelMode::Auto => self.auto_set_by,
        }
    }

    /// Every mode allowed, none set by a rule.
    pub fn default() -> (r: ValhallaAccess)
        ensures
            forall|m: TravelMode| #[trigger] r.allowed(m),
            forall|m: TravelMode| #[trigger] r.set_by(m) is None,
    {
        ValhallaAccess {
            k_auto_access: true,
            k_bicycle_access: true,
            k_bus_access: true,
            k_truck_access: true,
            k_pedestrian_access: true,
            auto_set_by: None,
            bicycle_set_by: None,
            bus_set_by: None,
            truck_set_by: None,
            pedestrian_set_by: None,
        }
    }
}

/// Some rule of `rules` updates `mode` with qualifier `p`.
pub open spec fn has_rule(rules: Seq<Seq<char>>, mode: TravelMode, p: AccessPrecedence) -> bool {
    exists|i: int| 0 <= i < rules.len() && mode_of(#[trigger] rules[i]) == Some(mode) && precedence_of(rules[i]) == p
}

/// The highest qualifier among the rules for `mode`, if any.
pub open spec fn top_precedence(rules: Seq<Seq<char>>, mode: TravelMode) -> Option<AccessPrecedence> {
    if has_rule(rules, mode, AccessPrecedence::Designated) {
        Some(AccessPrecedence::Designated)
    } else if has_rule(rules, mode, AccessPrecedence::Denied) {
        Some(AccessPrecedence::Denied)
    } else if has_rule(rules, mode, AccessPrecedence::Allowed) {
        Some(AccessPrecedence::Allowed)
    } else {
        None
    }
}

/// Whether `mode` is allowed under `rules`: a mode that no rule names is
/// allowed; otherwise the rules of the highest qualifier decide, and since
/// those all say the same, it is denied exactly when a `denied_` rule names
/// it and no `designated_` rule does.
pub open spec fn mode_allowed(rules: Seq<Seq<char>>, mode: TravelMode) -> bool {
    match top_precedence(rules, mode) {
        Some(p) => allows(p),
        None => true,
    }
}

pub open spec fn access_types(rules: Seq<AccessRestriction>) -> Seq<Seq<char>> {
    rules.map_values(|r: AccessRestriction| r.access_type@)
}

/// The qualifier of an access type, and whether it allows its mode.
pub fn parse_access_rule(access_type: &str) -> (r: (AccessPrecedence, bool))
    ensures
        r.0 == precedence_of(access_type@),
        r.1 == allows(r.0),
{
    if has_prefix(access_type, "designated_") {
        (AccessPrecedence::Designated, true)
    } else if has_prefix(access_type, "denied_") {
        (AccessPrecedence::Denied, false)
    } else {
        (AccessPrecedence::Allowed, true)
    }
}

/// A rule of qualifier `new_precedence` overrides what was set before unless
/// that was set by a higher qualifier.
pub fn should_apply_rule(current_precedence: Option<AccessPrecedence>, new_precedence: AccessPrecedence) -> (r: bool)
    ensures
        r == match current_precedence {
            None => true,
            Some(c) => rank(new_precedence) >= rank(c),
        },
{
    match current_precedence {
        None => true,
        Some(current) => precedence_rank(new_precedence) >= precedence_rank(current),
    }
}

fn precedence_rank(p: AccessPrecedence) -> (r: u8)
    ensures
        r == rank(p),
{
    match p {
        AccessPrecedence::Allowed => 1,
        AccessPrecedence::Denied => 2,
        AccessPrecedence::Designated => 3,
    }
}

/// The travel mode that an access type updates.
pub fn access_mode(access_type: &str) -> (r: Option<TravelMode>)
    ensures
        r == mode_of(access_type@),
{
    if has_substring(access_type, "foot") {
        Some(TravelMode::Pedestrian)
    } else if has_substring(access_type, "bicycle") {
        Some(TravelMode::Bicycle)
    } else if has_substring(access_type, "bus") {
        Some(TravelMode::Bus)
    } else if has_substring(access_type, "hgv") {
        Some(TravelMode::Truck)
    } else if has_substring(access_type, "car") || has_substring(access_type, "motor_vehicle")
        || has_substring(access_type, "vehicle") {
        Some(TravelMode::Auto)
    } else {
        None
    }
}

/// Applies one rule: the flag of the mode it names takes the rule's verdict
/// unless a rule of higher qualifier set it before; other modes keep theirs.
pub fn apply_access_rule(access: &mut ValhallaAccess, rule: &AccessRestriction)
    ensures
        forall|m: TravelMode|
            if mode_of(rule.access_type@) == Some(m) && (match old(access).set_by(m) {
                None => true,
                Some(c) => rank(precedence_of(rule.access_type@)) >= rank(c),
            }) {
                final(access).allowed(m) == allows(precedence_of(rule.access_type@))
                    && final(access).set_by(m) == Some(precedence_of(rule.access_type@))
            } else {
                final(access).allowed(m) == old(access).allowed(m) && final(access).set_by(m) == old(access).set_by(m)
            },
{
    let (access_precedence, allow) = parse_access_rule(rule.access_type.as_str());
    match access_mode(rule.access_type.as_str()) {
        Some(TravelMode::Pedestrian) => {
            if should_apply_rule(access.pedestrian_set_by, access_precedence) {
                access.k_pedestrian_access = allow;
                access.pedestrian_set_by = Some(access_precedence);
            }
        },
        Some(TravelMode::Bicycle) => {
            if should_apply_rule(access.bicycle_set_by, access_precedence) {
                access.k_bicycle_access = allow;
                access.bicycle_set_by = Some(access_precedence);
            }
        },
        Some(TravelMode::Bus) => {
            if should_apply_rule(access.bus_set_by, access_precedence) {
                access.k_bus_access = allow;
                access.bus_set_by = Some(access_precedence);
            }
        },
        Some(TravelMode::Truck) => {
            if should_apply_rule(access.truck_set_by, access_precedence) {
                access.k_truck_access = allow;
                access.truck_set_by = Some(access_precedence);
            }
        },
        Some(TravelMode::Auto) => {
            if should_apply_rule(access.auto_set_by, access_precedence) {
                access.k_auto_access = allow;
                access.auto_set_by = Some(access_precedence);
            }
        },
        None => {},
    }
}

/// Resolves a list of access rules into per-mode access. Each mode is
/// resolved on its own: a mode that no rule names stays allowed, and
/// otherwise the rules of its highest qualifier decide (`designated_` over
/// `denied_` over allowed, the last of equal rank applying).
pub fn map_access_restrictions(access_rules: &[AccessRestriction]) -> (r: ValhallaAccess)
    ensures
        forall|m: TravelMode| #[trigger] r.allowed(m) == mode_allowed(access_types(access_rules@), m),
{
    let ghost types = access_types(access_rules@);
    let mut access = ValhallaAccess::default();
    assert forall|m: TravelMode, p: AccessPrecedence| !has_rule(#[trigger] types.take(0), m, p) by {}
    let mut i: usize = 0;
    while i < access_rules.len()
        invariant
            i <= access_rules@.len(),
            types == access_types(access_rules@),
            forall|m: TravelMode| #[trigger] access.set_by(m) == top_precedence(types.take(i as int), m),
            forall|m: TravelMode| #[trigger] access.allowed(m) == mode_allowed(types.take(i as int), m),
        decreases access_rules@.len() - i,
    {
        let ghost before = access;
        apply_access_rule(&mut access, &access_rules[i]);
        proof {
            let cur = types.take(i as int);
            let nxt = types.take(i + 1);
            assert(nxt =~= cur.push(types[i as int]));
            assert(types[i as int] == access_rules@[i as int].access_type@);
            assert forall|m: TravelMode| access.set_by(m) == top_precedence(nxt, m)
                && #[trigger] access.allowed(m) == mode_allowed(nxt, m) by {
                assert forall|p: AccessPrecedence| #[trigger] has_rule(nxt, m, p) == (has_rule(cur, m, p)
                    || (mode_of(types[i as int]) == Some(m) && precedence_of(types[i as int]) == p)) by {
                    if has_rule(nxt, m, p) {
                        let w = choose|w: int| 0 <= w < nxt.len() && mode_of(#[trigger] nxt[w]) == Some(m) && precedence_of(nxt[w]) == p;
                        if w < i {
                            assert(cur[w] == nxt[w]);
                        }
                    }
                    if has_rule(cur, m, p) {
                        let w = choose|w: int| 0 <= w < cur.len() && mode_of(#[trigger] cur[w]) == Some(m) && precedence_of(cur[w]) == p;
                        assert(nxt[w] == cur[w]);
                    }
                    if mode_of(types[i as int]) == Some(m) && precedence_of(types[i as int]) == p {
                        assert(nxt[i as int] == types[i as int]);
                    }
                }
            }
        }
        i = i + 1;
    }
    assert(types.take(access_rules@.len() as int) =~= types);
    access
}

} // verus!
