use vstd::prelude::*;

use crate::mapping::{access_types, map_access_restrictions, mode_allowed, TravelMode};
use crate::model::{opt_view, Segment};
use crate::text::str_eq;

verus! {

/// Which travel modes may use a segment.
#[derive(Clone, Copy, Debug, PartialEq, Eq, Structural)]
pub struct Permissions {
    pub pedestrian_allowed: bool,
    pub auto_allowed: bool,
}

impl Permissions {
    /// Neither mode may use the segment, so it is left out of the graph.
    pub open spec fn none_allowed(self) -> bool {
        !self.pedestrian_allowed && !self.auto_allowed
    }
}

/// Pedestrians may use a road of this class unless it is motor-only
/// infrastructure or rail.
pub open spec fn pedestrian_allowed_for(c: Seq<char>) -> bool {
    !(c == "motorway"@ || c == "trunk"@ || c == "cycleway"@ || c == "standard_gauge"@)
}

/// Cars may use a road of this class unless it is non-motor infrastructure,
/// rail, or has no class (written `null`).
pub open spec fn auto_allowed_for(c: Seq<char>) -> bool {
    !(c == "null"@ || c == "steps"@ || c == "path"@ || c == "living_street"@ || c == "pedestrian"@
        || c == "footway"@ || c == "cycleway"@ || c == "standard_gauge"@)
}

/// The permissions of a road class name.
pub fn check_permissions(road_class: &str) -> (r: Permissions)
    ensures
        r.pedestrian_allowed == pedestrian_allowed_for(road_class@),
        r.auto_allowed == auto_allowed_for(road_class@),
{
    let pedestrian_allowed = !(str_eq(road_class, "motorway") || str_eq(road_class, "trunk") || str_eq(
        road_class,
        "cycleway",
    ) || str_eq(road_class, "standard_gauge"));
    let auto_allowed = !(str_eq(road_class, "null") || str_eq(road_class, "steps") || str_eq(road_class, "path")
        || str_eq(road_class, "living_street") || str_eq(road_class, "pedestrian") || str_eq(
        road_class,
        "footway",
    ) || str_eq(road_class, "cycleway") || str_eq(road_class, "standard_gauge"));
    Permissions { pedestrian_allowed, auto_allowed }
}

/// How the permissions of a segment are derived. Two policies exist and
/// neither is the authority: the caller picks one.
#[derive(Clone, Copy, Debug, PartialEq, Eq, Structural)]
pub enum PermissionPolicy {
    /// From the road class alone.
    RoadClass,
    /// From the segment's access restrictions, each mode resolved by
    /// qualifier precedence; a segment without restrictions is open to all.
    AccessRestrictions,
}

/// The class name that a segment's permissions are looked up by: `null` when
/// it has none.
pub open spec fn class_name(s: Segment) -> Seq<char> {
    match opt_view(s.road_class) {
        Some(c) => c,
        None => "null"@,
    }
}

/// The permissions of segment `s` under `policy`.
pub open spec fn permissions_of(s: Segment, policy: PermissionPolicy) -> Permissions {
    match policy {
        PermissionPolicy::RoadClass => Permissions {
            pedestrian_allowed: pedestrian_allowed_for(class_name(s)),
            auto_allowed: auto_allowed_for(class_name(s)),
        },
        PermissionPolicy::AccessRestrictions => Permissions {
            pedestrian_allowed: mode_allowed(access_types(s.access_restrictions@), TravelMode::Pedestrian),
            auto_allowed: mode_allowed(access_types(s.access_restrictions@), TravelMode::Auto),
        },
    }
}

/// Derives the permissions of a segment under the chosen policy.
pub fn resolve_permissions(segment: &Segment, policy: PermissionPolicy) -> (r: Permissions)
    ensures
        r == permissions_of(*segment, policy),
{
    match policy {
        PermissionPolicy::RoadClass => match &segment.road_class {
            Some(c) => check_permissions(c.as_str()),
            None => check_permissions("null"),
        },
        PermissionPolicy::AccessRestrictions => {
            let access = map_access_restrictions(segment.access_restrictions.as_slice());
            assert(access.allowed(TravelMode::Pedestrian) == access.k_pedestrian_access);
            assert(access.allowed(TravelMode::Auto) == access.k_auto_access);
            Permissions { pedestrian_allowed: access.k_pedestrian_access, auto_allowed: access.k_auto_access }
        },
    }
}

} // verus!
