use omf_bifrost::mapping::{
    map_access_restrictions, map_road_class, map_speed_limit, map_surface_type, ValhallaRoadClass,
    ValhallaSurface,
};
use omf_bifrost::properties::AccessRestriction;

fn rule(access_type: &str) -> AccessRestriction {
    AccessRestriction { access_type: access_type.to_string(), when: None }
}

#[test]
fn test_map_road_class() {
    assert_eq!(map_road_class("motorway"), ValhallaRoadClass::KMotorway);
    assert_eq!(map_road_class("primary"), ValhallaRoadClass::KPrimary);
    assert_eq!(map_road_class("service"), ValhallaRoadClass::KServiceOther);
    assert_eq!(map_road_class("footway"), ValhallaRoadClass::KServiceOther);
    assert_eq!(map_road_class("unknown_type"), ValhallaRoadClass::KServiceOther);
}

#[test]
fn test_map_surface_type() {
    assert_eq!(map_surface_type("metal"), ValhallaSurface::PavedSmooth);
    assert_eq!(map_surface_type("paved"), ValhallaSurface::Paved);
    assert_eq!(map_surface_type("dirt"), ValhallaSurface::Dirt);
    assert_eq!(map_surface_type("gravel"), ValhallaSurface::Gravel);
    assert_eq!(map_surface_type("unknown"), ValhallaSurface::Path);
}

#[test]
fn test_map_speed_limit() {
    assert_eq!(map_speed_limit(Some(70), ValhallaRoadClass::KPrimary), 70);
    assert_eq!(map_speed_limit(None, ValhallaRoadClass::KMotorway), 120);
    assert_eq!(map_speed_limit(None, ValhallaRoadClass::KResidential), 30);
    assert_eq!(map_speed_limit(None, ValhallaRoadClass::KServiceOther), 20);
}

#[test]
fn test_map_access_restrictions_empty() {
    let access = map_access_restrictions(&[]);
    assert!(access.k_auto_access);
    assert!(access.k_bicycle_access);
    assert!(access.k_bus_access);
    assert!(access.k_truck_access);
    assert!(access.k_pedestrian_access);
}

#[test]
fn test_map_access_restrictions_denied() {
    let rules = vec![AccessRestriction { access_type: "denied_car".to_string(), when: None }];
    let access = map_access_restrictions(&rules);
    assert!(!access.k_auto_access);
    assert!(access.k_bicycle_access);
    assert!(access.k_bus_access);
    assert!(access.k_truck_access);
    assert!(access.k_pedestrian_access);
}

#[test]
fn designated_outranks_later_denied() {
    let access = map_access_restrictions(&[rule("designated_foot"), rule("denied_foot")]);
    assert!(access.k_pedestrian_access);
}

#[test]
fn denied_outranks_later_allowed() {
    let access = map_access_restrictions(&[rule("denied_bicycle"), rule("allowed_bicycle")]);
    assert!(!access.k_bicycle_access);
}

#[test]
fn later_rule_of_equal_rank_applies() {
    let access = map_access_restrictions(&[rule("denied_bus"), rule("denied_hgv"), rule("designated_bus")]);
    assert!(access.k_bus_access);
    assert!(!access.k_truck_access);
    let access = map_access_restrictions(&[rule("designated_hgv"), rule("denied_hgv")]);
    assert!(access.k_truck_access);
}

#[test]
fn modes_are_resolved_independently() {
    let access = map_access_restrictions(&[rule("denied_motor_vehicle"), rule("designated_foot"), rule("denied_unknown")]);
    assert!(!access.k_auto_access);
    assert!(access.k_pedestrian_access);
    assert!(access.k_bicycle_access);
    assert!(access.k_bus_access);
    assert!(access.k_truck_access);
}

#[test]
fn foot_takes_precedence_in_mode_choice() {
    // names both foot and car: only the pedestrian flag is updated
    let access = map_access_restrictions(&[rule("denied_foot_and_car")]);
    assert!(!access.k_pedestrian_access);
    assert!(access.k_auto_access);
}

#[test]
fn surface_and_class_tables() {
    assert_eq!(map_surface_type("asphalt"), ValhallaSurface::Paved);
    assert_eq!(map_surface_type("wood"), ValhallaSurface::PavedRough);
    assert_eq!(map_surface_type("tiles"), ValhallaSurface::Compacted);
    assert_eq!(map_surface_type("service"), ValhallaSurface::Impassable);
    assert_eq!(map_road_class("trunk"), ValhallaRoadClass::KTrunk);
    assert_eq!(map_road_class("unclassified"), ValhallaRoadClass::KUnclassified);
    assert_eq!(map_speed_limit(None, ValhallaRoadClass::KTrunk), 100);
    assert_eq!(map_speed_limit(None, ValhallaRoadClass::KUnclassified), 50);
}
