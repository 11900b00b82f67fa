use omf_bifrost::admin::{
    admin_access_row, admin_record, get_allow_intersection_names, get_drive_on_right, get_iso_code, modes_to_bitmask,
    AccessMode, AdminConfig, AdminSourceRow, HighwayAccess, HighwayType,
};

#[test]
fn test_access_mode_bit() {
    let tests = [
        (AccessMode::Auto, 1),
        (AccessMode::Pedestrian, 2),
        (AccessMode::Bicycle, 4),
        (AccessMode::Truck, 8),
        (AccessMode::Emergency, 16),
        (AccessMode::Taxi, 32),
        (AccessMode::Bus, 64),
        (AccessMode::Hov, 128),
        (AccessMode::Wheelchair, 256),
        (AccessMode::Moped, 512),
        (AccessMode::Motorcycle, 1024),
    ];
    for (mode, expected) in tests {
        assert_eq!(mode.bit(), expected, "mode {:?} should have bit value {}", mode, expected);
    }
}

#[test]
fn test_modes_to_bitmask_one() {
    assert_eq!(modes_to_bitmask(&[AccessMode::Bicycle]), Some(4));

    let bm = modes_to_bitmask(&[AccessMode::Bicycle, AccessMode::Pedestrian]);
    assert_eq!(bm, Some(6));

    assert_eq!(modes_to_bitmask(&[]), None);
}

#[test]
fn test_get_iso_code_country_and_region() {
    let code = get_iso_code(2, "US", &Some("US-WA".into()));
    assert_eq!(code, Some("US".into()));

    let code = get_iso_code(4, "US", &Some("US-WA".into()));
    assert_eq!(code, Some("WA".into()));
}

#[test]
fn test_get_drive_on_right_basic() {
    assert_eq!(get_drive_on_right(&Some("right".into())), Some(1));
    assert_eq!(get_drive_on_right(&Some("left".into())), Some(0));
    assert_eq!(get_drive_on_right(&Some("other".into())), None);
    assert_eq!(get_drive_on_right(&None), None);
}

#[test]
fn test_get_allow_intersection_names_lookup() {
    let ac = AdminConfig::default();
    assert_eq!(get_allow_intersection_names("JP", &ac), 1);
    assert_eq!(get_allow_intersection_names("GB", &ac), 0);
    assert_eq!(get_allow_intersection_names("XX", &ac), 0);
}

#[test]
fn iso_code_edge_cases() {
    assert_eq!(get_iso_code(4, "US", &Some("WA".into())), Some("WA".into()));
    assert_eq!(get_iso_code(4, "FR", &Some("FR-ARA-X".into())), Some("ARA".into()));
    assert_eq!(get_iso_code(4, "US", &None), None);
    assert_eq!(get_iso_code(6, "US", &Some("US-WA".into())), None);
}

#[test]
fn bitmask_repeats_and_all_modes() {
    assert_eq!(modes_to_bitmask(&[AccessMode::Moped, AccessMode::Moped]), Some(512));
    let all = [
        AccessMode::Auto,
        AccessMode::Pedestrian,
        AccessMode::Bicycle,
        AccessMode::Truck,
        AccessMode::Emergency,
        AccessMode::Taxi,
        AccessMode::Bus,
        AccessMode::Hov,
        AccessMode::Wheelchair,
        AccessMode::Moped,
        AccessMode::Motorcycle,
    ];
    assert_eq!(modes_to_bitmask(&all), Some(2047));
}

#[test]
fn default_config_access_rows() {
    let ac = AdminConfig::default();
    assert_eq!(ac.admin_access.len(), 32);
    let us = ac.admin_access.iter().find(|c| c.country == "US").unwrap();
    let row = admin_access_row(&us.rules);
    // pedestrian, bridleway, cycleway: pedestrian + bicycle + wheelchair; path adds moped
    assert_eq!(row, vec![None, None, None, None, Some(262), Some(262), Some(262), Some(774), None]);
    let at = ac.admin_access.iter().find(|c| c.country == "AT").unwrap();
    let row = admin_access_row(&at.rules);
    assert_eq!(row[0], Some(1 + 8 + 64 + 128 + 32 + 1024));
    assert_eq!(row[7], Some(2 + 256));
}

#[test]
fn access_row_first_rule_wins_and_empty_is_none() {
    let rules = vec![
        HighwayAccess { highway: HighwayType::Track, modes: vec![] },
        HighwayAccess { highway: HighwayType::Path, modes: vec![AccessMode::Bus] },
        HighwayAccess { highway: HighwayType::Path, modes: vec![AccessMode::Auto] },
    ];
    let row = admin_access_row(&rules);
    assert_eq!(row[2], None);
    assert_eq!(row[7], Some(64));
}

fn source_row(level: Option<i64>, country: &str, region: Option<&str>, side: Option<&str>) -> AdminSourceRow {
    AdminSourceRow {
        division_id: "d1".to_string(),
        parent_division_id: Some("d0".to_string()),
        admin_level: level,
        country: country.to_string(),
        region: region.map(|r| r.to_string()),
        name: Some("Washington".to_string()),
        name_en: None,
        driving_side: side.map(|d| d.to_string()),
        geom_wkt: "MULTIPOLYGON EMPTY".to_string(),
    }
}

#[test]
fn admin_records_from_source_rows() {
    let ac = AdminConfig::default();
    assert!(admin_record(&source_row(None, "US", None, None), &ac).is_none());
    let rec = admin_record(&source_row(Some(4), "US", Some("US-WA"), Some("right")), &ac).unwrap();
    assert_eq!(rec.admin_level, 4);
    assert_eq!(rec.iso_code, Some("WA".to_string()));
    assert_eq!(rec.name, "Washington");
    assert_eq!(rec.name_en, "");
    assert_eq!(rec.drive_on_right, Some(1));
    assert_eq!(rec.allow_intersection_names, 0);
    assert_eq!(rec.parent_division_id, Some("d0".to_string()));
    let rec = admin_record(&source_row(Some(2), "JP", None, Some("left")), &ac).unwrap();
    assert_eq!(rec.iso_code, Some("JP".to_string()));
    assert_eq!(rec.drive_on_right, Some(0));
    assert_eq!(rec.allow_intersection_names, 1);
}
