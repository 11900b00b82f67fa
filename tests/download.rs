use omf_bifrost::download::{BoundingBox, OvertureMapsConfig, OvertureMapsQuery};
use omf_bifrost::express::OvertureExpress;
use omf_bifrost::logging::configure_logging;

#[test]
fn test_overture_config_default() {
    let config = OvertureMapsConfig::default();
    assert!(config.base_url.contains("overturemaps"));
    assert!(!config.release_version.is_empty());
}

#[test]
fn test_basic_creation() {
    let _db = OvertureExpress::new();
}

#[test]
fn divisions_query_names_paths_and_release() {
    let q = OvertureMapsQuery::new(OvertureMapsConfig {
        base_url: "s3://bucket/release".to_string(),
        release_version: "2025-01-01.0".to_string(),
    });
    let text = q.divisions_query("areas.parquet", "divisions.parquet");
    assert!(text.contains("read_parquet('s3://bucket/release/2025-01-01.0/theme=divisions/type=division/*'"));
    assert!(text.contains("FROM read_parquet('areas.parquet')"));
    assert!(text.contains(") TO 'divisions.parquet' (FORMAT PARQUET);"));
}

#[test]
fn verbosity_selects_level() {
    assert_eq!(configure_logging(0), log::LevelFilter::Error);
    assert_eq!(configure_logging(1), log::LevelFilter::Info);
    assert_eq!(configure_logging(2), log::LevelFilter::Debug);
    assert_eq!(configure_logging(3), log::LevelFilter::Trace);
    assert_eq!(configure_logging(200), log::LevelFilter::Trace);
}

#[test]
fn test_bounding_box_wkt() {
    let bbox = BoundingBox::new(-122_400_000_000, 47_600_000_000, -122_300_000_000, 47_700_000_000);
    let wkt = bbox.to_wkt_polygon();
    assert!(wkt.contains("POLYGON"));
    assert!(wkt.contains("-122.4"));
    assert!(wkt.contains("47.6"));
}

#[test]
fn wkt_polygon_is_exact() {
    let bbox = BoundingBox::new(-122_355_509_000, 47_610_561_000, 3_000_000_000, -5);
    assert_eq!(
        bbox.to_wkt_polygon(),
        "POLYGON((-122.355509 47.610561, 3 47.610561, 3 -0.000000005, -122.355509 -0.000000005, -122.355509 47.610561))"
    );
    assert_eq!(BoundingBox::new(0, 0, 0, 0).to_wkt_polygon(), "POLYGON((0 0, 0 0, 0 0, 0 0, 0 0))");
}

#[test]
fn bounding_box_queries() {
    let q = OvertureMapsQuery::new(OvertureMapsConfig::default());
    let bbox = BoundingBox::new(-122_400_000_000, 47_600_000_000, -122_300_000_000, 47_700_000_000);
    let t = q.transportation_query(&bbox, "out.parquet");
    assert!(t.contains("/release/2025-05-21.0/theme=transportation/type=*/*'"));
    assert!(t.contains("bbox.xmin >= -122.4\n                    AND bbox.xmax <= -122.3"));
    assert!(t.contains("AND bbox.ymin >= 47.6\n                    AND bbox.ymax <= 47.7"));
    assert!(t.contains("TO 'out.parquet' (FORMAT PARQUET);"));
    let a = q.division_areas_query(&bbox, "areas.parquet");
    assert!(a.contains("theme=divisions/type=division_area/*'"));
    assert!(a.contains("bbox.xmin <= -122.3"));
    assert!(a.contains("ST_GeomFromText('POLYGON((-122.4 47.6, -122.3 47.6, -122.3 47.7, -122.4 47.7, -122.4 47.6))')"));
}
