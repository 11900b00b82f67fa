use omf_bifrost::geometry::{decode_lat_lon, encode_lat_lon, points_match, DecodedGeometry, Point};
use omf_bifrost::graph::{convert_overture_to_valhalla, export_roads, resolve_roads};
use omf_bifrost::model::{
    import_overture_data, Connector, ConnectorRef, ConnectorRow, Data, ErrorKind, RequiredField, Segment,
    SegmentRow, Table,
};
use omf_bifrost::permissions::{check_permissions, resolve_permissions, PermissionPolicy};
use omf_bifrost::properties::AccessRestriction;
use omf_bifrost::resolver::{get_connector_index_for_point, process_segment};
use omf_bifrost::valhalla::{OsmNode, OsmWay, OsmWayNode};

fn pt(lat: i64, lon: i64) -> Point {
    Point { lat, lon }
}

fn connector(id: &str, p: Point) -> Connector {
    Connector { id: id.to_string(), coordinate: p }
}

fn cref(id: &str, at: u32) -> ConnectorRef {
    ConnectorRef { id: id.to_string(), at }
}

fn segment(id: &str, class: Option<&str>, points: Vec<Point>, refs: Vec<ConnectorRef>) -> Segment {
    Segment {
        id: id.to_string(),
        name: String::new(),
        road_class: class.map(|c| c.to_string()),
        points,
        connectors: refs,
        access_restrictions: vec![],
    }
}

const A: Point = Point { lat: 47_600_000_000, lon: -122_300_000_000 };
const B: Point = Point { lat: 47_600_500_000, lon: -122_300_500_000 };

fn scenario() -> Data {
    Data {
        connectors: vec![connector("A", A), connector("B", B)],
        segments: vec![segment(
            "s1",
            Some("residential"),
            vec![A, pt(47_600_200_000, -122_300_200_000), B],
            vec![cref("A", 0), cref("B", 1_000_000_000)],
        )],
    }
}

fn osmids(nodes: &[OsmWayNode], way_index: u32) -> Vec<u64> {
    nodes.iter().filter(|n| n.way_index == way_index).map(|n| n.node.osmid).collect()
}

#[test]
fn two_connectors_and_a_minted_middle_vertex() {
    let data = scenario();
    let roads = resolve_roads(&data, PermissionPolicy::RoadClass).unwrap();
    assert_eq!(roads.len(), 1);
    let indices: Vec<u64> = roads[0].points.iter().map(|p| p.index).collect();
    assert_eq!(indices, vec![0, 2, 1]);
    assert!(roads[0].permissions.auto_allowed);
    assert!(roads[0].permissions.pedestrian_allowed);
    let (ways, nodes) = export_roads(&roads).unwrap();
    assert_eq!(ways.len(), 2);
    assert_eq!(ways[0], OsmWay::new(1, 1, 3, true, true));
    assert_eq!(ways[1], OsmWay::new(2, 1, 3, true, true));
    assert!(ways[0].auto_forward && ways[0].pedestrian_backward);
    assert_eq!(osmids(&nodes, 0), vec![0, 2, 1]);
    assert_eq!(osmids(&nodes, 1), vec![1, 2, 0]);
    let positions: Vec<u32> = nodes.iter().map(|n| n.way_shape_node_index).collect();
    assert_eq!(positions, vec![0, 1, 2, 0, 1, 2]);
}

#[test]
fn tolerance_boundary_is_strict() {
    let c = pt(10_000_000_000, 20_000_000_000);
    // exactly 1e-6 degree away on one axis: no match
    assert!(!points_match(&pt(10_000_001_000, 20_000_000_000), &c));
    assert!(!points_match(&pt(10_000_000_000, 19_999_999_000), &c));
    // 9.9e-7 degree away on both axes: match
    assert!(points_match(&pt(10_000_000_990, 19_999_999_010), &c));

    let all = vec![connector("c", c)];
    let refs = vec![cref("c", 0)];
    assert_eq!(get_connector_index_for_point(&pt(10_000_001_000, 20_000_000_000), &refs, &all), None);
    assert_eq!(get_connector_index_for_point(&pt(9_999_999_010, 20_000_000_000), &refs, &all), Some(0));
}

#[test]
fn shared_connector_gives_one_node_across_segments() {
    let j = pt(1_000_000_000, 1_000_000_000);
    let data = Data {
        connectors: vec![connector("x", pt(0, 0)), connector("j", j)],
        segments: vec![
            segment("a", Some("primary"), vec![pt(5, 5_000_000), pt(0, 500)], vec![cref("j", 0), cref("x", 1)]),
            segment("b", Some("primary"), vec![pt(1_000_000_400, 999_999_500), pt(3_000_000, 3)], vec![cref("j", 0)]),
        ],
    };
    let roads = resolve_roads(&data, PermissionPolicy::RoadClass).unwrap();
    let a: Vec<u64> = roads[0].points.iter().map(|p| p.index).collect();
    let b: Vec<u64> = roads[1].points.iter().map(|p| p.index).collect();
    assert_eq!(a, vec![2, 0]);
    assert_eq!(b, vec![1, 3]);
}

#[test]
fn first_matching_reference_wins_and_unknown_ids_are_skipped() {
    let p = pt(0, 0);
    let all = vec![connector("first", pt(100, 100)), connector("second", pt(-100, -100))];
    let refs = vec![cref("missing", 0), cref("second", 0), cref("first", 0)];
    assert_eq!(get_connector_index_for_point(&p, &refs, &all), Some(1));
}

#[test]
fn matching_reference_index_is_returned() {
    let a = pt(0, 0);
    let b = pt(5_000_000, 5_000_000);
    let all = vec![connector("A", a), connector("B", b)];
    let refs = vec![cref("B", 0)];
    assert_eq!(get_connector_index_for_point(&b, &refs, &all), Some(0));
    assert_eq!(get_connector_index_for_point(&a, &refs, &all), None);
    // the vertex still takes B's table position as its node index
    let s = segment("s", Some("primary"), vec![b, pt(9_000_000, 0)], vec![cref("B", 0)]);
    let mut next = 2u64;
    let road = process_segment(&s, &all, &mut next, check_permissions("primary"));
    assert_eq!(road.points[0].index, 1);
    assert_eq!(road.points[1].index, 2);
}

#[test]
fn edge_builder_refuses_degenerate_roads() {
    let data = scenario();
    let mut roads = resolve_roads(&data, PermissionPolicy::RoadClass).unwrap();
    let mut short = roads[0].clone();
    short.points.truncate(1);
    roads.push(short);
    let err = export_roads(&roads).unwrap_err();
    assert_eq!(err.kind, ErrorKind::DegenerateEdge);
    assert_eq!(err.road, 1);
}

#[test]
fn coincident_unreferenced_vertices_are_not_unified() {
    let data = Data {
        connectors: vec![],
        segments: vec![
            segment("a", Some("primary"), vec![pt(1, 1), pt(2, 2)], vec![]),
            segment("b", Some("primary"), vec![pt(2, 2), pt(1, 1)], vec![]),
        ],
    };
    let roads = resolve_roads(&data, PermissionPolicy::RoadClass).unwrap();
    let all: Vec<u64> = roads.iter().flat_map(|r| r.points.iter().map(|p| p.index)).collect();
    assert_eq!(all, vec![0, 1, 2, 3]);
}

#[test]
fn dropped_segment_gives_no_edges_and_takes_no_index() {
    let data = Data {
        connectors: vec![connector("c", pt(0, 0))],
        segments: vec![
            segment("keep1", Some("residential"), vec![pt(0, 0), pt(10_000, 0)], vec![cref("c", 0)]),
            segment("rail", Some("standard_gauge"), vec![pt(50_000, 0), pt(60_000, 0)], vec![]),
            segment("keep2", Some("footway"), vec![pt(70_000, 0), pt(80_000, 0)], vec![]),
        ],
    };
    let roads = resolve_roads(&data, PermissionPolicy::RoadClass).unwrap();
    assert_eq!(roads.len(), 2);
    let (ways, nodes) = export_roads(&roads).unwrap();
    assert_eq!(ways.len(), 4);
    assert_eq!(nodes.len(), 8);
    assert!(!nodes.iter().any(|n| n.node.lat7 == encode_lat_lon(50_000, 0).0));
    let indices: Vec<u64> = roads[1].points.iter().map(|p| p.index).collect();
    assert_eq!(indices, vec![2, 3]);
    assert!(roads[1].permissions.pedestrian_allowed);
    assert!(!roads[1].permissions.auto_allowed);
}

#[test]
fn conversion_is_repeatable_byte_for_byte() {
    let first = convert_overture_to_valhalla(&scenario(), PermissionPolicy::RoadClass).unwrap();
    let second = convert_overture_to_valhalla(&scenario(), PermissionPolicy::RoadClass).unwrap();
    assert_eq!(first.ways, second.ways);
    assert_eq!(first.way_nodes, second.way_nodes);
    assert_eq!(first.ways.len(), 2 * 24);
    assert_eq!(first.way_nodes.len(), 6 * 28);
}

#[test]
fn degenerate_kept_segment_fails_the_run() {
    let mut data = scenario();
    data.segments.push(segment("short", Some("primary"), vec![pt(1, 1)], vec![]));
    let err = convert_overture_to_valhalla(&data, PermissionPolicy::RoadClass).unwrap_err();
    assert_eq!(err.kind, ErrorKind::DegenerateEdge);
    assert_eq!(err.table, Table::Segment);
    assert_eq!(err.row, 1);
    assert_eq!(err.id, "short");
    // a dropped one-vertex segment is no error
    let mut data = scenario();
    data.segments.push(segment("rail", Some("standard_gauge"), vec![pt(1, 1)], vec![]));
    assert!(convert_overture_to_valhalla(&data, PermissionPolicy::RoadClass).is_ok());
}

#[test]
fn too_many_vertices_for_the_edge_record() {
    let points: Vec<Point> = (0..70_000i64).map(|i| pt(i, i)).collect();
    let data = Data { connectors: vec![], segments: vec![segment("long", Some("primary"), points, vec![])] };
    let err = resolve_roads(&data, PermissionPolicy::RoadClass).unwrap_err();
    assert_eq!(err.kind, ErrorKind::RecordLimitExceeded);
}

#[test]
fn road_class_permissions() {
    let p = check_permissions("motorway");
    assert!(!p.pedestrian_allowed && p.auto_allowed);
    let p = check_permissions("cycleway");
    assert!(!p.pedestrian_allowed && !p.auto_allowed);
    let p = check_permissions("steps");
    assert!(p.pedestrian_allowed && !p.auto_allowed);
    let p = check_permissions("residential");
    assert!(p.pedestrian_allowed && p.auto_allowed);
    let p = resolve_permissions(&segment("n", None, vec![], vec![]), PermissionPolicy::RoadClass);
    assert!(p.pedestrian_allowed && !p.auto_allowed);
}

#[test]
fn access_rule_policy() {
    let mut s = segment("r", Some("motorway"), vec![], vec![]);
    let p = resolve_permissions(&s, PermissionPolicy::AccessRestrictions);
    assert!(p.pedestrian_allowed && p.auto_allowed);
    s.access_restrictions = vec![
        AccessRestriction { access_type: "denied_foot".to_string(), when: None },
        AccessRestriction { access_type: "denied_car".to_string(), when: None },
    ];
    let p = resolve_permissions(&s, PermissionPolicy::AccessRestrictions);
    assert!(!p.pedestrian_allowed && !p.auto_allowed);
    let data = Data { connectors: vec![], segments: vec![s] };
    let out = convert_overture_to_valhalla(&data, PermissionPolicy::AccessRestrictions).unwrap();
    assert!(out.ways.is_empty() && out.way_nodes.is_empty());
}

#[test]
fn process_segment_advances_the_counter() {
    let all = vec![connector("c", pt(0, 0))];
    let s = segment("s", None, vec![pt(0, 0), pt(5_000, 0), pt(9_000, 0)], vec![cref("c", 0)]);
    let mut next = 7u64;
    let perms = check_permissions("primary");
    let road = process_segment(&s, &all, &mut next, perms);
    let indices: Vec<u64> = road.points.iter().map(|p| p.index).collect();
    assert_eq!(indices, vec![0, 7, 8]);
    assert_eq!(next, 9);
}

#[test]
fn coordinates_encode_to_fixed_point() {
    assert_eq!(encode_lat_lon(47_600_000_000, -122_300_000_000), (1_376_000_000, 577_000_000));
    assert_eq!(encode_lat_lon(0, 0), (900_000_000, 1_800_000_000));
    // rounds to nearest 1e-7 degree
    assert_eq!(encode_lat_lon(49, 50), (900_000_000, 1_800_000_001));
    // saturates outside the range
    assert_eq!(encode_lat_lon(-91_000_000_000, 300_000_000_000).0, 0);
    assert_eq!(encode_lat_lon(0, 300_000_000_000).1, u32::MAX);
    assert_eq!(decode_lat_lon(1_376_000_000, 577_000_000), (47_600_000_000, -122_300_000_000));
}

#[test]
fn record_layouts() {
    let way = OsmWay::new(0x0102030405060708, 9, 0x0a0b, true, false);
    let bytes = way.as_bytes();
    assert_eq!(bytes, vec![8, 7, 6, 5, 4, 3, 2, 1, 9, 0, 0, 0, 0x0b, 0x0a, 3, 7, 25, 25, 1, 0, 1, 1, 0, 0]);
    let simple = OsmWay::simple_valhalla(1, 1, 2);
    assert!(simple.pedestrian_forward && !simple.auto_forward);
    assert_eq!(OsmWay::default().speed, 0);
    let node = OsmWayNode::new(5, 6, 7, 0, 0, 3);
    assert_eq!(node.node.intersection, 1);
    assert_eq!(node.node.access, 2047);
    let bytes = node.as_bytes();
    assert_eq!(bytes.len(), 28);
    assert_eq!(&bytes[0..8], &[7, 0, 0, 0, 0, 0, 0, 0]);
    assert_eq!(&bytes[8..12], &1_800_000_000u32.to_le_bytes());
    assert_eq!(&bytes[12..16], &900_000_000u32.to_le_bytes());
    assert_eq!(&bytes[16..20], &[0xff, 0x07, 1, 0]);
    assert_eq!(&bytes[20..28], &[5, 0, 0, 0, 6, 0, 0, 0]);
    assert_eq!(OsmWayNode::simple_valhalla(5, 6, 7, 0, 0, 3), node);
    assert_eq!(OsmWayNode::default().way_index, 0);
    let nodes = [node.node, OsmNode { osmid: 1, lng7: 2, lat7: 3, access: 4, intersection: 0 }];
    assert_eq!(OsmNode::slice_as_bytes(&nodes).len(), 40);
    assert_eq!(OsmWay::slice_as_bytes(&[way, simple]).len(), 48);
    assert_eq!(OsmWayNode::slice_as_bytes(&[node]).len(), 28);
}

fn seg_row(id: &str, geometry: Option<DecodedGeometry>, refs: Option<Vec<ConnectorRef>>) -> SegmentRow {
    SegmentRow {
        id: id.to_string(),
        primary_name: None,
        class: Some("primary".to_string()),
        geometry,
        connectors: refs,
        access_restrictions: vec![],
    }
}

#[test]
fn import_builds_tables_and_reports_first_bad_row() {
    let crow = ConnectorRow { id: "c".to_string(), geometry: Some(DecodedGeometry::Point(pt(1, 2))) };
    let good = seg_row("s", Some(DecodedGeometry::LineString(vec![pt(1, 2), pt(3, 4)])), Some(vec![cref("c", 0)]));
    let data = import_overture_data(&vec![good.clone()], &vec![crow.clone()]).unwrap();
    assert_eq!(data.connectors[0].coordinate, pt(1, 2));
    assert_eq!(data.segments[0].name, "");
    assert_eq!(data.segments[0].points, vec![pt(1, 2), pt(3, 4)]);
    assert_eq!(data.segments[0].connectors[0].id, "c");

    let no_refs = seg_row("n", Some(DecodedGeometry::LineString(vec![pt(1, 2)])), None);
    let err = import_overture_data(&vec![good.clone(), no_refs], &vec![crow.clone()]).unwrap_err();
    assert_eq!(err.kind, ErrorKind::MissingRequiredField(RequiredField::Connectors));
    assert_eq!((err.table, err.row, err.id.as_str()), (Table::Segment, 1, "n"));

    let point_seg = seg_row("p", Some(DecodedGeometry::Point(pt(0, 0))), Some(vec![]));
    let err = import_overture_data(&vec![point_seg], &vec![crow.clone()]).unwrap_err();
    assert_eq!(err.kind, ErrorKind::GeometryTypeMismatch);

    let bad_conn = ConnectorRow { id: "bad".to_string(), geometry: Some(DecodedGeometry::Other) };
    let missing = seg_row("m", None, Some(vec![]));
    let err = import_overture_data(&vec![missing], &vec![crow, bad_conn]).unwrap_err();
    assert_eq!(err.kind, ErrorKind::GeometryTypeMismatch);
    assert_eq!((err.table, err.row, err.id.as_str()), (Table::Connector, 1, "bad"));

    let err = import_overture_data(&vec![seg_row("m", None, Some(vec![]))], &vec![]).unwrap_err();
    assert_eq!(err.kind, ErrorKind::MissingRequiredField(RequiredField::Geometry));
}

#[test]
fn dropped_segment_leaves_output_unchanged() {
    let mut with_rail = scenario();
    with_rail.segments.insert(0, segment("rail", Some("standard_gauge"), vec![A, pt(1, 1), B], vec![cref("A", 0)]));
    let a = convert_overture_to_valhalla(&with_rail, PermissionPolicy::RoadClass).unwrap();
    let b = convert_overture_to_valhalla(&scenario(), PermissionPolicy::RoadClass).unwrap();
    assert_eq!(a.ways, b.ways);
    assert_eq!(a.way_nodes, b.way_nodes);
}
