use vstd::prelude::*;

use crate::model::{ConvertError, Data, ErrorKind, Table};
use crate::permissions::{permissions_of, resolve_permissions, PermissionPolicy, Permissions};
use crate::resolver::{indexed_points, minted_count, process_segment, vertex_index, ExportedRoad, IndexedPoint};
use crate::valhalla::{
    way_node_record, way_nodes_bytes, way_record, ways_bytes, OsmWay, OsmWayNode,
};

verus! {

/// The most roads one run can export: the vertex records number the edges of
/// road `r` as `2r` and `2r + 1`, which must fit in 32 bits.
pub const MAX_ROADS: usize = 0x7fff_ffff;

/// Segment `s` is kept: some travel mode may use it.
pub open spec fn kept(data: Data, policy: PermissionPolicy, s: int) -> bool {
    !permissions_of(data.segments@[s], policy).none_allowed()
}

/// The positions of the kept segments among the first `n`, in order.
pub open spec fn kept_segments(data: Data, policy: PermissionPolicy, n: int) -> Seq<int>
    decreases n,
{
    if n <= 0 {
        Seq::empty()
    } else {
        kept_segments(data, policy, n - 1) + if kept(data, policy, n - 1) {
            seq![n - 1]
        } else {
            Seq::empty()
        }
    }
}

/// How many fresh node indices the kept segments among the first `n` take.
pub open spec fn minted_before(data: Data, policy: PermissionPolicy, n: int) -> nat
    decreases n,
{
    if n <= 0 {
        0
    } else {
        minted_before(data, policy, n - 1) + if kept(data, policy, n - 1) {
            minted_count(
                data.segments@[n - 1].points@,
                data.segments@[n - 1].connectors@,
                data.connectors@,
            )
        } else {
            0
        }
    }
}

/// The first fresh node index that segment `s` may take: fresh indices
/// start right after the connectors' own.
pub open spec fn first_fresh(data: Data, policy: PermissionPolicy, s: int) -> int {
    (data.connectors@.len() + minted_before(data, policy, s)) as int
}

/// The node index of vertex `i` of kept segment `s`.
pub open spec fn node_index(data: Data, policy: PermissionPolicy, s: int, i: int) -> int {
    vertex_index(
        data.segments@[s].points@,
        data.segments@[s].connectors@,
        data.connectors@,
        first_fresh(data, policy, s),
        i,
    )
}

/// The indexed vertices of kept segment `s`.
pub open spec fn road_points(data: Data, policy: PermissionPolicy, s: int) -> Seq<IndexedPoint> {
    indexed_points(
        data.segments@[s].points@,
        data.segments@[s].connectors@,
        data.connectors@,
        first_fresh(data, policy, s),
    )
}

/// What stops segment `s` from being exported, if anything: a kept segment
/// needs two vertices, and its counts must fit the tile records.
pub open spec fn segment_error(data: Data, policy: PermissionPolicy, s: int) -> Option<ErrorKind> {
    let n = data.segments@[s].points@.len();
    if !kept(data, policy, s) {
        None
    } else if n < 2 {
        Some(ErrorKind::DegenerateEdge)
    } else if n > u16::MAX || kept_segments(data, policy, s).len() >= MAX_ROADS || first_fresh(data, policy, s) + n
        > u64::MAX {
        Some(ErrorKind::RecordLimitExceeded)
    } else {
        None
    }
}

/// No segment stops the conversion.
pub open spec fn converts(data: Data, policy: PermissionPolicy) -> bool {
    forall|s: int| 0 <= s < data.segments@.len() ==> #[trigger] segment_error(data, policy, s) is None
}

/// `e` reports the first segment that stops the conversion.
pub open spec fn conversion_error_is(e: ConvertError, data: Data, policy: PermissionPolicy) -> bool {
    &&& e.table == Table::Segment
    &&& e.row < data.segments@.len()
    &&& segment_error(data, policy, e.row as int) == Some(e.kind)
    &&& e.id@ == data.segments@[e.row as int].id@
    &&& forall|j: int| 0 <= j < e.row ==> #[trigger] segment_error(data, policy, j) is None
}

/// A road as plain values: its indexed vertices and permissions.
pub open spec fn road_view(r: ExportedRoad) -> (Seq<IndexedPoint>, Permissions) {
    (r.points@, r.permissions)
}

/// The roads of a run: one per kept segment, in segment order.
pub open spec fn graph_roads(data: Data, policy: PermissionPolicy) -> Seq<(Seq<IndexedPoint>, Permissions)> {
    kept_segments(data, policy, data.segments@.len() as int).map_values(
        |s: int| (road_points(data, policy, s), permissions_of(data.segments@[s], policy)),
    )
}

/// The two edges of road `r`: identifiers `2r + 1` and `2r + 2`, the same
/// vertex count and permissions.
pub open spec fn edge_pair(r: int, road: (Seq<IndexedPoint>, Permissions)) -> Seq<OsmWay> {
    seq![
        way_record((2 * r + 1) as u64, 1, road.0.len() as u16, road.1.auto_allowed, road.1.pedestrian_allowed),
        way_record((2 * r + 2) as u64, 1, road.0.len() as u16, road.1.auto_allowed, road.1.pedestrian_allowed),
    ]
}

/// The vertex records of edge `w` running through `points` in order.
pub open spec fn edge_nodes(w: int, points: Seq<IndexedPoint>) -> Seq<OsmWayNode> {
    Seq::new(
        points.len(),
        |i: int| way_node_record(w as u32, i as u32, points[i].index, points[i].point.lon, points[i].point.lat, 1),
    )
}

/// `points` in reverse order.
pub open spec fn reversed(points: Seq<IndexedPoint>) -> Seq<IndexedPoint> {
    Seq::new(points.len(), |i: int| points[points.len() - 1 - i])
}

/// The edge records of a list of roads: each road gives a forward and a
/// backward edge.
pub open spec fn ways_of(roads: Seq<(Seq<IndexedPoint>, Permissions)>) -> Seq<OsmWay>
    decreases roads.len(),
{
    if roads.len() == 0 {
        Seq::empty()
    } else {
        ways_of(roads.drop_last()) + edge_pair(roads.len() - 1, roads.last())
    }
}

/// The vertex records of a list of roads: those of road `r`'s forward edge
/// `2r`, in vertex order, then those of its backward edge `2r + 1`, in
/// reverse order.
pub open spec fn way_nodes_of(roads: Seq<(Seq<IndexedPoint>, Permissions)>) -> Seq<OsmWayNode>
    decreases roads.len(),
{
    if roads.len() == 0 {
        Seq::empty()
    } else {
        let r = roads.len() - 1;
        way_nodes_of(roads.drop_last()) + edge_nodes(2 * r, roads.last().0) + edge_nodes(
            2 * r + 1,
            reversed(roads.last().0),
        )
    }
}

/// The edge records of a run.
pub open spec fn graph_ways(data: Data, policy: PermissionPolicy) -> Seq<OsmWay> {
    ways_of(graph_roads(data, policy))
}

/// The vertex records of a run.
pub open spec fn graph_way_nodes(data: Data, policy: PermissionPolicy) -> Seq<OsmWayNode> {
    way_nodes_of(graph_roads(data, policy))
}

/// The contents of the two output files of a run.
#[derive(Clone, Debug)]
pub struct TileFiles {
    pub ways: Vec<u8>,
    pub way_nodes: Vec<u8>,
}

/// Walks the segments in order, drops those that no mode may use, and gives
/// every vertex of the others its node index. Fresh indices start right after
/// the connectors' and go up by one per unresolved vertex.
pub fn resolve_roads(data: &Data, policy: PermissionPolicy) -> (r: Result<Vec<ExportedRoad>, ConvertError>)
    ensures
        match r {
            Ok(roads) => {
                &&& converts(*data, policy)
                &&& roads@.map_values(|x: ExportedRoad| road_view(x)) == graph_roads(*data, policy)
            },
            Err(e) => conversion_error_is(e, *data, policy),
        },
{
    let ghost d = *data;
    let mut roads: Vec<ExportedRoad> = Vec::new();
    let mut next_index: u64 = data.connectors.len() as u64;
    let mut s: usize = 0;
    while s < data.segments.len()
        invariant
            d == *data,
            s <= d.segments@.len(),
            next_index == first_fresh(d, policy, s as int),
            roads@.len() == kept_segments(d, policy, s as int).len(),
            roads@.len() <= MAX_ROADS,
            forall|j: int| 0 <= j < s ==> #[trigger] segment_error(d, policy, j) is None,
            forall|r: int|
                0 <= r < roads@.len() ==> road_view(#[trigger] roads@[r]) == (
                    road_points(d, policy, kept_segments(d, policy, s as int)[r]),
                    permissions_of(d.segments@[kept_segments(d, policy, s as int)[r]], policy),
                ),
        decreases d.segments@.len() - s,
    {
        let segment = &data.segments[s];
        let permissions = resolve_permissions(segment, policy);
        let ghost before = kept_segments(d, policy, s as int);
        if permissions.pedestrian_allowed || permissions.auto_allowed {
            let n = segment.points.len();
            if n < 2 {
                return Err(ConvertError { kind: ErrorKind::DegenerateEdge, table: Table::Segment, row: s, id: segment.id.clone() });
            }
            if n > 0xffff || roads.len() >= MAX_ROADS || n as u64 > u64::MAX - next_index {
                return Err(ConvertError { kind: ErrorKind::RecordLimitExceeded, table: Table::Segment, row: s, id: segment.id.clone() });
            }
            let road = process_segment(segment, &data.connectors, &mut next_index, permissions);
            roads.push(road);
            proof {
                let after = kept_segments(d, policy, s + 1);
                assert(after =~= before.push(s as int));
                assert forall|r: int| 0 <= r < roads@.len() implies road_view(#[trigger] roads@[r]) == (
                    road_points(d, policy, after[r]),
                    permissions_of(d.segments@[after[r]], policy),
                ) by {
                    if r < roads@.len() - 1 {
                        assert(after[r] == before[r]);
                    }
                }
            }
        } else {
            proof {
                assert(kept_segments(d, policy, s + 1) =~= before);
            }
        }
        s = s + 1;
    }
    proof {
        let all = kept_segments(d, policy, d.segments@.len() as int);
        assert(roads@.map_values(|x: ExportedRoad| road_view(x)) =~= graph_roads(d, policy));
    }
    Ok(roads)
}

/// An edge pair that cannot be built: why, and for which road.
#[derive(Clone, Copy, Debug, PartialEq, Eq, Structural)]
pub struct EdgeError {
    pub kind: ErrorKind,
    pub road: usize,
}

/// Turns each road into its edge pair and vertex records: a forward edge
/// with the vertices in order and a backward edge with them reversed, both
/// with every vertex marked as an intersection. A road with fewer than two
/// vertices makes no valid edge: then nothing is built, and the error names
/// the first such road.
pub fn export_roads(exported_roads: &Vec<ExportedRoad>) -> (r: Result<(Vec<OsmWay>, Vec<OsmWayNode>), EdgeError>)
    requires
        exported_roads@.len() <= MAX_ROADS,
        forall|i: int| 0 <= i < exported_roads@.len() ==> (#[trigger] exported_roads@[i]).points@.len() <= u16::MAX,
    ensures
        match r {
            Ok(records) => {
                &&& forall|i: int| 0 <= i < exported_roads@.len() ==> (#[trigger] exported_roads@[i]).points@.len() >= 2
                &&& records.0@ == ways_of(exported_roads@.map_values(|x: ExportedRoad| road_view(x)))
                &&& records.1@ == way_nodes_of(exported_roads@.map_values(|x: ExportedRoad| road_view(x)))
            },
            Err(e) => {
                &&& e.kind == ErrorKind::DegenerateEdge
                &&& e.road < exported_roads@.len()
                &&& exported_roads@[e.road as int].points@.len() < 2
                &&& forall|i: int| 0 <= i < e.road ==> (#[trigger] exported_roads@[i]).points@.len() >= 2
            },
        },
{
    let mut k: usize = 0;
    while k < exported_roads.len()
        invariant
            k <= exported_roads@.len(),
            forall|i: int| 0 <= i < k ==> (#[trigger] exported_roads@[i]).points@.len() >= 2,
        decreases exported_roads@.len() - k,
    {
        if exported_roads[k].points.len() < 2 {
            return Err(EdgeError { kind: ErrorKind::DegenerateEdge, road: k });
        }
        k = k + 1;
    }
    let ghost views = exported_roads@.map_values(|x: ExportedRoad| road_view(x));
    let mut ways: Vec<OsmWay> = Vec::new();
    let mut waynodes: Vec<OsmWayNode> = Vec::new();
    let mut way_index: usize = 0;
    while way_index < exported_roads.len()
        invariant
            views == exported_roads@.map_values(|x: ExportedRoad| road_view(x)),
            exported_roads@.len() <= MAX_ROADS,
            forall|i: int| 0 <= i < exported_roads@.len() ==> (#[trigger] exported_roads@[i]).points@.len() <= u16::MAX,
            way_index <= views.len(),
            ways@ == ways_of(views.take(way_index as int)),
            waynodes@ == way_nodes_of(views.take(way_index as int)),
        decreases views.len() - way_index,
    {
        let exported_road = &exported_roads[way_index];
        let ghost pts = exported_road.points@;
        let ghost prefix = waynodes@;
        let node_count = exported_road.points.len() as u16;
        let offset_way_index: u64 = way_index as u64 * 2;
        let auto_allowed = exported_road.permissions.auto_allowed;
        let pedestrian_allowed = exported_road.permissions.pedestrian_allowed;
        ways.push(OsmWay::new(offset_way_index + 1, 1, node_count, auto_allowed, pedestrian_allowed));
        ways.push(OsmWay::new(offset_way_index + 2, 1, node_count, auto_allowed, pedestrian_allowed));
        let forward: u32 = (way_index * 2) as u32;
        let backward: u32 = forward + 1;
        let n = exported_road.points.len();
        let mut j: usize = 0;
        while j < n
            invariant
                n == pts.len(),
                pts == exported_road.points@,
                n <= u16::MAX,
                j <= n,
                waynodes@ == prefix + edge_nodes(forward as int, pts).take(j as int),
            decreases n - j,
        {
            let point = exported_road.points[j];
            waynodes.push(OsmWayNode::new(forward, j as u32, point.index, point.point.lon, point.point.lat, 1));
            assert(waynodes@ =~= prefix + edge_nodes(forward as int, pts).take(j + 1));
            j = j + 1;
        }
        let mut j: usize = 0;
        while j < n
            invariant
                n == pts.len(),
                pts == exported_road.points@,
                n <= u16::MAX,
                j <= n,
                waynodes@ == prefix + edge_nodes(forward as int, pts) + edge_nodes(backward as int, reversed(pts)).take(j as int),
            decreases n - j,
        {
            let point = exported_road.points[n - 1 - j];
            waynodes.push(OsmWayNode::new(backward, j as u32, point.index, point.point.lon, point.point.lat, 1));
            assert(waynodes@ =~= prefix + edge_nodes(forward as int, pts) + edge_nodes(backward as int, reversed(pts)).take(j + 1));
            j = j + 1;
        }
        proof {
            let cur = views.take(way_index as int);
            let nxt = views.take(way_index + 1);
            assert(nxt.drop_last() =~= cur);
            assert(nxt.last() == views[way_index as int]);
            assert(views[way_index as int] == road_view(exported_roads@[way_index as int]));
            assert(edge_nodes(forward as int, pts).take(n as int) =~= edge_nodes(forward as int, pts));
            assert(edge_nodes(backward as int, reversed(pts)).take(n as int) =~= edge_nodes(backward as int, reversed(pts)));
            assert(ways@ =~= ways_of(nxt));
            assert(waynodes@ =~= way_nodes_of(nxt));
        }
        way_index = way_index + 1;
    }
    assert(views.take(views.len() as int) =~= views);
    Ok((ways, waynodes))
}

/// Converts the two tables of a run into the contents of the edge file and
/// the vertex file. Fails, with nothing written, on the first kept segment
/// that has fewer than two vertices or counts beyond the record widths.
pub fn convert_overture_to_valhalla(data: &Data, policy: PermissionPolicy) -> (r: Result<TileFiles, ConvertError>)
    ensures
        match r {
            Ok(files) => {
                &&& converts(*data, policy)
                &&& files.ways@ == ways_bytes(graph_ways(*data, policy))
                &&& files.way_nodes@ == way_nodes_bytes(graph_way_nodes(*data, policy))
            },
            Err(e) => conversion_error_is(e, *data, policy),
        },
{
    let roads = resolve_roads(data, policy)?;
    proof {
        lemma_roads_fit(*data, policy);
        let views = roads@.map_values(|x: ExportedRoad| road_view(x));
        assert(views.len() == roads@.len());
        assert forall|i: int| 0 <= i < roads@.len() implies (#[trigger] roads@[i]).points@.len() <= u16::MAX
            && roads@[i].points@.len() >= 2 by {
            assert(views[i] == road_view(roads@[i]));
        }
    }
    // every road has two vertices or more, so no edge error can come back
    let (ways, way_nodes) = match export_roads(&roads) {
        Ok(records) => records,
        Err(e) => {
            return Err(ConvertError { kind: e.kind, table: Table::Segment, row: e.road, id: String::new() });
        },
    };
    let ways_file = OsmWay::slice_as_bytes(ways.as_slice());
    let way_nodes_file = OsmWayNode::slice_as_bytes(way_nodes.as_slice());
    Ok(TileFiles { ways: ways_file, way_nodes: way_nodes_file })
}

/// Every position that `kept_segments` lists is below `n` and kept, in
/// increasing order.
pub proof fn lemma_kept_segments(data: Data, policy: PermissionPolicy, n: int)
    requires
        0 <= n,
    ensures
        kept_segments(data, policy, n).len() <= n,
        forall|r: int|
            0 <= r < kept_segments(data, policy, n).len() ==> 0 <= #[trigger] kept_segments(data, policy, n)[r] < n
                && kept(data, policy, kept_segments(data, policy, n)[r]),
        forall|r1: int, r2: int|
            0 <= r1 < r2 < kept_segments(data, policy, n).len() ==> kept_segments(data, policy, n)[r1]
                < kept_segments(data, policy, n)[r2],
        forall|s: int| 0 <= s < n && kept(data, policy, s) ==> kept_segments(data, policy, n).contains(s),
    decreases n,
{
    if n > 0 {
        lemma_kept_segments(data, policy, n - 1);
        let prev = kept_segments(data, policy, n - 1);
        let cur = kept_segments(data, policy, n);
        assert forall|s: int| 0 <= s < n && kept(data, policy, s) implies cur.contains(s) by {
            if s < n - 1 {
                let r = choose|r: int| 0 <= r < prev.len() && prev[r] == s;
                assert(cur[r] == s);
            } else {
                assert(cur[cur.len() - 1] == s);
            }
        }
    }
}

/// When a run converts, every road has two vertices or more and fits the
/// record widths.
pub proof fn lemma_roads_fit(data: Data, policy: PermissionPolicy)
    requires
        converts(data, policy),
    ensures
        graph_roads(data, policy).len() <= MAX_ROADS,
        forall|r: int|
            0 <= r < graph_roads(data, policy).len() ==> (#[trigger] graph_roads(data, policy)[r]).0.len() <= u16::MAX
                && graph_roads(data, policy)[r].0.len() >= 2,
{
    let n = data.segments@.len() as int;
    lemma_kept_segments(data, policy, n);
    let ks = kept_segments(data, policy, n);
    if ks.len() > 0 {
        let last = ks[ks.len() - 1];
        assert(segment_error(data, policy, last) is None);
        lemma_kept_prefix(data, policy, last, n);
    }
    assert forall|r: int| 0 <= r < graph_roads(data, policy).len() implies (#[trigger] graph_roads(
        data,
        policy,
    )[r]).0.len() <= u16::MAX && graph_roads(data, policy)[r].0.len() >= 2 by {
        assert(segment_error(data, policy, ks[r]) is None);
    }
}

/// For a kept segment `s` below `n`, the kept segments before it are all
/// those of `kept_segments(n)` but the ones from `s` on; in particular the
/// last kept segment has every other kept segment before it.
proof fn lemma_kept_prefix(data: Data, policy: PermissionPolicy, s: int, n: int)
    requires
        0 <= s < n,
        kept(data, policy, s),
        kept_segments(data, policy, n).len() > 0,
        s == kept_segments(data, policy, n).last(),
    ensures
        kept_segments(data, policy, s).len() + 1 == kept_segments(data, policy, n).len(),
    decreases n,
{
    if n - 1 == s {
        assert(kept_segments(data, policy, n) == kept_segments(data, policy, s) + seq![s]);
    } else {
        if kept(data, policy, n - 1) {
            assert(kept_segments(data, policy, n).last() == n - 1);
        } else {
            assert(kept_segments(data, policy, n) =~= kept_segments(data, policy, n - 1));
            lemma_kept_prefix(data, policy, s, n - 1);
        }
    }
}

} // verus!
