use vstd::prelude::*;

use crate::geometry::{within_tolerance, Point};
use crate::graph::{
    converts, edge_nodes, edge_pair, graph_roads, graph_way_nodes, graph_ways, kept, kept_segments,
    lemma_kept_segments, minted_before, node_index, reversed, road_points, segment_error, way_nodes_of, ways_of,
};
use crate::mapping::access_types;
use crate::model::{opt_view, refs_view, Connector, ConnectorRef, Data};
use crate::permissions::{permissions_of, PermissionPolicy, Permissions};
use crate::resolver::{
    connector_position, is_first_match, is_first_named, minted_count, ref_matches, resolved_connector, IndexedPoint,
};
use crate::valhalla::{way_bytes, way_nodes_bytes, ways_bytes, OsmWay};
use vstd::bytes::{lemma_auto_spec_u16_to_from_le_bytes, lemma_auto_spec_u32_to_from_le_bytes, lemma_auto_spec_u64_to_from_le_bytes};

verus! {

/// A vertex that matches connector `k` within the tolerance, through the
/// first of its segment's references that it matches, takes `k` (the
/// connector's position in the table) as its node index. So every vertex of
/// every segment that resolves to a connector shares that connector's node.
pub proof fn lemma_connector_vertices_share_index(
    data: Data,
    policy: PermissionPolicy,
    s: int,
    i: int,
    j: int,
    k: int,
)
    requires
        0 <= s < data.segments@.len(),
        0 <= i < data.segments@[s].points@.len(),
        0 <= j < data.segments@[s].connectors@.len(),
        is_first_named(data.connectors@, data.connectors@[k].id@, k),
        data.segments@[s].connectors@[j].id@ == data.connectors@[k].id@,
        within_tolerance(data.segments@[s].points@[i], data.connectors@[k].coordinate),
        forall|q: int|
            0 <= q < j ==> !ref_matches(
                data.segments@[s].points@[i],
                (#[trigger] data.segments@[s].connectors@[q]).id@,
                data.connectors@,
            ),
    ensures
        node_index(data, policy, s, i) == k,
{
    let all = data.connectors@;
    let refs = data.segments@[s].connectors@;
    let p = data.segments@[s].points@[i];
    let id = all[k].id@;
    assert forall|m: int| is_first_named(all, id, m) implies m == k by {
        if m < k {
            assert(all[m].id@ != id);
        } else if m > k {
            assert(all[k].id@ != id);
        }
    }
    assert(connector_position(all, id) == Some(k));
    assert(is_first_match(p, refs, all, j));
    assert forall|m: int| is_first_match(p, refs, all, m) implies m == j by {
        if m < j {
            assert(!ref_matches(p, refs[m].id@, all));
        } else if m > j {
            assert(!ref_matches(p, refs[j].id@, all));
        }
    }
    assert(resolved_connector(p, refs, all) == Some(k));
}

proof fn lemma_minted_step(points: Seq<Point>, refs: Seq<ConnectorRef>, all: Seq<Connector>, i: int)
    requires
        0 <= i < points.len(),
    ensures
        minted_count(points.take(i + 1), refs, all) == minted_count(points.take(i), refs, all) + if resolved_connector(
            points[i],
            refs,
            all,
        ) is None {
            1nat
        } else {
            0nat
        },
{
    assert(points.take(i + 1).drop_last() =~= points.take(i));
    assert(points.take(i + 1).last() == points[i]);
}

proof fn lemma_minted_monotone(points: Seq<Point>, refs: Seq<ConnectorRef>, all: Seq<Connector>, a: int, b: int)
    requires
        0 <= a <= b <= points.len(),
    ensures
        minted_count(points.take(a), refs, all) <= minted_count(points.take(b), refs, all),
    decreases b - a,
{
    if a < b {
        lemma_minted_monotone(points, refs, all, a, b - 1);
        lemma_minted_step(points, refs, all, b - 1);
    }
}

proof fn lemma_minted_before_monotone(data: Data, policy: PermissionPolicy, a: int, b: int)
    requires
        0 <= a <= b,
    ensures
        minted_before(data, policy, a) <= minted_before(data, policy, b),
    decreases b - a,
{
    if a < b {
        lemma_minted_before_monotone(data, policy, a, b - 1);
    }
}

/// A vertex of kept segment `s` that resolves to no connector takes a fresh
/// index among those that segment `s` mints: at least `C + minted_before(s)`
/// and below `C + minted_before(s + 1)`.
proof fn lemma_fresh_slot(data: Data, policy: PermissionPolicy, s: int, i: int)
    requires
        0 <= s < data.segments@.len(),
        kept(data, policy, s),
        0 <= i < data.segments@[s].points@.len(),
        resolved_connector(data.segments@[s].points@[i], data.segments@[s].connectors@, data.connectors@) is None,
    ensures
        node_index(data, policy, s, i) >= data.connectors@.len(),
        node_index(data, policy, s, i) + 1 <= data.connectors@.len() + minted_before(data, policy, s + 1),
        node_index(data, policy, s, i) >= data.connectors@.len() + minted_before(data, policy, s),
{
    let pts = data.segments@[s].points@;
    let refs = data.segments@[s].connectors@;
    let all = data.connectors@;
    lemma_minted_step(pts, refs, all, i);
    lemma_minted_monotone(pts, refs, all, i + 1, pts.len() as int);
    assert(pts.take(pts.len() as int) =~= pts);
}

/// Fresh node indices never collide with the connectors' `[0, C)`, and they
/// rise strictly in first-encounter order: segment by segment, and vertex by
/// vertex within a segment. A vertex that resolves to a connector takes an
/// index below `C`.
pub proof fn lemma_fresh_indices_increase(
    data: Data,
    policy: PermissionPolicy,
    s1: int,
    i1: int,
    s2: int,
    i2: int,
)
    requires
        0 <= s1 < data.segments@.len(),
        0 <= s2 < data.segments@.len(),
        kept(data, policy, s1),
        kept(data, policy, s2),
        0 <= i1 < data.segments@[s1].points@.len(),
        0 <= i2 < data.segments@[s2].points@.len(),
        resolved_connector(data.segments@[s1].points@[i1], data.segments@[s1].connectors@, data.connectors@) is None,
        resolved_connector(data.segments@[s2].points@[i2], data.segments@[s2].connectors@, data.connectors@) is None,
        s1 < s2 || (s1 == s2 && i1 < i2),
    ensures
        data.connectors@.len() <= node_index(data, policy, s1, i1) < node_index(data, policy, s2, i2),
{
    lemma_fresh_slot(data, policy, s1, i1);
    lemma_fresh_slot(data, policy, s2, i2);
    if s1 < s2 {
        lemma_minted_before_monotone(data, policy, s1 + 1, s2);
    } else {
        let pts = data.segments@[s1].points@;
        let refs = data.segments@[s1].connectors@;
        let all = data.connectors@;
        lemma_minted_step(pts, refs, all, i1);
        lemma_minted_monotone(pts, refs, all, i1 + 1, i2);
    }
}

/// A vertex that resolves to a connector takes that connector's position,
/// which lies in `[0, C)`.
pub proof fn lemma_resolved_index_is_connector(data: Data, policy: PermissionPolicy, s: int, i: int)
    requires
        0 <= s < data.segments@.len(),
        0 <= i < data.segments@[s].points@.len(),
        resolved_connector(data.segments@[s].points@[i], data.segments@[s].connectors@, data.connectors@) is Some,
    ensures
        0 <= node_index(data, policy, s, i) < data.connectors@.len(),
{
    let p = data.segments@[s].points@[i];
    let refs = data.segments@[s].connectors@;
    let all = data.connectors@;
    let j = choose|j: int| is_first_match(p, refs, all, j);
    let id = refs[j].id@;
    let k = choose|k: int| is_first_named(all, id, k);
}

/// The edge builder gives two edges per road: edge `w` is one of the pair of
/// road `w / 2` (identifiers `2r + 1` and `2r + 2`, the road's vertex count
/// and permissions).
pub proof fn lemma_ways_of_len(roads: Seq<(Seq<IndexedPoint>, Permissions)>)
    ensures
        ways_of(roads).len() == 2 * roads.len(),
        forall|w: int| 0 <= w < ways_of(roads).len() ==> #[trigger] ways_of(roads)[w] == edge_pair(w / 2, roads[w / 2])[w % 2],
    decreases roads.len(),
{
    if roads.len() > 0 {
        let prev = roads.drop_last();
        lemma_ways_of_len(prev);
        assert forall|w: int| 0 <= w < ways_of(roads).len() implies #[trigger] ways_of(roads)[w] == edge_pair(w / 2, roads[w / 2])[w % 2] by {
            if w < 2 * prev.len() {
                assert(ways_of(roads)[w] == ways_of(prev)[w]);
                assert(prev[w / 2] == roads[w / 2]);
            }
        }
    }
}

/// Every edge record is 24 bytes long.
pub proof fn lemma_ways_bytes_len(ways: Seq<OsmWay>)
    ensures
        ways_bytes(ways).len() == 24 * ways.len(),
    decreases ways.len(),
{
    if ways.len() > 0 {
        let prev = ways.drop_last();
        lemma_ways_bytes_len(prev);
        let f = |w: OsmWay| way_bytes(w);
        assert(ways.map_values(f) =~= prev.map_values(f).push(way_bytes(ways.last())));
        prev.map_values(f).lemma_flatten_push(way_bytes(ways.last()));
        lemma_auto_spec_u16_to_from_le_bytes();
        lemma_auto_spec_u32_to_from_le_bytes();
        lemma_auto_spec_u64_to_from_le_bytes();
        assert(way_bytes(ways.last()).len() == 24);
    } else {
        assert(ways.map_values(|w: OsmWay| way_bytes(w)) =~= Seq::<Seq<u8>>::empty());
    }
}

/// The edge count is twice the number of segments that some mode may use:
/// each kept segment gives a forward and a backward edge, and
/// `kept_segments` lists exactly the kept segments, each once, in order. The
/// edge file holds 24 bytes per edge.
pub proof fn lemma_edge_count(data: Data, policy: PermissionPolicy)
    ensures
        graph_ways(data, policy).len() == 2 * kept_segments(data, policy, data.segments@.len() as int).len(),
        ways_bytes(graph_ways(data, policy)).len() == 24 * graph_ways(data, policy).len(),
        forall|s: int|
            0 <= s < data.segments@.len() ==> (kept(data, policy, s) <==> kept_segments(
                data,
                policy,
                data.segments@.len() as int,
            ).contains(s)),
        forall|r1: int, r2: int|
            0 <= r1 < r2 < kept_segments(data, policy, data.segments@.len() as int).len() ==> kept_segments(
                data,
                policy,
                data.segments@.len() as int,
            )[r1] < kept_segments(data, policy, data.segments@.len() as int)[r2],
{
    lemma_kept_segments(data, policy, data.segments@.len() as int);
    lemma_ways_of_len(graph_roads(data, policy));
    lemma_ways_bytes_len(graph_ways(data, policy));
}

proof fn lemma_way_nodes_source(roads: Seq<(Seq<IndexedPoint>, Permissions)>)
    requires
        roads.len() <= crate::graph::MAX_ROADS,
    ensures
        forall|k: int|
            0 <= k < way_nodes_of(roads).len() ==> (#[trigger] way_nodes_of(roads)[k]).way_index as int / 2
                < roads.len(),
    decreases roads.len(),
{
    if roads.len() > 0 {
        let prev = roads.drop_last();
        let r = roads.len() - 1;
        lemma_way_nodes_source(prev);
        let a = way_nodes_of(prev);
        let f = edge_nodes(2 * r, roads.last().0);
        let b = edge_nodes(2 * r + 1, reversed(roads.last().0));
        assert(way_nodes_of(roads) == a + f + b);
        assert forall|k: int| 0 <= k < way_nodes_of(roads).len() implies (#[trigger] way_nodes_of(roads)[k]).way_index as int / 2
            < roads.len() by {
            if k < a.len() {
                assert(way_nodes_of(roads)[k] == a[k]);
            } else if k < a.len() + f.len() {
                assert(way_nodes_of(roads)[k] == f[k - a.len()]);
                assert(way_nodes_of(roads)[k].way_index == 2 * r);
            } else {
                assert(way_nodes_of(roads)[k] == b[k - a.len() - f.len()]);
                assert(way_nodes_of(roads)[k].way_index == 2 * r + 1);
            }
        }
    }
}

/// A segment that neither pedestrians nor cars may use is in no road: no
/// edge and no vertex record comes from it, and it takes no fresh index.
/// Edge `w` comes from the road `w / 2`, and every vertex record names the
/// edge of some road, whose segment is kept.
pub proof fn lemma_dropped_segment_absent(data: Data, policy: PermissionPolicy, s: int)
    requires
        0 <= s < data.segments@.len(),
        permissions_of(data.segments@[s], policy).none_allowed(),
        kept_segments(data, policy, data.segments@.len() as int).len() <= crate::graph::MAX_ROADS,
    ensures
        !kept_segments(data, policy, data.segments@.len() as int).contains(s),
        minted_before(data, policy, s + 1) == minted_before(data, policy, s),
        forall|w: int|
            0 <= w < graph_ways(data, policy).len() ==> #[trigger] graph_ways(data, policy)[w] == edge_pair(
                w / 2,
                graph_roads(data, policy)[w / 2],
            )[w % 2] && kept_segments(data, policy, data.segments@.len() as int)[w / 2] != s,
        forall|k: int|
            0 <= k < graph_way_nodes(data, policy).len() ==> (#[trigger] graph_way_nodes(data, policy)[k]).way_index as int
                / 2 < graph_roads(data, policy).len() && kept_segments(data, policy, data.segments@.len() as int)[
                graph_way_nodes(data, policy)[k].way_index as int / 2] != s,
{
    let n = data.segments@.len() as int;
    lemma_kept_segments(data, policy, n);
    let ks = kept_segments(data, policy, n);
    lemma_ways_of_len(graph_roads(data, policy));
    lemma_way_nodes_source(graph_roads(data, policy));
    assert forall|r: int| 0 <= r < ks.len() implies ks[r] != s by {
        assert(kept(data, policy, ks[r]));
    }
}

/// What a connector holds, as plain values.
pub open spec fn connector_view(c: Connector) -> (Seq<char>, Point) {
    (c.id@, c.coordinate)
}

/// What the conversion reads of a segment, as plain values.
pub open spec fn segment_view(s: crate::model::Segment) -> (Seq<char>, Option<Seq<char>>, Seq<Point>, Seq<(Seq<char>, u32)>, Seq<Seq<char>>) {
    (s.id@, opt_view(s.road_class), s.points@, refs_view(s.connectors@), access_types(s.access_restrictions@))
}

/// Two inputs hold the same values, table by table and row by row.
pub open spec fn same_input(d1: Data, d2: Data) -> bool {
    &&& d1.connectors@.len() == d2.connectors@.len()
    &&& d1.segments@.len() == d2.segments@.len()
    &&& forall|k: int| 0 <= k < d1.connectors@.len() ==> connector_view(#[trigger] d1.connectors@[k]) == connector_view(d2.connectors@[k])
    &&& forall|s: int| 0 <= s < d1.segments@.len() ==> segment_view(#[trigger] d1.segments@[s]) == segment_view(d2.segments@[s])
}

proof fn lemma_same_position(all1: Seq<Connector>, all2: Seq<Connector>, id: Seq<char>)
    requires
        all1.len() == all2.len(),
        forall|k: int| 0 <= k < all1.len() ==> connector_view(#[trigger] all1[k]) == connector_view(all2[k]),
    ensures
        connector_position(all1, id) == connector_position(all2, id),
{
    assert forall|k: int| is_first_named(all1, id, k) <==> is_first_named(all2, id, k) by {
        if 0 <= k < all1.len() {
            assert(connector_view(all1[k]) == connector_view(all2[k]));
            assert forall|j: int| 0 <= j < k implies (all1[j].id@ == id <==> all2[j].id@ == id) by {
                assert(connector_view(all1[j]) == connector_view(all2[j]));
            }
        }
    }
    if exists|k: int| is_first_named(all1, id, k) {
        let k1 = choose|k: int| is_first_named(all1, id, k);
        let k2 = choose|k: int| is_first_named(all2, id, k);
        assert(is_first_named(all2, id, k1));
        if k1 < k2 {
            assert(all2[k1].id@ != id);
        } else if k2 < k1 {
            assert(all2[k2].id@ != id);
        }
    }
}

proof fn lemma_same_resolution(
    p: Point,
    refs1: Seq<ConnectorRef>,
    refs2: Seq<ConnectorRef>,
    all1: Seq<Connector>,
    all2: Seq<Connector>,
)
    requires
        all1.len() == all2.len(),
        forall|k: int| 0 <= k < all1.len() ==> connector_view(#[trigger] all1[k]) == connector_view(all2[k]),
        refs_view(refs1) == refs_view(refs2),
    ensures
        resolved_connector(p, refs1, all1) == resolved_connector(p, refs2, all2),
{
    assert(refs1.len() == refs_view(refs1).len());
    assert(refs2.len() == refs_view(refs2).len());
    assert(refs1.len() == refs2.len());
    assert forall|j: int| 0 <= j < refs1.len() implies #[trigger] refs1[j].id@ == refs2[j].id@ by {
        assert(refs_view(refs1)[j] == refs_view(refs2)[j]);
    }
    assert forall|j: int| 0 <= j < refs1.len() implies ref_matches(p, (#[trigger] refs1[j]).id@, all1) == ref_matches(p, refs2[j].id@, all2) by {
        lemma_same_position(all1, all2, refs1[j].id@);
        match connector_position(all1, refs1[j].id@) {
            Some(k) => {
                let k1 = choose|k: int| is_first_named(all1, refs1[j].id@, k);
                assert(connector_view(all1[k1]) == connector_view(all2[k1]));
            },
            None => {},
        }
    }
    assert forall|j: int| is_first_match(p, refs1, all1, j) implies is_first_match(p, refs2, all2, j) by {
        assert(ref_matches(p, refs1[j].id@, all1) == ref_matches(p, refs2[j].id@, all2));
        assert forall|i: int| 0 <= i < j implies !ref_matches(p, (#[trigger] refs2[i]).id@, all2) by {
            assert(!ref_matches(p, refs1[i].id@, all1));
            assert(ref_matches(p, refs1[i].id@, all1) == ref_matches(p, refs2[i].id@, all2));
        }
    }
    assert forall|j: int| is_first_match(p, refs2, all2, j) implies is_first_match(p, refs1, all1, j) by {
        assert(ref_matches(p, refs1[j].id@, all1) == ref_matches(p, refs2[j].id@, all2));
        assert forall|i: int| 0 <= i < j implies !ref_matches(p, (#[trigger] refs1[i]).id@, all1) by {
            assert(!ref_matches(p, refs2[i].id@, all2));
            assert(ref_matches(p, refs1[i].id@, all1) == ref_matches(p, refs2[i].id@, all2));
        }
    }
    if exists|j: int| is_first_match(p, refs1, all1, j) {
        let j1 = choose|j: int| is_first_match(p, refs1, all1, j);
        let j2 = choose|j: int| is_first_match(p, refs2, all2, j);
        assert(is_first_match(p, refs2, all2, j1));
        if j1 < j2 {
            assert(!ref_matches(p, refs2[j1].id@, all2));
        } else if j2 < j1 {
            assert(!ref_matches(p, refs2[j2].id@, all2));
        }
        lemma_same_position(all1, all2, refs1[j1].id@);
    }
}

proof fn lemma_same_minted(
    points: Seq<Point>,
    refs1: Seq<ConnectorRef>,
    refs2: Seq<ConnectorRef>,
    all1: Seq<Connector>,
    all2: Seq<Connector>,
)
    requires
        all1.len() == all2.len(),
        forall|k: int| 0 <= k < all1.len() ==> connector_view(#[trigger] all1[k]) == connector_view(all2[k]),
        refs_view(refs1) == refs_view(refs2),
    ensures
        minted_count(points, refs1, all1) == minted_count(points, refs2, all2),
    decreases points.len(),
{
    if points.len() > 0 {
        lemma_same_minted(points.drop_last(), refs1, refs2, all1, all2);
        lemma_same_resolution(points.last(), refs1, refs2, all1, all2);
    }
}

proof fn lemma_same_segment(d1: Data, d2: Data, policy: PermissionPolicy, s: int)
    requires
        same_input(d1, d2),
        0 <= s < d1.segments@.len(),
    ensures
        permissions_of(d1.segments@[s], policy) == permissions_of(d2.segments@[s], policy),
        d1.segments@[s].points@ == d2.segments@[s].points@,
        d1.segments@[s].id@ == d2.segments@[s].id@,
        minted_count(d1.segments@[s].points@, d1.segments@[s].connectors@, d1.connectors@) == minted_count(
            d2.segments@[s].points@,
            d2.segments@[s].connectors@,
            d2.connectors@,
        ),
{
    assert(segment_view(d1.segments@[s]) == segment_view(d2.segments@[s]));
    lemma_same_minted(
        d1.segments@[s].points@,
        d1.segments@[s].connectors@,
        d2.segments@[s].connectors@,
        d1.connectors@,
        d2.connectors@,
    );
}

proof fn lemma_same_prefix(d1: Data, d2: Data, policy: PermissionPolicy, n: int)
    requires
        same_input(d1, d2),
        0 <= n <= d1.segments@.len(),
    ensures
        kept_segments(d1, policy, n) == kept_segments(d2, policy, n),
        minted_before(d1, policy, n) == minted_before(d2, policy, n),
    decreases n,
{
    if n > 0 {
        lemma_same_prefix(d1, d2, policy, n - 1);
        lemma_same_segment(d1, d2, policy, n - 1);
    }
}

/// The conversion depends on the values of its input alone: two inputs that
/// hold the same identifiers, coordinates, classes, references and access
/// rules, row by row, give the same verdict and byte-identical files. So
/// converting the same files twice gives the same output.
pub proof fn lemma_conversion_deterministic(d1: Data, d2: Data, policy: PermissionPolicy)
    requires
        same_input(d1, d2),
    ensures
        converts(d1, policy) == converts(d2, policy),
        ways_bytes(graph_ways(d1, policy)) == ways_bytes(graph_ways(d2, policy)),
        way_nodes_bytes(graph_way_nodes(d1, policy)) == way_nodes_bytes(graph_way_nodes(d2, policy)),
{
    let n = d1.segments@.len() as int;
    assert forall|s: int| 0 <= s < n implies #[trigger] segment_error(d1, policy, s) == segment_error(d2, policy, s) by {
        lemma_same_segment(d1, d2, policy, s);
        lemma_same_prefix(d1, d2, policy, s);
    }
    assert forall|s: int| 0 <= s < n implies #[trigger] road_points(d1, policy, s) == road_points(d2, policy, s) by {
        lemma_same_segment(d1, d2, policy, s);
        lemma_same_prefix(d1, d2, policy, s);
        let pts = d1.segments@[s].points@;
        assert(segment_view(d1.segments@[s]) == segment_view(d2.segments@[s]));
        assert forall|i: int| 0 <= i < pts.len() implies #[trigger] road_points(d1, policy, s)[i] == road_points(d2, policy, s)[i] by {
            lemma_same_resolution(pts[i], d1.segments@[s].connectors@, d2.segments@[s].connectors@, d1.connectors@, d2.connectors@);
            lemma_same_minted(pts.take(i), d1.segments@[s].connectors@, d2.segments@[s].connectors@, d1.connectors@, d2.connectors@);
        }
        assert(road_points(d1, policy, s) =~= road_points(d2, policy, s));
    }
    if converts(d1, policy) {
        assert forall|s: int| 0 <= s < n implies #[trigger] segment_error(d2, policy, s) is None by {
            assert(segment_error(d1, policy, s) == segment_error(d2, policy, s));
        }
    }
    if converts(d2, policy) {
        assert forall|s: int| 0 <= s < n implies #[trigger] segment_error(d1, policy, s) is None by {
            assert(segment_error(d2, policy, s) is None);
        }
    }
    lemma_same_prefix(d1, d2, policy, n);
    lemma_kept_segments(d1, policy, n);
    let ks = kept_segments(d1, policy, n);
    assert forall|r: int| 0 <= r < ks.len() implies #[trigger] graph_roads(d1, policy)[r] == graph_roads(d2, policy)[r] by {
        lemma_same_segment(d1, d2, policy, ks[r]);
        assert(road_points(d1, policy, ks[r]) == road_points(d2, policy, ks[r]));
    }
    assert(graph_roads(d1, policy) =~= graph_roads(d2, policy));
}

/// Two inputs with connector tables that hold the same values, row by row.
pub open spec fn same_connectors(d1: Data, d2: Data) -> bool {
    &&& d1.connectors@.len() == d2.connectors@.len()
    &&& forall|k: int| 0 <= k < d1.connectors@.len() ==> connector_view(#[trigger] d1.connectors@[k]) == connector_view(d2.connectors@[k])
}

/// Segment `s1` of `d1` and segment `s2` of `d2` hold the same values, over
/// the same connectors: they resolve alike, and with the same count of fresh
/// indices before them they give the same road.
proof fn lemma_matching_segments(d1: Data, s1: int, d2: Data, s2: int, policy: PermissionPolicy)
    requires
        same_connectors(d1, d2),
        0 <= s1 < d1.segments@.len(),
        0 <= s2 < d2.segments@.len(),
        segment_view(d1.segments@[s1]) == segment_view(d2.segments@[s2]),
    ensures
        permissions_of(d1.segments@[s1], policy) == permissions_of(d2.segments@[s2], policy),
        kept(d1, policy, s1) == kept(d2, policy, s2),
        d1.segments@[s1].points@ == d2.segments@[s2].points@,
        d1.segments@[s1].id@ == d2.segments@[s2].id@,
        minted_count(d1.segments@[s1].points@, d1.segments@[s1].connectors@, d1.connectors@) == minted_count(
            d2.segments@[s2].points@,
            d2.segments@[s2].connectors@,
            d2.connectors@,
        ),
        minted_before(d1, policy, s1) == minted_before(d2, policy, s2) ==> road_points(d1, policy, s1) == road_points(
            d2,
            policy,
            s2,
        ),
{
    let refs1 = d1.segments@[s1].connectors@;
    let refs2 = d2.segments@[s2].connectors@;
    let pts = d1.segments@[s1].points@;
    lemma_same_minted(pts, refs1, refs2, d1.connectors@, d2.connectors@);
    if minted_before(d1, policy, s1) == minted_before(d2, policy, s2) {
        assert forall|i: int| 0 <= i < pts.len() implies #[trigger] road_points(d1, policy, s1)[i] == road_points(d2, policy, s2)[i] by {
            lemma_same_resolution(pts[i], refs1, refs2, d1.connectors@, d2.connectors@);
            lemma_same_minted(pts.take(i), refs1, refs2, d1.connectors@, d2.connectors@);
        }
        assert(road_points(d1, policy, s1) =~= road_points(d2, policy, s2));
    }
}

/// The position in `d1` of segment `t` of `d2`, when `d2` is `d1` without
/// segment `s`.
pub open spec fn shifted(s: int, t: int) -> int {
    if t < s {
        t
    } else {
        t + 1
    }
}

/// `d2` holds the same values as `d1` but for segment `s` of `d1`, which it
/// lacks.
pub open spec fn without_segment(d1: Data, d2: Data, s: int) -> bool {
    &&& 0 <= s < d1.segments@.len()
    &&& d2.segments@.len() + 1 == d1.segments@.len()
    &&& same_connectors(d1, d2)
    &&& forall|t: int| 0 <= t < d2.segments@.len() ==> segment_view(#[trigger] d2.segments@[t]) == segment_view(d1.segments@[shifted(s, t)])
}

proof fn lemma_without_prefix(d1: Data, d2: Data, policy: PermissionPolicy, s: int, m: int)
    requires
        without_segment(d1, d2, s),
        !kept(d1, policy, s),
        0 <= m <= d2.segments@.len(),
    ensures
        kept_segments(d1, policy, if m <= s { m } else { m + 1 }) == kept_segments(d2, policy, m).map_values(|t: int| shifted(s, t)),
        minted_before(d1, policy, if m <= s { m } else { m + 1 }) == minted_before(d2, policy, m),
    decreases m,
{
    let f = |t: int| shifted(s, t);
    if m > 0 {
        lemma_without_prefix(d1, d2, policy, s, m - 1);
        let t = m - 1;
        let t1 = shifted(s, t);
        lemma_matching_segments(d1, t1, d2, t, policy);
        let prev2 = kept_segments(d2, policy, t);
        if m == s + 1 {
            assert(kept_segments(d1, policy, s + 1) =~= kept_segments(d1, policy, s));
        }
        let step2 = if kept(d2, policy, t) { seq![t] } else { Seq::<int>::empty() };
        assert((prev2 + step2).map_values(f) =~= prev2.map_values(f) + step2.map_values(f));
        assert(step2.map_values(f) =~= if kept(d1, policy, t1) { seq![t1] } else { Seq::<int>::empty() });
    } else {
        assert(kept_segments(d2, policy, 0).map_values(f) =~= Seq::<int>::empty());
    }
}

/// Dropping a segment that no mode may use changes nothing: the input
/// without it converts, or fails, alike, and gives byte-identical files.
pub proof fn lemma_dropped_segment_changes_nothing(d1: Data, d2: Data, policy: PermissionPolicy, s: int)
    requires
        without_segment(d1, d2, s),
        permissions_of(d1.segments@[s], policy).none_allowed(),
    ensures
        converts(d1, policy) == converts(d2, policy),
        ways_bytes(graph_ways(d1, policy)) == ways_bytes(graph_ways(d2, policy)),
        way_nodes_bytes(graph_way_nodes(d1, policy)) == way_nodes_bytes(graph_way_nodes(d2, policy)),
{
    let n2 = d2.segments@.len() as int;
    let n1 = d1.segments@.len() as int;
    let f = |t: int| shifted(s, t);
    assert(!kept(d1, policy, s));
    assert(kept_segments(d1, policy, s + 1) =~= kept_segments(d1, policy, s));
    assert forall|t: int| 0 <= t < n2 implies {
        &&& #[trigger] segment_error(d2, policy, t) == segment_error(d1, policy, shifted(s, t))
        &&& road_points(d2, policy, t) == road_points(d1, policy, shifted(s, t))
    } by {
        lemma_without_prefix(d1, d2, policy, s, t);
        lemma_matching_segments(d1, shifted(s, t), d2, t, policy);
    }
    if converts(d1, policy) {
        assert forall|t: int| 0 <= t < n2 implies #[trigger] segment_error(d2, policy, t) is None by {
            assert(segment_error(d1, policy, shifted(s, t)) is None);
        }
    }
    if converts(d2, policy) {
        assert forall|t1: int| 0 <= t1 < n1 implies #[trigger] segment_error(d1, policy, t1) is None by {
            if t1 < s {
                assert(segment_error(d2, policy, t1) is None);
            } else if t1 > s {
                assert(segment_error(d2, policy, t1 - 1) is None);
                assert(shifted(s, t1 - 1) == t1);
            }
        }
    }
    lemma_without_prefix(d1, d2, policy, s, n2);
    let ks2 = kept_segments(d2, policy, n2);
    assert(kept_segments(d1, policy, n1) == ks2.map_values(f));
    lemma_kept_segments(d2, policy, n2);
    assert forall|r: int| 0 <= r < ks2.len() implies #[trigger] graph_roads(d1, policy)[r] == graph_roads(d2, policy)[r] by {
        let t = ks2[r];
        assert(segment_error(d2, policy, t) == segment_error(d1, policy, shifted(s, t)));
        lemma_matching_segments(d1, shifted(s, t), d2, t, policy);
    }
    assert(graph_roads(d1, policy) =~= graph_roads(d2, policy));
}

} // verus!
