use vstd::prelude::*;

use crate::geometry::{points_match, within_tolerance, Point};
use crate::model::{Connector, ConnectorRef, Segment};
use crate::permissions::Permissions;
use crate::text::str_eq;

verus! {

/// `k` is the position of the first connector of `all` named `id`.
pub open spec fn is_first_named(all: Seq<Connector>, id: Seq<char>, k: int) -> bool {
    &&& 0 <= k < all.len()
    &&& all[k].id@ == id
    &&& forall|j: int| 0 <= j < k ==> (#[trigger] all[j]).id@ != id
}

/// The position of the first connector named `id`, if there is one.
pub open spec fn connector_position(all: Seq<Connector>, id: Seq<char>) -> Option<int> {
    if exists|k: int| is_first_named(all, id, k) {
        Some(choose|k: int| is_first_named(all, id, k))
    } else {
        None
    }
}

/// The reference named `id` points at a connector that `p` matches within
/// the tolerance. A name that the table lacks matches nothing.
pub open spec fn ref_matches(p: Point, id: Seq<char>, all: Seq<Connector>) -> bool {
    match connector_position(all, id) {
        Some(k) => within_tolerance(p, all[k].coordinate),
        None => false,
    }
}

/// `j` is the first reference of `refs` that `p` matches.
pub open spec fn is_first_match(p: Point, refs: Seq<ConnectorRef>, all: Seq<Connector>, j: int) -> bool {
    &&& 0 <= j < refs.len()
    &&& ref_matches(p, refs[j].id@, all)
    &&& forall|i: int| 0 <= i < j ==> !ref_matches(p, (#[trigger] refs[i]).id@, all)
}

/// The connector position that a vertex at `p` resolves to through the
/// references `refs`: that of the first reference that it matches.
pub open spec fn resolved_connector(p: Point, refs: Seq<ConnectorRef>, all: Seq<Connector>) -> Option<int> {
    if exists|j: int| is_first_match(p, refs, all, j) {
        connector_position(all, refs[choose|j: int| is_first_match(p, refs, all, j)].id@)
    } else {
        None
    }
}

/// How many of `points` resolve to no connector, and so take a fresh index.
pub open spec fn minted_count(points: Seq<Point>, refs: Seq<ConnectorRef>, all: Seq<Connector>) -> nat
    decreases points.len(),
{
    if points.len() == 0 {
        0
    } else {
        minted_count(points.drop_last(), refs, all) + if resolved_connector(points.last(), refs, all) is None {
            1nat
        } else {
            0nat
        }
    }
}

/// The node index of vertex `i` of a segment whose fresh indices start at
/// `next`: the position of the connector it resolves to, or else the next
/// fresh index in vertex order.
pub open spec fn vertex_index(points: Seq<Point>, refs: Seq<ConnectorRef>, all: Seq<Connector>, next: int, i: int) -> int {
    match resolved_connector(points[i], refs, all) {
        Some(k) => k,
        None => next + minted_count(points.take(i), refs, all),
    }
}

/// A vertex with its node index.
#[derive(Clone, Copy, Debug, PartialEq, Eq, Structural)]
pub struct IndexedPoint {
    pub index: u64,
    pub point: Point,
}

/// A kept segment with the node index of each vertex, in vertex order.
#[derive(Clone, Debug)]
pub struct ExportedRoad {
    pub points: Vec<IndexedPoint>,
    pub permissions: Permissions,
}

/// The indexed vertices of a segment whose fresh indices start at `next`.
pub open spec fn indexed_points(points: Seq<Point>, refs: Seq<ConnectorRef>, all: Seq<Connector>, next: int) -> Seq<IndexedPoint> {
    Seq::new(
        points.len(),
        |i: int| IndexedPoint { index: vertex_index(points, refs, all, next, i) as u64, point: points[i] },
    )
}

pub proof fn lemma_minted_count_bound(points: Seq<Point>, refs: Seq<ConnectorRef>, all: Seq<Connector>)
    ensures
        minted_count(points, refs, all) <= points.len(),
    decreases points.len(),
{
    if points.len() > 0 {
        lemma_minted_count_bound(points.drop_last(), refs, all);
    }
}

/// The position of the first connector named `id`.
pub fn connector_position_of(all: &Vec<Connector>, id: &String) -> (r: Option<usize>)
    ensures
        match r {
            Some(k) => connector_position(all@, id@) == Some(k as int),
            None => connector_position(all@, id@) is None,
        },
{
    let mut k: usize = 0;
    while k < all.len()
        invariant
            k <= all@.len(),
            forall|j: int| 0 <= j < k ==> (#[trigger] all@[j]).id@ != id@,
        decreases all@.len() - k,
    {
        if str_eq(all[k].id.as_str(), id.as_str()) {
            assert(is_first_named(all@, id@, k as int));
            assert forall|m: int| is_first_named(all@, id@, m) implies m == k by {
                if m < k {
                    assert(all@[m].id@ != id@);
                } else if m > k {
                    assert(all@[k as int].id@ != id@);
                }
            }
            return Some(k);
        }
        k = k + 1;
    }
    assert forall|m: int| !is_first_named(all@, id@, m) by {
        if 0 <= m < all@.len() {
            assert(all@[m].id@ != id@);
        }
    }
    None
}

/// The coordinate of the connector that a reference names, if the table
/// holds it.
pub fn get_point_for_connector(connector_ref: &ConnectorRef, all_connectors: &Vec<Connector>) -> (r: Option<Point>)
    ensures
        match connector_position(all_connectors@, connector_ref.id@) {
            Some(k) => r == Some(all_connectors@[k].coordinate),
            None => r is None,
        },
{
    match connector_position_of(all_connectors, &connector_ref.id) {
        Some(k) => Some(all_connectors[k].coordinate),
        None => None,
    }
}

/// The index in `connector_refs` of the first reference whose connector a
/// vertex at `point` matches within the tolerance; when several match, the
/// first in the list wins. References to unknown connectors match nothing.
pub fn get_connector_index_for_point(point: &Point, connector_refs: &Vec<ConnectorRef>, all_connectors: &Vec<Connector>) -> (r: Option<usize>)
    ensures
        match r {
            Some(j) => is_first_match(*point, connector_refs@, all_connectors@, j as int),
            None => forall|j: int| !is_first_match(*point, connector_refs@, all_connectors@, j),
        },
{
    let ghost refs = connector_refs@;
    let ghost all = all_connectors@;
    let mut j: usize = 0;
    while j < connector_refs.len()
        invariant
            refs == connector_refs@,
            all == all_connectors@,
            j <= refs.len(),
            forall|i: int| 0 <= i < j ==> !ref_matches(*point, (#[trigger] refs[i]).id@, all),
        decreases refs.len() - j,
    {
        let found = connector_position_of(all_connectors, &connector_refs[j].id);
        if let Some(k) = found {
            if points_match(point, &all_connectors[k].coordinate) {
                assert(is_first_match(*point, refs, all, j as int));
                return Some(j);
            }
        }
        j = j + 1;
    }
    assert forall|m: int| !is_first_match(*point, refs, all, m) by {
        if 0 <= m < refs.len() {
            assert(!ref_matches(*point, refs[m].id@, all));
        }
    }
    None
}

/// Gives each vertex of a segment its node index: the position of the
/// connector that it resolves to, or else a fresh index taken from
/// `next_index`, which then moves on by one.
pub fn process_segment(
    segment: &Segment,
    all_connectors: &Vec<Connector>,
    next_index: &mut u64,
    permissions: Permissions,
) -> (r: ExportedRoad)
    requires
        *old(next_index) + segment.points@.len() <= u64::MAX,
    ensures
        r.points@ == indexed_points(segment.points@, segment.connectors@, all_connectors@, *old(next_index) as int),
        *final(next_index) == *old(next_index) + minted_count(segment.points@, segment.connectors@, all_connectors@),
        r.permissions == permissions,
{
    let ghost points = segment.points@;
    let ghost refs = segment.connectors@;
    let ghost all = all_connectors@;
    let ghost start = *next_index as int;
    let mut out: Vec<IndexedPoint> = Vec::new();
    let mut i: usize = 0;
    while i < segment.points.len()
        invariant
            points == segment.points@,
            refs == segment.connectors@,
            all == all_connectors@,
            start + points.len() <= u64::MAX,
            i <= points.len(),
            out@ == indexed_points(points.take(i as int), refs, all, start),
            *next_index == start + minted_count(points.take(i as int), refs, all),
        decreases points.len() - i,
    {
        let point = segment.points[i];
        let ghost prev = out@;
        let ghost before = *next_index as int;
        proof {
            assert(points.take(i + 1).drop_last() =~= points.take(i as int));
            lemma_minted_count_bound(points.take(i as int), refs, all);
        }
        let position = match get_connector_index_for_point(&point, &segment.connectors, all_connectors) {
            Some(j) => {
                proof {
                    assert forall|m: int| is_first_match(point, refs, all, m) implies m == j by {
                        if m < j {
                            assert(!ref_matches(point, refs[m].id@, all));
                        } else if m > j {
                            assert(!ref_matches(point, refs[j as int].id@, all));
                        }
                    }
                }
                connector_position_of(all_connectors, &segment.connectors[j].id)
            },
            None => None,
        };
        assert(match position {
            Some(k) => resolved_connector(point, refs, all) == Some(k as int),
            None => resolved_connector(point, refs, all) is None,
        });
        match position {
            Some(k) => {
                out.push(IndexedPoint { index: k as u64, point });
            },
            None => {
                out.push(IndexedPoint { index: *next_index, point });
                *next_index = *next_index + 1;
            },
        }
        proof {
            let next_take = points.take(i + 1);
            let cur_take = points.take(i as int);
            assert(next_take.take(i as int) =~= cur_take);
            assert forall|m: int| 0 <= m < i implies #[trigger] next_take.take(m) =~= cur_take.take(m) by {}
            assert forall|m: int| 0 <= m <= i implies out@[m] == indexed_points(next_take, refs, all, start)[m] by {
                if m < i {
                    assert(prev[m] == indexed_points(cur_take, refs, all, start)[m]);
                    assert(next_take.take(m) =~= cur_take.take(m));
                    assert(next_take[m] == cur_take[m]);
                } else {
                    assert(next_take[m] == point);
                }
            }
            assert(out@ =~= indexed_points(next_take, refs, all, start));
        }
        i = i + 1;
    }
    assert(points.take(points.len() as int) =~= points);
    ExportedRoad { points: out, permissions }
}

} // verus!
