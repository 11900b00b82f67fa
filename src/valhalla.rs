use vstd::bytes::*;
use vstd::prelude::*;

use crate::geometry::{encode_lat_lon, fixed7};

verus! {

// Record layout. The routing engine reads its `OSMWay` and `OSMWayNode`
// structs as raw memory; their definition (the engine's `valhalla.h`, with
// bitfields for the codes and flags and further fields left at zero) was not
// at hand when this module was written. The layout below is therefore this
// library's own: every field whole, little-endian, in the order given on
// each type. It is NOT byte-compatible with the engine. To become so, the
// spec functions `node_bytes`, `way_node_bytes` and `way_bytes` and the
// `as_bytes` methods must be rewritten after the engine's header, field by
// field; nothing else in the crate depends on the layout.

/// Surface code written on every edge (compacted).
pub const WAY_SURFACE: u8 = 3;

/// Road-class code written on every edge (service / other).
pub const WAY_ROAD_CLASS: u8 = 7;

/// Use code written on every edge (footway).
pub const WAY_USE: u8 = 25;

/// Speed in km/h written on every edge.
pub const WAY_SPEED: u8 = 25;

/// Access bits written on every vertex (all modes but the last).
pub const NODE_ACCESS: u16 = 2047;

/// A graph vertex. In this library's layout its record is 20 bytes,
/// little-endian: `osmid` (8),
/// `lng7` (4), `lat7` (4), `access` (2), `intersection` (1), one zero byte.
#[derive(Clone, Copy, Debug, PartialEq, Eq, Structural)]
pub struct OsmNode {
    pub osmid: u64,
    pub lng7: u32,
    pub lat7: u32,
    pub access: u16,
    pub intersection: u8,
}

/// One vertex of one edge. In this library's layout its record is 28 bytes: the node record, then
/// `way_index` (4) and `way_shape_node_index` (4), little-endian.
#[derive(Clone, Copy, Debug, PartialEq, Eq, Structural)]
pub struct OsmWayNode {
    pub node: OsmNode,
    pub way_index: u32,
    pub way_shape_node_index: u32,
}

/// One directed edge. In this library's layout its record is 24 bytes,
/// little-endian: `osmwayid` (8),
/// `name_index` (4), `nodecount` (2), then one byte each for `surface`,
/// `road_class`, `road_use`, `speed`, and the flags `drive_on_right`,
/// `has_user_tags`, `auto_forward`, `auto_backward`, `pedestrian_forward`,
/// `pedestrian_backward` (0 or 1).
#[derive(Clone, Copy, Debug, PartialEq, Eq, Structural)]
pub struct OsmWay {
    pub osmwayid: u64,
    pub name_index: u32,
    pub nodecount: u16,
    pub surface: u8,
    pub road_class: u8,
    pub road_use: u8,
    pub speed: u8,
    pub drive_on_right: bool,
    pub has_user_tags: bool,
    pub auto_forward: bool,
    pub auto_backward: bool,
    pub pedestrian_forward: bool,
    pub pedestrian_backward: bool,
}

pub open spec fn flag_byte(b: bool) -> u8 {
    if b { 1 } else { 0 }
}

pub open spec fn node_bytes(n: OsmNode) -> Seq<u8> {
    spec_u64_to_le_bytes(n.osmid) + spec_u32_to_le_bytes(n.lng7) + spec_u32_to_le_bytes(n.lat7)
        + spec_u16_to_le_bytes(n.access) + seq![n.intersection, 0u8]
}

pub open spec fn way_node_bytes(w: OsmWayNode) -> Seq<u8> {
    node_bytes(w.node) + spec_u32_to_le_bytes(w.way_index) + spec_u32_to_le_bytes(w.way_shape_node_index)
}

pub open spec fn way_bytes(w: OsmWay) -> Seq<u8> {
    spec_u64_to_le_bytes(w.osmwayid) + spec_u32_to_le_bytes(w.name_index) + spec_u16_to_le_bytes(w.nodecount)
        + seq![
        w.surface,
        w.road_class,
        w.road_use,
        w.speed,
        flag_byte(w.drive_on_right),
        flag_byte(w.has_user_tags),
        flag_byte(w.auto_forward),
        flag_byte(w.auto_backward),
        flag_byte(w.pedestrian_forward),
        flag_byte(w.pedestrian_backward),
    ]
}

pub open spec fn nodes_bytes(s: Seq<OsmNode>) -> Seq<u8> {
    s.map_values(|n: OsmNode| node_bytes(n)).flatten()
}

pub open spec fn way_nodes_bytes(s: Seq<OsmWayNode>) -> Seq<u8> {
    s.map_values(|n: OsmWayNode| way_node_bytes(n)).flatten()
}

pub open spec fn ways_bytes(s: Seq<OsmWay>) -> Seq<u8> {
    s.map_values(|w: OsmWay| way_bytes(w)).flatten()
}

/// The edge that `OsmWay::new` makes.
pub open spec fn way_record(osmid: u64, name_index: u32, nodecount: u16, auto_allowed: bool, pedestrian_allowed: bool) -> OsmWay {
    OsmWay {
        osmwayid: osmid,
        name_index,
        nodecount,
        surface: WAY_SURFACE,
        road_class: WAY_ROAD_CLASS,
        road_use: WAY_USE,
        speed: WAY_SPEED,
        drive_on_right: true,
        has_user_tags: false,
        auto_forward: auto_allowed,
        auto_backward: auto_allowed,
        pedestrian_forward: pedestrian_allowed,
        pedestrian_backward: pedestrian_allowed,
    }
}

/// The edge vertex that `OsmWayNode::new` makes; coordinates in nanodegrees.
pub open spec fn way_node_record(way_index: u32, way_shape_node_index: u32, osmid: u64, lng: i64, lat: i64, intersection: u32) -> OsmWayNode {
    OsmWayNode {
        node: OsmNode {
            osmid,
            lng7: fixed7(lng as int, 180) as u32,
            lat7: fixed7(lat as int, 90) as u32,
            access: NODE_ACCESS,
            intersection: (intersection % 2) as u8,
        },
        way_index,
        way_shape_node_index,
    }
}

fn push_flag(out: &mut Vec<u8>, b: bool)
    ensures
        final(out)@ == old(out)@.push(flag_byte(b)),
{
    if b {
        out.push(1);
    } else {
        out.push(0);
    }
}

impl OsmNode {
    /// The node's record bytes.
    pub fn as_bytes(&self) -> (r: Vec<u8>)
        ensures
            r@ == node_bytes(*self),
    {
        let mut out = u64_to_le_bytes(self.osmid);
        let mut b = u32_to_le_bytes(self.lng7);
        out.append(&mut b);
        let mut b = u32_to_le_bytes(self.lat7);
        out.append(&mut b);
        let mut b = u16_to_le_bytes(self.access);
        out.append(&mut b);
        out.push(self.intersection);
        out.push(0);
        assert(out@ =~= node_bytes(*self));
        out
    }

    /// The records of a list of nodes, one after another.
    pub fn slice_as_bytes(slice: &[OsmNode]) -> (r: Vec<u8>)
        ensures
            r@ == nodes_bytes(slice@),
    {
        let mut out: Vec<u8> = Vec::new();
        let mut i: usize = 0;
        while i < slice.len()
            invariant
                i <= slice@.len(),
                out@ == nodes_bytes(slice@.take(i as int)),
            decreases slice@.len() - i,
        {
            let mut b = slice[i].as_bytes();
            out.append(&mut b);
            proof {
                let f = |n: OsmNode| node_bytes(n);
                assert(slice@.take(i + 1).map_values(f) =~= slice@.take(i as int).map_values(f).push(node_bytes(slice@[i as int])));
                slice@.take(i as int).map_values(f).lemma_flatten_push(node_bytes(slice@[i as int]));
            }
            i = i + 1;
        }
        assert(slice@.take(slice@.len() as int) =~= slice@);
        out
    }
}

impl OsmWayNode {
    /// A vertex record with every field zero.
    pub fn default() -> (r: OsmWayNode)
        ensures
            r == (OsmWayNode { node: OsmNode { osmid: 0, lng7: 0, lat7: 0, access: 0, intersection: 0 }, way_index: 0, way_shape_node_index: 0 }),
    {
        OsmWayNode {
            node: OsmNode { osmid: 0, lng7: 0, lat7: 0, access: 0, intersection: 0 },
            way_index: 0,
            way_shape_node_index: 0,
        }
    }

    /// The vertex at position `way_shape_node_index` of edge `way_index`,
    /// with node index `osmid` and coordinates `lng`, `lat` (nanodegrees)
    /// encoded as 1e-7-degree fixed point. `intersection` is a one-bit flag.
    pub fn new(way_index: u32, way_shape_node_index: u32, osmid: u64, lng: i64, lat: i64, intersection: u32) -> (r: OsmWayNode)
        ensures
            r == way_node_record(way_index, way_shape_node_index, osmid, lng, lat, intersection),
    {
        let mut waynode = OsmWayNode::default();
        waynode.way_index = way_index;
        waynode.way_shape_node_index = way_shape_node_index;
        waynode.node.osmid = osmid;
        let (lat7, lng7) = encode_lat_lon(lat, lng);
        waynode.node.lng7 = lng7;
        waynode.node.lat7 = lat7;
        waynode.node.intersection = (intersection % 2) as u8;
        waynode.node.access = NODE_ACCESS;
        waynode
    }

    /// The same record as `new` makes.
    pub fn simple_valhalla(way_index: u32, way_shape_node_index: u32, osmid: u64, lng: i64, lat: i64, intersection: u32) -> (r: OsmWayNode)
        ensures
            r == way_node_record(way_index, way_shape_node_index, osmid, lng, lat, intersection),
    {
        OsmWayNode::new(way_index, way_shape_node_index, osmid, lng, lat, intersection)
    }

    /// The vertex's record bytes.
    pub fn as_bytes(&self) -> (r: Vec<u8>)
        ensures
            r@ == way_node_bytes(*self),
    {
        let mut out = self.node.as_bytes();
        let mut b = u32_to_le_bytes(self.way_index);
        out.append(&mut b);
        let mut b = u32_to_le_bytes(self.way_shape_node_index);
        out.append(&mut b);
        out
    }

    /// The records of a list of edge vertices, one after another.
    pub fn slice_as_bytes(slice: &[OsmWayNode]) -> (r: Vec<u8>)
        ensures
            r@ == way_nodes_bytes(slice@),
    {
        let mut out: Vec<u8> = Vec::new();
        let mut i: usize = 0;
        while i < slice.len()
            invariant
                i <= slice@.len(),
                out@ == way_nodes_bytes(slice@.take(i as int)),
            decreases slice@.len() - i,
        {
            let mut b = slice[i].as_bytes();
            out.append(&mut b);
            proof {
                let f = |n: OsmWayNode| way_node_bytes(n);
                assert(slice@.take(i + 1).map_values(f) =~= slice@.take(i as int).map_values(f).push(way_node_bytes(slice@[i as int])));
                slice@.take(i as int).map_values(f).lemma_flatten_push(way_node_bytes(slice@[i as int]));
            }
            i = i + 1;
        }
        assert(slice@.take(slice@.len() as int) =~= slice@);
        out
    }
}

impl OsmWay {
    /// An edge record with every field zero.
    pub fn default() -> (r: OsmWay)
        ensures
            r == (OsmWay {
                osmwayid: 0,
                name_index: 0,
                nodecount: 0,
                surface: 0,
                road_class: 0,
                road_use: 0,
                speed: 0,
                drive_on_right: false,
                has_user_tags: false,
                auto_forward: false,
                auto_backward: false,
                pedestrian_forward: false,
                pedestrian_backward: false,
            }),
    {
        OsmWay {
            osmwayid: 0,
            name_index: 0,
            nodecount: 0,
            surface: 0,
            road_class: 0,
            road_use: 0,
            speed: 0,
            drive_on_right: false,
            has_user_tags: false,
            auto_forward: false,
            auto_backward: false,
            pedestrian_forward: false,
            pedestrian_backward: false,
        }
    }

    /// Edge `osmid` with `nodecount` vertices and name `name_index`, open in
    /// both directions to cars when `auto_allowed` and to pedestrians when
    /// `pedestrian_allowed`, with the fixed surface, class, use and speed
    /// codes and right-hand traffic.
    pub fn new(osmid: u64, name_index: u32, nodecount: u16, auto_allowed: bool, pedestrian_allowed: bool) -> (r: OsmWay)
        ensures
            r == way_record(osmid, name_index, nodecount, auto_allowed, pedestrian_allowed),
    {
        let mut way = OsmWay::default();
        way.osmwayid = osmid;
        way.name_index = name_index;
        way.nodecount = nodecount;
        way.surface = WAY_SURFACE;
        way.drive_on_right = true;
        way.road_class = WAY_ROAD_CLASS;
        way.road_use = WAY_USE;
        way.has_user_tags = false;
        if pedestrian_allowed {
            way.pedestrian_forward = true;
            way.pedestrian_backward = true;
        }
        if auto_allowed {
            way.auto_forward = true;
            way.auto_backward = true;
        }
        way.speed = WAY_SPEED;
        way
    }

    /// A pedestrian-only edge.
    pub fn simple_valhalla(osmid: u64, name_index: u32, nodecount: u16) -> (r: OsmWay)
        ensures
            r == way_record(osmid, name_index, nodecount, false, true),
    {
        OsmWay::new(osmid, name_index, nodecount, false, true)
    }

    /// The edge's record bytes.
    pub fn as_bytes(&self) -> (r: Vec<u8>)
        ensures
            r@ == way_bytes(*self),
    {
        let mut out = u64_to_le_bytes(self.osmwayid);
        let mut b = u32_to_le_bytes(self.name_index);
        out.append(&mut b);
        let mut b = u16_to_le_bytes(self.nodecount);
        out.append(&mut b);
        out.push(self.surface);
        out.push(self.road_class);
        out.push(self.road_use);
        out.push(self.speed);
        push_flag(&mut out, self.drive_on_right);
        push_flag(&mut out, self.has_user_tags);
        push_flag(&mut out, self.auto_forward);
        push_flag(&mut out, self.auto_backward);
        push_flag(&mut out, self.pedestrian_forward);
        push_flag(&mut out, self.pedestrian_backward);
        assert(out@ =~= way_bytes(*self));
        out
    }

    /// The records of a list of edges, one after another.
    pub fn slice_as_bytes(slice: &[OsmWay]) -> (r: Vec<u8>)
        ensures
            r@ == ways_bytes(slice@),
    {
        let mut out: Vec<u8> = Vec::new();
        let mut i: usize = 0;
        while i < slice.len()
            invariant
                i <= slice@.len(),
                out@ == ways_bytes(slice@.take(i as int)),
            decreases slice@.len() - i,
        {
            let mut b = slice[i].as_bytes();
            out.append(&mut b);
            proof {
                let f = |w: OsmWay| way_bytes(w);
                assert(slice@.take(i + 1).map_values(f) =~= slice@.take(i as int).map_values(f).push(way_bytes(slice@[i as int])));
                slice@.take(i as int).map_values(f).lemma_flatten_push(way_bytes(slice@[i as int]));
            }
            i = i + 1;
        }
        assert(slice@.take(slice@.len() as int) =~= slice@);
        out
    }
}

} // verus!
