use vstd::prelude::*;

use crate::geometry::{DecodedGeometry, Point};
use crate::properties::{copy_restrictions, restriction_view, AccessRestriction};

verus! {

/// A segment's claim that its vertex nearest position `at` along the line
/// coincides with the connector named `id`. `at` is a fraction of the
/// segment's length in billionths (0 is the start, 1_000_000_000 the end).
#[derive(Clone, Debug)]
pub struct ConnectorRef {
    pub id: String,
    pub at: u32,
}

/// A junction or segment end point that segments may share.
#[derive(Clone, Debug)]
pub struct Connector {
    pub id: String,
    pub coordinate: Point,
}

/// One transportation way: a polyline with the connectors it attaches to.
#[derive(Clone, Debug)]
pub struct Segment {
    pub id: String,
    pub name: String,
    pub road_class: Option<String>,
    pub points: Vec<Point>,
    pub connectors: Vec<ConnectorRef>,
    pub access_restrictions: Vec<AccessRestriction>,
}

/// The two input tables of one conversion run.
#[derive(Clone, Debug)]
pub struct Data {
    pub segments: Vec<Segment>,
    pub connectors: Vec<Connector>,
}

/// The fields of one row of the segment table, as read from the file.
#[derive(Clone, Debug)]
pub struct SegmentRow {
    pub id: String,
    pub primary_name: Option<String>,
    pub class: Option<String>,
    pub geometry: Option<DecodedGeometry>,
    pub connectors: Option<Vec<ConnectorRef>>,
    pub access_restrictions: Vec<AccessRestriction>,
}

/// The fields of one row of the connector table, as read from the file.
#[derive(Clone, Debug)]
pub struct ConnectorRow {
    pub id: String,
    pub geometry: Option<DecodedGeometry>,
}

/// The input table that an error comes from.
#[derive(Clone, Copy, Debug, PartialEq, Eq, Structural)]
pub enum Table {
    Connector,
    Segment,
}

/// A field that a row must have.
#[derive(Clone, Copy, Debug, PartialEq, Eq, Structural)]
pub enum RequiredField {
    Geometry,
    Connectors,
}

/// What went wrong with a row.
#[derive(Clone, Copy, Debug, PartialEq, Eq, Structural)]
pub enum ErrorKind {
    /// The geometry decoded to another kind than the table asks for.
    GeometryTypeMismatch,
    /// The row lacks a field that it must have.
    MissingRequiredField(RequiredField),
    /// A kept segment has fewer than two vertices.
    DegenerateEdge,
    /// A count does not fit the width of its field in the tile records.
    RecordLimitExceeded,
}

/// A failed conversion: what went wrong, in which table, at which row, and the
/// identifier of that row.
#[derive(Clone, Debug, PartialEq, Eq)]
pub struct ConvertError {
    pub kind: ErrorKind,
    pub table: Table,
    pub row: usize,
    pub id: String,
}

/// The geometry of a decoded geometry when it is a line string.
pub open spec fn line_points(g: DecodedGeometry) -> Seq<Point> {
    match g {
        DecodedGeometry::LineString(v) => v@,
        _ => Seq::empty(),
    }
}

/// Requires a decoded geometry to be a point.
pub fn expect_point(geometry: &DecodedGeometry) -> (r: Result<Point, ErrorKind>)
    ensures
        match *geometry {
            DecodedGeometry::Point(p) => r == Ok::<Point, ErrorKind>(p),
            _ => r == Err::<Point, ErrorKind>(ErrorKind::GeometryTypeMismatch),
        },
{
    match geometry {
        DecodedGeometry::Point(p) => Ok(*p),
        _ => Err(ErrorKind::GeometryTypeMismatch),
    }
}

/// Requires a decoded geometry to be a line string, and copies its vertices.
pub fn expect_line_string(geometry: &DecodedGeometry) -> (r: Result<Vec<Point>, ErrorKind>)
    ensures
        match *geometry {
            DecodedGeometry::LineString(v) => r is Ok && r->Ok_0@ == v@,
            _ => r == Err::<Vec<Point>, ErrorKind>(ErrorKind::GeometryTypeMismatch),
        },
{
    match geometry {
        DecodedGeometry::LineString(v) => {
            let mut out: Vec<Point> = Vec::new();
            let mut i: usize = 0;
            while i < v.len()
                invariant
                    i <= v@.len(),
                    out@ == v@.subrange(0, i as int),
                decreases v@.len() - i,
            {
                out.push(v[i]);
                i = i + 1;
                assert(out@ =~= v@.subrange(0, i as int));
            }
            assert(out@ =~= v@);
            Ok(out)
        },
        _ => Err(ErrorKind::GeometryTypeMismatch),
    }
}

/// What a connector reference says, as plain values.
pub open spec fn ref_view(r: ConnectorRef) -> (Seq<char>, u32) {
    (r.id@, r.at)
}

pub open spec fn refs_view(v: Seq<ConnectorRef>) -> Seq<(Seq<char>, u32)> {
    v.map_values(|r: ConnectorRef| ref_view(r))
}

pub open spec fn restrictions_view(v: Seq<AccessRestriction>) -> Seq<(Seq<char>, Option<crate::properties::AccessWhen>)> {
    v.map_values(|r: AccessRestriction| restriction_view(r))
}

pub open spec fn opt_view(s: Option<String>) -> Option<Seq<char>> {
    match s {
        Some(x) => Some(x@),
        None => None,
    }
}

fn copy_refs(v: &Vec<ConnectorRef>) -> (r: Vec<ConnectorRef>)
    ensures
        refs_view(r@) == refs_view(v@),
{
    let mut r: Vec<ConnectorRef> = Vec::new();
    let mut i: usize = 0;
    while i < v.len()
        invariant
            i <= v@.len(),
            r@.len() == i,
            forall|j: int| 0 <= j < i ==> ref_view(#[trigger] r@[j]) == ref_view(v@[j]),
        decreases v@.len() - i,
    {
        r.push(ConnectorRef { id: v[i].id.clone(), at: v[i].at });
        i = i + 1;
    }
    assert(refs_view(r@) =~= refs_view(v@));
    r
}

fn copy_opt_string(s: &Option<String>) -> (r: Option<String>)
    ensures
        opt_view(r) == opt_view(*s),
{
    match s {
        Some(x) => Some(x.clone()),
        None => None,
    }
}

/// What is wrong with a connector row, if anything.
pub open spec fn connector_row_error(row: ConnectorRow) -> Option<ErrorKind> {
    match row.geometry {
        None => Some(ErrorKind::MissingRequiredField(RequiredField::Geometry)),
        Some(DecodedGeometry::Point(_)) => None,
        Some(_) => Some(ErrorKind::GeometryTypeMismatch),
    }
}

/// What is wrong with a segment row, if anything: its geometry is checked
/// before its connector list.
pub open spec fn segment_row_error(row: SegmentRow) -> Option<ErrorKind> {
    match row.geometry {
        None => Some(ErrorKind::MissingRequiredField(RequiredField::Geometry)),
        Some(DecodedGeometry::LineString(_)) => if row.connectors is None {
            Some(ErrorKind::MissingRequiredField(RequiredField::Connectors))
        } else {
            None
        },
        Some(_) => Some(ErrorKind::GeometryTypeMismatch),
    }
}

/// `c` holds what the valid row `row` holds.
pub open spec fn connector_of_row(c: Connector, row: ConnectorRow) -> bool {
    &&& c.id@ == row.id@
    &&& row.geometry == Some(DecodedGeometry::Point(c.coordinate))
}

/// `s` holds what the valid row `row` holds; an absent name becomes empty.
pub open spec fn segment_of_row(s: Segment, row: SegmentRow) -> bool {
    &&& s.id@ == row.id@
    &&& s.name@ == (match row.primary_name {
        Some(n) => n@,
        None => Seq::<char>::empty(),
    })
    &&& opt_view(s.road_class) == opt_view(row.class)
    &&& s.points@ == line_points(row.geometry->Some_0)
    &&& refs_view(s.connectors@) == refs_view(row.connectors->Some_0@)
    &&& restrictions_view(s.access_restrictions@) == restrictions_view(row.access_restrictions@)
}

/// Builds a connector from a row of the connector table.
pub fn connector_from_row(row: &ConnectorRow) -> (r: Result<Connector, ErrorKind>)
    ensures
        match r {
            Ok(c) => connector_row_error(*row) is None && connector_of_row(c, *row),
            Err(k) => connector_row_error(*row) == Some(k),
        },
{
    match &row.geometry {
        None => Err(ErrorKind::MissingRequiredField(RequiredField::Geometry)),
        Some(g) => {
            let p = expect_point(g)?;
            Ok(Connector { id: row.id.clone(), coordinate: p })
        },
    }
}

/// Builds a segment from a row of the segment table.
pub fn segment_from_row(row: &SegmentRow) -> (r: Result<Segment, ErrorKind>)
    ensures
        match r {
            Ok(s) => segment_row_error(*row) is None && segment_of_row(s, *row),
            Err(k) => segment_row_error(*row) == Some(k),
        },
{
    let points = match &row.geometry {
        None => {
            return Err(ErrorKind::MissingRequiredField(RequiredField::Geometry));
        },
        Some(g) => expect_line_string(g)?,
    };
    let connectors = match &row.connectors {
        None => {
            return Err(ErrorKind::MissingRequiredField(RequiredField::Connectors));
        },
        Some(c) => copy_refs(c),
    };
    let name = match &row.primary_name {
        Some(n) => n.clone(),
        None => String::new(),
    };
    Ok(Segment {
        id: row.id.clone(),
        name,
        road_class: copy_opt_string(&row.class),
        points,
        connectors,
        access_restrictions: copy_restrictions(&row.access_restrictions),
    })
}

/// The error of the first invalid row of both tables, the connector table
/// first.
pub open spec fn import_error_is(
    e: ConvertError,
    segment_rows: Seq<SegmentRow>,
    connector_rows: Seq<ConnectorRow>,
) -> bool {
    ||| {
        &&& e.table == Table::Connector
        &&& e.row < connector_rows.len()
        &&& connector_row_error(connector_rows[e.row as int]) == Some(e.kind)
        &&& e.id@ == connector_rows[e.row as int].id@
        &&& forall|j: int| 0 <= j < e.row ==> connector_row_error(#[trigger] connector_rows[j]) is None
    }
    ||| {
        &&& e.table == Table::Segment
        &&& e.row < segment_rows.len()
        &&& segment_row_error(segment_rows[e.row as int]) == Some(e.kind)
        &&& e.id@ == segment_rows[e.row as int].id@
        &&& forall|j: int| 0 <= j < connector_rows.len() ==> connector_row_error(#[trigger] connector_rows[j]) is None
        &&& forall|j: int| 0 <= j < e.row ==> segment_row_error(#[trigger] segment_rows[j]) is None
    }
}

/// Builds the two tables of a run from the rows read from the files. The
/// connector table is taken first, whole. The first invalid row of either
/// table fails the whole run.
pub fn import_overture_data(segment_rows: &Vec<SegmentRow>, connector_rows: &Vec<ConnectorRow>) -> (r: Result<Data, ConvertError>)
    ensures
        match r {
            Ok(d) => {
                &&& forall|j: int| 0 <= j < connector_rows@.len() ==> connector_row_error(#[trigger] connector_rows@[j]) is None
                &&& forall|j: int| 0 <= j < segment_rows@.len() ==> segment_row_error(#[trigger] segment_rows@[j]) is None
                &&& d.connectors@.len() == connector_rows@.len()
                &&& d.segments@.len() == segment_rows@.len()
                &&& forall|j: int| 0 <= j < connector_rows@.len() ==> connector_of_row(#[trigger] d.connectors@[j], connector_rows@[j])
                &&& forall|j: int| 0 <= j < segment_rows@.len() ==> segment_of_row(#[trigger] d.segments@[j], segment_rows@[j])
            },
            Err(e) => import_error_is(e, segment_rows@, connector_rows@),
        },
{
    let mut connectors: Vec<Connector> = Vec::new();
    let mut i: usize = 0;
    while i < connector_rows.len()
        invariant
            i <= connector_rows@.len(),
            connectors@.len() == i,
            forall|j: int| 0 <= j < i ==> connector_row_error(#[trigger] connector_rows@[j]) is None,
            forall|j: int| 0 <= j < i ==> connector_of_row(#[trigger] connectors@[j], connector_rows@[j]),
        decreases connector_rows@.len() - i,
    {
        match connector_from_row(&connector_rows[i]) {
            Ok(c) => connectors.push(c),
            Err(kind) => {
                return Err(ConvertError { kind, table: Table::Connector, row: i, id: connector_rows[i].id.clone() });
            },
        }
        i = i + 1;
    }
    let mut segments: Vec<Segment> = Vec::new();
    let mut i: usize = 0;
    while i < segment_rows.len()
        invariant
            i <= segment_rows@.len(),
            segments@.len() == i,
            forall|j: int| 0 <= j < connector_rows@.len() ==> connector_row_error(#[trigger] connector_rows@[j]) is None,
            forall|j: int| 0 <= j < i ==> segment_row_error(#[trigger] segment_rows@[j]) is None,
            forall|j: int| 0 <= j < i ==> segment_of_row(#[trigger] segments@[j], segment_rows@[j]),
        decreases segment_rows@.len() - i,
    {
        match segment_from_row(&segment_rows[i]) {
            Ok(s) => segments.push(s),
            Err(kind) => {
                return Err(ConvertError { kind, table: Table::Segment, row: i, id: segment_rows[i].id.clone() });
            },
        }
        i = i + 1;
    }
    Ok(Data { segments, connectors })
}

} // verus!
