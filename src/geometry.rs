use vstd::prelude::*;

verus! {

/// Nanodegrees in one degree: coordinates are held as whole multiples of
/// 1e-9 degree.
pub const NANOS_PER_DEGREE: i64 = 1_000_000_000;

/// Two coordinates match when both axes differ by strictly less than this
/// (1e-6 degree, about 11 cm at the equator).
pub const MATCH_TOLERANCE: i64 = 1_000;

/// A (latitude, longitude) pair in nanodegrees.
#[derive(Clone, Copy, Debug, PartialEq, Eq, Structural)]
pub struct Point {
    pub lat: i64,
    pub lon: i64,
}

/// A geometry as decoded from its binary encoding: a point, a line string, or
/// some other kind that this library has no use for.
#[derive(Clone, Debug, PartialEq, Eq)]
pub enum DecodedGeometry {
    Point(Point),
    LineString(Vec<Point>),
    Other,
}

pub open spec fn abs(x: int) -> int {
    if x < 0 { -x } else { x }
}

/// Both axes of `p` and `q` differ by strictly less than the tolerance.
pub open spec fn within_tolerance(p: Point, q: Point) -> bool {
    abs(p.lat - q.lat) < MATCH_TOLERANCE && abs(p.lon - q.lon) < MATCH_TOLERANCE
}

/// Whether `p` and `q` coincide within the matching tolerance.
pub fn points_match(p: &Point, q: &Point) -> (r: bool)
    ensures
        r == within_tolerance(*p, *q),
{
    let dlat: i128 = p.lat as i128 - q.lat as i128;
    let dlon: i128 = p.lon as i128 - q.lon as i128;
    let tol: i128 = MATCH_TOLERANCE as i128;
    -tol < dlat && dlat < tol && -tol < dlon && dlon < tol
}

/// The fixed-point value `round((degrees + offset) * 10^7)` of a coordinate
/// given in nanodegrees, saturated to the range of `u32`.
pub open spec fn fixed7(nanos: int, offset_degrees: int) -> int {
    let shifted = nanos + offset_degrees * NANOS_PER_DEGREE;
    if shifted < 0 {
        0
    } else if (shifted + 50) / 100 > u32::MAX {
        u32::MAX as int
    } else {
        (shifted + 50) / 100
    }
}

fn encode_axis(nanos: i64, offset_degrees: i64) -> (r: u32)
    requires
        offset_degrees == 90 || offset_degrees == 180,
    ensures
        r == fixed7(nanos as int, offset_degrees as int),
{
    let offset_nanos: i128 = if offset_degrees == 90 {
        90_000_000_000
    } else {
        180_000_000_000
    };
    let shifted: i128 = nanos as i128 + offset_nanos;
    if shifted < 0 {
        0
    } else {
        let scaled: i128 = (shifted + 50) / 100;
        if scaled > u32::MAX as i128 {
            u32::MAX
        } else {
            scaled as u32
        }
    }
}

/// Encodes a latitude and a longitude (nanodegrees) as the unsigned 32-bit
/// fixed-point values of the tile records: offset by 90 and 180 degrees, in
/// units of 1e-7 degree, rounded to nearest, saturated at the ends of `u32`.
pub fn encode_lat_lon(decoded_lat: i64, decoded_lon: i64) -> (r: (u32, u32))
    ensures
        r.0 == fixed7(decoded_lat as int, 90),
        r.1 == fixed7(decoded_lon as int, 180),
{
    (encode_axis(decoded_lat, 90), encode_axis(decoded_lon, 180))
}

/// Decodes the fixed-point values of the tile records back to nanodegrees.
pub fn decode_lat_lon(encoded_lat: u32, encoded_lon: u32) -> (r: (i64, i64))
    ensures
        r.0 == encoded_lat as int * 100 - 90 * NANOS_PER_DEGREE,
        r.1 == encoded_lon as int * 100 - 180 * NANOS_PER_DEGREE,
{
    let lat: i64 = encoded_lat as i64 * 100 - 90 * NANOS_PER_DEGREE;
    let lon: i64 = encoded_lon as i64 * 100 - 180 * NANOS_PER_DEGREE;
    (lat, lon)
}

} // verus!
