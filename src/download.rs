use vstd::prelude::*;

use crate::geometry::NANOS_PER_DEGREE;

verus! {

/// The release that downloads read unless told otherwise.
pub const DEFAULT_RELEASE_VERSION: &'static str = "2025-05-21.0";

/// Where the open data releases are read from.
pub const DEFAULT_BASE_URL: &'static str = "s3://overturemaps-us-west-2/release";

pub const QUERY_HEAD: &'static str = "\n            COPY (\n                SELECT *\n                FROM read_parquet('";

pub const DIVISIONS_SOURCE: &'static str = "/theme=divisions/type=division/*', \n                                filename=true, hive_partitioning=1)\n                WHERE id IN (\n                    SELECT DISTINCT division_id\n                    FROM read_parquet('";

pub const DIVISIONS_FILTER_END: &'static str = "')\n                )\n            ) TO '";

pub const QUERY_TAIL: &'static str = "' (FORMAT PARQUET);\n            ";

/// The release that queries read from.
#[derive(Clone, Debug)]
pub struct OvertureMapsConfig {
    pub base_url: String,
    pub release_version: String,
}

impl OvertureMapsConfig {
    /// The public bucket and the default release.
    pub fn default() -> (r: OvertureMapsConfig)
        ensures
            r.base_url@ == DEFAULT_BASE_URL@,
            r.release_version@ == DEFAULT_RELEASE_VERSION@,
    {
        OvertureMapsConfig {
            base_url: DEFAULT_BASE_URL.to_owned(),
            release_version: DEFAULT_RELEASE_VERSION.to_owned(),
        }
    }
}

/// Builds the query texts that download a release's data.
#[derive(Clone, Debug)]
pub struct OvertureMapsQuery {
    pub config: OvertureMapsConfig,
}

/// The text of the query that copies the divisions named by the division
/// areas in `area_output_path` to `division_output_path`.
pub open spec fn divisions_query_text(
    base_url: Seq<char>,
    version: Seq<char>,
    area_output_path: Seq<char>,
    division_output_path: Seq<char>,
) -> Seq<char> {
    QUERY_HEAD@ + base_url + "/"@ + version + DIVISIONS_SOURCE@ + area_output_path + DIVISIONS_FILTER_END@
        + division_output_path + QUERY_TAIL@
}

impl OvertureMapsQuery {
    pub fn new(config: OvertureMapsConfig) -> (r: OvertureMapsQuery)
        ensures
            r.config.base_url@ == config.base_url@,
            r.config.release_version@ == config.release_version@,
    {
        OvertureMapsQuery { config }
    }

    /// The query that copies the divisions that the areas in
    /// `area_output_path` belong to into `division_output_path`.
    pub fn divisions_query(&self, area_output_path: &str, division_output_path: &str) -> (r: String)
        ensures
            r@ == divisions_query_text(
                self.config.base_url@,
                self.config.release_version@,
                area_output_path@,
                division_output_path@,
            ),
    {
        let mut q = QUERY_HEAD.to_owned();
        q.append(self.config.base_url.as_str());
        q.append("/");
        q.append(self.config.release_version.as_str());
        q.append(DIVISIONS_SOURCE);
        q.append(area_output_path);
        q.append(DIVISIONS_FILTER_END);
        q.append(division_output_path);
        q.append(QUERY_TAIL);
        q
    }
}


pub const TRANSPORTATION_SOURCE: &'static str = "/theme=transportation/type=*/*', \n                                filename=true, hive_partitioning=1)\n                WHERE\n                    bbox.xmin >= ";

pub const AREAS_SOURCE: &'static str = "/theme=divisions/type=division_area/*', \n                                filename=true, hive_partitioning=1)\n                WHERE\n                    bbox.xmin <= ";

pub const AND_XMAX_LE: &'static str = "\n                    AND bbox.xmax <= ";

pub const AND_XMAX_GE: &'static str = "\n                    AND bbox.xmax >= ";

pub const AND_YMIN_GE: &'static str = "\n                    AND bbox.ymin >= ";

pub const AND_YMIN_LE: &'static str = "\n                    AND bbox.ymin <= ";

pub const AND_YMAX_LE: &'static str = "\n                    AND bbox.ymax <= ";

pub const AND_YMAX_GE: &'static str = "\n                    AND bbox.ymax >= ";

pub const INTERSECTS: &'static str = "\n                    AND ST_Intersects(geometry, ST_GeomFromText('";

pub const INTERSECTS_END: &'static str = "'))";

pub const BOX_FILTER_END: &'static str = "\n            ) TO '";

/// The decimal digit `d` as a character.
pub open spec fn digit_char(d: int) -> char {
    if d == 0 {
        '0'
    } else if d == 1 {
        '1'
    } else if d == 2 {
        '2'
    } else if d == 3 {
        '3'
    } else if d == 4 {
        '4'
    } else if d == 5 {
        '5'
    } else if d == 6 {
        '6'
    } else if d == 7 {
        '7'
    } else if d == 8 {
        '8'
    } else {
        '9'
    }
}

/// The decimal numeral of `n`, without leading zeros.
pub open spec fn decimal_digits(n: nat) -> Seq<char>
    decreases n,
{
    if n < 10 {
        seq![digit_char(n as int)]
    } else {
        decimal_digits(n / 10).push(digit_char((n % 10) as int))
    }
}

/// The last `width` decimal digits of `n`, with leading zeros.
pub open spec fn padded_digits(n: nat, width: nat) -> Seq<char>
    decreases width,
{
    if width == 0 {
        Seq::empty()
    } else {
        padded_digits(n / 10, (width - 1) as nat).push(digit_char((n % 10) as int))
    }
}

/// The `width`-digit fraction `r` without its trailing zeros.
pub open spec fn trimmed_fraction(r: nat, width: nat) -> Seq<char>
    decreases width,
{
    if width > 0 && r % 10 == 0 {
        trimmed_fraction(r / 10, (width - 1) as nat)
    } else {
        padded_digits(r, width)
    }
}

/// A value in nanodegrees written as a decimal number of degrees, as short
/// as it can be: `-122.4`, `47.61`, `3`.
pub open spec fn degrees_text(n: int) -> Seq<char> {
    let m = if n < 0 { -n } else { n };
    let whole = (m / NANOS_PER_DEGREE as int) as nat;
    let fraction = (m % NANOS_PER_DEGREE as int) as nat;
    (if n < 0 { "-"@ } else { ""@ }) + decimal_digits(whole) + if fraction == 0 {
        ""@
    } else {
        "."@ + trimmed_fraction(fraction, 9)
    }
}

fn push_digit(out: &mut String, d: u64)
    requires
        d < 10,
    ensures
        final(out)@ == old(out)@.push(digit_char(d as int)),
{
    proof {
        reveal_strlit("0");
        reveal_strlit("1");
        reveal_strlit("2");
        reveal_strlit("3");
        reveal_strlit("4");
        reveal_strlit("5");
        reveal_strlit("6");
        reveal_strlit("7");
        reveal_strlit("8");
        reveal_strlit("9");
    }
    let s = if d == 0 {
        "0"
    } else if d == 1 {
        "1"
    } else if d == 2 {
        "2"
    } else if d == 3 {
        "3"
    } else if d == 4 {
        "4"
    } else if d == 5 {
        "5"
    } else if d == 6 {
        "6"
    } else if d == 7 {
        "7"
    } else if d == 8 {
        "8"
    } else {
        "9"
    };
    out.append(s);
    assert(final(out)@ =~= old(out)@.push(digit_char(d as int)));
}

fn push_decimal(out: &mut String, n: u64)
    ensures
        final(out)@ == old(out)@ + decimal_digits(n as nat),
    decreases n,
{
    if n >= 10 {
        push_decimal(out, n / 10);
    }
    push_digit(out, n % 10);
    assert(final(out)@ =~= old(out)@ + decimal_digits(n as nat));
}

fn push_padded(out: &mut String, n: u64, width: u32)
    ensures
        final(out)@ == old(out)@ + padded_digits(n as nat, width as nat),
    decreases width,
{
    if width > 0 {
        push_padded(out, n / 10, width - 1);
        push_digit(out, n % 10);
    }
    assert(final(out)@ =~= old(out)@ + padded_digits(n as nat, width as nat));
}

fn push_trimmed(out: &mut String, r: u64, width: u32)
    ensures
        final(out)@ == old(out)@ + trimmed_fraction(r as nat, width as nat),
    decreases width,
{
    if width > 0 && r % 10 == 0 {
        push_trimmed(out, r / 10, width - 1);
    } else {
        push_padded(out, r, width);
    }
}

/// Appends a value in nanodegrees written as decimal degrees.
pub fn push_degrees(out: &mut String, n: i64)
    ensures
        final(out)@ == old(out)@ + degrees_text(n as int),
{
    proof {
        reveal_strlit("-");
        reveal_strlit(".");
        reveal_strlit("");
    }
    let m: u64 = if n < 0 {
        (-(n as i128)) as u64
    } else {
        n as u64
    };
    if n < 0 {
        out.append("-");
    }
    let whole: u64 = m / NANOS_PER_DEGREE as u64;
    let fraction: u64 = m % NANOS_PER_DEGREE as u64;
    push_decimal(out, whole);
    if fraction != 0 {
        out.append(".");
        push_trimmed(out, fraction, 9);
    }
    assert(final(out)@ =~= old(out)@ + degrees_text(n as int));
}

/// A longitude / latitude box, in nanodegrees.
#[derive(Clone, Copy, Debug, PartialEq, Eq, Structural)]
pub struct BoundingBox {
    pub xmin: i64,
    pub xmax: i64,
    pub ymin: i64,
    pub ymax: i64,
}

/// The polygon of a box in well-known text, corners counter-clockwise from
/// the lower left and back.
pub open spec fn wkt_polygon_text(b: BoundingBox) -> Seq<char> {
    "POLYGON(("@ + degrees_text(b.xmin as int) + " "@ + degrees_text(b.ymin as int) + ", "@ + degrees_text(
        b.xmax as int,
    ) + " "@ + degrees_text(b.ymin as int) + ", "@ + degrees_text(b.xmax as int) + " "@ + degrees_text(
        b.ymax as int,
    ) + ", "@ + degrees_text(b.xmin as int) + " "@ + degrees_text(b.ymax as int) + ", "@ + degrees_text(
        b.xmin as int,
    ) + " "@ + degrees_text(b.ymin as int) + "))"@
}

impl BoundingBox {
    pub fn new(xmin: i64, ymin: i64, xmax: i64, ymax: i64) -> (r: BoundingBox)
        ensures
            r == (BoundingBox { xmin, xmax, ymin, ymax }),
    {
        BoundingBox { xmin, xmax, ymin, ymax }
    }

    /// The box as a well-known-text polygon.
    pub fn to_wkt_polygon(&self) -> (r: String)
        ensures
            r@ == wkt_polygon_text(*self),
    {
        let mut s = "POLYGON((".to_owned();
        push_degrees(&mut s, self.xmin);
        s.append(" ");
        push_degrees(&mut s, self.ymin);
        s.append(", ");
        push_degrees(&mut s, self.xmax);
        s.append(" ");
        push_degrees(&mut s, self.ymin);
        s.append(", ");
        push_degrees(&mut s, self.xmax);
        s.append(" ");
        push_degrees(&mut s, self.ymax);
        s.append(", ");
        push_degrees(&mut s, self.xmin);
        s.append(" ");
        push_degrees(&mut s, self.ymax);
        s.append(", ");
        push_degrees(&mut s, self.xmin);
        s.append(" ");
        push_degrees(&mut s, self.ymin);
        s.append("))");
        s
    }
}

/// The text of the query that copies the transportation features inside
/// `b` to `output_path`.
pub open spec fn transportation_query_text(
    base_url: Seq<char>,
    version: Seq<char>,
    b: BoundingBox,
    output_path: Seq<char>,
) -> Seq<char> {
    QUERY_HEAD@ + base_url + "/"@ + version + TRANSPORTATION_SOURCE@ + degrees_text(b.xmin as int)
        + AND_XMAX_LE@ + degrees_text(b.xmax as int) + AND_YMIN_GE@ + degrees_text(b.ymin as int) + AND_YMAX_LE@
        + degrees_text(b.ymax as int) + BOX_FILTER_END@ + output_path + QUERY_TAIL@
}

/// The text of the query that copies the division areas meeting `b` to
/// `output_path`.
pub open spec fn division_areas_query_text(
    base_url: Seq<char>,
    version: Seq<char>,
    b: BoundingBox,
    output_path: Seq<char>,
) -> Seq<char> {
    QUERY_HEAD@ + base_url + "/"@ + version + AREAS_SOURCE@ + degrees_text(b.xmax as int) + AND_XMAX_GE@
        + degrees_text(b.xmin as int) + AND_YMIN_LE@ + degrees_text(b.ymax as int) + AND_YMAX_GE@ + degrees_text(
        b.ymin as int,
    ) + INTERSECTS@ + wkt_polygon_text(b) + INTERSECTS_END@ + BOX_FILTER_END@ + output_path + QUERY_TAIL@
}

impl OvertureMapsQuery {
    /// The query that copies the transportation features whose bounding box
    /// lies inside `bbox` to `output_path`.
    pub fn transportation_query(&self, bbox: &BoundingBox, output_path: &str) -> (r: String)
        ensures
            r@ == transportation_query_text(
                self.config.base_url@,
                self.config.release_version@,
                *bbox,
                output_path@,
            ),
    {
        let mut q = QUERY_HEAD.to_owned();
        q.append(self.config.base_url.as_str());
        q.append("/");
        q.append(self.config.release_version.as_str());
        q.append(TRANSPORTATION_SOURCE);
        push_degrees(&mut q, bbox.xmin);
        q.append(AND_XMAX_LE);
        push_degrees(&mut q, bbox.xmax);
        q.append(AND_YMIN_GE);
        push_degrees(&mut q, bbox.ymin);
        q.append(AND_YMAX_LE);
        push_degrees(&mut q, bbox.ymax);
        q.append(BOX_FILTER_END);
        q.append(output_path);
        q.append(QUERY_TAIL);
        q
    }

    /// The query that copies the division areas whose bounding box meets
    /// `bbox` and whose geometry intersects it to `output_path`.
    pub fn division_areas_query(&self, bbox: &BoundingBox, output_path: &str) -> (r: String)
        ensures
            r@ == division_areas_query_text(
                self.config.base_url@,
                self.config.release_version@,
                *bbox,
                output_path@,
            ),
    {
        let bbox_wkt = bbox.to_wkt_polygon();
        let mut q = QUERY_HEAD.to_owned();
        q.append(self.config.base_url.as_str());
        q.append("/");
        q.append(self.config.release_version.as_str());
        q.append(AREAS_SOURCE);
        push_degrees(&mut q, bbox.xmax);
        q.append(AND_XMAX_GE);
        push_degrees(&mut q, bbox.xmin);
        q.append(AND_YMIN_LE);
        push_degrees(&mut q, bbox.ymax);
        q.append(AND_YMAX_GE);
        push_degrees(&mut q, bbox.ymin);
        q.append(INTERSECTS);
        q.append(bbox_wkt.as_str());
        q.append(INTERSECTS_END);
        q.append(BOX_FILTER_END);
        q.append(output_path);
        q.append(QUERY_TAIL);
        q
    }
}

} // verus!
