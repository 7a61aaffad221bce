//! The data model: annotation levels, query locations, catalog records and
//! decorated query results, with the spec functions that describe them.

use vstd::prelude::*;
use vstd::string::StrSliceExecFns;

verus! {

/// Annotation granularity of a feature: a gene, one of its transcripts, or
/// one of a transcript's exons.
#[derive(Clone, Copy, Debug, PartialEq, Eq, Structural)]
pub enum Level {
    Gene,
    Transcript,
    Exon,
}

/// The total mapping from a textual level identifier to a `Level`.
/// Anything unrecognized falls back to `Level::Gene`.
pub open spec fn level_from_str(s: Seq<char>) -> Level {
    if s == "transcript"@ {
        Level::Transcript
    } else if s == "exon"@ {
        Level::Exon
    } else if s == "2"@ {
        Level::Transcript
    } else if s == "3"@ {
        Level::Exon
    } else {
        Level::Gene
    }
}

/// The total mapping from a numeric level identifier to a `Level`.
/// Anything but 2 and 3 falls back to `Level::Gene`.
pub open spec fn level_from_num(v: u8) -> Level {
    if v == 2 {
        Level::Transcript
    } else if v == 3 {
        Level::Exon
    } else {
        Level::Gene
    }
}

/// Equality of two string slices, decided character by character.
pub fn str_eq(a: &str, b: &str) -> (r: bool)
    ensures
        r == (a@ == b@),
{
    let alen = a.unicode_len();
    let blen = b.unicode_len();
    if alen != blen {
        return false;
    }
    let mut i: usize = 0;
    while i < alen
        invariant
            alen == a@.len(),
            blen == b@.len(),
            alen == blen,
            i <= alen,
            forall|j: int| 0 <= j < i ==> a@[j] == b@[j],
        decreases alen - i,
    {
        if a.get_char(i) != b.get_char(i) {
            return false;
        }
        i = i + 1;
    }
    proof {
        assert(a@ =~= b@);
    }
    true
}

impl<'a> From<&'a str> for Level {
    fn from(level: &'a str) -> Self {
        if str_eq(level, "transcript") {
            Level::Transcript
        } else if str_eq(level, "exon") {
            Level::Exon
        } else if str_eq(level, "2") {
            Level::Transcript
        } else if str_eq(level, "3") {
            Level::Exon
        } else {
            Level::Gene
        }
    }
}

impl<'a> vstd::std_specs::convert::FromSpecImpl<&'a str> for Level {
    open spec fn obeys_from_spec() -> bool {
        true
    }

    open spec fn from_spec(v: &'a str) -> Level {
        level_from_str(v@)
    }
}

impl From<u8> for Level {
    fn from(level: u8) -> Self {
        if level == 2 {
            Level::Transcript
        } else if level == 3 {
            Level::Exon
        } else {
            Level::Gene
        }
    }
}

impl vstd::std_specs::convert::FromSpecImpl<u8> for Level {
    open spec fn obeys_from_spec() -> bool {
        true
    }

    open spec fn from_spec(v: u8) -> Level {
        level_from_num(v)
    }
}

impl Level {
    /// The level's label as it appears in query results.
    pub open spec fn label_spec(self) -> Seq<char> {
        match self {
            Level::Gene => "Gene"@,
            Level::Transcript => "Transcript"@,
            Level::Exon => "Exon"@,
        }
    }

    /// The level's label, for display.
    pub fn label(&self) -> (r: String)
        ensures
            r@ == self.label_spec(),
    {
        match self {
            Level::Gene => "Gene".to_owned(),
            Level::Transcript => "Transcript".to_owned(),
            Level::Exon => "Exon".to_owned(),
        }
    }
}

/// An asymmetric window around a transcript's stranded start: `offset_5p`
/// (typically negative) and `offset_3p` (typically positive) bound the
/// promoter region relative to the transcription start site.
#[derive(Clone, Copy, Debug, PartialEq, Eq, Structural)]
pub struct TSSRegion {
    pub offset_5p: i32,
    pub offset_3p: i32,
}

impl TSSRegion {
    pub fn new(offset_5p: i32, offset_3p: i32) -> (r: TSSRegion)
        ensures
            r.offset_5p == offset_5p,
            r.offset_3p == offset_3p,
    {
        TSSRegion { offset_5p, offset_3p }
    }
}

impl Default for TSSRegion {
    /// The default promoter window: 2000 bases upstream to 1000 bases
    /// downstream of the stranded start.
    fn default() -> (r: TSSRegion)
        ensures
            r.offset_5p == -2000,
            r.offset_3p == 1000,
    {
        TSSRegion { offset_5p: -2000, offset_3p: 1000 }
    }
}

/// A query region: a chromosome name and a closed coordinate interval.
#[derive(Debug)]
pub struct Location {
    pub chr: String,
    pub start: u32,
    pub end: u32,
}

/// The midpoint of a location, by truncating integer division.
pub open spec fn loc_mid(loc: Location) -> int {
    (loc.start + loc.end) / 2
}

impl Location {
    /// Builds a location, rejecting an empty chromosome name and an
    /// interval whose start lies beyond its end.
    pub fn new(chr: String, start: u32, end: u32) -> (r: Result<Location, String>)
        ensures
            r is Ok <==> (chr@.len() > 0 && start <= end),
            r is Ok ==> r->Ok_0 == (Location { chr, start, end }),
    {
        if chr.as_str().is_empty() {
            Err("location has an empty chromosome name".to_owned())
        } else if start > end {
            Err("location start lies beyond its end".to_owned())
        } else {
            Ok(Location { chr, start, end })
        }
    }

    /// The midpoint of the interval.
    pub fn mid(&self) -> (m: u32)
        ensures
            m == loc_mid(*self),
    {
        let m = (self.start as u64 + self.end as u64) / 2;
        m as u32
    }
}

/// One stored annotation: an immutable record of the catalog. Transcripts
/// and exons carry the id of their parent gene.
#[derive(Debug)]
pub struct FeatureRecord {
    pub id: u32,
    pub chr: String,
    pub start: u32,
    pub end: u32,
    pub strand: String,
    pub gene_id: String,
    pub gene_symbol: String,
    pub level: Level,
}

/// A query result: a feature decorated with the signed distance from the
/// query midpoint that ranked it.
#[derive(Debug, PartialEq)]
pub struct GenomicFeature {
    pub id: u32,
    pub chr: String,
    pub start: u32,
    pub end: u32,
    pub strand: String,
    pub gene_id: String,
    pub gene_symbol: String,
    pub dist: i32,
}

/// Whether a record lies on the plus strand.
pub open spec fn is_plus_strand(rec: FeatureRecord) -> bool {
    rec.strand@ == "+"@
}

/// The transcription-start-proximal coordinate of a record: its start on
/// the plus strand, its end otherwise.
pub open spec fn stranded_start(rec: FeatureRecord) -> int {
    if is_plus_strand(rec) {
        rec.start as int
    } else {
        rec.end as int
    }
}

/// The overlap test between a stored feature and a query location: one of
/// the query's endpoints must fall inside the feature's interval. A feature
/// strictly inside the query interval that touches neither query endpoint
/// is not matched; this asymmetric shape is deliberate.
pub open spec fn overlaps(rec: FeatureRecord, loc: Location) -> bool {
    (rec.start <= loc.start && rec.end >= loc.start) || (rec.start <= loc.end && rec.end
        >= loc.end)
}

/// Whether a signed distance is representable in the result's distance
/// field; a candidate whose distance is not is left out of the results.
pub open spec fn fits_dist(d: int) -> bool {
    i32::MIN <= d <= i32::MAX
}

/// A record the catalog accepts: an ordered interval, and a parent gene id
/// on every transcript and exon.
pub open spec fn valid_record(rec: FeatureRecord) -> bool {
    &&& rec.start <= rec.end
    &&& (rec.level == Level::Transcript || rec.level == Level::Exon) ==> rec.gene_id@.len() > 0
}

/// The exec mirror of `stranded_start`.
pub fn stranded_start_of(rec: &FeatureRecord) -> (s: u32)
    ensures
        s == stranded_start(*rec),
{
    if str_eq(rec.strand.as_str(), "+") {
        rec.start
    } else {
        rec.end
    }
}

/// The absolute value of a result distance.
pub open spec fn abs_dist(d: i32) -> int {
    if d < 0 {
        -(d as int)
    } else {
        d as int
    }
}

/// The exec mirror of `abs_dist`; the result of negating `i32::MIN` still
/// fits the wider type.
pub fn abs_dist_of(d: i32) -> (r: u64)
    ensures
        r == abs_dist(d),
{
    if d < 0 {
        (-(d as i64)) as u64
    } else {
        d as u64
    }
}

} // verus!
