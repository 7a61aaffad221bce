//! The annotation catalog and its query engine.
//!
//! A `Loctogene` owns an immutable sequence of catalog records and answers
//! four read-only queries: features overlapping a region, the features
//! nearest to a region's midpoint by stranded start, the exons of a given
//! gene overlapping a region, and the transcripts of a given gene whose
//! promoter window contains the region's midpoint.
//!
//! Every query walks the catalog in order and inserts each matching record
//! into the result at its ordered position, so the result of each query is
//! pinned, element for element, by one spec function of the catalog and
//! the arguments.

use vstd::prelude::*;

use crate::feature::fits_dist;
use crate::feature::loc_mid;
use crate::feature::overlaps;
use crate::feature::str_eq;
use crate::feature::stranded_start;
use crate::feature::stranded_start_of;
use crate::feature::valid_record;
use crate::feature::FeatureRecord;
use crate::feature::GenomicFeature;
use crate::feature::Level;
use crate::feature::Location;
use crate::feature::TSSRegion;
use crate::order::absdist_key;
use crate::order::insert_by_absdist;
use crate::order::insert_by_start;
use crate::order::insert_sorted;
use crate::order::start_key;

verus! {

/// Folds the catalog left to right: each record satisfying `pred` is
/// mapped by `out` and inserted into the result at its position by `key`.
/// This is the shape every query's result takes.
pub open spec fn collect_sorted(
    cat: Seq<FeatureRecord>,
    pred: spec_fn(FeatureRecord) -> bool,
    out: spec_fn(FeatureRecord) -> GenomicFeature,
    key: spec_fn(GenomicFeature) -> int,
) -> Seq<GenomicFeature>
    decreases cat.len(),
{
    if cat.len() == 0 {
        Seq::empty()
    } else {
        let prev = collect_sorted(cat.drop_last(), pred, out, key);
        if pred(cat.last()) {
            insert_sorted(prev, key, out(cat.last()))
        } else {
            prev
        }
    }
}

/// One step of `collect_sorted`, phrased over prefixes of the catalog, as
/// the query loops consume it.
pub proof fn lemma_collect_sorted_step(
    cat: Seq<FeatureRecord>,
    i: int,
    pred: spec_fn(FeatureRecord) -> bool,
    out: spec_fn(FeatureRecord) -> GenomicFeature,
    key: spec_fn(GenomicFeature) -> int,
)
    requires
        0 <= i < cat.len(),
    ensures
        collect_sorted(cat.take(i + 1), pred, out, key) == (if pred(cat[i]) {
            insert_sorted(collect_sorted(cat.take(i), pred, out, key), key, out(cat[i]))
        } else {
            collect_sorted(cat.take(i), pred, out, key)
        }),
{
    assert(cat.take(i + 1).drop_last() =~= cat.take(i));
    assert(cat.take(i + 1).last() == cat[i]);
}

/// A feature decorated with the distance from its start to the midpoint,
/// the decoration of every overlap-style result.
pub open spec fn start_dist_out(m: int) -> spec_fn(FeatureRecord) -> GenomicFeature {
    |r: FeatureRecord|
        (GenomicFeature {
            id: r.id,
            chr: r.chr,
            start: r.start,
            end: r.end,
            strand: r.strand,
            gene_id: r.gene_id,
            gene_symbol: r.gene_symbol,
            dist: (r.start - m) as i32,
        })
}

/// A feature decorated with the distance from its stranded start to the
/// midpoint, the decoration of nearest-neighbor results.
pub open spec fn stranded_dist_out(m: int) -> spec_fn(FeatureRecord) -> GenomicFeature {
    |r: FeatureRecord|
        (GenomicFeature {
            id: r.id,
            chr: r.chr,
            start: r.start,
            end: r.end,
            strand: r.strand,
            gene_id: r.gene_id,
            gene_symbol: r.gene_symbol,
            dist: (stranded_start(r) - m) as i32,
        })
}

/// The candidates of an overlap query: right level, right chromosome, the
/// overlap test holds, and the distance is representable.
pub open spec fn within_pred(loc: Location, level: Level) -> spec_fn(FeatureRecord) -> bool {
    |r: FeatureRecord|
        r.level == level && r.chr@ == loc.chr@ && overlaps(r, loc) && fits_dist(
            r.start - loc_mid(loc),
        )
}

/// The candidates of an exon-containment query: exons of the given gene on
/// the right chromosome that pass the overlap test.
pub open spec fn exon_pred(loc: Location, gene_id: Seq<char>) -> spec_fn(FeatureRecord) -> bool {
    |r: FeatureRecord|
        r.level == Level::Exon && r.gene_id@ == gene_id && r.chr@ == loc.chr@ && overlaps(r, loc)
            && fits_dist(r.start - loc_mid(loc))
}

/// The candidates of one promoter window: transcripts of the given gene on
/// the right chromosome whose window `[stranded start + lo, stranded start
/// + hi]` contains the query midpoint.
pub open spec fn promoter_pred(loc: Location, gene_id: Seq<char>, lo: int, hi: int) -> spec_fn(
    FeatureRecord,
) -> bool {
    |r: FeatureRecord|
        r.level == Level::Transcript && r.gene_id@ == gene_id && r.chr@ == loc.chr@
            && stranded_start(r) + lo <= loc_mid(loc) && loc_mid(loc) <= stranded_start(r) + hi
            && fits_dist(r.start - loc_mid(loc))
}

/// The candidates of a nearest-neighbor query: right level, right
/// chromosome, representable distance.
pub open spec fn closest_pred(loc: Location, level: Level) -> spec_fn(FeatureRecord) -> bool {
    |r: FeatureRecord|
        r.level == level && r.chr@ == loc.chr@ && fits_dist(stranded_start(r) - loc_mid(loc))
}

/// What an overlap query returns: the matching features ordered by
/// ascending start, catalog order among equal starts.
pub open spec fn genes_within_spec(cat: Seq<FeatureRecord>, loc: Location, level: Level) -> Seq<
    GenomicFeature,
> {
    collect_sorted(cat, within_pred(loc, level), start_dist_out(loc_mid(loc)), start_key())
}

/// What an exon-containment query returns.
pub open spec fn in_exon_spec(cat: Seq<FeatureRecord>, loc: Location, gene_id: Seq<char>) -> Seq<
    GenomicFeature,
> {
    collect_sorted(cat, exon_pred(loc, gene_id), start_dist_out(loc_mid(loc)), start_key())
}

/// What a promoter query returns: the transcripts matching the window as
/// given, then those matching the mirrored window, each group ordered by
/// ascending start. The two groups are not de-duplicated: a transcript
/// matching both windows appears twice, one entry per window.
pub open spec fn in_promoter_spec(
    cat: Seq<FeatureRecord>,
    loc: Location,
    gene_id: Seq<char>,
    tss: TSSRegion,
) -> Seq<GenomicFeature> {
    collect_sorted(
        cat,
        promoter_pred(loc, gene_id, tss.offset_5p as int, tss.offset_3p as int),
        start_dist_out(loc_mid(loc)),
        start_key(),
    ) + collect_sorted(
        cat,
        promoter_pred(loc, gene_id, -(tss.offset_3p as int), -(tss.offset_5p as int)),
        start_dist_out(loc_mid(loc)),
        start_key(),
    )
}

/// Every feature at the level on the chromosome, ordered by ascending
/// absolute distance of its stranded start from the query midpoint,
/// catalog order among equal distances.
pub open spec fn closest_all_spec(cat: Seq<FeatureRecord>, loc: Location, level: Level) -> Seq<
    GenomicFeature,
> {
    collect_sorted(cat, closest_pred(loc, level), stranded_dist_out(loc_mid(loc)), absdist_key())
}

/// What a nearest-neighbor query returns: the `n` nearest, or all of them
/// when fewer exist.
pub open spec fn closest_genes_spec(
    cat: Seq<FeatureRecord>,
    loc: Location,
    n: u16,
    level: Level,
) -> Seq<GenomicFeature> {
    let all = closest_all_spec(cat, loc, level);
    if all.len() <= n {
        all
    } else {
        all.take(n as int)
    }
}

/// The immutable catalog of genomic annotations. Built once from a
/// sequence of records and never modified; every query reads it only.
pub struct Loctogene {
    records: Vec<FeatureRecord>,
}

impl View for Loctogene {
    type V = Seq<FeatureRecord>;

    closed spec fn view(&self) -> Seq<FeatureRecord> {
        self.records@
    }
}

impl Loctogene {
    /// Builds the catalog. Construction fails if a record's interval ends
    /// before it starts, or if a transcript or exon lacks its parent gene
    /// id; nothing else is validated, since duplicate ids and overlapping
    /// features are ordinary in genomic data.
    pub fn new(records: Vec<FeatureRecord>) -> (r: Result<Loctogene, String>)
        ensures
            r is Ok <==> (forall|i: int|
                0 <= i < records@.len() ==> valid_record(#[trigger] records@[i])),
            r is Ok ==> r->Ok_0@ == records@,
    {
        let n = records.len();
        let mut i: usize = 0;
        while i < n
            invariant
                n == records@.len(),
                i <= n,
                forall|j: int| 0 <= j < i ==> valid_record(#[trigger] records@[j]),
            decreases n - i,
        {
            let rec = &records[i];
            if rec.start > rec.end {
                assert(!valid_record(records@[i as int]));
                return Err("catalog record has start beyond end".to_owned());
            }
            if (rec.level == Level::Transcript || rec.level == Level::Exon)
                && rec.gene_id.as_str().is_empty() {
                assert(!valid_record(records@[i as int]));
                return Err("transcript or exon record lacks a gene id".to_owned());
            }
            i = i + 1;
        }
        Ok(Loctogene { records })
    }

    /// All features at `level` overlapping `location`, ordered by
    /// ascending start, each with the signed distance from its start to
    /// the location's midpoint.
    pub fn get_genes_within(&self, location: &Location, level: Level) -> (r: Result<
        Vec<GenomicFeature>,
        String,
    >)
        ensures
            r is Ok,
            r->Ok_0@ == genes_within_spec(self@, *location, level),
    {
        let m: u32 = location.mid();
        let ghost pred = within_pred(*location, level);
        let ghost out = start_dist_out(loc_mid(*location));
        let mut res: Vec<GenomicFeature> = Vec::new();
        let n = self.records.len();
        let mut i: usize = 0;
        proof {
            assert(self@.take(0) =~= Seq::<FeatureRecord>::empty());
        }
        while i < n
            invariant
                n == self@.len(),
                i <= n,
                m == loc_mid(*location),
                pred == within_pred(*location, level),
                out == start_dist_out(loc_mid(*location)),
                res@ == collect_sorted(self@.take(i as int), pred, out, start_key()),
            decreases n - i,
        {
            let rec = &self.records[i];
            let d: i64 = rec.start as i64 - m as i64;
            if rec.level == level && str_eq(rec.chr.as_str(), location.chr.as_str()) && ((rec.start
                <= location.start && rec.end >= location.start) || (rec.start <= location.end
                && rec.end >= location.end)) && i32::MIN as i64 <= d && d <= i32::MAX as i64 {
                let gf = GenomicFeature {
                    id: rec.id,
                    chr: rec.chr.clone(),
                    start: rec.start,
                    end: rec.end,
                    strand: rec.strand.clone(),
                    gene_id: rec.gene_id.clone(),
                    gene_symbol: rec.gene_symbol.clone(),
                    dist: d as i32,
                };
                proof {
                    assert(pred(self@[i as int]));
                    assert(gf == out(self@[i as int]));
                }
                insert_by_start(&mut res, gf);
            } else {
                proof {
                    assert(!pred(self@[i as int]));
                }
            }
            proof {
                lemma_collect_sorted_step(self@, i as int, pred, out, start_key());
            }
            i = i + 1;
        }
        proof {
            assert(self@.take(n as int) =~= self@);
        }
        Ok(res)
    }

    /// The exons of the gene `gene_id` overlapping `location`, ordered by
    /// ascending start: non-empty exactly when the location is exonic for
    /// that gene.
    pub fn in_exon(&self, location: &Location, gene_id: &str) -> (r: Result<
        Vec<GenomicFeature>,
        String,
    >)
        ensures
            r is Ok,
            r->Ok_0@ == in_exon_spec(self@, *location, gene_id@),
    {
        let m: u32 = location.mid();
        let ghost pred = exon_pred(*location, gene_id@);
        let ghost out = start_dist_out(loc_mid(*location));
        let mut res: Vec<GenomicFeature> = Vec::new();
        let n = self.records.len();
        let mut i: usize = 0;
        proof {
            assert(self@.take(0) =~= Seq::<FeatureRecord>::empty());
        }
        while i < n
            invariant
                n == self@.len(),
                i <= n,
                m == loc_mid(*location),
                pred == exon_pred(*location, gene_id@),
                out == start_dist_out(loc_mid(*location)),
                res@ == collect_sorted(self@.take(i as int), pred, out, start_key()),
            decreases n - i,
        {
            let rec = &self.records[i];
            let d: i64 = rec.start as i64 - m as i64;
            if rec.level == Level::Exon && str_eq(rec.gene_id.as_str(), gene_id) && str_eq(
                rec.chr.as_str(),
                location.chr.as_str(),
            ) && ((rec.start <= location.start && rec.end >= location.start) || (rec.start
                <= location.end && rec.end >= location.end)) && i32::MIN as i64 <= d && d
                <= i32::MAX as i64 {
                let gf = GenomicFeature {
                    id: rec.id,
                    chr: rec.chr.clone(),
                    start: rec.start,
                    end: rec.end,
                    strand: rec.strand.clone(),
                    gene_id: rec.gene_id.clone(),
                    gene_symbol: rec.gene_symbol.clone(),
                    dist: d as i32,
                };
                proof {
                    assert(pred(self@[i as int]));
                    assert(gf == out(self@[i as int]));
                }
                insert_by_start(&mut res, gf);
            } else {
                proof {
                    assert(!pred(self@[i as int]));
                }
            }
            proof {
                lemma_collect_sorted_step(self@, i as int, pred, out, start_key());
            }
            i = i + 1;
        }
        proof {
            assert(self@.take(n as int) =~= self@);
        }
        Ok(res)
    }

    /// The transcripts of the gene `gene_id` for which the location's
    /// midpoint falls in the promoter window around the stranded start:
    /// first with the window as given, then with the window mirrored (as
    /// five-prime and three-prime flip on the minus strand), both groups
    /// ordered by ascending start and concatenated without
    /// de-duplication.
    pub fn in_promoter(&self, location: &Location, gene_id: &str, tss_region: &TSSRegion) -> (r:
        Result<Vec<GenomicFeature>, String>)
        ensures
            r is Ok,
            r->Ok_0@ == in_promoter_spec(self@, *location, gene_id@, *tss_region),
    {
        let m: u32 = location.mid();
        let lo1: i64 = tss_region.offset_5p as i64;
        let hi1: i64 = tss_region.offset_3p as i64;
        let mut res = self.promoter_window(location, gene_id, lo1, hi1, m);
        let lo2: i64 = -(tss_region.offset_3p as i64);
        let hi2: i64 = -(tss_region.offset_5p as i64);
        let mut mirrored = self.promoter_window(location, gene_id, lo2, hi2, m);
        res.append(&mut mirrored);
        Ok(res)
    }

    /// One pass of the promoter query: the transcripts of the gene whose
    /// window `[stranded start + lo, stranded start + hi]` contains the
    /// midpoint, ordered by ascending start.
    fn promoter_window(&self, location: &Location, gene_id: &str, lo: i64, hi: i64, m: u32) -> (r:
        Vec<GenomicFeature>)
        requires
            -0x1_0000_0000i64 <= lo <= 0x1_0000_0000i64,
            -0x1_0000_0000i64 <= hi <= 0x1_0000_0000i64,
            m == loc_mid(*location),
        ensures
            r@ == collect_sorted(
                self@,
                promoter_pred(*location, gene_id@, lo as int, hi as int),
                start_dist_out(loc_mid(*location)),
                start_key(),
            ),
    {
        let ghost pred = promoter_pred(*location, gene_id@, lo as int, hi as int);
        let ghost out = start_dist_out(loc_mid(*location));
        let mut res: Vec<GenomicFeature> = Vec::new();
        let n = self.records.len();
        let mut i: usize = 0;
        proof {
            assert(self@.take(0) =~= Seq::<FeatureRecord>::empty());
        }
        while i < n
            invariant
                n == self@.len(),
                i <= n,
                m == loc_mid(*location),
                -0x1_0000_0000i64 <= lo <= 0x1_0000_0000i64,
                -0x1_0000_0000i64 <= hi <= 0x1_0000_0000i64,
                pred == promoter_pred(*location, gene_id@, lo as int, hi as int),
                out == start_dist_out(loc_mid(*location)),
                res@ == collect_sorted(self@.take(i as int), pred, out, start_key()),
            decreases n - i,
        {
            let rec = &self.records[i];
            let ss: u32 = stranded_start_of(rec);
            let d: i64 = rec.start as i64 - m as i64;
            if rec.level == Level::Transcript && str_eq(rec.gene_id.as_str(), gene_id) && str_eq(
                rec.chr.as_str(),
                location.chr.as_str(),
            ) && ss as i64 + lo <= m as i64 && m as i64 <= ss as i64 + hi && i32::MIN as i64 <= d
                && d <= i32::MAX as i64 {
                let gf = GenomicFeature {
                    id: rec.id,
                    chr: rec.chr.clone(),
                    start: rec.start,
                    end: rec.end,
                    strand: rec.strand.clone(),
                    gene_id: rec.gene_id.clone(),
                    gene_symbol: rec.gene_symbol.clone(),
                    dist: d as i32,
                };
                proof {
                    assert(pred(self@[i as int]));
                    assert(gf == out(self@[i as int]));
                }
                insert_by_start(&mut res, gf);
            } else {
                proof {
                    assert(!pred(self@[i as int]));
                }
            }
            proof {
                lemma_collect_sorted_step(self@, i as int, pred, out, start_key());
            }
            i = i + 1;
        }
        proof {
            assert(self@.take(n as int) =~= self@);
        }
        res
    }

    /// Up to `n` features at `level` on the location's chromosome, the
    /// nearest first: ordered by ascending absolute distance between
    /// stranded start and the location's midpoint, catalog order among
    /// equal distances.
    pub fn get_closest_genes(&self, location: &Location, n: u16, level: Level) -> (r: Result<
        Vec<GenomicFeature>,
        String,
    >)
        ensures
            r is Ok,
            r->Ok_0@ == closest_genes_spec(self@, *location, n, level),
    {
        let m: u32 = location.mid();
        let ghost pred = closest_pred(*location, level);
        let ghost out = stranded_dist_out(loc_mid(*location));
        let mut res: Vec<GenomicFeature> = Vec::new();
        let len = self.records.len();
        let mut i: usize = 0;
        proof {
            assert(self@.take(0) =~= Seq::<FeatureRecord>::empty());
        }
        while i < len
            invariant
                len == self@.len(),
                i <= len,
                m == loc_mid(*location),
                pred == closest_pred(*location, level),
                out == stranded_dist_out(loc_mid(*location)),
                res@ == collect_sorted(self@.take(i as int), pred, out, absdist_key()),
            decreases len - i,
        {
            let rec = &self.records[i];
            let ss: u32 = stranded_start_of(rec);
            let d: i64 = ss as i64 - m as i64;
            if rec.level == level && str_eq(rec.chr.as_str(), location.chr.as_str()) && i32::MIN
                as i64 <= d && d <= i32::MAX as i64 {
                let gf = GenomicFeature {
                    id: rec.id,
                    chr: rec.chr.clone(),
                    start: rec.start,
                    end: rec.end,
                    strand: rec.strand.clone(),
                    gene_id: rec.gene_id.clone(),
                    gene_symbol: rec.gene_symbol.clone(),
                    dist: d as i32,
                };
                proof {
                    assert(pred(self@[i as int]));
                    assert(gf == out(self@[i as int]));
                }
                insert_by_absdist(&mut res, gf);
            } else {
                proof {
                    assert(!pred(self@[i as int]));
                }
            }
            proof {
                lemma_collect_sorted_step(self@, i as int, pred, out, absdist_key());
            }
            i = i + 1;
        }
        proof {
            assert(self@.take(len as int) =~= self@);
        }
        if res.len() > n as usize {
            res.truncate(n as usize);
            proof {
                assert(res@ == closest_all_spec(self@, *location, level).take(n as int));
            }
        }
        Ok(res)
    }
}

} // verus!
