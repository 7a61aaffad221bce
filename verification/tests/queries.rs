use loctogene::FeatureRecord;
use loctogene::GenomicFeature;
use loctogene::Level;
use loctogene::Location;
use loctogene::Loctogene;
use loctogene::TSSRegion;

fn rec(
    id: u32,
    chr: &str,
    start: u32,
    end: u32,
    strand: &str,
    gene_id: &str,
    level: Level,
) -> FeatureRecord {
    FeatureRecord {
        id,
        chr: chr.to_string(),
        start,
        end,
        strand: strand.to_string(),
        gene_id: gene_id.to_string(),
        gene_symbol: format!("SYM{}", id),
        level,
    }
}

fn loc(chr: &str, start: u32, end: u32) -> Location {
    Location::new(chr.to_string(), start, end).unwrap()
}

#[test]
fn test_within() {
    let loc = loc("chr3", 187721370, 187733550);
    let genesdb = Loctogene::new(vec![
        rec(1, "chr3", 187700000, 187750000, "+", "", Level::Gene),
        rec(2, "chr3", 187000000, 187100000, "+", "", Level::Gene),
    ])
    .unwrap();
    let records: Vec<GenomicFeature> = genesdb.get_genes_within(&loc, Level::Gene).unwrap();
    assert_eq!(records.len(), 1);
    assert_eq!(records[0].id, 1);
}

#[test]
fn test_closest() {
    let loc = loc("chr3", 187721370, 187733550);
    let genesdb = Loctogene::new(vec![
        rec(1, "chr3", 187700000, 187750000, "+", "", Level::Gene),
        rec(2, "chr3", 187000000, 187100000, "+", "", Level::Gene),
        rec(3, "chr3", 188000000, 188100000, "-", "", Level::Gene),
    ])
    .unwrap();
    let records: Vec<GenomicFeature> = genesdb.get_closest_genes(&loc, 10, Level::Gene).unwrap();
    assert_eq!(records.len(), 3);
    for w in records.windows(2) {
        assert!(w[0].dist.unsigned_abs() <= w[1].dist.unsigned_abs());
    }
}

#[test]
fn overlap_asymmetric_predicate() {
    // A feature that contains a query endpoint is matched.
    let db = Loctogene::new(vec![rec(1, "chr1", 10, 100, "+", "", Level::Gene)]).unwrap();
    let r = db.get_genes_within(&loc("chr1", 40, 60), Level::Gene).unwrap();
    assert_eq!(r.len(), 1);
    // mid of [40,60] is 50; dist = start - mid = 10 - 50.
    assert_eq!(
        r[0],
        GenomicFeature {
            id: 1,
            chr: "chr1".to_string(),
            start: 10,
            end: 100,
            strand: "+".to_string(),
            gene_id: "".to_string(),
            gene_symbol: "SYM1".to_string(),
            dist: -40,
        }
    );

    // A feature strictly inside the query interval touches neither query
    // endpoint and is not matched: the test is not the symmetric one.
    let db2 = Loctogene::new(vec![rec(2, "chr1", 45, 50, "+", "", Level::Gene)]).unwrap();
    let r2 = db2.get_genes_within(&loc("chr1", 10, 100), Level::Gene).unwrap();
    assert!(r2.is_empty());
}

#[test]
fn overlap_filters_level_and_chromosome() {
    let db = Loctogene::new(vec![
        rec(1, "chr1", 10, 100, "+", "", Level::Gene),
        rec(2, "chr1", 10, 100, "+", "g1", Level::Transcript),
        rec(3, "chr2", 10, 100, "+", "", Level::Gene),
    ])
    .unwrap();
    let r = db.get_genes_within(&loc("chr1", 40, 60), Level::Gene).unwrap();
    assert_eq!(r.len(), 1);
    assert_eq!(r[0].id, 1);
    let t = db.get_genes_within(&loc("chr1", 40, 60), Level::Transcript).unwrap();
    assert_eq!(t.len(), 1);
    assert_eq!(t[0].id, 2);
}

#[test]
fn within_results_ordered_by_start() {
    // Catalog deliberately out of order; results come back ascending in start.
    let db = Loctogene::new(vec![
        rec(1, "chr1", 500, 2000, "+", "", Level::Gene),
        rec(2, "chr1", 100, 2000, "+", "", Level::Gene),
        rec(3, "chr1", 900, 2000, "+", "", Level::Gene),
        rec(4, "chr1", 100, 1500, "+", "", Level::Gene),
    ])
    .unwrap();
    let r = db.get_genes_within(&loc("chr1", 1000, 1000), Level::Gene).unwrap();
    assert_eq!(r.len(), 4);
    let starts: Vec<u32> = r.iter().map(|g| g.start).collect();
    assert_eq!(starts, vec![100, 100, 500, 900]);
    // Equal starts keep catalog order.
    assert_eq!(r[0].id, 2);
    assert_eq!(r[1].id, 4);
}

#[test]
fn closest_cap_and_ordering() {
    let db = Loctogene::new(vec![
        rec(1, "chr1", 5000, 6000, "+", "", Level::Gene),
        rec(2, "chr1", 1100, 1200, "+", "", Level::Gene),
        rec(3, "chr1", 900, 2000, "+", "", Level::Gene),
        rec(4, "chr1", 10000, 20000, "+", "", Level::Gene),
    ])
    .unwrap();
    let q = loc("chr1", 1000, 1000);
    let r = db.get_closest_genes(&q, 2, Level::Gene).unwrap();
    assert_eq!(r.len(), 2);
    // Stranded starts: 5000, 1100, 900, 10000; midpoint 1000.
    assert_eq!(r[0].id, 2);
    assert_eq!(r[0].dist, 100);
    assert_eq!(r[1].id, 3);
    assert_eq!(r[1].dist, -100);
    // More requested than exist: all of them come back.
    let all = db.get_closest_genes(&q, 100, Level::Gene).unwrap();
    assert_eq!(all.len(), 4);
}

#[test]
fn closest_ties_keep_catalog_order() {
    // Two features at the same absolute distance from the midpoint.
    let db = Loctogene::new(vec![
        rec(7, "chr1", 1200, 1300, "+", "", Level::Gene),
        rec(8, "chr1", 700, 800, "-", "", Level::Gene),
    ])
    .unwrap();
    // Midpoint 1000: stranded starts 1200 (+ strand) and 800 (- strand).
    let r = db.get_closest_genes(&loc("chr1", 1000, 1000), 10, Level::Gene).unwrap();
    assert_eq!(r.len(), 2);
    assert_eq!(r[0].id, 7);
    assert_eq!(r[1].id, 8);
}

#[test]
fn closest_uses_stranded_start() {
    // On the minus strand the anchor is the end coordinate.
    let db = Loctogene::new(vec![rec(1, "chr1", 3000, 5000, "-", "", Level::Gene)]).unwrap();
    let r = db.get_closest_genes(&loc("chr1", 1000, 1000), 1, Level::Gene).unwrap();
    assert_eq!(r.len(), 1);
    assert_eq!(r[0].dist, 4000);
}

#[test]
fn repeated_queries_identical() {
    let db = Loctogene::new(vec![
        rec(1, "chr1", 500, 2000, "+", "g1", Level::Gene),
        rec(2, "chr1", 100, 2000, "-", "g2", Level::Gene),
        rec(3, "chr1", 900, 2000, "+", "g1", Level::Transcript),
        rec(4, "chr1", 900, 1100, "+", "g1", Level::Exon),
    ])
    .unwrap();
    let q = loc("chr1", 950, 1050);
    assert_eq!(
        db.get_genes_within(&q, Level::Gene).unwrap(),
        db.get_genes_within(&q, Level::Gene).unwrap()
    );
    assert_eq!(
        db.get_closest_genes(&q, 3, Level::Gene).unwrap(),
        db.get_closest_genes(&q, 3, Level::Gene).unwrap()
    );
    assert_eq!(
        db.in_exon(&q, "g1").unwrap(),
        db.in_exon(&q, "g1").unwrap()
    );
    let tss = TSSRegion::default();
    assert_eq!(
        db.in_promoter(&q, "g1", &tss).unwrap(),
        db.in_promoter(&q, "g1", &tss).unwrap()
    );
}

#[test]
fn in_exon_containment() {
    let db = Loctogene::new(vec![
        rec(1, "chr1", 100, 10000, "+", "g1", Level::Gene),
        rec(2, "chr1", 200, 300, "+", "g1", Level::Exon),
        rec(3, "chr1", 400, 500, "+", "g1", Level::Exon),
        rec(4, "chr1", 200, 300, "+", "g2", Level::Exon),
    ])
    .unwrap();
    // Inside exon [200,300] of g1.
    let hit = db.in_exon(&loc("chr1", 240, 260), "g1").unwrap();
    assert_eq!(hit.len(), 1);
    assert_eq!(hit[0].id, 2);
    // Between g1's exons: outside all of them.
    let miss = db.in_exon(&loc("chr1", 340, 360), "g1").unwrap();
    assert!(miss.is_empty());
    // The same region for g2's exon: gene filter applies.
    let other = db.in_exon(&loc("chr1", 240, 260), "g2").unwrap();
    assert_eq!(other.len(), 1);
    assert_eq!(other[0].id, 4);
}

#[test]
fn promoter_plus_strand_window() {
    // + strand transcript with stranded start 1000, default window.
    let db = Loctogene::new(vec![rec(1, "chr1", 1000, 5000, "+", "g1", Level::Transcript)])
        .unwrap();
    let tss = TSSRegion::default();
    // Midpoint 500 lies in [1000-2000, 1000+1000] = [-1000, 2000]: match.
    let hit = db.in_promoter(&loc("chr1", 500, 500), "g1", &tss).unwrap();
    assert!(!hit.is_empty());
    // Midpoint 3100 lies in neither the window nor its mirror image.
    let miss = db.in_promoter(&loc("chr1", 3100, 3100), "g1", &tss).unwrap();
    assert!(miss.is_empty());
}

#[test]
fn promoter_minus_strand_mirrored_window() {
    // - strand transcript anchored at its end coordinate, 1000.
    let db = Loctogene::new(vec![rec(1, "chr1", 200, 1000, "-", "g1", Level::Transcript)])
        .unwrap();
    let tss = TSSRegion::default();
    // Midpoint 2500 lies in the mirrored window [1000-1000, 1000+2000] = [0, 3000].
    let hit = db.in_promoter(&loc("chr1", 2500, 2500), "g1", &tss).unwrap();
    assert!(!hit.is_empty());
    // Midpoint 3100 lies outside both windows.
    let miss = db.in_promoter(&loc("chr1", 3100, 3100), "g1", &tss).unwrap();
    assert!(miss.is_empty());
}

#[test]
fn promoter_match_in_both_windows_is_doubled() {
    // A symmetric window: the midpoint at the stranded start falls in the
    // window as given and in its mirror image, and the transcript is
    // reported once per window, without de-duplication.
    let db = Loctogene::new(vec![rec(1, "chr1", 1000, 5000, "+", "g1", Level::Transcript)])
        .unwrap();
    let tss = TSSRegion::new(-100, 100);
    let r = db.in_promoter(&loc("chr1", 1000, 1000), "g1", &tss).unwrap();
    assert_eq!(r.len(), 2);
    assert_eq!(r[0], r[1]);
}

#[test]
fn absent_chromosome_is_empty_not_error() {
    let db = Loctogene::new(vec![rec(1, "chr1", 10, 100, "+", "g1", Level::Gene)]).unwrap();
    let q = loc("chrX", 40, 60);
    assert_eq!(db.get_genes_within(&q, Level::Gene).unwrap(), vec![]);
    assert_eq!(db.get_closest_genes(&q, 5, Level::Gene).unwrap(), vec![]);
    assert_eq!(db.in_exon(&q, "g1").unwrap(), vec![]);
    assert_eq!(
        db.in_promoter(&q, "g1", &TSSRegion::default()).unwrap(),
        vec![]
    );
}

#[test]
fn overlap_touching_endpoint_matches() {
    // A feature whose interval just reaches the query start is matched.
    let db = Loctogene::new(vec![rec(1, "chr1", 5, 40, "+", "", Level::Gene)]).unwrap();
    let r = db.get_genes_within(&loc("chr1", 40, 60), Level::Gene).unwrap();
    assert_eq!(r.len(), 1);
    // One base short of the query start: no longer matched.
    let db2 = Loctogene::new(vec![rec(2, "chr1", 5, 39, "+", "", Level::Gene)]).unwrap();
    let r2 = db2.get_genes_within(&loc("chr1", 40, 60), Level::Gene).unwrap();
    assert!(r2.is_empty());
}

#[test]
fn closest_zero_requested() {
    let db = Loctogene::new(vec![rec(1, "chr1", 10, 100, "+", "", Level::Gene)]).unwrap();
    let r = db.get_closest_genes(&loc("chr1", 40, 60), 0, Level::Gene).unwrap();
    assert!(r.is_empty());
}

#[test]
fn empty_catalog_queries() {
    let db = Loctogene::new(vec![]).unwrap();
    let q = loc("chr1", 40, 60);
    assert!(db.get_genes_within(&q, Level::Gene).unwrap().is_empty());
    assert!(db.get_closest_genes(&q, 5, Level::Gene).unwrap().is_empty());
}
