//! The laws of the query engine, each stated over the spec functions that
//! the engine's contracts use and proved once for every catalog and every
//! query.

use vstd::prelude::*;
use vstd::seq_lib::group_seq_properties;
use vstd::seq_lib::group_to_multiset_ensures;

use crate::engine::closest_all_spec;
use crate::engine::closest_genes_spec;
use crate::engine::closest_pred;
use crate::engine::collect_sorted;
use crate::engine::exon_pred;
use crate::engine::genes_within_spec;
use crate::engine::in_exon_spec;
use crate::engine::in_promoter_spec;
use crate::engine::promoter_pred;
use crate::engine::start_dist_out;
use crate::engine::stranded_dist_out;
use crate::engine::within_pred;
use crate::feature::abs_dist;
use crate::feature::level_from_str;
use crate::feature::loc_mid;
use crate::feature::FeatureRecord;
use crate::feature::GenomicFeature;
use crate::feature::Level;
use crate::feature::Location;
use crate::feature::TSSRegion;
use crate::order::absdist_key;
use crate::order::insert_sorted;
use crate::order::lemma_insert_sorted_multiset;
use crate::order::lemma_insert_sorted_sorted;
use crate::order::sorted_by_key;
use crate::order::start_key;

verus! {

broadcast use group_seq_properties, group_to_multiset_ensures;

/// A query result holds exactly the images under `out` of the catalog
/// records satisfying `pred`: same members, same multiplicities.
pub proof fn lemma_collect_sorted_contents(
    cat: Seq<FeatureRecord>,
    pred: spec_fn(FeatureRecord) -> bool,
    out: spec_fn(FeatureRecord) -> GenomicFeature,
    key: spec_fn(GenomicFeature) -> int,
)
    ensures
        collect_sorted(cat, pred, out, key).to_multiset() == cat.filter(pred).map_values(
            out,
        ).to_multiset(),
        collect_sorted(cat, pred, out, key).len() == cat.filter(pred).len(),
    decreases cat.len(),
{
    reveal(Seq::filter);
    let res = collect_sorted(cat, pred, out, key);
    let image = cat.filter(pred).map_values(out);
    if cat.len() == 0 {
        assert(res.to_multiset() =~= image.to_multiset());
    } else {
        let prev_cat = cat.drop_last();
        let prev = collect_sorted(prev_cat, pred, out, key);
        let prev_image = prev_cat.filter(pred).map_values(out);
        lemma_collect_sorted_contents(prev_cat, pred, out, key);
        if pred(cat.last()) {
            let x = out(cat.last());
            assert(image =~= prev_image.push(x));
            lemma_insert_sorted_multiset(prev, key, x);
            assert(res.to_multiset() =~= image.to_multiset());
        } else {
            assert(image =~= prev_image);
        }
    }
}

/// A query result is non-decreasing in the key that built it.
pub proof fn lemma_collect_sorted_sorted(
    cat: Seq<FeatureRecord>,
    pred: spec_fn(FeatureRecord) -> bool,
    out: spec_fn(FeatureRecord) -> GenomicFeature,
    key: spec_fn(GenomicFeature) -> int,
)
    ensures
        sorted_by_key(collect_sorted(cat, pred, out, key), key),
    decreases cat.len(),
{
    if cat.len() > 0 {
        let prev_cat = cat.drop_last();
        let prev = collect_sorted(prev_cat, pred, out, key);
        lemma_collect_sorted_sorted(prev_cat, pred, out, key);
        if pred(cat.last()) {
            lemma_insert_sorted_sorted(prev, key, out(cat.last()));
        }
    }
}

/// Where no record satisfies the predicate, a query result is empty.
pub proof fn lemma_collect_sorted_vacuous(
    cat: Seq<FeatureRecord>,
    pred: spec_fn(FeatureRecord) -> bool,
    out: spec_fn(FeatureRecord) -> GenomicFeature,
    key: spec_fn(GenomicFeature) -> int,
)
    requires
        forall|i: int| 0 <= i < cat.len() ==> !pred(#[trigger] cat[i]),
    ensures
        collect_sorted(cat, pred, out, key) == Seq::<GenomicFeature>::empty(),
    decreases cat.len(),
{
    if cat.len() > 0 {
        let prev_cat = cat.drop_last();
        assert(forall|i: int| 0 <= i < prev_cat.len() ==> !pred(#[trigger] prev_cat[i]));
        lemma_collect_sorted_vacuous(prev_cat, pred, out, key);
        assert(!pred(cat.last()));
    }
}

/// Overlap correctness: an overlap query returns exactly the features at
/// the level on the chromosome that pass the asymmetric overlap test (one
/// of the query's endpoints inside the feature's interval) with a
/// representable distance — each decorated with the distance from its
/// start to the query midpoint, with the multiplicity it has in the
/// catalog, and nothing else.
pub proof fn lemma_genes_within_exact(cat: Seq<FeatureRecord>, loc: Location, level: Level)
    ensures
        genes_within_spec(cat, loc, level).to_multiset() == cat.filter(
            within_pred(loc, level),
        ).map_values(start_dist_out(loc_mid(loc))).to_multiset(),
        forall|g: GenomicFeature|
            #[trigger] genes_within_spec(cat, loc, level).contains(g) <==> cat.filter(
                within_pred(loc, level),
            ).map_values(start_dist_out(loc_mid(loc))).contains(g),
        forall|i: int|
            0 <= i < cat.len() && within_pred(loc, level)(#[trigger] cat[i])
                ==> genes_within_spec(cat, loc, level).contains(
                start_dist_out(loc_mid(loc))(cat[i]),
            ),
{
    broadcast use vstd::seq_lib::group_filter_ensures;

    lemma_collect_sorted_contents(cat, within_pred(loc, level), start_dist_out(loc_mid(loc)), start_key());
    let res = genes_within_spec(cat, loc, level);
    let pred = within_pred(loc, level);
    let out = start_dist_out(loc_mid(loc));
    let image = cat.filter(pred).map_values(out);
    assert forall|g: GenomicFeature| #[trigger] res.contains(g) <==> image.contains(g) by {
        assert(res.contains(g) <==> res.to_multiset().count(g) > 0);
        assert(image.contains(g) <==> image.to_multiset().count(g) > 0);
    }
    assert forall|i: int| 0 <= i < cat.len() && pred(#[trigger] cat[i]) implies res.contains(
        out(cat[i]),
    ) by {
        assert(cat.filter(pred).contains(cat[i]));
        let j = choose|j: int| 0 <= j < cat.filter(pred).len() && cat.filter(pred)[j] == cat[i];
        assert(image[j] == out(cat[i]));
        assert(image.contains(out(cat[i])));
    }
}

/// Ordering: the results of an overlap query are non-decreasing in
/// feature start.
pub proof fn lemma_genes_within_sorted(cat: Seq<FeatureRecord>, loc: Location, level: Level)
    ensures
        forall|i: int, j: int|
            #![trigger genes_within_spec(cat, loc, level)[i], genes_within_spec(cat, loc, level)[j]]
            0 <= i <= j < genes_within_spec(cat, loc, level).len()
                ==> genes_within_spec(cat, loc, level)[i].start <= genes_within_spec(
                cat,
                loc,
                level,
            )[j].start,
{
    lemma_collect_sorted_sorted(cat, within_pred(loc, level), start_dist_out(loc_mid(loc)), start_key());
    let res = genes_within_spec(cat, loc, level);
    assert forall|i: int, j: int| 0 <= i <= j < res.len() implies res[i].start <= res[j].start by {
        assert(start_key()(res[i]) <= start_key()(res[j]));
    }
}

/// Nearest-neighbor correctness and cap: a nearest query returns
/// `min(n, |matching features|)` results, non-decreasing in absolute
/// distance between stranded start and query midpoint.
pub proof fn lemma_closest_genes_bounds(cat: Seq<FeatureRecord>, loc: Location, n: u16, level: Level)
    ensures
        closest_genes_spec(cat, loc, n, level).len() == vstd::math::min(
            n as int,
            cat.filter(closest_pred(loc, level)).len() as int,
        ),
        forall|i: int, j: int|
            #![trigger closest_genes_spec(cat, loc, n, level)[i], closest_genes_spec(cat, loc, n, level)[j]]
            0 <= i <= j < closest_genes_spec(cat, loc, n, level).len() ==> abs_dist(
                closest_genes_spec(cat, loc, n, level)[i].dist,
            ) <= abs_dist(closest_genes_spec(cat, loc, n, level)[j].dist),
{
    let all = closest_all_spec(cat, loc, level);
    let res = closest_genes_spec(cat, loc, n, level);
    lemma_collect_sorted_contents(
        cat,
        closest_pred(loc, level),
        stranded_dist_out(loc_mid(loc)),
        absdist_key(),
    );
    lemma_collect_sorted_sorted(
        cat,
        closest_pred(loc, level),
        stranded_dist_out(loc_mid(loc)),
        absdist_key(),
    );
    assert forall|i: int, j: int| 0 <= i <= j < res.len() implies abs_dist(res[i].dist) <= abs_dist(
        res[j].dist,
    ) by {
        assert(res[i] == all[i]);
        assert(res[j] == all[j]);
        assert(absdist_key()(all[i]) <= absdist_key()(all[j]));
    }
}

/// Idempotence: each query's result is one spec function of the catalog
/// contents and the arguments, so repeated identical queries against an
/// unmodified catalog return identical sequences, order included.
pub proof fn lemma_queries_deterministic(
    cat1: Seq<FeatureRecord>,
    cat2: Seq<FeatureRecord>,
    loc: Location,
    level: Level,
    gene_id: Seq<char>,
    tss: TSSRegion,
    n: u16,
)
    requires
        cat1 == cat2,
    ensures
        genes_within_spec(cat1, loc, level) == genes_within_spec(cat2, loc, level),
        in_exon_spec(cat1, loc, gene_id) == in_exon_spec(cat2, loc, gene_id),
        in_promoter_spec(cat1, loc, gene_id, tss) == in_promoter_spec(cat2, loc, gene_id, tss),
        closest_genes_spec(cat1, loc, n, level) == closest_genes_spec(cat2, loc, n, level),
{
}

/// Default level fallback: a textual level identifier that is none of the
/// recognized ones resolves to `Level::Gene`.
pub proof fn lemma_level_fallback(s: Seq<char>)
    requires
        s != "transcript"@,
        s != "exon"@,
        s != "2"@,
        s != "3"@,
    ensures
        level_from_str(s) == Level::Gene,
{
}

/// Empty chromosome: a query about a chromosome with no record in the
/// catalog returns an empty sequence — absence of data is not a fault.
pub proof fn lemma_absent_chromosome_empty(
    cat: Seq<FeatureRecord>,
    loc: Location,
    level: Level,
    gene_id: Seq<char>,
    tss: TSSRegion,
    n: u16,
)
    requires
        forall|i: int| 0 <= i < cat.len() ==> (#[trigger] cat[i]).chr@ != loc.chr@,
    ensures
        genes_within_spec(cat, loc, level) == Seq::<GenomicFeature>::empty(),
        in_exon_spec(cat, loc, gene_id) == Seq::<GenomicFeature>::empty(),
        in_promoter_spec(cat, loc, gene_id, tss) == Seq::<GenomicFeature>::empty(),
        closest_genes_spec(cat, loc, n, level) == Seq::<GenomicFeature>::empty(),
{
    let m = loc_mid(loc);
    lemma_collect_sorted_vacuous(cat, within_pred(loc, level), start_dist_out(m), start_key());
    lemma_collect_sorted_vacuous(cat, exon_pred(loc, gene_id), start_dist_out(m), start_key());
    lemma_collect_sorted_vacuous(
        cat,
        promoter_pred(loc, gene_id, tss.offset_5p as int, tss.offset_3p as int),
        start_dist_out(m),
        start_key(),
    );
    lemma_collect_sorted_vacuous(
        cat,
        promoter_pred(loc, gene_id, -(tss.offset_3p as int), -(tss.offset_5p as int)),
        start_dist_out(m),
        start_key(),
    );
    lemma_collect_sorted_vacuous(cat, closest_pred(loc, level), stranded_dist_out(m), absdist_key());
    assert(in_promoter_spec(cat, loc, gene_id, tss) =~= Seq::<GenomicFeature>::empty());
}

} // verus!
