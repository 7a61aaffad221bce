//! Genomic interval query engine.
//!
//! An immutable catalog of annotated genomic features (genes, transcripts,
//! exons) answers read-only spatial queries: which features overlap a
//! region, which are nearest to a point by their stranded start, whether a
//! region lies in a given gene's exons, and whether it lies in a promoter
//! window around a transcript's stranded start.

pub mod engine;
pub mod feature;
pub mod laws;
pub mod order;

pub use engine::Loctogene;
pub use feature::FeatureRecord;
pub use feature::GenomicFeature;
pub use feature::Level;
pub use feature::Location;
pub use feature::TSSRegion;
