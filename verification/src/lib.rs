//! Core engine of a sharded image-asset node.
//!
//! A node stores uploaded assets under a canonical on-disk form, serves
//! derived renditions (format/size variants) through a lazily populated
//! cache, periodically evicts that cache wholesale, and — when an asset is
//! missing locally — pulls a replica from an ordered list of peer nodes.
//!
//! This crate holds the decision logic of that engine: request routing and
//! ownership validation, the size-parameter validator, cache-key derivation
//! and hit/miss resolution, the eviction scheduler's state machine, the
//! peer-propagation protocol, and ingest planning. All file-system, process
//! and network work is described by plans and driven from outside.

mod asset;
mod cache;
mod errors;
mod eviction;
mod fetch;
mod ingest;
mod propagation;
mod query;
mod text;
mod validator;

pub use asset::StoredItem;
pub use asset::extension_is_image;
pub use asset::needs_transcoding;
pub use asset::stored_extension;

pub use cache::Rendition;
pub use cache::Resolution;
pub use cache::cache_key;
pub use cache::convert_output;
pub use cache::lemma_cache_idempotence;
pub use cache::lemma_eviction_completeness;
pub use cache::resolve;

pub use errors::Errors;

pub use eviction::EvictionAction;
pub use eviction::EvictionEvent;
pub use eviction::EvictionPhase;
pub use eviction::EvictionScheduler;
pub use eviction::lemma_wipe_only_after_drain;

pub use fetch::FetchPlan;
pub use fetch::plan_fetch;

pub use ingest::IngestPlan;
pub use ingest::IntakeStep;
pub use ingest::convert_intake;
pub use ingest::generate_name;
pub use ingest::ingest_response_body;
pub use ingest::lemma_round_trip;
pub use ingest::plan_ingest;
pub use ingest::plan_ingest_with_type;

pub use propagation::PropAction;
pub use propagation::PropEvent;
pub use propagation::PropPhase;
pub use propagation::Propagation;
pub use propagation::fetch_url;
pub use propagation::lemma_propagation_ordering;
pub use propagation::lemma_propagation_total_failure;
pub use propagation::plan_peer_lookup;
pub use propagation::prop_start;
pub use propagation::probe_url;

pub use validator::SizeSpec;
pub use validator::check_power_of_two;
pub use validator::parse_i32;
pub use validator::parse_size_query;
