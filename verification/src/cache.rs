use vstd::prelude::*;
use crate::asset::conversion_ext_spec;
use crate::asset::needs_transcoding;
use crate::text::contains_name;
use crate::text::int_str_of;
use crate::text::i32_to_dec;
use crate::text::listing_contains;
use crate::validator::SizeSpec;

verus! {

/// The width/height pair a size stands for inside cache keys; the sentinel
/// `(-1, -1)` means "no resize requested".
pub open spec fn size_pair_spec(size: SizeSpec) -> (int, int) {
    match size {
        SizeSpec::Native => (-1int, -1int),
        SizeSpec::Fixed { width, height } => (width as int, height as int),
    }
}

/// The cache key of a derived artifact: `name@WIDTHxHEIGHT.format`.
pub open spec fn cache_key_spec(name: Seq<char>, format: Seq<char>, size: SizeSpec) -> Seq<char> {
    name + "@"@ + int_str_of(size_pair_spec(size).0) + "x"@ + int_str_of(size_pair_spec(size).1)
        + "."@ + format
}

pub fn cache_key(name: &str, format: &str, size: SizeSpec) -> (k: String)
    ensures
        k@ == cache_key_spec(name@, format@, size),
{
    let (w, h): (i32, i32) = match size {
        SizeSpec::Native => (-1, -1),
        SizeSpec::Fixed { width, height } => (width, height),
    };
    let k = String::from_str(name)
        .concat("@")
        .concat(i32_to_dec(w).as_str())
        .concat("x")
        .concat(i32_to_dec(h).as_str())
        .concat(".")
        .concat(format);
    proof {
        assert(k@ =~= cache_key_spec(name@, format@, size));
    }
    k
}

/// The work the conversion collaborator is handed on a cache miss.
#[derive(Debug, Clone)]
pub enum Rendition {
    /// Transcode the canonically stored file into the requested format (and
    /// size), writing the artifact under its cache key.
    Transcode { source: String, dest: String, resize: SizeSpec },
    /// A non-image asset at native size: serve the stored bytes themselves.
    ServeStored { source: String },
    /// A non-image asset at an explicit size: a resized copy under the key.
    Resize { source: String, dest: String, width: i32, height: i32 },
}

/// The outcome of a cache lookup: an artifact already on disk, or the work
/// that produces it.
#[derive(Debug, Clone)]
pub enum Resolution {
    Hit { path: String },
    Miss { job: Rendition },
}

/// The file a conversion job reads its bytes from.
pub open spec fn job_source(job: Rendition) -> Seq<char> {
    match job {
        Rendition::Transcode { source, .. } => source@,
        Rendition::ServeStored { source } => source@,
        Rendition::Resize { source, .. } => source@,
    }
}

/// What the conversion collaborator must be asked to do for `(name, format,
/// size)`.
pub open spec fn job_matches(
    name: Seq<char>,
    format: Seq<char>,
    size: SizeSpec,
    job: Rendition,
) -> bool {
    if conversion_ext_spec(format) {
        job matches Rendition::Transcode { source, dest, resize } && source@ == "./data/"@ + name
            && dest@ == "./cache/"@ + cache_key_spec(name, format, size) && resize == size
    } else if size is Native {
        job matches Rendition::ServeStored { source } && source@ == "./data/"@ + name
    } else {
        job matches Rendition::Resize { source, dest, width, height } && source@ == "./data/"@
            + name && dest@ == "./cache/"@ + cache_key_spec(name, format, size) && (
        size matches SizeSpec::Fixed { width: w, height: h } && width == w && height == h)
    }
}

/// The whole contract of a resolution: a hit exactly when the key is listed,
/// the cached path on a hit, the right conversion work on a miss.
pub open spec fn resolution_matches(
    cache_files: Seq<String>,
    name: Seq<char>,
    format: Seq<char>,
    size: SizeSpec,
    r: Resolution,
) -> bool {
    if listing_contains(cache_files, cache_key_spec(name, format, size)) {
        r matches Resolution::Hit { path } && path@ == "./cache/"@ + cache_key_spec(
            name,
            format,
            size,
        )
    } else {
        r matches Resolution::Miss { job } && job_matches(name, format, size, job)
    }
}

/// The conversion work owed for `(target, format, size)` when no cached
/// artifact exists: an image format is transcoded from the stored file, a
/// non-image one is served as stored or resized.
pub fn convert_output(filetype: &str, target: &str, size: SizeSpec) -> (job: Rendition)
    ensures
        job_matches(target@, filetype@, size, job),
{
    let key = cache_key(target, filetype, size);
    let source = String::from_str("./data/").concat(target);
    if needs_transcoding(filetype) {
        let dest = String::from_str("./cache/").concat(key.as_str());
        Rendition::Transcode { source, dest, resize: size }
    } else {
        match size {
            SizeSpec::Native => Rendition::ServeStored { source },
            SizeSpec::Fixed { width, height } => {
                let dest = String::from_str("./cache/").concat(key.as_str());
                Rendition::Resize { source, dest, width, height }
            },
        }
    }
}

/// Resolves `(name, format, size)` against the cache-directory listing:
/// a listed key is served immediately; otherwise the returned job, run by the
/// conversion collaborator, produces the artifact under that same key.
pub fn resolve(cache_files: &Vec<String>, name: &str, format: &str, size: SizeSpec) -> (r:
    Resolution)
    ensures
        resolution_matches(cache_files@, name@, format@, size, r),
{
    let key = cache_key(name, format, size);
    if contains_name(cache_files, key.as_str()) {
        let path = String::from_str("./cache/").concat(key.as_str());
        Resolution::Hit { path }
    } else {
        Resolution::Miss { job: convert_output(format, name, size) }
    }
}

/// Law (cache idempotence): populating a miss adds the triple's key to the
/// listing, and every resolution against the populated listing is a hit on
/// that one cached path — the conversion collaborator is not engaged again,
/// and repeated resolutions name the identical artifact.
pub proof fn lemma_cache_idempotence(
    cache_files: Seq<String>,
    entry: String,
    name: Seq<char>,
    format: Seq<char>,
    size: SizeSpec,
)
    requires
        entry@ == cache_key_spec(name, format, size),
    ensures
        listing_contains(cache_files.push(entry), cache_key_spec(name, format, size)),
        forall|r: Resolution|
            resolution_matches(cache_files.push(entry), name, format, size, r) ==> (
            r matches Resolution::Hit { path } && path@ == "./cache/"@ + cache_key_spec(
                name,
                format,
                size,
            )),
{
    assert(cache_files.push(entry)[cache_files.len() as int]@ == cache_key_spec(
        name,
        format,
        size,
    ));
}

/// Law (eviction completeness): the emptied cache lists no key at all, so the
/// next resolution of any triple is a miss that engages the conversion
/// collaborator afresh.
pub proof fn lemma_eviction_completeness(name: Seq<char>, format: Seq<char>, size: SizeSpec)
    ensures
        !listing_contains(Seq::<String>::empty(), cache_key_spec(name, format, size)),
        forall|r: Resolution|
            resolution_matches(Seq::<String>::empty(), name, format, size, r) ==> (
            r matches Resolution::Miss { job } && job_matches(name, format, size, job)),
{
}

} // verus!
