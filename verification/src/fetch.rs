use vstd::prelude::*;
use crate::asset::StoredItem;
use crate::asset::stored_extension;
use crate::asset::stored_extension_spec;
use crate::cache::Resolution;
use crate::cache::resolution_matches;
use crate::cache::resolve;
use crate::errors::Errors;
use crate::text::listing_contains;
use crate::text::str_eq;
use crate::validator::parse_size_query;
use crate::validator::qview;
use crate::validator::size_error_matches;
use crate::validator::size_valid_spec;
use crate::validator::size_value_spec;

verus! {

/// How a fetch request proceeds once its inputs are validated: serve a local
/// resolution, or pull a replica from the peers first.
#[derive(Debug, Clone)]
pub enum FetchPlan {
    Serve { resolution: Resolution },
    Propagate,
}

/// Whether the asset is present in the data-directory listing, under either
/// the literally requested file name or its normalized form.
pub open spec fn asset_present_spec(
    data_files: Seq<String>,
    image: Seq<char>,
    ext: Seq<char>,
) -> bool {
    listing_contains(data_files, image + "."@ + ext) || listing_contains(
        data_files,
        image + "."@ + stored_extension_spec(ext),
    )
}

/// Plans a fetch of `image.ext` addressed to node `requested_node`. The
/// ownership guard runs first, then the size validator; a locally present
/// asset is resolved against the cache under its canonical stored name, and
/// a locally absent one is handed to peer propagation.
pub fn plan_fetch(
    this_node: &str,
    requested_node: &str,
    image: &str,
    ext: &str,
    size_query: Option<&str>,
    data_files: &Vec<String>,
    cache_files: &Vec<String>,
) -> (r: Result<FetchPlan, Errors>)
    ensures
        requested_node@ != this_node@ ==> (r matches Err(e) && e matches Errors::BadNode {
            requested_node: rn,
            this_node: tn,
        } && rn@ == requested_node@ && tn@ == this_node@),
        requested_node@ == this_node@ && !size_valid_spec(qview(size_query)) ==> (
        size_query matches Some(s) && r matches Err(e) && size_error_matches(s@, e)),
        requested_node@ == this_node@ && size_valid_spec(qview(size_query)) && !asset_present_spec(
            data_files@,
            image@,
            ext@,
        ) ==> (r matches Ok(p) && p is Propagate),
        requested_node@ == this_node@ && size_valid_spec(qview(size_query)) && asset_present_spec(
            data_files@,
            image@,
            ext@,
        ) ==> (r matches Ok(p) && p matches FetchPlan::Serve { resolution }
            && resolution_matches(
            cache_files@,
            image@ + "."@ + stored_extension_spec(ext@),
            ext@,
            size_value_spec(qview(size_query)),
            resolution,
        )),
{
    if !str_eq(requested_node, this_node) {
        return Err(
            Errors::BadNode {
                requested_node: String::from_str(requested_node),
                this_node: String::from_str(this_node),
            },
        );
    }
    let size = match parse_size_query(size_query) {
        Ok(s) => s,
        Err(e) => {
            return Err(e);
        },
    };
    let item = StoredItem {
        name: String::from_str(image),
        filetype: String::from_str(ext),
    };
    if !item.exists_locally(data_files) {
        return Ok(FetchPlan::Propagate);
    }
    let canonical = String::from_str(image).concat(".").concat(stored_extension(ext));
    proof {
        assert(canonical@ =~= image@ + "."@ + stored_extension_spec(ext@));
        assert(item.requested_file_spec() =~= image@ + "."@ + ext@);
        assert(item.canonical_file_spec() =~= image@ + "."@ + stored_extension_spec(ext@));
    }
    let resolution = resolve(cache_files, canonical.as_str(), ext, size);
    Ok(FetchPlan::Serve { resolution })
}

} // verus!
