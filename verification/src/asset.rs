use vstd::prelude::*;
use crate::text::contains_name;
use crate::text::listing_contains;
use crate::text::lower_seq;
use crate::text::str_eq_lower;

verus! {

/// The one set of raster/vector image types the node knows, recognized
/// case-insensitively. An upload of such a type is normalized into the
/// canonical storage format, and a rendition in such a type is produced by
/// transcoding the canonical file.
pub open spec fn image_ext_spec(s: Seq<char>) -> bool {
    lower_seq(s) == "png"@ || lower_seq(s) == "jpg"@ || lower_seq(s) == "jpeg"@ || lower_seq(s)
        == "svg"@ || lower_seq(s) == "heic"@ || lower_seq(s) == "webp"@
}

pub fn extension_is_image(ext: &str) -> (r: bool)
    ensures
        r == image_ext_spec(ext@),
{
    str_eq_lower(ext, "png") || str_eq_lower(ext, "jpg") || str_eq_lower(ext, "jpeg")
        || str_eq_lower(ext, "svg") || str_eq_lower(ext, "heic") || str_eq_lower(ext, "webp")
}

/// The extension an asset's bytes are physically stored under: image types
/// are normalized to the canonical storage format, anything else keeps its
/// original extension.
pub open spec fn stored_extension_spec(s: Seq<char>) -> Seq<char> {
    if image_ext_spec(s) {
        "webp"@
    } else {
        s
    }
}

pub fn stored_extension<'a>(ext: &'a str) -> (r: &'a str)
    ensures
        r@ == stored_extension_spec(ext@),
{
    if extension_is_image(ext) {
        "webp"
    } else {
        ext
    }
}

/// The image types whose bytes differ from the canonical storage format, so
/// that producing them — in either direction — takes the conversion
/// collaborator. An asset already in the canonical format needs none.
pub open spec fn conversion_ext_spec(s: Seq<char>) -> bool {
    image_ext_spec(s) && lower_seq(s) != "webp"@
}

pub fn needs_transcoding(ext: &str) -> (r: bool)
    ensures
        r == conversion_ext_spec(ext@),
{
    extension_is_image(ext) && !str_eq_lower(ext, "webp")
}

/// The index of the last `.` in `s`, or `-1` when there is none.
pub open spec fn last_dot(s: Seq<char>) -> int
    decreases s.len(),
{
    if s.len() == 0 {
        -1
    } else if s[s.len() - 1] == '.' {
        s.len() - 1
    } else {
        last_dot(s.drop_last())
    }
}

proof fn lemma_last_dot_at(s: Seq<char>, k: int)
    requires
        0 <= k < s.len(),
        s[k] == '.',
        forall|j: int| k < j < s.len() ==> s[j] != '.',
    ensures
        last_dot(s) == k,
    decreases s.len(),
{
    if k == s.len() - 1 {
    } else {
        assert(s.drop_last() =~= s.subrange(0, s.len() - 1));
        lemma_last_dot_at(s.drop_last(), k);
    }
}

proof fn lemma_last_dot_none(s: Seq<char>)
    requires
        forall|j: int| 0 <= j < s.len() ==> s[j] != '.',
    ensures
        last_dot(s) == -1,
    decreases s.len(),
{
    if s.len() > 0 {
        lemma_last_dot_none(s.drop_last());
    }
}

/// The stem of a file name: what stands before its last `.`, or the whole
/// name when there is no extension (no `.`, or only a leading one).
pub open spec fn stem_of(f: Seq<char>) -> Seq<char> {
    if last_dot(f) >= 1 {
        f.subrange(0, last_dot(f))
    } else {
        f
    }
}

pub fn file_stem<'a>(f: &'a str) -> (r: &'a str)
    ensures
        r@ == stem_of(f@),
{
    let len = f.unicode_len();
    let mut i: usize = len;
    while i > 0
        invariant
            i <= len,
            len == f@.len(),
            forall|j: int| i <= j < len ==> f@[j] != '.',
        decreases i,
    {
        let c = f.get_char(i - 1);
        if c == '.' {
            proof {
                lemma_last_dot_at(f@, i - 1);
            }
            if i == 1 {
                return f;
            }
            let stem = f.substring_char(0, i - 1);
            return stem;
        }
        i -= 1;
    }
    proof {
        lemma_last_dot_none(f@);
    }
    f
}

/// A requested asset, split into its bare name and the extension the client
/// asked for. The split is at the last `.` of the file name; a name without
/// an extension (no `.`, or only a leading one) is not a valid request.
#[derive(Debug, Clone)]
pub struct StoredItem {
    pub name: String,
    pub filetype: String,
}

impl StoredItem {
    /// The file name the client literally asked for.
    pub open spec fn requested_file_spec(self) -> Seq<char> {
        self.name@ + "."@ + self.filetype@
    }

    /// The file name the asset is stored under after normalization.
    pub open spec fn canonical_file_spec(self) -> Seq<char> {
        self.name@ + "."@ + stored_extension_spec(self.filetype@)
    }

    pub fn new(name: &str) -> (r: Option<Self>)
        ensures
            r is Some <==> last_dot(name@) >= 1,
            r matches Some(item) ==> {
                &&& item.name@ == name@.subrange(0, last_dot(name@))
                &&& item.filetype@ == name@.subrange(last_dot(name@) + 1, name@.len() as int)
            },
    {
        let len = name.unicode_len();
        let mut i: usize = len;
        while i > 0
            invariant
                i <= len,
                len == name@.len(),
                forall|j: int| i <= j < len ==> name@[j] != '.',
            decreases i,
        {
            let c = name.get_char(i - 1);
            if c == '.' {
                proof {
                    lemma_last_dot_at(name@, i - 1);
                }
                if i == 1 {
                    return None;
                }
                let stem = name.substring_char(0, i - 1);
                let ext = name.substring_char(i, len);
                return Some(
                    StoredItem { name: String::from_str(stem), filetype: String::from_str(ext) },
                );
            }
            i -= 1;
        }
        proof {
            lemma_last_dot_none(name@);
        }
        None
    }

    /// Whether the asset is present locally: the data-directory listing holds
    /// either the literally requested file name or its normalized form.
    pub fn exists_locally(&self, data_files: &Vec<String>) -> (r: bool)
        ensures
            r == (listing_contains(data_files@, self.requested_file_spec())
                || listing_contains(data_files@, self.canonical_file_spec())),
    {
        let requested = self.name.clone().concat(".").concat(self.filetype.as_str());
        let canonical = self.name.clone().concat(".").concat(
            stored_extension(self.filetype.as_str()),
        );
        proof {
            assert(requested@ =~= self.requested_file_spec());
            assert(canonical@ =~= self.canonical_file_spec());
        }
        contains_name(data_files, requested.as_str()) || contains_name(
            data_files,
            canonical.as_str(),
        )
    }
}

} // verus!
