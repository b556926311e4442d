use vstd::prelude::*;
use crate::asset::conversion_ext_spec;
use crate::asset::image_ext_spec;
use crate::asset::needs_transcoding;
use crate::asset::stored_extension;
use crate::asset::stored_extension_spec;
use crate::cache::Resolution;
use crate::cache::cache_key_spec;
use crate::cache::job_source;
use crate::cache::resolution_matches;
use crate::errors::Errors;
use crate::query::query_get;
use crate::query::query_value_of;
use crate::text::ascii_seq;
use crate::text::hex_digit;
use crate::text::is_ascii_str;
use crate::text::listing_contains;
use crate::text::push_hex_digit;
use crate::text::str_eq;
use crate::validator::SizeSpec;
use rand::seq::IndexedRandom;

verus! {

/// Relies on rand's IndexedRandom::choose with the thread-local generator:
/// `None` exactly on an empty slice, otherwise some element of it. Which
/// element depends on the random state, so only membership is promised.
#[verifier::external_body]
fn choose_word(words: &Vec<String>) -> (r: Option<String>)
    ensures
        r is Some <==> words@.len() > 0,
        r matches Some(w) ==> exists|i: int| 0 <= i < words@.len() && w@ == (#[trigger] words@[i])@,
{
    let mut rng = rand::rng();
    words.as_slice().choose(&mut rng).cloned()
}

/// Whether `name` reads as three words of the list, concatenated.
pub open spec fn name_from_wordlist(words: Seq<String>, name: Seq<char>) -> bool {
    exists|i: int, j: int, k: int|
        0 <= i < words.len() && 0 <= j < words.len() && 0 <= k < words.len() && name == #[trigger] (
        words[i]@ + words[j]@ + words[k]@)
}

/// Assigns a human-readable name for a newly ingested asset: three words
/// drawn at random from the wordlist, concatenated. Fails only on an empty
/// wordlist.
pub fn generate_name(words: &Vec<String>) -> (r: Option<String>)
    ensures
        r is Some <==> words@.len() > 0,
        r matches Some(name) ==> name_from_wordlist(words@, name@),
{
    let w1 = match choose_word(words) {
        Some(w) => w,
        None => {
            return None;
        },
    };
    let w2 = match choose_word(words) {
        Some(w) => w,
        None => {
            return None;
        },
    };
    let w3 = match choose_word(words) {
        Some(w) => w,
        None => {
            return None;
        },
    };
    let name = w1.concat(w2.as_str()).concat(w3.as_str());
    proof {
        let i = choose|i: int| 0 <= i < words@.len() && w1@ == (#[trigger] words@[i])@;
        let j = choose|j: int| 0 <= j < words@.len() && w2@ == (#[trigger] words@[j])@;
        let k = choose|k: int| 0 <= k < words@.len() && w3@ == (#[trigger] words@[k])@;
        assert(name@ == (words@[i]@ + words@[j]@ + words@[k]@));
    }
    Some(name)
}

/// Where an upload of `name` with type `typ` is staged before normalization.
pub open spec fn temp_path_spec(name: Seq<char>, typ: Seq<char>) -> Seq<char> {
    "./temp/"@ + name + "."@ + typ
}

/// The canonical asset file that intake normalization writes: an image-type
/// payload ends up under the canonical storage extension, any other payload
/// keeps its own.
pub open spec fn intake_dest_spec(name: Seq<char>, typ: Seq<char>) -> Seq<char> {
    "./data/"@ + name + "."@ + stored_extension_spec(typ)
}

/// The normalization step the conversion collaborator performs on intake.
#[derive(Debug, Clone)]
pub enum IntakeStep {
    /// Transcode the staged upload into the canonical storage format, then
    /// drop the staged file.
    Normalize { source: String, dest: String },
    /// A non-image payload: copy it into the asset store unchanged, then
    /// drop the staged file.
    CopyAsIs { source: String, dest: String },
}

/// Everything the ingest handler does once the request is accepted.
#[derive(Debug, Clone)]
pub struct IngestPlan {
    /// The assigned asset name, echoed back to the client.
    pub name: String,
    /// Where the uploaded bytes are staged.
    pub temp_path: String,
    /// The step that turns the staged file into the canonical asset.
    pub intake: IntakeStep,
}

/// The right normalization step for `(name, typ)`.
pub open spec fn intake_matches(name: Seq<char>, typ: Seq<char>, intake: IntakeStep) -> bool {
    if conversion_ext_spec(typ) {
        intake matches IntakeStep::Normalize { source, dest } && source@ == temp_path_spec(
            name,
            typ,
        ) && dest@ == intake_dest_spec(name, typ)
    } else {
        intake matches IntakeStep::CopyAsIs { source, dest } && source@ == temp_path_spec(
            name,
            typ,
        ) && dest@ == intake_dest_spec(name, typ)
    }
}

/// The intake step owed for an upload of type `filetype` staged at
/// `tmp_file`: a payload whose bytes differ from the canonical storage
/// format is transcoded, anything else (the canonical format itself, or a
/// non-image) is copied — in either case to the canonical asset file of
/// `target`.
pub fn convert_intake(filetype: &str, tmp_file: &str, target: &str) -> (step: IntakeStep)
    ensures
        conversion_ext_spec(filetype@) ==> (step matches IntakeStep::Normalize { source, dest }
            && source@ == tmp_file@ && dest@ == intake_dest_spec(target@, filetype@)),
        !conversion_ext_spec(filetype@) ==> (step matches IntakeStep::CopyAsIs { source, dest }
            && source@ == tmp_file@ && dest@ == intake_dest_spec(target@, filetype@)),
{
    let dest = String::from_str("./data/").concat(target).concat(".").concat(
        stored_extension(filetype),
    );
    proof {
        assert(dest@ =~= intake_dest_spec(target@, filetype@));
    }
    if needs_transcoding(filetype) {
        IntakeStep::Normalize { source: String::from_str(tmp_file), dest }
    } else {
        IntakeStep::CopyAsIs { source: String::from_str(tmp_file), dest }
    }
}

/// Plans an ingest once the `type` parameter has been extracted: a missing
/// type is a client error, a missing or mismatched slave token is an
/// authorization error, and an accepted request is assigned a name and
/// handed to intake normalization. An empty wordlist leaves no name to
/// assign, an internal failure.
pub fn plan_ingest_with_type(
    typ: Option<&str>,
    auth: Option<&str>,
    slave_key: &str,
    words: &Vec<String>,
) -> (r: Result<IngestPlan, Errors>)
    ensures
        typ is None ==> (r matches Err(e) && e matches Errors::BadRequest { err } && err@
            == "Missing 'type' query parameter"@),
        typ matches Some(t) && !(auth matches Some(a) && a@ == slave_key@) ==> (r matches Err(e)
            && e is UnauthorizedRoute),
        typ is Some && (auth matches Some(a) && a@ == slave_key@) && words@.len() == 0 ==> (
        r matches Err(e) && e is InternalServerError),
        typ matches Some(t) ==> ((auth matches Some(a) && a@ == slave_key@) && words@.len() > 0
            ==> (r matches Ok(plan) && name_from_wordlist(words@, plan.name@) && plan.temp_path@
            == temp_path_spec(plan.name@, t@) && intake_matches(plan.name@, t@, plan.intake))),
{
    let t = match typ {
        Some(t) => t,
        None => {
            return Err(
                Errors::BadRequest { err: String::from_str("Missing 'type' query parameter") },
            );
        },
    };
    let authorized = match auth {
        Some(a) => str_eq(a, slave_key),
        None => false,
    };
    if !authorized {
        return Err(Errors::UnauthorizedRoute);
    }
    let name = match generate_name(words) {
        Some(n) => n,
        None => {
            return Err(Errors::InternalServerError);
        },
    };
    let temp_path = String::from_str("./temp/").concat(name.as_str()).concat(".").concat(t);
    proof {
        assert(temp_path@ =~= temp_path_spec(name@, t@));
    }
    let intake = convert_intake(t, temp_path.as_str(), name.as_str());
    Ok(IngestPlan { name, temp_path, intake })
}

/// Plans an ingest request from its raw query string: the `type` parameter
/// is read through the query-string parser, then handled as above. A query
/// that is not plain ASCII cannot be parsed and is an internal failure.
pub fn plan_ingest(query: &str, auth: Option<&str>, slave_key: &str, words: &Vec<String>) -> (r:
    Result<IngestPlan, Errors>)
    ensures
        !ascii_seq(query@) ==> (r matches Err(e) && e is InternalServerError),
        ascii_seq(query@) && query_value_of(query@, "type"@) is None ==> (r matches Err(e)
            && e matches Errors::BadRequest { err } && err@ == "Missing 'type' query parameter"@),
        ascii_seq(query@) && query_value_of(query@, "type"@) is Some && !(auth matches Some(a)
            && a@ == slave_key@) ==> (r matches Err(e) && e is UnauthorizedRoute),
        ascii_seq(query@) && query_value_of(query@, "type"@) is Some && (auth matches Some(a)
            && a@ == slave_key@) && words@.len() == 0 ==> (r matches Err(e)
            && e is InternalServerError),
        ascii_seq(query@) ==> (query_value_of(query@, "type"@) matches Some(t) ==> ((
        auth matches Some(a) && a@ == slave_key@) && words@.len() > 0 ==> (r matches Ok(plan)
            && name_from_wordlist(words@, plan.name@) && plan.temp_path@ == temp_path_spec(
            plan.name@,
            t,
        ) && intake_matches(plan.name@, t, plan.intake)))),
{
    if !is_ascii_str(query) {
        return Err(Errors::InternalServerError);
    }
    match query_get(query, "type") {
        Some(t) => plan_ingest_with_type(Some(t.as_str()), auth, slave_key, words),
        None => plan_ingest_with_type(None, auth, slave_key, words),
    }
}

/// One character of JSON string content: the double quote, the backslash
/// and the ASCII control characters are escaped (the common controls by
/// their short forms, the rest as `\u00..`), everything else stands as it
/// is.
pub open spec fn json_escape_char(c: char) -> Seq<char> {
    if c == '"' {
        seq!['\\', '"']
    } else if c == '\\' {
        seq!['\\', '\\']
    } else if c == '\u{8}' {
        seq!['\\', 'b']
    } else if c == '\t' {
        seq!['\\', 't']
    } else if c == '\n' {
        seq!['\\', 'n']
    } else if c == '\u{c}' {
        seq!['\\', 'f']
    } else if c == '\r' {
        seq!['\\', 'r']
    } else if (c as int) < 32 {
        seq!['\\', 'u', '0', '0', hex_digit(c as int / 16), hex_digit(c as int % 16)]
    } else {
        seq![c]
    }
}

/// A string's characters rendered as JSON string content.
pub open spec fn json_escaped(s: Seq<char>) -> Seq<char>
    decreases s.len(),
{
    if s.len() == 0 {
        Seq::empty()
    } else {
        json_escaped(s.drop_last()) + json_escape_char(s.last())
    }
}

fn json_escape(s: &str) -> (r: String)
    ensures
        r@ == json_escaped(s@),
{
    let len = s.unicode_len();
    let mut out = String::new();
    let mut i: usize = 0;
    while i < len
        invariant
            i <= len,
            len == s@.len(),
            out@ == json_escaped(s@.take(i as int)),
        decreases len - i,
    {
        let c = s.get_char(i);
        if c == '"' {
            proof {
                reveal_strlit("\\\"");
                assert(("\\\"")@ =~= seq!['\\', '"']);
            }
            out.append("\\\"");
        } else if c == '\\' {
            proof {
                reveal_strlit("\\\\");
                assert(("\\\\")@ =~= seq!['\\', '\\']);
            }
            out.append("\\\\");
        } else if c == '\u{8}' {
            proof {
                reveal_strlit("\\b");
                assert(("\\b")@ =~= seq!['\\', 'b']);
            }
            out.append("\\b");
        } else if c == '\t' {
            proof {
                reveal_strlit("\\t");
                assert(("\\t")@ =~= seq!['\\', 't']);
            }
            out.append("\\t");
        } else if c == '\n' {
            proof {
                reveal_strlit("\\n");
                assert(("\\n")@ =~= seq!['\\', 'n']);
            }
            out.append("\\n");
        } else if c == '\u{c}' {
            proof {
                reveal_strlit("\\f");
                assert(("\\f")@ =~= seq!['\\', 'f']);
            }
            out.append("\\f");
        } else if c == '\r' {
            proof {
                reveal_strlit("\\r");
                assert(("\\r")@ =~= seq!['\\', 'r']);
            }
            out.append("\\r");
        } else if (c as u32) < 32 {
            proof {
                reveal_strlit("\\u00");
                assert(("\\u00")@ =~= seq!['\\', 'u', '0', '0']);
            }
            out.append("\\u00");
            let u = c as u32;
            push_hex_digit(&mut out, u / 16);
            push_hex_digit(&mut out, u % 16);
        } else {
            let piece = s.substring_char(i, i + 1);
            proof {
                assert(piece@ =~= seq![c]);
            }
            out.append(piece);
        }
        proof {
            assert(s@.take(i as int + 1).drop_last() =~= s@.take(i as int));
            assert(s@.take(i as int + 1).last() == c);
            assert(out@ =~= json_escaped(s@.take(i as int + 1)));
        }
        i += 1;
    }
    proof {
        assert(s@.take(len as int) =~= s@);
    }
    out
}

/// The ingest response body: a JSON object carrying the assigned name.
pub open spec fn ingest_response_spec(name: Seq<char>) -> Seq<char> {
    "{\"name\":\""@ + json_escaped(name) + "\"}"@
}

pub fn ingest_response_body(name: &str) -> (r: String)
    ensures
        r@ == ingest_response_spec(name@),
{
    let r = String::from_str("{\"name\":\"").concat(json_escape(name).as_str()).concat("\"}");
    proof {
        assert(r@ =~= ingest_response_spec(name@));
    }
    r
}

/// Law (round trip): an asset ingested under any image-type extension is
/// stored only in its canonical normalized form, and a fetch for the
/// original extension with no size parameter that misses the cache derives
/// what it serves from that same canonical file — never from the
/// pre-normalization upload, which is gone with the staged file.
pub proof fn lemma_round_trip(
    name: Seq<char>,
    ext: Seq<char>,
    cache_files: Seq<String>,
    r: Resolution,
)
    requires
        image_ext_spec(ext),
        !listing_contains(
            cache_files,
            cache_key_spec(name + "."@ + stored_extension_spec(ext), ext, SizeSpec::Native),
        ),
        resolution_matches(
            cache_files,
            name + "."@ + stored_extension_spec(ext),
            ext,
            SizeSpec::Native,
            r,
        ),
    ensures
        intake_dest_spec(name, ext) == "./data/"@ + (name + "."@ + stored_extension_spec(ext)),
        r matches Resolution::Miss { job } && job_source(job) == intake_dest_spec(name, ext),
{
    assert(intake_dest_spec(name, ext) =~= "./data/"@ + (name + "."@ + stored_extension_spec(
        ext,
    )));
}

} // verus!
