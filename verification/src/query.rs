use vstd::prelude::*;
use crate::text::ascii_seq;

verus! {

/// What the query-string parser yields for parameter `key` of the raw query
/// `q`: the percent-decoded value of the first pair with that name. A
/// function of the two strings alone.
pub uninterp spec fn query_value_of(q: Seq<char>, key: Seq<char>) -> Option<Seq<char>>;

/// Relies on qstring::QString::from and QString::get: parsing the raw query
/// string (with or without a leading `?`) and looking the key up yields the
/// first matching parameter's decoded value, and `None` exactly when no
/// parameter has that name. The parser slices the query bytewise at
/// character boundaries it assumes to be single bytes, so only an ASCII
/// query is admitted.
#[verifier::external_body]
pub(crate) fn query_get(q: &str, key: &str) -> (r: Option<String>)
    requires
        ascii_seq(q@),
    ensures
        r matches Some(v) ==> query_value_of(q@, key@) == Some(v@),
        r is None ==> query_value_of(q@, key@) is None,
{
    qstring::QString::from(q).get(key).map(|s| s.to_string())
}

} // verus!
