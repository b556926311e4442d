use vstd::prelude::*;
use crate::errors::Errors;

verus! {

/// A validated `size` request parameter: either "serve at native size" or an
/// explicit width/height pair, both strictly positive powers of two.
#[derive(Debug, Clone, Copy, PartialEq, Eq, Structural)]
pub enum SizeSpec {
    Native,
    Fixed { width: i32, height: i32 },
}

pub open spec fn is_digit(c: char) -> bool {
    c == '0' || c == '1' || c == '2' || c == '3' || c == '4' || c == '5' || c == '6' || c == '7'
        || c == '8' || c == '9'
}

pub open spec fn digit_val(c: char) -> int {
    if c == '0' {
        0
    } else if c == '1' {
        1
    } else if c == '2' {
        2
    } else if c == '3' {
        3
    } else if c == '4' {
        4
    } else if c == '5' {
        5
    } else if c == '6' {
        6
    } else if c == '7' {
        7
    } else if c == '8' {
        8
    } else {
        9
    }
}

pub open spec fn all_digits(s: Seq<char>) -> bool {
    forall|i: int| 0 <= i < s.len() ==> is_digit(s[i])
}

/// The value of a digit string read most significant digit first.
pub open spec fn dec_val(s: Seq<char>) -> int
    decreases s.len(),
{
    if s.len() == 0 {
        0
    } else {
        dec_val(s.drop_last()) * 10 + digit_val(s.last())
    }
}

proof fn lemma_dec_val_nonneg(s: Seq<char>)
    ensures
        dec_val(s) >= 0,
    decreases s.len(),
{
    if s.len() > 0 {
        lemma_dec_val_nonneg(s.drop_last());
    }
}

proof fn lemma_dec_val_prefix(s: Seq<char>, k: int)
    requires
        0 <= k <= s.len(),
    ensures
        dec_val(s.take(k)) <= dec_val(s),
    decreases s.len() - k,
{
    if k == s.len() {
        assert(s.take(k) =~= s);
    } else {
        assert(s.take(k + 1).drop_last() =~= s.take(k));
        lemma_dec_val_nonneg(s.take(k));
        lemma_dec_val_prefix(s, k + 1);
    }
}

/// What `str::parse::<i32>` yields on `s`: an optional sign, then at least
/// one decimal digit, and a value within the `i32` range.
pub open spec fn parse_i32_spec(s: Seq<char>) -> Option<int> {
    let signed = s.len() > 0 && (s[0] == '+' || s[0] == '-');
    let digits = if signed {
        s.skip(1)
    } else {
        s
    };
    let negative = s.len() > 0 && s[0] == '-';
    if digits.len() > 0 && all_digits(digits) {
        let v = if negative {
            -dec_val(digits)
        } else {
            dec_val(digits)
        };
        if i32::MIN <= v <= i32::MAX {
            Some(v)
        } else {
            None
        }
    } else {
        None
    }
}

fn digit_of(c: char) -> (r: Option<i64>)
    ensures
        r is Some <==> is_digit(c),
        r matches Some(d) ==> d == digit_val(c),
{
    match c {
        '0' => Some(0),
        '1' => Some(1),
        '2' => Some(2),
        '3' => Some(3),
        '4' => Some(4),
        '5' => Some(5),
        '6' => Some(6),
        '7' => Some(7),
        '8' => Some(8),
        '9' => Some(9),
        _ => None,
    }
}

/// Parses `s` as `str::parse::<i32>` does.
pub fn parse_i32(s: &str) -> (r: Option<i32>)
    ensures
        r matches Some(v) ==> parse_i32_spec(s@) == Some(v as int),
        r is None ==> parse_i32_spec(s@) is None,
{
    let len = s.unicode_len();
    let mut start: usize = 0;
    let mut negative = false;
    if len > 0 {
        let c0 = s.get_char(0);
        if c0 == '+' {
            start = 1;
        } else if c0 == '-' {
            negative = true;
            start = 1;
        }
    }
    proof {
        assert(s@.skip(0) =~= s@);
    }
    if start >= len {
        return None;
    }
    let ghost digits = s@.skip(start as int);
    let mut acc: i64 = 0;
    let mut i: usize = start;
    while i < len
        invariant
            start <= i <= len,
            len == s@.len(),
            start < len,
            digits == s@.skip(start as int),
            digits == (if s@.len() > 0 && (s@[0] == '+' || s@[0] == '-') {
                s@.skip(1)
            } else {
                s@
            }),
            negative == (s@.len() > 0 && s@[0] == '-'),
            all_digits(s@.subrange(start as int, i as int)),
            acc == dec_val(s@.subrange(start as int, i as int)),
            0 <= acc <= 0x8000_0000,
        decreases len - i,
    {
        let c = s.get_char(i);
        let d = match digit_of(c) {
            Some(d) => d,
            None => {
                proof {
                    assert(digits[i - start] == s@[i as int]);
                    assert(!all_digits(digits));
                }
                return None;
            },
        };
        let next: i64 = acc * 10 + d;
        proof {
            assert(s@.subrange(start as int, i + 1).drop_last() =~= s@.subrange(
                start as int,
                i as int,
            ));
        }
        if next > 0x8000_0000 {
            proof {
                let prefix = s@.subrange(start as int, i + 1);
                assert(digits.take(i + 1 - start) =~= prefix);
                lemma_dec_val_prefix(digits, i + 1 - start);
                assert(dec_val(digits) >= next);
            }
            return None;
        }
        acc = next;
        i += 1;
    }
    proof {
        assert(s@.subrange(start as int, len as int) =~= digits);
    }
    if negative {
        if acc == 0x8000_0000 {
            Some(i32::MIN)
        } else {
            Some((-acc) as i32)
        }
    } else {
        if acc == 0x8000_0000 {
            None
        } else {
            Some(acc as i32)
        }
    }
}

/// A strictly positive integer that is a power of two.
pub open spec fn is_power_of_two(v: int) -> bool
    decreases v,
{
    if v <= 0 {
        false
    } else if v == 1 {
        true
    } else {
        v % 2 == 0 && is_power_of_two(v / 2)
    }
}

pub fn check_power_of_two(v: i32) -> (r: bool)
    ensures
        r == is_power_of_two(v as int),
{
    if v <= 0 {
        return false;
    }
    let mut x: i32 = v;
    while x % 2 == 0
        invariant
            x > 0,
            is_power_of_two(v as int) == is_power_of_two(x as int),
        decreases x,
    {
        x = x / 2;
    }
    x == 1
}

/// The first index of the dimension separator (`x`, in either case), or `-1`.
pub open spec fn first_sep(s: Seq<char>) -> int
    decreases s.len(),
{
    if s.len() == 0 {
        -1
    } else if s[0] == 'x' || s[0] == 'X' {
        0
    } else if first_sep(s.skip(1)) == -1 {
        -1
    } else {
        first_sep(s.skip(1)) + 1
    }
}

proof fn lemma_first_sep_at(s: Seq<char>, k: int)
    requires
        0 <= k < s.len(),
        s[k] == 'x' || s[k] == 'X',
        forall|j: int| 0 <= j < k ==> !(s[j] == 'x' || s[j] == 'X'),
    ensures
        first_sep(s) == k,
    decreases k,
{
    if k > 0 {
        lemma_first_sep_at(s.skip(1), k - 1);
    }
}

proof fn lemma_first_sep_none(s: Seq<char>)
    requires
        forall|j: int| 0 <= j < s.len() ==> !(s[j] == 'x' || s[j] == 'X'),
    ensures
        first_sep(s) == -1,
    decreases s.len(),
{
    if s.len() > 0 {
        lemma_first_sep_none(s.skip(1));
    }
}

/// The dimension value a raw substring stands for: its parsed value, with
/// any parse failure deliberately read as `-1` (which then fails the
/// positivity check).
pub open spec fn parsed_dim(s: Seq<char>) -> int {
    match parse_i32_spec(s) {
        Some(v) => v,
        None => -1,
    }
}

pub open spec fn dim_ok(v: int) -> bool {
    v > 0 && is_power_of_two(v)
}

/// The `size` value was present but had no `WxH` separator.
pub open spec fn is_size_format_error(e: Errors) -> bool {
    e matches Errors::BadQuery { query, reason } && query@ == "size"@ && reason@
        == "Expected a size in the following format: 'WxH'. Ex. 96x96"@
}

/// The width side was missing, non-numeric, non-positive or no power of two.
pub open spec fn is_width_error(e: Errors) -> bool {
    e matches Errors::BadQuery { query, reason } && query@ == "size"@ && reason@
        == "Could not parse width parameter (is it a power of 2?)"@
}

/// The height side was missing, non-numeric, non-positive or no power of two.
pub open spec fn is_height_error(e: Errors) -> bool {
    e matches Errors::BadQuery { query, reason } && query@ == "size"@ && reason@
        == "Could not parse height parameter (is it a power of 2?)"@
}

/// The view of an optional raw parameter.
pub open spec fn qview(s: Option<&str>) -> Option<Seq<char>> {
    match s {
        None => None,
        Some(v) => Some(v@),
    }
}

/// The width a raw `size` value names.
pub open spec fn size_width(s: Seq<char>) -> int {
    parsed_dim(s.subrange(0, first_sep(s)))
}

/// The height a raw `size` value names.
pub open spec fn size_height(s: Seq<char>) -> int {
    parsed_dim(s.subrange(first_sep(s) + 1, s.len() as int))
}

/// Whether the optional raw `size` parameter is acceptable: absent, or of
/// the form `WxH` with both sides strictly positive powers of two.
pub open spec fn size_valid_spec(q: Option<Seq<char>>) -> bool {
    match q {
        None => true,
        Some(s) => first_sep(s) >= 0 && dim_ok(size_width(s)) && dim_ok(size_height(s)),
    }
}

/// The size a valid parameter stands for.
pub open spec fn size_value_spec(q: Option<Seq<char>>) -> SizeSpec {
    match q {
        None => SizeSpec::Native,
        Some(s) => (SizeSpec::Fixed {
            width: size_width(s) as i32,
            height: size_height(s) as i32,
        }),
    }
}

/// The error owed for an unacceptable raw `size` value: the missing
/// separator is named first, then the width, then the height.
pub open spec fn size_error_matches(s: Seq<char>, e: Errors) -> bool {
    if first_sep(s) == -1 {
        is_size_format_error(e)
    } else if !dim_ok(size_width(s)) {
        is_width_error(e)
    } else {
        is_height_error(e)
    }
}

/// Validates the raw `size` query parameter. An absent parameter means
/// "native size"; otherwise the value must read `WxH` with both sides
/// strictly positive powers of two, the width being checked first. A side
/// that fails to parse as an integer counts as `-1` and so fails the
/// positivity check.
pub fn parse_size_query(size: Option<&str>) -> (r: Result<SizeSpec, Errors>)
    ensures
        size_valid_spec(qview(size)) ==> (r matches Ok(sz) && sz == size_value_spec(qview(size))),
        !size_valid_spec(qview(size)) ==> (size matches Some(s) && r matches Err(e)
            && size_error_matches(s@, e)),
{
    let s = match size {
        None => {
            return Ok(SizeSpec::Native);
        },
        Some(s) => s,
    };
    let len = s.unicode_len();
    let mut sep: usize = 0;
    let mut found = false;
    while sep < len && !found
        invariant
            sep <= len,
            len == s@.len(),
            found ==> sep < len && (s@[sep as int] == 'x' || s@[sep as int] == 'X'),
            forall|j: int| 0 <= j < sep ==> !(s@[j] == 'x' || s@[j] == 'X'),
        decreases len - sep + (if found { 0int } else { 1int }),
    {
        let c = s.get_char(sep);
        if c == 'x' || c == 'X' {
            found = true;
        } else {
            sep += 1;
        }
    }
    if !found {
        proof {
            lemma_first_sep_none(s@);
        }
        return Err(
            Errors::BadQuery {
                query: String::from_str("size"),
                reason: String::from_str("Expected a size in the following format: 'WxH'. Ex. 96x96"),
            },
        );
    }
    proof {
        lemma_first_sep_at(s@, sep as int);
    }
    let left = s.substring_char(0, sep);
    let right = s.substring_char(sep + 1, len);
    let w: i32 = match parse_i32(left) {
        Some(v) => v,
        None => -1,
    };
    let h: i32 = match parse_i32(right) {
        Some(v) => v,
        None => -1,
    };
    if !(w > 0 && check_power_of_two(w)) {
        Err(
            Errors::BadQuery {
                query: String::from_str("size"),
                reason: String::from_str("Could not parse width parameter (is it a power of 2?)"),
            },
        )
    } else if !(h > 0 && check_power_of_two(h)) {
        Err(
            Errors::BadQuery {
                query: String::from_str("size"),
                reason: String::from_str("Could not parse height parameter (is it a power of 2?)"),
            },
        )
    } else {
        Ok(SizeSpec::Fixed { width: w, height: h })
    }
}

} // verus!
