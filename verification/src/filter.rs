//! The directives of the log filter: those the user gave, unless they are
//! blank, else a default that keeps the chattiest GPU modules quiet.

use vstd::prelude::*;
use tracing_subscriber::EnvFilter;
use vstd::string::StrSliceExecFns;

verus! {

/// Records `info` and above, and only errors from `wgpu_core`, `wgpu_hal` and
/// `naga`.
pub const DEFAULT_FILTER: &'static str = "info,wgpu_core=error,wgpu_hal=error,naga=error";

#[verifier::external_type_specification]
#[verifier::external_body]
pub struct ExEnvFilter(EnvFilter);

/// The characters with the Unicode `White_Space` property.
pub open spec fn is_white_space(c: char) -> bool {
    let n = c as u32;
    ||| 0x9 <= n <= 0xd
    ||| n == 0x20
    ||| n == 0x85
    ||| n == 0xa0
    ||| n == 0x1680
    ||| 0x2000 <= n <= 0x200a
    ||| n == 0x2028
    ||| n == 0x2029
    ||| n == 0x202f
    ||| n == 0x205f
    ||| n == 0x3000
}

/// `t` is `s` without its leading and trailing white space.
pub open spec fn is_trimmed(s: Seq<char>, t: Seq<char>) -> bool {
    exists|i: int, j: int|
        {
            &&& 0 <= i <= j <= s.len()
            &&& t == s.subrange(i, j)
            &&& forall|k: int| 0 <= k < i ==> is_white_space(#[trigger] s[k])
            &&& forall|k: int| j <= k < s.len() ==> is_white_space(#[trigger] s[k])
            &&& i < j ==> !is_white_space(s[i]) && !is_white_space(s[j - 1])
        }
}

/// `str::trim`: the slice without its leading and trailing white space, where
/// white space is what has the Unicode `White_Space` property. The contract
/// claims exactly that.
#[verifier::external_body]
fn trim(s: &str) -> (t: &str)
    ensures
        is_trimmed(s@, t@),
{
    s.trim()
}

/// Some character is not white space.
pub open spec fn is_not_blank(s: Seq<char>) -> bool {
    exists|k: int| 0 <= k < s.len() && !is_white_space(#[trigger] s[k])
}

proof fn lemma_trimmed_empty_iff_blank(s: Seq<char>, t: Seq<char>)
    requires
        is_trimmed(s, t),
    ensures
        t.len() == 0 <==> !is_not_blank(s),
{
    let (i, j) = choose|i: int, j: int|
        {
            &&& 0 <= i <= j <= s.len()
            &&& t == s.subrange(i, j)
            &&& forall|k: int| 0 <= k < i ==> is_white_space(#[trigger] s[k])
            &&& forall|k: int| j <= k < s.len() ==> is_white_space(#[trigger] s[k])
            &&& i < j ==> !is_white_space(s[i]) && !is_white_space(s[j - 1])
        };
    if t.len() == 0 {
        assert forall|k: int| 0 <= k < s.len() implies is_white_space(#[trigger] s[k]) by {
            if k >= i {
                assert(k >= j);
            }
        }
    } else {
        assert(!is_white_space(s[i]));
    }
}

/// The directives the filter is built from: the given ones when there are any
/// and they are not blank, the default ones otherwise.
pub open spec fn spec_filter_directives(rust_log: Option<Seq<char>>) -> Seq<char> {
    match rust_log {
        Some(s) => if is_not_blank(s) {
            s
        } else {
            DEFAULT_FILTER@
        },
        None => DEFAULT_FILTER@,
    }
}

/// Given directives that hold a character other than white space are used
/// exactly as given; missing or blank ones give way to `DEFAULT_FILTER`.
pub proof fn law_given_directives_are_used(s: Seq<char>)
    ensures
        (exists|k: int| 0 <= k < s.len() && !is_white_space(#[trigger] s[k])) ==> spec_filter_directives(Some(s)) == s,
        (forall|k: int| 0 <= k < s.len() ==> is_white_space(#[trigger] s[k])) ==> spec_filter_directives(Some(s)) == DEFAULT_FILTER@,
        spec_filter_directives(None) == DEFAULT_FILTER@,
{
}

/// Picks the filter directives: `rust_log` as it is when it holds a character
/// other than white space, `DEFAULT_FILTER` when it is missing or blank.
pub fn filter_directives<'a>(rust_log: Option<&'a str>) -> (d: &'a str)
    ensures
        d@ == spec_filter_directives(
            match rust_log {
                Some(s) => Some(s@),
                None => None,
            },
        ),
{
    match rust_log {
        Some(directives) => {
            let trimmed = trim(directives);
            proof {
                lemma_trimmed_empty_iff_blank(directives@, trimmed@);
            }
            if trimmed.is_empty() {
                DEFAULT_FILTER
            } else {
                directives
            }
        },
        None => DEFAULT_FILTER,
    }
}

/// The directives an `EnvFilter` holds (its static directives, then its
/// dynamic ones), each as the filter's `Display` writes it.
pub uninterp spec fn env_filter_directives(filter: EnvFilter) -> Seq<Seq<char>>;

/// The directives `EnvFilter::new` keeps of a comma-separated directive
/// string: a function of the string alone.
pub uninterp spec fn parsed_env_filter(directives: Seq<char>) -> Seq<Seq<char>>;

/// Position `k` starts one of the comma-separated segments of `s`.
pub open spec fn starts_segment(s: Seq<char>, k: int) -> bool {
    0 <= k < s.len() && (k == 0 || s[k - 1] == ',')
}

/// No comma stands in `s` from position `k` up to, not including, `j`.
pub open spec fn no_comma_between(s: Seq<char>, k: int, j: int) -> bool {
    forall|m: int| k <= m < j ==> s[m] != ','
}

/// Every segment of `s` that begins with white space is plain ASCII. The
/// directive parser reads a segment's positions off its trimmed text but cuts
/// the untrimmed one at them; when leading white space and multi-byte
/// characters meet in one segment the cut can fall inside a character and
/// panic, so such segments are left out.
pub open spec fn directives_parse_safely(s: Seq<char>) -> bool {
    forall|k: int, j: int|
        #![trigger s[k], s[j]]
        starts_segment(s, k) && is_white_space(s[k]) && k <= j < s.len() && no_comma_between(
            s,
            k,
            j,
        ) ==> (s[j] as u32) < 128
}

/// Whether a character has the Unicode `White_Space` property.
pub fn is_white_space_char(c: char) -> (b: bool)
    ensures
        b == is_white_space(c),
{
    let n = c as u32;
    (0x9 <= n && n <= 0xd) || n == 0x20 || n == 0x85 || n == 0xa0 || n == 0x1680 || (0x2000 <= n
        && n <= 0x200a) || n == 0x2028 || n == 0x2029 || n == 0x202f || n == 0x205f || n == 0x3000
}

/// The segments of `s` that begin with white space are ASCII in their first
/// `i` positions.
#[verifier::opaque]
spec fn parse_safe_upto(s: Seq<char>, i: int) -> bool {
    forall|k: int, j: int|
        #![trigger s[k], s[j]]
        starts_segment(s, k) && is_white_space(s[k]) && k <= j < i && no_comma_between(s, k, j)
            ==> (s[j] as u32) < 128
}

/// One more position: the one at `i`, in the segment starting at `cur`.
proof fn lemma_parse_safe_step(s: Seq<char>, i: int, cur: int)
    requires
        0 <= cur <= i < s.len(),
        starts_segment(s, cur),
        no_comma_between(s, cur, i),
        parse_safe_upto(s, i),
        is_white_space(s[cur]) ==> (s[i] as u32) < 128,
    ensures
        parse_safe_upto(s, i + 1),
{
    reveal(parse_safe_upto);
    assert forall|k: int, j: int|
        #![trigger s[k], s[j]]
        starts_segment(s, k) && is_white_space(s[k]) && k <= j < i + 1 && no_comma_between(
            s,
            k,
            j,
        ) implies (s[j] as u32) < 128 by {
        if j == i {
            if k < cur {
                assert(s[cur - 1] == ',');
            } else if k > cur {
                assert(s[k - 1] == ',');
            }
        }
    }
}

/// A segment that begins with white space and holds a non-ASCII character
/// makes the directives unsafe to parse.
proof fn lemma_not_parse_safe(s: Seq<char>, k: int, j: int)
    requires
        starts_segment(s, k),
        is_white_space(s[k]),
        k <= j < s.len(),
        no_comma_between(s, k, j),
        !((s[j] as u32) < 128),
    ensures
        !directives_parse_safely(s),
{
}

/// Whether the directive parser can take `directives` without the risk of
/// cutting a character apart: every segment that begins with white space is
/// plain ASCII.
pub fn directives_are_parse_safe(directives: &str) -> (b: bool)
    ensures
        b == directives_parse_safely(directives@),
{
    let n = directives.unicode_len();
    let ghost s = directives@;
    let mut i: usize = 0;
    let mut prev_comma = false;
    let mut must_be_ascii = false;
    let ghost mut cur: int = 0;
    proof {
        reveal(parse_safe_upto);
    }
    while i < n
        invariant
            n == s.len(),
            s == directives@,
            i <= n,
            prev_comma == (i > 0 && s[i - 1] == ','),
            i > 0 && !prev_comma ==> 0 <= cur < i && starts_segment(s, cur) && no_comma_between(
                s,
                cur,
                i as int,
            ) && must_be_ascii == is_white_space(s[cur]),
            parse_safe_upto(s, i as int),
        decreases n - i,
    {
        let c = directives.get_char(i);
        if i == 0 || prev_comma {
            must_be_ascii = is_white_space_char(c);
            proof {
                cur = i as int;
            }
        }
        if must_be_ascii && (c as u32) >= 128 {
            proof {
                lemma_not_parse_safe(s, cur, i as int);
            }
            return false;
        }
        proof {
            lemma_parse_safe_step(s, i as int, cur);
        }
        prev_comma = c == ',';
        i = i + 1;
    }
    proof {
        reveal(parse_safe_upto);
    }
    true
}

proof fn lemma_default_filter_parse_safe()
    ensures
        directives_parse_safely(DEFAULT_FILTER@),
{
    reveal_strlit("info,wgpu_core=error,wgpu_hal=error,naga=error");
    let s = DEFAULT_FILTER@;
    assert forall|k: int| 0 <= k < s.len() implies !is_white_space(#[trigger] s[k]) by {}
}

/// `EnvFilter::new`: a filter parsed from comma-separated directives, invalid
/// ones ignored and reported on standard error. It panics when a segment with
/// leading white space is cut inside a multi-byte character, which
/// `directives_parse_safely` rules out, and when that report cannot be written
/// to standard error, which no argument decides. The contract claims that the
/// directives the new filter holds are `parsed_env_filter` of the string; what
/// they are is left to that name. The filter's caches (keyed by per-process
/// hashers) are not part of it.
#[verifier::external_body]
fn new_env_filter(directives: &str) -> (f: EnvFilter)
    requires
        directives_parse_safely(directives@),
    ensures
        env_filter_directives(f) == parsed_env_filter(directives@),
{
    EnvFilter::new(directives)
}

/// The log filter for the given `RUST_LOG`-style directives: the filter that
/// `EnvFilter::new` builds from `filter_directives(rust_log)`. Given
/// directives that are used, that is, not blank, must parse safely; the
/// default ones do.
pub fn env_filter(rust_log: Option<&str>) -> (f: EnvFilter)
    requires
        rust_log matches Some(s) ==> (is_not_blank(s@) ==> directives_parse_safely(s@)),
    ensures
        env_filter_directives(f) == parsed_env_filter(
            spec_filter_directives(
                match rust_log {
                    Some(s) => Some(s@),
                    None => None,
                },
            ),
        ),
{
    let directives = filter_directives(rust_log);
    proof {
        lemma_default_filter_parse_safe();
    }
    new_env_filter(directives)
}

} // verus!
