use vstd::prelude::*;

verus! {

/// `needle`'s characters occur in `hay` as one contiguous run.
pub open spec fn contains_seq(hay: Seq<char>, needle: Seq<char>) -> bool {
    exists|i: int|
        0 <= i && i + needle.len() <= hay.len() && #[trigger] hay.subrange(
            i,
            i + needle.len() as int,
        ) == needle
}

/// The lower-case form that `str::to_lowercase` produces. It is a function
/// of the input characters alone, named here rather than spelled out.
pub uninterp spec fn lower_of(s: Seq<char>) -> Seq<char>;

/// Relies on `str::to_lowercase`: the result depends on the input
/// characters alone.
#[verifier::external_body]
fn to_lower(s: &str) -> (r: String)
    ensures
        r@ == lower_of(s@),
{
    s.to_lowercase()
}

/// Relies on `str::contains` with a `&str` pattern: true exactly when the
/// needle matches a sub-slice of the haystack.
#[verifier::external_body]
fn str_contains(hay: &str, needle: &str) -> (r: bool)
    ensures
        r == contains_seq(hay@, needle@),
{
    hay.contains(needle)
}

/// Some tag, lower-cased, has `kw` as a substring.
pub open spec fn spec_any_tag_contains(tags: Seq<Seq<char>>, kw: Seq<char>) -> bool {
    exists|i: int| 0 <= i < tags.len() && contains_seq(lower_of(tags[i]), kw)
}

/// Case-insensitive keyword test over free-text tags: true when some tag,
/// lower-cased, contains `kw` as a substring.
pub fn any_tag_contains(tags: &[String], kw: &str) -> (r: bool)
    ensures
        r == spec_any_tag_contains(tags.deep_view(), kw@),
{
    let n = tags.len();
    let mut i: usize = 0;
    while i < n
        invariant
            n == tags@.len(),
            0 <= i <= n,
            forall|j: int| 0 <= j < i ==> !contains_seq(lower_of(tags.deep_view()[j]), kw@),
        decreases n - i,
    {
        let low = to_lower(tags[i].as_str());
        if str_contains(low.as_str(), kw) {
            assert(contains_seq(lower_of(tags.deep_view()[i as int]), kw@));
            return true;
        }
        i = i + 1;
    }
    false
}

} // verus!
