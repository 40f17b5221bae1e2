//! Platform names: case-insensitive resolution of the platform a request
//! names, and the shape of a subject identifier.
use vstd::prelude::*;
use vstd::string::*;
use crate::propagate::{Target, TargetView};

verus! {

/// Name of the one federated platform that reports and suspensions support.
pub open spec fn gravitalia() -> Seq<char> {
    "gravitalia"@
}

/// Marker of a platform-wide action.
pub open spec fn all_marker() -> Seq<char> {
    "all"@
}

/// The lowercase form of a string, as the standard library computes it.
pub uninterp spec fn lower_of(s: Seq<char>) -> Seq<char>;

/// Relies on `str::to_lowercase`: the result depends on the characters alone.
#[verifier::external_body]
pub(crate) fn lowercase(s: &String) -> (r: String)
    ensures
        r@ == lower_of(s@),
{
    s.to_lowercase()
}

/// The supported platform named by an already lowercased name.
pub open spec fn platform_spec(lowered: Seq<char>) -> Option<Seq<char>> {
    if lowered == gravitalia() {
        Some(gravitalia())
    } else {
        None
    }
}

/// The target named by an already lowercased name: the supported platform,
/// or every platform.
pub open spec fn target_spec(lowered: Seq<char>) -> Option<TargetView> {
    if lowered == gravitalia() {
        Some(TargetView::Only(gravitalia()))
    } else if lowered == all_marker() {
        Some(TargetView::All)
    } else {
        None
    }
}

/// The target that a stored suspension's platform marker designates.
pub open spec fn marker_target_spec(marker: Seq<char>) -> TargetView {
    if marker == all_marker() {
        TargetView::All
    } else {
        TargetView::Only(marker)
    }
}

/// Whether every character is an ASCII digit (true of the empty string).
pub open spec fn all_digits(s: Seq<char>) -> bool {
    forall|i: int| 0 <= i < s.len() ==> '0' <= #[trigger] s[i] <= '9'
}

/// The supported platform named by `lowered`, which is already lowercase.
pub fn platform_from_lower(lowered: &String) -> (r: Option<String>)
    ensures
        r.is_some() == platform_spec(lowered@).is_some(),
        r.is_some() ==> Some(r.unwrap()@) == platform_spec(lowered@),
{
    let name = String::from_str("gravitalia");
    if *lowered == name {
        Some(name)
    } else {
        None
    }
}

/// The supported platform that `name` designates, whatever its case.
pub fn resolve_platform(name: &String) -> (r: Option<String>)
    ensures
        r.is_some() == platform_spec(lower_of(name@)).is_some(),
        r.is_some() ==> Some(r.unwrap()@) == platform_spec(lower_of(name@)),
{
    let lowered = lowercase(name);
    platform_from_lower(&lowered)
}

/// The target named by `lowered`, which is already lowercase.
pub fn target_from_lower(lowered: &String) -> (r: Option<Target>)
    ensures
        r.is_some() == target_spec(lowered@).is_some(),
        r.is_some() ==> Some(r.unwrap()@) == target_spec(lowered@),
{
    let name = String::from_str("gravitalia");
    if *lowered == name {
        Some(Target::Only(name))
    } else if *lowered == String::from_str("all") {
        Some(Target::All)
    } else {
        None
    }
}

/// The target that `name` designates, whatever its case.
pub fn resolve_target(name: &String) -> (r: Option<Target>)
    ensures
        r.is_some() == target_spec(lower_of(name@)).is_some(),
        r.is_some() ==> Some(r.unwrap()@) == target_spec(lower_of(name@)),
{
    let lowered = lowercase(name);
    target_from_lower(&lowered)
}

/// The target that a stored platform marker designates.
pub fn marker_target(marker: &String) -> (r: Target)
    ensures
        r@ == marker_target_spec(marker@),
{
    if *marker == String::from_str("all") {
        Target::All
    } else {
        Target::Only(marker.clone())
    }
}

/// Whether `s` consists of ASCII digits only, as post identifiers do.
pub fn is_all_digits(s: &String) -> (r: bool)
    ensures
        r == all_digits(s@),
{
    let text = s.as_str();
    let n = text.unicode_len();
    let mut i: usize = 0;
    while i < n
        invariant
            n == s@.len(),
            text@ == s@,
            i <= n,
            forall|j: int| 0 <= j < i ==> '0' <= #[trigger] s@[j] <= '9',
        decreases n - i,
    {
        let c = text.get_char(i);
        if !('0' <= c && c <= '9') {
            return false;
        }
        i = i + 1;
    }
    true
}

} // verus!
