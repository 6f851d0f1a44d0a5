//! Comparing versions of the settings schema, through the `semver` crate.
use vstd::prelude::*;

verus! {

/// The order of two versions: -1, 0 or 1.
#[derive(Debug, Clone, Copy, PartialEq, Eq, Structural)]
pub enum VersionOrder {
    Less,
    Equal,
    Greater,
}

/// The opposite order.
pub open spec fn reverse(o: VersionOrder) -> VersionOrder {
    match o {
        VersionOrder::Less => VersionOrder::Greater,
        VersionOrder::Equal => VersionOrder::Equal,
        VersionOrder::Greater => VersionOrder::Less,
    }
}

/// Whether `semver::Version::parse` accepts the text.
pub uninterp spec fn semver_parses(s: Seq<char>) -> bool;

/// How `Ord::cmp` orders the two versions that `semver::Version::parse` reads from the texts.
pub uninterp spec fn semver_order(a: Seq<char>, b: Seq<char>) -> VersionOrder;

/// Parses both texts with `semver::Version::parse` and compares the versions with `Ord::cmp`;
/// `None` when either text is not a version. Both parts are named (`semver_parses`,
/// `semver_order`); as `Version`'s order is a total order (derived `Ord`), comparing the other
/// way round gives the opposite order.
#[verifier::external_body]
pub fn compare_versions(a: &str, b: &str) -> (r: Option<VersionOrder>)
    ensures
        r is Some <==> (semver_parses(a@) && semver_parses(b@)),
        r matches Some(o) ==> o == semver_order(a@, b@) && semver_order(b@, a@) == reverse(o),
{
    match (semver::Version::parse(a), semver::Version::parse(b)) {
        (Ok(x), Ok(y)) => Some(
            match x.cmp(&y) {
                std::cmp::Ordering::Less => VersionOrder::Less,
                std::cmp::Ordering::Equal => VersionOrder::Equal,
                std::cmp::Ordering::Greater => VersionOrder::Greater,
            },
        ),
        _ => None,
    }
}

} // verus!
