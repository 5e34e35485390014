//! The header container used on every hop: `http::HeaderMap`, kept behind a
//! small trusted surface.
//!
//! The map is modelled as a mathematical map from a (lowercase) header name to
//! the sequence of values stored under it. `header_entries` names that
//! contents; the one operation redirect handling performs on a header map —
//! removing every value of a sensitive header — is wrapped with a contract
//! over it.

use vstd::prelude::*;

verus! {

/// `http::HeaderMap`: the header container of the `http` crate, a multimap
/// from case-insensitive header names to values. Opaque here; its contents
/// are reached only through `header_entries`.
#[verifier::external_type_specification]
#[verifier::external_body]
#[verifier::reject_recursive_types(T)]
pub struct ExHeaderMap<T>(http::HeaderMap<T>);

/// `http::HeaderValue`: a single header value, an opaque byte string. It is
/// the value type a plain `http::HeaderMap` carries.
#[verifier::external_type_specification]
#[verifier::external_body]
pub struct ExHeaderValue(http::HeaderValue);

/// The contents of a header map: for each header name present (in lowercase,
/// as the map normalises names), the values stored under it, in order.
pub uninterp spec fn header_entries(m: http::HeaderMap) -> Map<Seq<char>, Seq<Seq<u8>>>;

/// Whether `s` contains no uppercase ASCII letter, so that it matches the
/// lowercase form a header map stores names in.
pub open spec fn lowercase_name(s: Seq<char>) -> bool {
    forall|i: int| 0 <= i < s.len() ==> !('A' <= #[trigger] s[i] && s[i] <= 'Z')
}

/// Relies on `http::HeaderMap::remove`: every value stored under `name` is
/// removed from the map (extra values included) and no other entry changes.
/// The map stores names lowercased, so `name` is required to be lowercase;
/// a name no entry has leaves the map as it was, as `Map::remove` does.
#[verifier::external_body]
pub(crate) fn remove_header(m: &mut http::HeaderMap, name: &str)
    requires
        lowercase_name(name@),
    ensures
        header_entries(*final(m)) == header_entries(*old(m)).remove(name@),
{
    m.remove(name);
}

} // verus!
