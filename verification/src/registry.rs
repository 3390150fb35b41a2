//! Where the configuration is read from.

use vstd::prelude::*;

verus! {

/// The configuration category that names helper programs.
pub const BAR_CATEGORY: &'static str = "programs";

/// The key, in that category, under which the title of the status bar is
/// kept.
pub const BAR_KEY: &'static str = "x11_bar";

/// `uuid::Uuid::nil` gives the identifier of which all 128 bits are zero, and
/// `Uuid::as_u128` reads an identifier as one number, first byte first. The
/// contract claims that the two together give zero.
#[verifier::external_body]
fn nil_identifier() -> (id: u128)
    ensures
        id == 0,
{
    uuid::Uuid::nil().as_u128()
}

/// The registry client whose configuration the dispatch reads.
pub open spec fn spec_registry_client() -> u128 {
    0
}

/// The registry client whose configuration the dispatch reads: the one with
/// the nil identifier.
#[verifier::when_used_as_spec(spec_registry_client)]
pub fn registry_client() -> (id: u128)
    ensures
        id == spec_registry_client(),
{
    nil_identifier()
}

} // verus!
