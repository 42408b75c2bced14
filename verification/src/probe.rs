//! The capability probe: which keys a device supports.

use vstd::prelude::*;

verus! {

/// Trusted: `evdev::Key`, a key code in a wrapper. Nothing is said of it.
#[verifier::external_type_specification]
#[verifier::external_body]
pub struct ExKey(evdev::Key);

/// Trusted: `evdev::AttributeSetRef`, the bit set in which a device reports
/// what it supports. What it holds is known only through `supported_codes`.
#[verifier::external_type_specification]
#[verifier::external_body]
#[verifier::reject_recursive_types(T)]
pub struct ExAttributeSetRef<T>(evdev::AttributeSetRef<T>);

/// The key codes that a set of supported keys holds.
pub uninterp spec fn supported_codes(keys: &evdev::AttributeSetRef<evdev::Key>) -> Set<u16>;

/// Trusted: calls `evdev::AttributeSetRef::contains` with the key that
/// `evdev::Key::new` makes of `code`. The contract claims that the answer is
/// membership of the code in the set, and nothing of which codes a set holds.
#[verifier::external_body]
fn set_contains(keys: &evdev::AttributeSetRef<evdev::Key>, code: u16) -> (found: bool)
    ensures
        found == supported_codes(keys).contains(code),
{
    keys.contains(evdev::Key::new(code))
}

/// Whether a device that reports the keys `keys` supports the key `code`; a
/// device that reports no keys at all supports none.
pub open spec fn supports(keys: Option<&evdev::AttributeSetRef<evdev::Key>>, code: u16) -> bool {
    match keys {
        Some(set) => supported_codes(set).contains(code),
        None => false,
    }
}

/// Whether a device supports the key `code`, given the set of keys that it
/// reports.
pub fn has_key(keys: Option<&evdev::AttributeSetRef<evdev::Key>>, code: u16) -> (supported: bool)
    ensures
        supported == supports(keys, code),
{
    match keys {
        Some(set) => set_contains(set, code),
        None => false,
    }
}

} // verus!
