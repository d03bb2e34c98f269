use vstd::prelude::*;

verus! {

/// The bits of a 128-bit identifier that hold its version (four bits) and its
/// variant (two bits).
pub const VERSION_AND_VARIANT: u128 = 0x0000_0000_0000_f000_c000_0000_0000_0000;

/// The value of those bits in a randomly generated identifier: version 4,
/// variant `10`.
pub const RANDOM_VERSION_AND_VARIANT: u128 = 0x0000_0000_0000_4000_8000_0000_0000_0000;

/// Whether `id` is the nil identifier, all bits zero.
pub open spec fn is_nil(id: u128) -> bool {
    id == 0
}

/// Whether `id` has the shape of a randomly generated identifier: its version
/// is 4 and its variant is `10`. The other 122 bits are free.
pub open spec fn is_random_id(id: u128) -> bool {
    id & VERSION_AND_VARIANT == RANDOM_VERSION_AND_VARIANT
}

/// A randomly generated identifier is never the nil identifier.
pub proof fn lemma_random_id_is_not_nil(id: u128)
    requires
        is_random_id(id),
    ensures
        !is_nil(id),
{
    assert(id & 0x0000_0000_0000_f000_c000_0000_0000_0000u128
        == 0x0000_0000_0000_4000_8000_0000_0000_0000u128 ==> id != 0u128) by (bit_vector);
}

/// Exec test for [`is_random_id`].
pub fn has_random_shape(id: u128) -> (b: bool)
    ensures
        b == is_random_id(id),
{
    id & VERSION_AND_VARIANT == RANDOM_VERSION_AND_VARIANT
}

/// Whether `ids` holds `id`.
pub fn contains_id(ids: &Vec<u128>, id: u128) -> (found: bool)
    ensures
        found == ids@.contains(id),
{
    let mut i: usize = 0;
    while i < ids.len()
        invariant
            i <= ids.len(),
            forall|j: int| 0 <= j < i ==> ids@[j] != id,
        decreases ids.len() - i,
    {
        if ids[i] == id {
            return true;
        }
        i += 1;
    }
    false
}

/// Draws a fresh identifier from `uuid::Uuid::new_v4` and hands it out as the
/// 128-bit number that `Uuid::as_u128` gives for it.
///
/// Trusted: `new_v4` masks the operating system's random bits so that the
/// version is 4 and the variant is `10`; nothing else is claimed, in
/// particular not that two draws differ.
#[verifier::external_body]
pub(crate) fn new_id() -> (id: u128)
    ensures
        is_random_id(id),
{
    uuid::Uuid::new_v4().as_u128()
}

} // verus!
