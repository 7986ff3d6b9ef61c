//! Tenant bits and visibility masks.
//!
//! Every tenant owns one bit of a shared 32-bit signed mask. Bit positions
//! 0 through 30 are usable; the sign bit is never handed out.

use vstd::prelude::*;

verus! {

/// The highest bit that can be assigned to a tenant.
pub const MAX_TENANT_BIT: i32 = 0x4000_0000;

/// Why a new bit could not be allocated.
#[derive(Debug, Clone, Copy, PartialEq, Eq, Structural)]
pub enum MaskError {
    /// The mask has no room for another tenant.
    Exhausted,
}

/// The bit at position `k`.
pub open spec fn bit_at(k: u32) -> i32 {
    1i32 << k
}

/// `b` is a single usable bit: a power of two between 1 and 2^30.
pub open spec fn is_tenant_bit(b: i32) -> bool {
    exists|k: u32| k <= 30 && b == #[trigger] bit_at(k)
}

/// The bit that follows a current maximum of `max`, if the mask has room.
pub open spec fn spec_next_bit(max: i32) -> Option<i32> {
    if max == 0 {
        Some(1i32)
    } else if 0 < max && max < MAX_TENANT_BIT {
        Some((2 * max) as i32)
    } else {
        None
    }
}

/// A tenant holding `bit` may see content whose mask is `mask`.
pub open spec fn spec_is_visible(bit: i32, mask: i32) -> bool {
    bit & mask != 0
}

/// Computes the next free bit above `max`, the largest bit in use (0 when
/// none is). Fails instead of wrapping once bit 30 has been handed out.
pub fn next_bit(max: i32) -> (r: Result<i32, MaskError>)
    ensures
        r == match spec_next_bit(max) {
            Some(b) => Ok::<i32, MaskError>(b),
            None => Err::<i32, MaskError>(MaskError::Exhausted),
        },
        r is Ok ==> r->Ok_0 > max,
{
    if max == 0 {
        Ok(1)
    } else if 0 < max && max < MAX_TENANT_BIT {
        let b: i32 = max << 1;
        assert(b == 2 * max) by (bit_vector)
            requires
                b == max << 1,
                0 < max,
                max < 0x4000_0000i32,
        ;
        Ok(b)
    } else {
        Err(MaskError::Exhausted)
    }
}

/// Decides whether content with visibility mask `mask` may be read by the
/// tenant that owns `bit`.
pub fn is_visible(bit: i32, mask: i32) -> (r: bool)
    ensures
        r == spec_is_visible(bit, mask),
{
    (bit & mask) != 0
}

/// Decides whether `b` is a single usable bit.
pub fn check_tenant_bit(b: i32) -> (r: bool)
    ensures
        r == is_tenant_bit(b),
{
    let mut k: u32 = 0;
    while k <= 30
        invariant
            k <= 31,
            forall|j: u32| j < k ==> b != #[trigger] bit_at(j),
        decreases 31 - k,
    {
        if b == 1i32 << k {
            assert(b == bit_at(k));
            return true;
        }
        k = k + 1;
    }
    false
}

/// A tenant bit lies between 1 and the highest usable bit.
pub proof fn lemma_tenant_bit_bounds(b: i32)
    requires
        is_tenant_bit(b),
    ensures
        1 <= b <= MAX_TENANT_BIT,
{
    let k = choose|k: u32| k <= 30 && b == #[trigger] bit_at(k);
    assert(1 <= (1i32 << k) <= 0x4000_0000i32) by (bit_vector)
        requires
            k <= 30,
    ;
}

/// One is the lowest tenant bit, and the first to be handed out.
pub proof fn lemma_first_bit()
    ensures
        is_tenant_bit(1),
        spec_next_bit(0) == Some(1i32),
{
    assert(1i32 == 1i32 << 0u32) by (bit_vector);
    assert(1i32 == bit_at(0));
}

/// Allocation from a tenant bit yields the tenant bit one position higher,
/// and fails exactly at the highest usable bit.
pub proof fn lemma_next_bit_is_tenant_bit(max: i32)
    requires
        is_tenant_bit(max),
    ensures
        max < MAX_TENANT_BIT ==> spec_next_bit(max) is Some && is_tenant_bit(spec_next_bit(max)->0)
            && spec_next_bit(max)->0 > max,
        max == MAX_TENANT_BIT ==> spec_next_bit(max) is None,
{
    lemma_tenant_bit_bounds(max);
    let k = choose|k: u32| k <= 30 && max == #[trigger] bit_at(k);
    if max < MAX_TENANT_BIT {
        let b = (2 * max) as i32;
        let k1 = (k + 1) as u32;
        assert(k < 30 && (2 * (1i32 << k)) as i32 == 1i32 << ((k + 1) as u32)) by (bit_vector)
            requires
                k <= 30,
                (1i32 << k) < 0x4000_0000i32,
        ;
        assert(b == bit_at(k1));
    }
}

/// Two different tenant bits share no bit position.
pub proof fn lemma_distinct_bits_disjoint(a: i32, b: i32)
    requires
        is_tenant_bit(a),
        is_tenant_bit(b),
        a != b,
    ensures
        a & b == 0,
{
    let j = choose|k: u32| k <= 30 && a == #[trigger] bit_at(k);
    let k = choose|k: u32| k <= 30 && b == #[trigger] bit_at(k);
    assert((1i32 << j) & (1i32 << k) == 0) by (bit_vector)
        requires
            j <= 30,
            k <= 30,
            j != k,
    ;
}

/// Content tagged with exactly one tenant's bit is visible to that tenant
/// and to no other.
pub proof fn lemma_single_bit_mask(bit: i32, owner: i32)
    requires
        is_tenant_bit(bit),
        is_tenant_bit(owner),
    ensures
        spec_is_visible(bit, owner) <==> bit == owner,
{
    if bit == owner {
        lemma_tenant_bit_bounds(bit);
        assert(bit & bit == bit) by (bit_vector);
    } else {
        lemma_distinct_bits_disjoint(bit, owner);
    }
}

/// An empty mask is visible to nobody.
pub proof fn lemma_empty_mask_hides_everything(bit: i32)
    ensures
        !spec_is_visible(bit, 0),
{
    assert(bit & 0i32 == 0) by (bit_vector);
}

} // verus!
