//! Workspace address codec: packs a (monitor ordinal, local workspace
//! number) pair into a single compositor-wide workspace identifier.
//!
//! Ordinal 0 means "unscoped/primary": the composite is the local number
//! itself. Ordinals 1..9 scope the address to a monitor's ring position:
//! the composite is `ordinal * 10 + local`. The scheme cannot distinguish
//! more than 9 ring positions; larger ordinals are rejected rather than
//! silently generalised.

use vstd::prelude::*;

use crate::Error;

verus! {

/// A local workspace number is valid when it lies in `[1, 9]`.
pub open spec fn valid_local(local: int) -> bool {
    1 <= local <= 9
}

/// A monitor ordinal is valid when it lies in `[0, 9]`; 0 is unscoped.
pub open spec fn valid_ordinal(ordinal: int) -> bool {
    0 <= ordinal <= 9
}

/// The composite workspace identifier for a (ordinal, local) pair.
pub open spec fn composite(ordinal: int, local: int) -> int {
    if ordinal == 0 {
        local
    } else {
        ordinal * 10 + local
    }
}

/// Packs `ordinal` and `local` into the composite workspace identifier
/// understood by the compositor's workspace commands.
///
/// Succeeds exactly on the supported range (`ordinal` in `[0, 9]`,
/// `local` in `[1, 9]`); anything else is an invalid workspace address.
pub fn encode(ordinal: u8, local: u8) -> (r: Result<u8, Error>)
    ensures
        r is Ok <==> valid_ordinal(ordinal as int) && valid_local(local as int),
        r matches Ok(id) ==> id as int == composite(ordinal as int, local as int),
        r matches Err(e) ==> e == Error::InvalidWorkspace,
{
    if ordinal > 9 || local < 1 || local > 9 {
        Err(Error::InvalidWorkspace)
    } else if ordinal == 0 {
        Ok(local)
    } else {
        Ok(ordinal * 10 + local)
    }
}

/// An unscoped address is the local number itself: `encode(0, w) == w`
/// for every valid `w`.
pub proof fn lemma_unscoped_identity(local: int)
    requires
        valid_local(local),
    ensures
        composite(0, local) == local,
{
}

/// Composite identifiers are unique: over the scoped range the codec is
/// injective, and no scoped address collides with an unscoped one.
pub proof fn lemma_composite_unique(a: int, la: int, b: int, lb: int)
    requires
        1 <= a <= 9,
        valid_local(la),
        1 <= b <= 9,
        valid_local(lb),
    ensures
        composite(a, la) == composite(b, lb) ==> a == b && la == lb,
        forall|w: int| valid_local(w) ==> composite(a, la) != composite(0, w),
{
}

} // verus!
