//! Laws of the validator, each proved once and for all over the
//! mathematical views.

use vstd::prelude::*;

use crate::checks::MAX_SELLER_FEE_BASIS_POINTS;
use crate::checks::REQUIRED_SHARE_TOTAL;
use crate::checks::sum_of_shares;
use crate::checks::valid_category;
use crate::checks::valid_name;
use crate::checks::valid_seller_fee_basis_points;
use crate::checks::valid_symbol;
use crate::checks::valid_url;
use crate::metadata::MetadataView;
use crate::metadata::ValidationError;
use crate::validate::default_category;
use crate::validate::valid_metadata;
use crate::validate::validate_final_state;
use crate::validate::validate_outcome;

verus! {

/// A record with an empty name is rejected as `InvalidName`,
/// whatever its other fields hold, and is left unchanged.
pub proof fn lemma_empty_name_rejected(m: MetadataView)
    requires
        m.name.len() == 0,
    ensures
        validate_outcome(m) == Err::<(), ValidationError>(ValidationError::InvalidName),
        validate_final_state(m) == m,
{
}

/// A record whose image is not a syntactically valid URL is rejected
/// as `InvalidUrl` even when its name is valid, and is left
/// unchanged.
pub proof fn lemma_invalid_image_url_rejected(m: MetadataView)
    requires
        valid_name(m.name),
        !valid_url(m.image),
    ensures
        validate_outcome(m) == Err::<(), ValidationError>(ValidationError::InvalidUrl),
        validate_final_state(m) == m,
{
}

/// A royalty above the basis-point maximum is rejected as
/// `InvalidFeeBasisPoints` once the name and image checks before it
/// have passed, and the record is left unchanged.
pub proof fn lemma_excessive_fee_rejected(m: MetadataView)
    requires
        valid_name(m.name),
        valid_url(m.image),
        m.seller_fee_basis_points matches Some(bp) && bp > MAX_SELLER_FEE_BASIS_POINTS,
    ensures
        validate_outcome(m) == Err::<(), ValidationError>(ValidationError::InvalidFeeBasisPoints),
        validate_final_state(m) == m,
{
}

/// An absent royalty never triggers the basis-point check: no record
/// without `seller_fee_basis_points` is rejected for it.
pub proof fn lemma_absent_fee_not_rejected(m: MetadataView)
    requires
        m.seller_fee_basis_points is None,
    ensures
        validate_outcome(m) != Err::<(), ValidationError>(ValidationError::InvalidFeeBasisPoints),
{
}

/// When creators are present and their shares do not sum to the
/// required total, the record is rejected as `InvalidCreatorShares`
/// once the checks before it have passed — whatever the creator
/// addresses look like, since shares are checked before addresses.
pub proof fn lemma_bad_shares_rejected(m: MetadataView)
    requires
        valid_name(m.name),
        valid_url(m.image),
        m.seller_fee_basis_points matches Some(bp) ==> valid_seller_fee_basis_points(bp),
        m.symbol matches Some(s) ==> valid_symbol(s),
        m.properties.creators matches Some(cs) && sum_of_shares(cs) != REQUIRED_SHARE_TOTAL,
    ensures
        validate_outcome(m) == Err::<(), ValidationError>(ValidationError::InvalidCreatorShares),
        validate_final_state(m) == m,
{
}

/// Validation is idempotent on a record that is already valid with
/// its category set: it succeeds and performs no mutation, so a
/// second call sees the identical record and succeeds identically,
/// emitting no defaulting notice either time.
pub proof fn lemma_validate_idempotent(m: MetadataView)
    requires
        valid_metadata(m),
    ensures
        validate_outcome(m) == Ok::<(), ValidationError>(()),
        validate_final_state(m) == m,
{
}

/// A successful validation leaves a record that every check accepts
/// as it stands — so, by the idempotence law, re-validating it (for
/// example after a serialization round trip that reproduces it)
/// succeeds again without mutation.
pub proof fn lemma_validate_establishes_validity(m: MetadataView)
    requires
        validate_outcome(m) is Ok,
    ensures
        valid_metadata(validate_final_state(m)),
{
}

/// The defaulted category is always a member of the allowed
/// vocabulary, so the category check passes whenever it was the
/// defaulting step that supplied the value.
pub proof fn lemma_default_category_in_vocabulary(m: MetadataView)
    ensures
        valid_category(default_category(m)),
{
}

} // verus!
