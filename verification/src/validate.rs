//! The validator: a functional specification of the whole check
//! sequence, and the executable `validate` method proved against it.

use vstd::prelude::*;

use crate::checks::check_category;
use crate::checks::check_creators_addresses;
use crate::checks::check_creators_shares;
use crate::checks::check_name;
use crate::checks::check_seller_fee_basis_points;
use crate::checks::check_symbol;
use crate::checks::check_url;
use crate::checks::valid_addresses;
use crate::checks::valid_category;
use crate::checks::valid_name;
use crate::checks::valid_seller_fee_basis_points;
use crate::checks::valid_shares;
use crate::checks::valid_symbol;
use crate::checks::valid_url;
use crate::metadata::Metadata;
use crate::metadata::MetadataView;
use crate::metadata::PropertyView;
use crate::metadata::ValidationError;

verus! {

/// The category assigned when none was supplied: `video` when an
/// animation URL is present, `image` otherwise.  Both members of the
/// vocabulary that [`valid_category`] accepts, and that must stay so.
pub open spec fn default_category(m: MetadataView) -> Seq<char> {
    if m.animation_url is Some {
        "video"@
    } else {
        "image"@
    }
}

/// The one mutation validation may perform: a missing
/// `properties.category` is filled with [`default_category`]; a
/// record that already carries a category is left as it is.
pub open spec fn normalize(m: MetadataView) -> MetadataView {
    if m.properties.category is None {
        MetadataView {
            properties: PropertyView {
                files: m.properties.files,
                creators: m.properties.creators,
                category: Some(default_category(m)),
            },
            ..m
        }
    } else {
        m
    }
}

/// The checks that run before the category is defaulted, in their
/// fixed order, short-circuiting on the first failure.  None of them
/// reads `properties.category`.
pub open spec fn checks_before_default(m: MetadataView) -> Result<(), ValidationError> {
    if !valid_name(m.name) {
        Err(ValidationError::InvalidName)
    } else if !valid_url(m.image) {
        Err(ValidationError::InvalidUrl)
    } else if m.seller_fee_basis_points matches Some(bp) && !valid_seller_fee_basis_points(bp) {
        Err(ValidationError::InvalidFeeBasisPoints)
    } else if m.symbol matches Some(s) && !valid_symbol(s) {
        Err(ValidationError::InvalidSymbol)
    } else if m.properties.creators matches Some(cs) && !valid_shares(cs) {
        Err(ValidationError::InvalidCreatorShares)
    } else if m.properties.creators matches Some(cs) && !valid_addresses(cs) {
        Err(ValidationError::InvalidCreatorAddress)
    } else {
        Ok(())
    }
}

/// The checks that run after the category is defaulted, again in
/// their fixed order with the first failure winning.
pub open spec fn checks_after_default(m: MetadataView) -> Result<(), ValidationError> {
    if !(m.properties.category matches Some(c) && valid_category(c)) {
        Err(ValidationError::InvalidCategory)
    } else if m.animation_url matches Some(u) && !valid_url(u) {
        Err(ValidationError::InvalidUrl)
    } else if m.external_url matches Some(u) && !valid_url(u) {
        Err(ValidationError::InvalidUrl)
    } else {
        Ok(())
    }
}

/// The result validation returns on a record: the first failure of
/// the fixed check sequence, the later checks seeing the record with
/// its category defaulted.
pub open spec fn validate_outcome(m: MetadataView) -> Result<(), ValidationError> {
    if checks_before_default(m) is Err {
        checks_before_default(m)
    } else {
        checks_after_default(normalize(m))
    }
}

/// The state validation leaves behind: the record is normalized
/// exactly when the checks before the defaulting step all passed,
/// whether or not a later check then failed.
pub open spec fn validate_final_state(m: MetadataView) -> MetadataView {
    if checks_before_default(m) is Ok {
        normalize(m)
    } else {
        m
    }
}

/// A record every check accepts as it stands, category included.
pub open spec fn valid_metadata(m: MetadataView) -> bool {
    checks_before_default(m) is Ok && checks_after_default(m) is Ok
}

impl Metadata {
    /// Validates the record against the schema, defaulting a missing
    /// `properties.category` on the way, and reports the first
    /// failing check.
    pub fn validate(&mut self) -> (r: Result<(), ValidationError>)
        ensures
            r == validate_outcome(old(self)@),
            final(self)@ == validate_final_state(old(self)@),
            r is Ok ==> valid_metadata(final(self)@),
    {
        if !check_name(self.name.as_str()) {
            return Err(ValidationError::InvalidName);
        }
        if !check_url(self.image.as_str()) {
            return Err(ValidationError::InvalidUrl);
        }

        if let Some(sfbp) = self.seller_fee_basis_points {
            if !check_seller_fee_basis_points(sfbp) {
                return Err(ValidationError::InvalidFeeBasisPoints);
            }
        }
        if let Some(symbol) = &self.symbol {
            if !check_symbol(symbol.as_str()) {
                return Err(ValidationError::InvalidSymbol);
            }
        }

        if let Some(creators) = &self.properties.creators {
            if !check_creators_shares(creators) {
                return Err(ValidationError::InvalidCreatorShares);
            }
            if !check_creators_addresses(creators) {
                return Err(ValidationError::InvalidCreatorAddress);
            }
        }

        if self.properties.category.is_none() {
            let category = if self.animation_url.is_some() {
                "video"
            } else {
                "image"
            };
            self.properties.category = Some(category.to_owned());
            assert(self@ =~= normalize(old(self)@));
        }
        assert(self@ == validate_final_state(old(self)@));

        let category_ok = match &self.properties.category {
            Some(category) => check_category(category.as_str()),
            None => vstd::pervasive::unreached(),
        };
        if !category_ok {
            return Err(ValidationError::InvalidCategory);
        }

        if let Some(animation_url) = &self.animation_url {
            if !check_url(animation_url.as_str()) {
                return Err(ValidationError::InvalidUrl);
            }
        }

        if let Some(external_url) = &self.external_url {
            if !check_url(external_url.as_str()) {
                return Err(ValidationError::InvalidUrl);
            }
        }

        Ok(())
    }
}

} // verus!
