//! The collateral-authenticity gate: a collateral item is lockable only
//! if its metadata names the item itself and its first listed creator is
//! the accepted one and carries a verified issuer signature.
//!
//! Only two fields matter here: which collateral item a record
//! describes, and the creators it lists. Parsing a metadata account into
//! this shape is the store boundary's job.

use vstd::prelude::*;
use crate::AccountId;
use crate::ErrorCode;

verus! {

/// One creator entry of a collateral item's metadata.
#[derive(Clone, Copy, PartialEq, Eq, Structural, Debug)]
pub struct Creator {
    pub address: AccountId,
    pub verified: bool,
}

/// The part of a collateral item's metadata that the lockability gate
/// reads.
pub struct NftMetadata {
    /// The collateral item this metadata record describes.
    pub mint: AccountId,
    /// The creators the record lists, in order, if any.
    pub creators: Option<Vec<Creator>>,
}

/// The verdict of the lockability gate: the metadata must describe the
/// presented collateral item, must list at least one creator, and its
/// first creator must be the accepted one, with its issuer-verification
/// flag set.
pub open spec fn spec_lockable_nft(
    mint_id: AccountId,
    mint_of_metadata: AccountId,
    creators: Option<Seq<Creator>>,
    accepted_creator: AccountId,
) -> Result<(), ErrorCode> {
    if mint_of_metadata != mint_id {
        Err(ErrorCode::MetadataMintMismatch)
    } else {
        match creators {
            Some(list) => if list.len() == 0 {
                Err(ErrorCode::MetadataHasNoCreators)
            } else if list[0].address != accepted_creator {
                Err(ErrorCode::UnexpectedMetadataCreator)
            } else if !list[0].verified {
                Err(ErrorCode::MetadataCreatorUnverified)
            } else {
                Ok(())
            },
            None => Err(ErrorCode::MetadataHasNoCreators),
        }
    }
}

/// The creator list of a metadata record, as a mathematical sequence.
pub open spec fn spec_creators_of(metadata: NftMetadata) -> Option<Seq<Creator>> {
    match metadata.creators {
        Some(list) => Some(list@),
        None => None,
    }
}

/// Checks that a collateral item may be locked: its metadata must
/// describe it and must name `accepted_creator`, verified, first among
/// its creators.
pub fn assert_lockable_nft(
    mint_id: AccountId,
    metadata: &NftMetadata,
    accepted_creator: AccountId,
) -> (r: Result<(), ErrorCode>)
    ensures
        r == spec_lockable_nft(
            mint_id,
            metadata.mint,
            spec_creators_of(*metadata),
            accepted_creator,
        ),
{
    if metadata.mint != mint_id {
        return Err(ErrorCode::MetadataMintMismatch);
    }
    match &metadata.creators {
        Some(creators) => {
            if creators.len() == 0 {
                return Err(ErrorCode::MetadataHasNoCreators);
            }
            let creator = &creators[0];
            if creator.address != accepted_creator {
                return Err(ErrorCode::UnexpectedMetadataCreator);
            }
            if !creator.verified {
                return Err(ErrorCode::MetadataCreatorUnverified);
            }
            Ok(())
        },
        None => Err(ErrorCode::MetadataHasNoCreators),
    }
}

} // verus!
