//! Registering a property.

use vstd::prelude::*;

use crate::errors::{ErrorCode, TextField};
use crate::states::actor::ActorId;
use crate::states::marketplace_state::MarketplaceState;
use crate::states::property::{ListingState, Property};
use crate::text::{byte_len, fits};

verus! {

/// What registering a property works on.
#[derive(Clone, Copy, Debug, PartialEq, Eq)]
pub struct CreatePropertyCtx {
    pub marketplace_state: MarketplaceState,
    /// The caller, who will own the property.
    pub owner: ActorId,
    /// The ownership token made for the property.
    pub mint: ActorId,
    /// The time of the call.
    pub now: u64,
}

/// The first reason, if any, for which a property with these texts is not
/// registered: a text over its limit, in the order title, description,
/// image address, location, type; then a property counter that is exhausted.
pub open spec fn create_property_error(
    ctx: CreatePropertyCtx,
    title: Seq<char>,
    description: Seq<char>,
    image_url: Seq<char>,
    location: Seq<char>,
    property_type: Seq<char>,
) -> Option<ErrorCode> {
    if byte_len(title) > TextField::Title.limit() {
        Some(ErrorCode::FieldTooLong { field: TextField::Title })
    } else if byte_len(description) > TextField::Description.limit() {
        Some(ErrorCode::FieldTooLong { field: TextField::Description })
    } else if byte_len(image_url) > TextField::ImageUrl.limit() {
        Some(ErrorCode::FieldTooLong { field: TextField::ImageUrl })
    } else if byte_len(location) > TextField::Location.limit() {
        Some(ErrorCode::FieldTooLong { field: TextField::Location })
    } else if byte_len(property_type) > TextField::PropertyType.limit() {
        Some(ErrorCode::FieldTooLong { field: TextField::PropertyType })
    } else if ctx.marketplace_state.total_properties == u64::MAX {
        Some(ErrorCode::ArithmeticOverflow)
    } else {
        None
    }
}

/// The context after a property was registered: one more property counted.
pub open spec fn create_property_effect(ctx: CreatePropertyCtx) -> CreatePropertyCtx {
    CreatePropertyCtx {
        marketplace_state: MarketplaceState {
            total_properties: (ctx.marketplace_state.total_properties + 1) as u64,
            ..ctx.marketplace_state
        },
        ..ctx
    }
}

/// Registers a property of the caller. Its id is the new value of the
/// property counter, it belongs to the caller, and it is not listed.
pub fn create_property(
    ctx: &mut CreatePropertyCtx,
    title: String,
    description: String,
    image_url: String,
    location: String,
    property_type: String,
    size_sqft: u64,
    bedrooms: u8,
    bathrooms: u8,
    year_built: u16,
) -> (r: Result<Property, ErrorCode>)
    ensures
        match r {
            Ok(property) => {
                &&& create_property_error(
                    *old(ctx),
                    title@,
                    description@,
                    image_url@,
                    location@,
                    property_type@,
                ) is None
                &&& *final(ctx) == create_property_effect(*old(ctx))
                &&& property == (Property {
                    property_id: final(ctx).marketplace_state.total_properties,
                    owner: old(ctx).owner,
                    mint: old(ctx).mint,
                    title,
                    description,
                    image_url,
                    location,
                    property_type,
                    size_sqft,
                    bedrooms,
                    bathrooms,
                    year_built,
                    created_at: old(ctx).now,
                    listing_state: ListingState::NotListed,
                })
                &&& property.property_id == old(ctx).marketplace_state.total_properties + 1
                &&& property.wf()
            },
            Err(e) => {
                &&& create_property_error(
                    *old(ctx),
                    title@,
                    description@,
                    image_url@,
                    location@,
                    property_type@,
                ) == Some(e)
                &&& *final(ctx) == *old(ctx)
            },
        },
{
    if !fits(&title, TextField::Title.max_len()) {
        return Err(ErrorCode::FieldTooLong { field: TextField::Title });
    }
    if !fits(&description, TextField::Description.max_len()) {
        return Err(ErrorCode::FieldTooLong { field: TextField::Description });
    }
    if !fits(&image_url, TextField::ImageUrl.max_len()) {
        return Err(ErrorCode::FieldTooLong { field: TextField::ImageUrl });
    }
    if !fits(&location, TextField::Location.max_len()) {
        return Err(ErrorCode::FieldTooLong { field: TextField::Location });
    }
    if !fits(&property_type, TextField::PropertyType.max_len()) {
        return Err(ErrorCode::FieldTooLong { field: TextField::PropertyType });
    }
    let property_id: u64 = match ctx.marketplace_state.total_properties.checked_add(1) {
        Some(id) => id,
        None => {
            return Err(ErrorCode::ArithmeticOverflow);
        },
    };
    ctx.marketplace_state.total_properties = property_id;
    Ok(
        Property {
            property_id,
            owner: ctx.owner,
            mint: ctx.mint,
            title,
            description,
            image_url,
            location,
            property_type,
            size_sqft,
            bedrooms,
            bathrooms,
            year_built,
            created_at: ctx.now,
            listing_state: ListingState::NotListed,
        },
    )
}

} // verus!
