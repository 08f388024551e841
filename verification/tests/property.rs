use venture::errors::{ErrorCode, TextField};
use venture::instructions::create_property::{create_property, CreatePropertyCtx};
use venture::states::{ActorId, ListingState, MarketplaceState, Property};
use venture::text::fits;

fn actor(n: u8) -> ActorId {
    ActorId::new([n; 32])
}

fn state(total_properties: u64) -> MarketplaceState {
    MarketplaceState {
        initialized: true,
        total_properties,
        total_auctions: 3,
        total_escrows: 5,
        platform_fee: 250,
        platform_treasury: actor(9),
        admin: actor(9),
    }
}

fn ctx(total_properties: u64) -> CreatePropertyCtx {
    CreatePropertyCtx {
        marketplace_state: state(total_properties),
        owner: actor(1),
        mint: actor(2),
        now: 1_700_000_000,
    }
}

fn text(n: usize) -> String {
    "x".repeat(n)
}

fn create(
    ctx: &mut CreatePropertyCtx,
    title: usize,
    description: usize,
    image_url: usize,
    location: usize,
    property_type: usize,
) -> Result<Property, ErrorCode> {
    create_property(
        ctx,
        text(title),
        text(description),
        text(image_url),
        text(location),
        text(property_type),
        1_200,
        3,
        2,
        1999,
    )
}

#[test]
fn create_property_fills_the_record_and_counts_it() {
    let mut c = ctx(41);
    let property = create_property(
        &mut c,
        String::from("Lake House"),
        String::from("Two floors by the water"),
        String::from("https://example.org/lake.png"),
        String::from("Lakeside 4"),
        String::from("house"),
        1_200,
        3,
        2,
        1999,
    )
    .unwrap();
    assert_eq!(
        property,
        Property {
            property_id: 42,
            owner: actor(1),
            mint: actor(2),
            title: String::from("Lake House"),
            description: String::from("Two floors by the water"),
            image_url: String::from("https://example.org/lake.png"),
            location: String::from("Lakeside 4"),
            property_type: String::from("house"),
            size_sqft: 1_200,
            bedrooms: 3,
            bathrooms: 2,
            year_built: 1999,
            created_at: 1_700_000_000,
            listing_state: ListingState::NotListed,
        }
    );
    let mut expected = state(42);
    assert_eq!(c.marketplace_state, expected);
    expected.total_properties = 43;
    let next = create(&mut c, 1, 1, 1, 1, 1).unwrap();
    assert_eq!(next.property_id, 43);
    assert_eq!(c.marketplace_state, expected);
}

#[test]
fn create_property_takes_texts_of_exactly_the_limit() {
    let mut c = ctx(0);
    let property = create(&mut c, 64, 512, 256, 128, 32).unwrap();
    assert_eq!(property.property_id, 1);
    assert_eq!(property.title.len(), 64);
    assert_eq!(property.description.len(), 512);
    assert_eq!(property.image_url.len(), 256);
    assert_eq!(property.location.len(), 128);
    assert_eq!(property.property_type.len(), 32);
    assert_eq!(TextField::Title.max_len(), 64);
    assert_eq!(TextField::Description.max_len(), 512);
    assert_eq!(TextField::ImageUrl.max_len(), 256);
    assert_eq!(TextField::Location.max_len(), 128);
    assert_eq!(TextField::PropertyType.max_len(), 32);
}

#[test]
fn create_property_names_the_field_that_is_too_long() {
    let mut c = ctx(7);
    assert_eq!(
        create(&mut c, 65, 512, 256, 128, 32),
        Err(ErrorCode::FieldTooLong { field: TextField::Title })
    );
    assert_eq!(
        create(&mut c, 64, 513, 256, 128, 32),
        Err(ErrorCode::FieldTooLong { field: TextField::Description })
    );
    assert_eq!(
        create(&mut c, 64, 512, 257, 128, 32),
        Err(ErrorCode::FieldTooLong { field: TextField::ImageUrl })
    );
    assert_eq!(
        create(&mut c, 64, 512, 256, 129, 32),
        Err(ErrorCode::FieldTooLong { field: TextField::Location })
    );
    assert_eq!(
        create(&mut c, 64, 512, 256, 128, 33),
        Err(ErrorCode::FieldTooLong { field: TextField::PropertyType })
    );
    // nothing was counted
    assert_eq!(c, ctx(7));
}

#[test]
fn create_property_reports_the_first_field_that_is_too_long() {
    let mut c = ctx(7);
    assert_eq!(
        create(&mut c, 65, 513, 257, 129, 33),
        Err(ErrorCode::FieldTooLong { field: TextField::Title })
    );
    assert_eq!(
        create(&mut c, 1, 1, 257, 129, 33),
        Err(ErrorCode::FieldTooLong { field: TextField::ImageUrl })
    );
}

#[test]
fn create_property_measures_texts_in_bytes() {
    // 22 characters of three bytes each: 66 bytes
    let title = "\u{20ac}".repeat(22);
    assert_eq!(title.chars().count(), 22);
    let mut c = ctx(0);
    assert_eq!(
        create_property(
            &mut c,
            title,
            text(1),
            text(1),
            text(1),
            text(1),
            1,
            1,
            1,
            2000
        ),
        Err(ErrorCode::FieldTooLong { field: TextField::Title })
    );
    // 21 of them and one more byte: 64 bytes
    let mut title = "\u{20ac}".repeat(21);
    title.push('x');
    assert!(create_property(&mut c, title, text(1), text(1), text(1), text(1), 1, 1, 1, 2000)
        .is_ok());
}

#[test]
fn fits_compares_the_byte_length() {
    assert!(fits(&String::new(), 0));
    assert!(fits(&String::from("abc"), 3));
    assert!(!fits(&String::from("abcd"), 3));
    assert!(!fits(&String::from("\u{e9}\u{e9}"), 3));
    assert!(fits(&String::from("\u{e9}\u{e9}"), 4));
}

#[test]
fn create_property_with_exhausted_counter_is_an_overflow() {
    let mut c = ctx(u64::MAX);
    assert_eq!(create(&mut c, 1, 1, 1, 1, 1), Err(ErrorCode::ArithmeticOverflow));
    assert_eq!(c, ctx(u64::MAX));
    let mut c = ctx(u64::MAX - 1);
    assert_eq!(create(&mut c, 1, 1, 1, 1, 1).unwrap().property_id, u64::MAX);
}
