use venture::errors::ErrorCode;
use venture::instructions::create_escrow::{create_escrow, CreateEscrowCtx};
use venture::instructions::deposit_escrow::{deposit_escrow, DepositEscrowCtx};
use venture::instructions::release_escrow::{release_escrow, ReleaseEscrowCtx};
use venture::states::{ActorId, Escrow, ListingState, MarketplaceState, Property};
use venture::transfers::{AssetTransfer, Party, Payment, Settlement};

fn actor(n: u8) -> ActorId {
    ActorId::new([n; 32])
}

const SELLER: u8 = 1;
const BUYER: u8 = 2;
const ADMIN: u8 = 99;
const TREASURY: u8 = 90;
const MINT: u8 = 50;
const AMOUNT: u64 = 5_000_000_000;

fn state() -> MarketplaceState {
    MarketplaceState {
        initialized: true,
        total_properties: 3,
        total_auctions: 0,
        total_escrows: 20,
        platform_fee: 250,
        platform_treasury: actor(TREASURY),
        admin: actor(ADMIN),
    }
}

fn property(listing_state: ListingState) -> Property {
    Property {
        property_id: 3,
        owner: actor(SELLER),
        mint: actor(MINT),
        title: String::from("Barn"),
        description: String::from("Converted barn"),
        image_url: String::from("https://example.org/barn.png"),
        location: String::from("Field Road"),
        property_type: String::from("barn"),
        size_sqft: 2_000,
        bedrooms: 2,
        bathrooms: 1,
        year_built: 1950,
        created_at: 5,
        listing_state,
    }
}

fn listed() -> Property {
    property(ListingState::ListedDirect { price: AMOUNT })
}

fn create_ctx() -> CreateEscrowCtx {
    CreateEscrowCtx {
        marketplace_state: state(),
        property: listed(),
        seller: actor(SELLER),
        now: 777,
    }
}

fn new_escrow() -> Escrow {
    create_escrow(&mut create_ctx(), 3, actor(BUYER), AMOUNT, String::from("keys on payment"))
        .unwrap()
}

fn funded(amount: u64) -> Escrow {
    let mut ctx = DepositEscrowCtx { escrow: new_escrow(), depositor: actor(BUYER) };
    deposit_escrow(&mut ctx, 21, amount).unwrap();
    ctx.escrow
}

fn release_ctx(escrow: Escrow, authority: u8) -> ReleaseEscrowCtx {
    ReleaseEscrowCtx {
        marketplace_state: state(),
        escrow,
        property: listed(),
        authority: actor(authority),
    }
}

fn vault() -> Party {
    Party::EscrowVault(21)
}

#[test]
fn create_escrow_starts_empty_and_open() {
    let mut ctx = create_ctx();
    let escrow =
        create_escrow(&mut ctx, 3, actor(BUYER), AMOUNT, String::from("keys on payment")).unwrap();
    assert_eq!(
        escrow,
        Escrow {
            escrow_id: 21,
            property_id: 3,
            seller: actor(SELLER),
            buyer: actor(BUYER),
            amount: AMOUNT,
            deposited_amount: 0,
            conditions: String::from("keys on payment"),
            created_at: 777,
            is_completed: false,
            released_to_seller: false,
        }
    );
    let mut expected = create_ctx();
    expected.marketplace_state.total_escrows = 21;
    assert_eq!(ctx, expected);

    ctx.property.listing_state = ListingState::ListedAuction;
    let next = create_escrow(&mut ctx, 3, actor(BUYER), 1, "c".repeat(256)).unwrap();
    assert_eq!(next.escrow_id, 22);
    assert_eq!(ctx.marketplace_state.total_escrows, 22);
}

#[test]
fn create_escrow_rejections_come_in_order_and_change_nothing() {
    let mut ctx = create_ctx();
    ctx.seller = actor(7);
    ctx.property.listing_state = ListingState::NotListed;
    let before = ctx.clone();
    let long = "c".repeat(257);
    assert_eq!(
        create_escrow(&mut ctx, 4, actor(BUYER), 0, long.clone()),
        Err(ErrorCode::PropertyNotFound)
    );
    assert_eq!(create_escrow(&mut ctx, 3, actor(BUYER), 0, long.clone()), Err(ErrorCode::NotOwner));
    assert_eq!(ctx, before);
    ctx.seller = actor(SELLER);
    assert_eq!(
        create_escrow(&mut ctx, 3, actor(BUYER), 0, long.clone()),
        Err(ErrorCode::NotListed)
    );
    ctx.property.listing_state = ListingState::ListedDirect { price: AMOUNT };
    let before = ctx.clone();
    assert_eq!(
        create_escrow(&mut ctx, 3, actor(BUYER), 0, long),
        Err(ErrorCode::ConditionsTooLong)
    );
    assert_eq!(
        create_escrow(&mut ctx, 3, actor(BUYER), 0, String::new()),
        Err(ErrorCode::InvalidAmount)
    );
    ctx.marketplace_state.total_escrows = u64::MAX;
    assert_eq!(
        create_escrow(&mut ctx, 3, actor(BUYER), 1, String::new()),
        Err(ErrorCode::ArithmeticOverflow)
    );
    ctx.marketplace_state.total_escrows = 20;
    assert_eq!(ctx, before);
}

#[test]
fn deposits_add_up_without_a_cap() {
    let escrow = new_escrow();
    let mut ctx = DepositEscrowCtx { escrow: escrow.clone(), depositor: actor(BUYER) };
    let settlement = deposit_escrow(&mut ctx, 21, 2_000_000_000).unwrap();
    assert_eq!(
        settlement,
        Settlement {
            payments: vec![Payment {
                from: Party::Actor(actor(BUYER)),
                to: vault(),
                amount: 2_000_000_000
            }],
            asset: None,
        }
    );
    assert_eq!(ctx.escrow, Escrow { deposited_amount: 2_000_000_000, ..escrow.clone() });

    // the seller may pay in too, and the sum may pass the agreed amount
    ctx.depositor = actor(SELLER);
    let settlement = deposit_escrow(&mut ctx, 21, 4_000_000_000).unwrap();
    assert_eq!(settlement.payments[0].from, Party::Actor(actor(SELLER)));
    assert_eq!(ctx.escrow, Escrow { deposited_amount: 6_000_000_000, ..escrow });
    assert!(ctx.escrow.deposited_amount > ctx.escrow.amount);
}

#[test]
fn deposit_rejections_come_in_order_and_change_nothing() {
    let mut escrow = new_escrow();
    escrow.is_completed = true;
    let mut ctx = DepositEscrowCtx { escrow, depositor: actor(7) };
    let before = ctx.clone();
    assert_eq!(deposit_escrow(&mut ctx, 22, 0), Err(ErrorCode::NotFound));
    assert_eq!(deposit_escrow(&mut ctx, 21, 0), Err(ErrorCode::AlreadyCompleted));
    assert_eq!(ctx, before);
    ctx.escrow.is_completed = false;
    assert_eq!(deposit_escrow(&mut ctx, 21, 0), Err(ErrorCode::InvalidAmount));
    assert_eq!(deposit_escrow(&mut ctx, 21, 1), Err(ErrorCode::Unauthorized));
    ctx.depositor = actor(ADMIN);
    assert_eq!(deposit_escrow(&mut ctx, 21, 1), Err(ErrorCode::Unauthorized));
    ctx.depositor = actor(BUYER);
    ctx.escrow.deposited_amount = u64::MAX - 4;
    let before = ctx.clone();
    assert_eq!(deposit_escrow(&mut ctx, 21, 5), Err(ErrorCode::ArithmeticOverflow));
    assert_eq!(ctx, before);
    assert!(deposit_escrow(&mut ctx, 21, 4).is_ok());
    assert_eq!(ctx.escrow.deposited_amount, u64::MAX);
}

#[test]
fn escrow_released_to_seller_transfers_property_to_buyer() {
    let escrow = new_escrow();
    assert_eq!(escrow.amount, 5_000_000_000);
    let mut ctx = DepositEscrowCtx { escrow, depositor: actor(BUYER) };
    deposit_escrow(&mut ctx, 21, 5_000_000_000).unwrap();
    assert_eq!(ctx.escrow.deposited_amount, 5_000_000_000);
    let escrow = ctx.escrow;

    let mut ctx = release_ctx(escrow.clone(), BUYER);
    let settlement = release_escrow(&mut ctx, 21, true).unwrap();
    assert_eq!(
        settlement,
        Settlement {
            payments: vec![
                Payment { from: vault(), to: Party::Actor(actor(SELLER)), amount: 4_875_000_000 },
                Payment { from: vault(), to: Party::Actor(actor(TREASURY)), amount: 125_000_000 },
            ],
            asset: Some(AssetTransfer {
                mint: actor(MINT),
                from: actor(SELLER),
                to: actor(BUYER)
            }),
        }
    );
    assert_eq!(ctx.property.owner, actor(BUYER));
    assert_eq!(ctx.property.listing_state, ListingState::NotListed);
    assert!(ctx.escrow.is_completed);
    assert_eq!(ctx.escrow.deposited_amount, 0);
    assert_eq!(
        ctx.escrow,
        Escrow { deposited_amount: 0, is_completed: true, released_to_seller: true, ..escrow }
    );
    let mut sold = property(ListingState::NotListed);
    sold.owner = actor(BUYER);
    assert_eq!(ctx.property, sold);
    assert_eq!(ctx.marketplace_state, state());
}

#[test]
fn escrow_refund_returns_everything_to_the_buyer() {
    let escrow = funded(AMOUNT + 7);
    let mut ctx = release_ctx(escrow.clone(), SELLER);
    let settlement = release_escrow(&mut ctx, 21, false).unwrap();
    assert_eq!(
        settlement,
        Settlement {
            payments: vec![Payment {
                from: vault(),
                to: Party::Actor(actor(BUYER)),
                amount: AMOUNT + 7
            }],
            asset: None,
        }
    );
    assert_eq!(
        ctx.escrow,
        Escrow { deposited_amount: 0, is_completed: true, released_to_seller: false, ..escrow }
    );
    assert_eq!(ctx.property, listed());
}

#[test]
fn release_uses_all_that_was_deposited_not_the_agreed_amount() {
    let mut ctx = release_ctx(funded(1_000), ADMIN);
    let settlement = release_escrow(&mut ctx, 21, true).unwrap();
    assert_eq!(settlement.payments[0].amount, 975);
    assert_eq!(settlement.payments[1].amount, 25);
    assert_eq!(ctx.property.owner, actor(BUYER));
}

#[test]
fn release_rejections_come_in_order_and_change_nothing() {
    let mut escrow = new_escrow();
    escrow.is_completed = true;
    let mut ctx = release_ctx(escrow, 7);
    ctx.property.property_id = 4;
    ctx.marketplace_state.platform_fee = 10_001;
    let before = ctx.clone();
    assert_eq!(release_escrow(&mut ctx, 20, true), Err(ErrorCode::NotFound));
    assert_eq!(release_escrow(&mut ctx, 21, true), Err(ErrorCode::AlreadyCompleted));
    assert_eq!(ctx, before);
    ctx.escrow.is_completed = false;
    assert_eq!(release_escrow(&mut ctx, 21, true), Err(ErrorCode::InsufficientBalance));
    assert_eq!(release_escrow(&mut ctx, 21, false), Err(ErrorCode::InsufficientBalance));
    ctx.escrow.deposited_amount = 10_000;
    assert_eq!(release_escrow(&mut ctx, 21, true), Err(ErrorCode::Unauthorized));
    ctx.authority = actor(TREASURY);
    assert_eq!(release_escrow(&mut ctx, 21, false), Err(ErrorCode::Unauthorized));
    ctx.authority = actor(ADMIN);
    assert_eq!(release_escrow(&mut ctx, 21, true), Err(ErrorCode::PropertyNotFound));
    assert_eq!(release_escrow(&mut ctx, 21, false), Err(ErrorCode::PropertyNotFound));
    ctx.property.property_id = 3;
    let before = ctx.clone();
    assert_eq!(release_escrow(&mut ctx, 21, true), Err(ErrorCode::ArithmeticOverflow));
    assert_eq!(ctx, before);
    // a refund takes no fee and so goes through
    assert!(release_escrow(&mut ctx, 21, false).is_ok());
}

#[test]
fn completed_escrow_takes_no_deposit_and_no_second_release() {
    let mut ctx = release_ctx(funded(AMOUNT), BUYER);
    release_escrow(&mut ctx, 21, false).unwrap();
    let done = ctx.clone();
    assert_eq!(release_escrow(&mut ctx, 21, false), Err(ErrorCode::AlreadyCompleted));
    assert_eq!(release_escrow(&mut ctx, 21, true), Err(ErrorCode::AlreadyCompleted));
    assert_eq!(ctx, done);
    let mut ctx = DepositEscrowCtx { escrow: ctx.escrow, depositor: actor(BUYER) };
    assert_eq!(deposit_escrow(&mut ctx, 21, 1), Err(ErrorCode::AlreadyCompleted));
    assert_eq!(ctx.escrow, done.escrow);
}
