use venture::constants::{MAX_PLATFORM_FEE, PLATFORM_FEE};
use venture::errors::ErrorCode;
use venture::instructions::initialize::{initialize, InitializeCtx};
use venture::instructions::update_platform_settings::{
    update_platform_settings, UpdatePlatformSettingsCtx,
};
use venture::states::{ActorId, MarketplaceState};

fn actor(n: u8) -> ActorId {
    ActorId::new([n; 32])
}

fn blank_state() -> MarketplaceState {
    MarketplaceState {
        initialized: false,
        total_properties: 9,
        total_auctions: 9,
        total_escrows: 9,
        platform_fee: 9,
        platform_treasury: actor(0),
        admin: actor(0),
    }
}

fn running_state(admin: ActorId) -> MarketplaceState {
    let mut ctx = InitializeCtx { marketplace_state: blank_state(), admin };
    initialize(&mut ctx).unwrap();
    ctx.marketplace_state
}

#[test]
fn initialize_sets_defaults_and_makes_caller_admin_and_treasury() {
    let mut ctx = InitializeCtx { marketplace_state: blank_state(), admin: actor(1) };
    assert_eq!(initialize(&mut ctx), Ok(()));
    assert_eq!(
        ctx.marketplace_state,
        MarketplaceState {
            initialized: true,
            total_properties: 0,
            total_auctions: 0,
            total_escrows: 0,
            platform_fee: 250,
            platform_treasury: actor(1),
            admin: actor(1),
        }
    );
    assert_eq!(PLATFORM_FEE, 250);
    assert_eq!(ctx.admin, actor(1));
}

#[test]
fn initialize_twice_is_rejected_and_changes_nothing() {
    let mut state = running_state(actor(1));
    state.total_properties = 4;
    let mut ctx = InitializeCtx { marketplace_state: state, admin: actor(2) };
    assert_eq!(initialize(&mut ctx), Err(ErrorCode::AlreadyInitialized));
    assert_eq!(ctx.marketplace_state, state);
}

#[test]
fn update_changes_fee_and_treasury_independently() {
    let state = running_state(actor(1));

    let mut ctx = UpdatePlatformSettingsCtx { marketplace_state: state, admin: actor(1) };
    assert_eq!(update_platform_settings(&mut ctx, Some(500), None), Ok(()));
    assert_eq!(ctx.marketplace_state.platform_fee, 500);
    assert_eq!(ctx.marketplace_state.platform_treasury, actor(1));

    assert_eq!(update_platform_settings(&mut ctx, None, Some(actor(7))), Ok(()));
    assert_eq!(ctx.marketplace_state.platform_fee, 500);
    assert_eq!(ctx.marketplace_state.platform_treasury, actor(7));

    assert_eq!(update_platform_settings(&mut ctx, Some(0), Some(actor(8))), Ok(()));
    assert_eq!(ctx.marketplace_state.platform_fee, 0);
    assert_eq!(ctx.marketplace_state.platform_treasury, actor(8));

    let before = ctx.marketplace_state;
    assert_eq!(update_platform_settings(&mut ctx, None, None), Ok(()));
    assert_eq!(ctx.marketplace_state, before);
    assert_eq!(ctx.marketplace_state.admin, actor(1));
}

#[test]
fn update_accepts_the_maximum_fee_and_rejects_one_more() {
    let state = running_state(actor(1));
    let mut ctx = UpdatePlatformSettingsCtx { marketplace_state: state, admin: actor(1) };
    assert_eq!(MAX_PLATFORM_FEE, 1_000);
    assert_eq!(update_platform_settings(&mut ctx, Some(1_000), None), Ok(()));
    assert_eq!(ctx.marketplace_state.platform_fee, 1_000);

    let before = ctx.marketplace_state;
    assert_eq!(
        update_platform_settings(&mut ctx, Some(1_001), Some(actor(5))),
        Err(ErrorCode::InvalidFee)
    );
    assert_eq!(ctx.marketplace_state, before);
}

#[test]
fn update_by_someone_else_is_unauthorized() {
    let state = running_state(actor(1));
    let mut ctx = UpdatePlatformSettingsCtx { marketplace_state: state, admin: actor(2) };
    assert_eq!(
        update_platform_settings(&mut ctx, Some(100), Some(actor(2))),
        Err(ErrorCode::Unauthorized)
    );
    assert_eq!(ctx.marketplace_state, state);
    // the caller's role is checked before the fee
    assert_eq!(update_platform_settings(&mut ctx, Some(5_000), None), Err(ErrorCode::Unauthorized));
}

#[test]
fn actor_ids_compare_by_all_their_bytes() {
    let a = ActorId::new([3; 32]);
    let mut bytes = [3u8; 32];
    assert_eq!(a, ActorId::new(bytes));
    assert_eq!(a.to_bytes(), bytes);
    bytes[31] = 4;
    assert_ne!(a, ActorId::new(bytes));
    bytes[31] = 3;
    bytes[0] = 0;
    assert_ne!(a, ActorId::new(bytes));
}
