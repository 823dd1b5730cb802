use anchor_amm::ledger::Asset;
use anchor_amm::ledger::Authority;
use anchor_amm::ledger::Burn;
use anchor_amm::ledger::Holder;
use anchor_amm::ledger::MintTo;
use anchor_amm::ledger::Transfer;
use anchor_amm::Address;
use anchor_amm::AmmError;
use anchor_amm::AuthError;
use anchor_amm::Config;
use anchor_amm::Deposit;
use anchor_amm::DepositInstructions;
use anchor_amm::Initialize;
use anchor_amm::InitializeBumps;
use anchor_amm::Swap;
use anchor_amm::SwapInstructions;
use anchor_amm::Withdraw;
use anchor_amm::WithdrawInstructions;

fn address(tag: u8) -> Address {
    let mut bytes = [0u8; 32];
    bytes[0] = tag;
    bytes[31] = tag;
    Address { bytes }
}

fn blank() -> Config {
    Config {
        authority: None,
        seed: 0,
        fee: 0,
        mint_x: Address { bytes: [0u8; 32] },
        mint_y: Address { bytes: [0u8; 32] },
        locked: false,
        config_bump: 0,
        lp_bump: 0,
    }
}

fn new_pool(fee: u16) -> Config {
    let mut accounts =
        Initialize { mint_token_x: address(1), mint_token_y: address(2), config: blank() };
    let bumps = InitializeBumps { config: 254, mint_lp_token: 253 };
    accounts.init(7, fee, Some(address(9)), bumps).unwrap();
    accounts.config
}

fn pay_in(asset: Asset, amount: u64) -> Transfer {
    Transfer { asset, from: Holder::User, to: Holder::Vault, authority: Authority::User, amount }
}

fn pay_out(asset: Asset, amount: u64) -> Transfer {
    Transfer { asset, from: Holder::Vault, to: Holder::User, authority: Authority::Pool, amount }
}

#[test]
fn initialize_records_the_parameters() {
    let mut accounts =
        Initialize { mint_token_x: address(1), mint_token_y: address(2), config: blank() };
    let bumps = InitializeBumps { config: 254, mint_lp_token: 253 };
    assert_eq!(accounts.init(7, 30, Some(address(9)), bumps), Ok(()));
    assert_eq!(
        accounts.config,
        Config {
            authority: Some(address(9)),
            seed: 7,
            fee: 30,
            mint_x: address(1),
            mint_y: address(2),
            locked: false,
            config_bump: 254,
            lp_bump: 253,
        }
    );
    assert_eq!(accounts.mint_token_x, address(1));
    assert_eq!(accounts.mint_token_y, address(2));
}

#[test]
fn initialize_without_authority() {
    let mut accounts =
        Initialize { mint_token_x: address(1), mint_token_y: address(2), config: blank() };
    let bumps = InitializeBumps { config: 1, mint_lp_token: 2 };
    assert_eq!(accounts.init(u64::MAX, 10000, None, bumps), Ok(()));
    assert_eq!(accounts.config.authority, None);
    assert_eq!(accounts.config.fee, 10000);
    assert_eq!(accounts.config.seed, u64::MAX);
    assert!(!accounts.config.locked);
}

#[test]
fn initialize_with_fee_above_the_whole_is_an_invalid_amount() {
    let mut accounts =
        Initialize { mint_token_x: address(1), mint_token_y: address(2), config: blank() };
    let before = accounts;
    let bumps = InitializeBumps { config: 254, mint_lp_token: 253 };
    assert_eq!(accounts.init(7, 10001, Some(address(9)), bumps), Err(AmmError::InvalidAmount));
    assert_eq!(accounts, before);
    assert_eq!(accounts.init(7, u16::MAX, None, bumps), Err(AmmError::InvalidAmount));
    assert_eq!(accounts, before);
}

#[test]
fn new_pool_is_empty_and_unlocked() {
    let pool = Deposit::new(new_pool(30));
    assert_eq!(pool, Deposit { config: new_pool(30), lp_supply: 0, vault_x: 0, vault_y: 0 });
    assert!(!pool.config.locked);
}

#[test]
fn first_deposit_seeds_the_pool() {
    let mut pool = Deposit::new(new_pool(30));
    let done = pool.deposit(500, 1000, 2000).unwrap();
    assert_eq!(
        done,
        DepositInstructions {
            deposit_x: pay_in(Asset::X, 1000),
            deposit_y: pay_in(Asset::Y, 2000),
            mint_lp: MintTo { authority: Authority::Pool, amount: 500 },
        }
    );
    assert_eq!((pool.vault_x, pool.vault_y), (1000, 2000));
    assert_eq!(pool.lp_supply, 500);
    assert!(pool.lp_supply > 0);
    assert_eq!(pool.config, new_pool(30));
}

#[test]
fn first_deposit_takes_the_maxima_whatever_the_shares() {
    for shares in [1u64, 2, 500, 1_000_000, u64::MAX] {
        let mut pool = Deposit { config: new_pool(30), lp_supply: 0, vault_x: 0, vault_y: 0 };
        let done = pool.deposit(shares, 1000, 2000).unwrap();
        assert_eq!(done.deposit_x.amount, 1000);
        assert_eq!(done.deposit_y.amount, 2000);
        assert_eq!((pool.vault_x, pool.vault_y, pool.lp_supply), (1000, 2000, shares));
    }
}

#[test]
fn first_deposit_of_nothing_is_an_invalid_amount() {
    let empty = Deposit { config: new_pool(30), lp_supply: 0, vault_x: 0, vault_y: 0 };
    let mut pool = empty;
    assert_eq!(pool.deposit(500, 0, 2000), Err(AmmError::InvalidAmount));
    assert_eq!(pool, empty);
    assert_eq!(pool.deposit(500, 1000, 0), Err(AmmError::InvalidAmount));
    assert_eq!(pool, empty);
    assert_eq!(pool.deposit(0, 1000, 2000), Err(AmmError::InvalidAmount));
    assert_eq!(pool, empty);
}

#[test]
fn later_deposit_pays_its_share() {
    let mut pool = Deposit { config: new_pool(30), lp_supply: 500, vault_x: 1000, vault_y: 2000 };
    let done = pool.deposit(50, 100, 200).unwrap();
    assert_eq!(done.deposit_x, pay_in(Asset::X, 100));
    assert_eq!(done.deposit_y, pay_in(Asset::Y, 200));
    assert_eq!(done.mint_lp, MintTo { authority: Authority::Pool, amount: 50 });
    assert_eq!((pool.vault_x, pool.vault_y, pool.lp_supply), (1100, 2200, 550));
}

#[test]
fn later_deposit_rounds_against_the_depositor() {
    let mut pool = Deposit { config: new_pool(30), lp_supply: 300, vault_x: 1000, vault_y: 2000 };
    let done = pool.deposit(1, 10, 10).unwrap();
    assert_eq!((done.deposit_x.amount, done.deposit_y.amount), (4, 7));
    assert_eq!((pool.vault_x, pool.vault_y, pool.lp_supply), (1004, 2007, 301));
}

#[test]
fn deposit_beyond_the_maxima_exceeds_slippage() {
    let seeded = Deposit { config: new_pool(30), lp_supply: 500, vault_x: 1000, vault_y: 2000 };
    let mut pool = seeded;
    assert_eq!(pool.deposit(50, 99, 200), Err(AmmError::SlippageExceeded));
    assert_eq!(pool, seeded);
    assert_eq!(pool.deposit(50, 100, 199), Err(AmmError::SlippageExceeded));
    assert_eq!(pool, seeded);
    assert_eq!(pool.deposit(50, 0, 0), Err(AmmError::SlippageExceeded));
    assert_eq!(pool, seeded);
    assert!(pool.deposit(50, 100, 200).is_ok());
}

#[test]
fn deposit_of_no_shares_is_an_invalid_amount() {
    let seeded = Deposit { config: new_pool(30), lp_supply: 500, vault_x: 1000, vault_y: 2000 };
    let mut pool = seeded;
    assert_eq!(pool.deposit(0, 100, 200), Err(AmmError::InvalidAmount));
    assert_eq!(pool, seeded);
}

#[test]
fn deposit_into_reserves_without_supply_is_a_curve_error() {
    let odd = Deposit { config: new_pool(30), lp_supply: 0, vault_x: 1000, vault_y: 0 };
    let mut pool = odd;
    assert_eq!(pool.deposit(50, 100, 200), Err(AmmError::CurveError));
    assert_eq!(pool, odd);
}

#[test]
fn deposit_that_outgrows_64_bits_is_a_curve_error() {
    let full = Deposit { config: new_pool(30), lp_supply: 10, vault_x: u64::MAX - 5, vault_y: 10 };
    let mut pool = full;
    // one share in ten owes a tenth of each reserve, far more than the room left
    assert_eq!(pool.deposit(1, u64::MAX, u64::MAX), Err(AmmError::CurveError));
    assert_eq!(pool, full);
    let many = Deposit { config: new_pool(30), lp_supply: u64::MAX, vault_x: 10, vault_y: 10 };
    let mut pool = many;
    assert_eq!(pool.deposit(1, u64::MAX, u64::MAX), Err(AmmError::CurveError));
    assert_eq!(pool, many);
}

#[test]
fn deposit_tokens_credits_the_selected_reserve() {
    let mut pool = Deposit { config: new_pool(30), lp_supply: 500, vault_x: 1000, vault_y: 2000 };
    assert_eq!(pool.deposit_tokens(true, 5), Ok(pay_in(Asset::X, 5)));
    assert_eq!((pool.vault_x, pool.vault_y, pool.lp_supply), (1005, 2000, 500));
    assert_eq!(pool.deposit_tokens(false, 7), Ok(pay_in(Asset::Y, 7)));
    assert_eq!((pool.vault_x, pool.vault_y, pool.lp_supply), (1005, 2007, 500));
    assert_eq!(pool.deposit_tokens(true, u64::MAX), Err(AmmError::CurveError));
    assert_eq!(pool.deposit_tokens(false, u64::MAX), Err(AmmError::CurveError));
    assert_eq!((pool.vault_x, pool.vault_y, pool.lp_supply), (1005, 2007, 500));
}

#[test]
fn mint_lp_tokens_grows_the_supply() {
    let mut pool = Deposit { config: new_pool(30), lp_supply: 500, vault_x: 1000, vault_y: 2000 };
    assert_eq!(pool.mint_lp_tokens(25), Ok(MintTo { authority: Authority::Pool, amount: 25 }));
    assert_eq!((pool.vault_x, pool.vault_y, pool.lp_supply), (1000, 2000, 525));
    assert_eq!(pool.mint_lp_tokens(u64::MAX), Err(AmmError::CurveError));
    assert_eq!((pool.vault_x, pool.vault_y, pool.lp_supply), (1000, 2000, 525));
}

#[test]
fn swap_x_for_y() {
    let mut pool = Swap { config: new_pool(30), vault_x: 1000, vault_y: 2000 };
    let done = pool.swap(true, 100, 0).unwrap();
    assert_eq!(
        done,
        SwapInstructions { deposit: pay_in(Asset::X, 100), withdraw: pay_out(Asset::Y, 182) }
    );
    assert_eq!((pool.vault_x, pool.vault_y), (1100, 1818));
    assert_eq!(pool.config, new_pool(30));
}

#[test]
fn swap_y_for_x() {
    let mut pool = Swap { config: new_pool(30), vault_x: 1000, vault_y: 2000 };
    let done = pool.swap(false, 100, 0).unwrap();
    assert_eq!(
        done,
        SwapInstructions { deposit: pay_in(Asset::Y, 100), withdraw: pay_out(Asset::X, 48) }
    );
    assert_eq!((pool.vault_x, pool.vault_y), (952, 2100));
}

#[test]
fn swap_with_a_fee_that_bites_raises_the_product() {
    let mut pool = Swap { config: new_pool(30), vault_x: 1_000_000, vault_y: 2_000_000 };
    let before = pool.vault_x as u128 * pool.vault_y as u128;
    let done = pool.swap(true, 10_000, 19_744).unwrap();
    assert_eq!((done.deposit.amount, done.withdraw.amount), (10_000, 19_744));
    assert_eq!((pool.vault_x, pool.vault_y), (1_010_000, 1_980_256));
    let after = pool.vault_x as u128 * pool.vault_y as u128;
    assert!(after > before);
}

#[test]
fn swap_of_nothing_is_rejected() {
    let seeded = Swap { config: new_pool(30), vault_x: 1000, vault_y: 2000 };
    let mut pool = seeded;
    assert_eq!(pool.swap(true, 0, 0), Err(AmmError::InvalidAmount));
    assert_eq!(pool.swap(false, 0, 0), Err(AmmError::InvalidAmount));
    assert_eq!(pool, seeded);
}

#[test]
fn swap_below_the_minimum_exceeds_slippage() {
    let seeded = Swap { config: new_pool(30), vault_x: 1000, vault_y: 2000 };
    let mut pool = seeded;
    assert_eq!(pool.swap(true, 100, 183), Err(AmmError::SlippageExceeded));
    assert_eq!(pool, seeded);
    assert_eq!(pool.swap(true, 100, u64::MAX), Err(AmmError::SlippageExceeded));
    assert_eq!(pool, seeded);
    assert!(pool.swap(true, 100, 182).is_ok());
}

#[test]
fn swap_against_an_empty_pool_is_a_curve_error() {
    let empty = Swap { config: new_pool(30), vault_x: 0, vault_y: 0 };
    let mut pool = empty;
    assert_eq!(pool.swap(true, 100, 0), Err(AmmError::CurveError));
    assert_eq!(pool.swap(false, 100, 0), Err(AmmError::CurveError));
    assert_eq!(pool, empty);
}

#[test]
fn swap_that_outgrows_the_reserve_is_a_curve_error() {
    // the fee takes half, so the curve still has room, but the reserve has not
    let full = Swap { config: new_pool(5000), vault_x: u64::MAX - 60, vault_y: 1_000_000 };
    let mut pool = full;
    assert_eq!(pool.swap(true, 100, 0), Err(AmmError::CurveError));
    assert_eq!(pool, full);
}

#[test]
fn swap_with_a_corrupt_fee_is_a_curve_error() {
    let mut config = new_pool(30);
    config.fee = 10001;
    let odd = Swap { config, vault_x: 1000, vault_y: 2000 };
    let mut pool = odd;
    assert_eq!(pool.swap(true, 100, 0), Err(AmmError::CurveError));
    assert_eq!(pool, odd);
}

#[test]
fn swap_helpers_move_opposite_reserves() {
    let mut pool = Swap { config: new_pool(30), vault_x: 1000, vault_y: 2000 };
    assert_eq!(pool.deposit_tokens(true, 10), Ok(pay_in(Asset::X, 10)));
    assert_eq!((pool.vault_x, pool.vault_y), (1010, 2000));
    assert_eq!(pool.withdraw_tokens(true, 20), Ok(pay_out(Asset::Y, 20)));
    assert_eq!((pool.vault_x, pool.vault_y), (1010, 1980));
    assert_eq!(pool.deposit_tokens(false, 30), Ok(pay_in(Asset::Y, 30)));
    assert_eq!((pool.vault_x, pool.vault_y), (1010, 2010));
    assert_eq!(pool.withdraw_tokens(false, 40), Ok(pay_out(Asset::X, 40)));
    assert_eq!((pool.vault_x, pool.vault_y), (970, 2010));
    assert_eq!(pool.withdraw_tokens(true, 2011), Err(AmmError::CurveError));
    assert_eq!(pool.withdraw_tokens(false, 971), Err(AmmError::CurveError));
    assert_eq!(pool.deposit_tokens(true, u64::MAX), Err(AmmError::CurveError));
    assert_eq!(pool.deposit_tokens(false, u64::MAX), Err(AmmError::CurveError));
    assert_eq!((pool.vault_x, pool.vault_y), (970, 2010));
}

#[test]
fn withdraw_pays_the_share() {
    let mut pool = Withdraw { config: new_pool(30), lp_supply: 500, vault_x: 1000, vault_y: 2000 };
    let done = pool.withdraw(50, 100, 200).unwrap();
    assert_eq!(
        done,
        WithdrawInstructions {
            withdraw_x: pay_out(Asset::X, 100),
            withdraw_y: pay_out(Asset::Y, 200),
            burn_lp: Burn { authority: Authority::User, amount: 50 },
        }
    );
    assert_eq!((pool.vault_x, pool.vault_y, pool.lp_supply), (900, 1800, 450));
}

#[test]
fn withdraw_rounds_against_the_withdrawer() {
    let mut pool = Withdraw { config: new_pool(30), lp_supply: 300, vault_x: 1000, vault_y: 2000 };
    let done = pool.withdraw(1, 0, 0).unwrap();
    assert_eq!((done.withdraw_x.amount, done.withdraw_y.amount), (3, 6));
    assert_eq!((pool.vault_x, pool.vault_y, pool.lp_supply), (997, 1994, 299));
}

#[test]
fn withdraw_of_everything_empties_the_pool() {
    let mut pool = Withdraw { config: new_pool(30), lp_supply: 500, vault_x: 1100, vault_y: 1818 };
    let done = pool.withdraw(500, 1100, 1818).unwrap();
    assert_eq!((done.withdraw_x.amount, done.withdraw_y.amount), (1100, 1818));
    assert_eq!((pool.vault_x, pool.vault_y, pool.lp_supply), (0, 0, 0));
}

#[test]
fn withdraw_below_the_minima_exceeds_slippage() {
    let seeded = Withdraw { config: new_pool(30), lp_supply: 500, vault_x: 1000, vault_y: 2000 };
    let mut pool = seeded;
    assert_eq!(pool.withdraw(50, 101, 200), Err(AmmError::SlippageExceeded));
    assert_eq!(pool.withdraw(50, 100, 201), Err(AmmError::SlippageExceeded));
    assert_eq!(pool, seeded);
}

#[test]
fn withdraw_of_nothing_or_too_much_is_an_invalid_amount() {
    let seeded = Withdraw { config: new_pool(30), lp_supply: 500, vault_x: 1000, vault_y: 2000 };
    let mut pool = seeded;
    assert_eq!(pool.withdraw(0, 0, 0), Err(AmmError::InvalidAmount));
    assert_eq!(pool.withdraw(501, 0, 0), Err(AmmError::InvalidAmount));
    assert_eq!(pool, seeded);
    let empty = Withdraw { config: new_pool(30), lp_supply: 0, vault_x: 0, vault_y: 0 };
    let mut pool = empty;
    assert_eq!(pool.withdraw(1, 0, 0), Err(AmmError::InvalidAmount));
    assert_eq!(pool, empty);
}

#[test]
fn withdraw_helpers_debit_the_snapshot() {
    let mut pool = Withdraw { config: new_pool(30), lp_supply: 500, vault_x: 1000, vault_y: 2000 };
    assert_eq!(pool.withdraw_tokens(true, 10), Ok(pay_out(Asset::X, 10)));
    assert_eq!(pool.withdraw_tokens(false, 20), Ok(pay_out(Asset::Y, 20)));
    assert_eq!(pool.burn_lp_tokens(5), Ok(Burn { authority: Authority::User, amount: 5 }));
    assert_eq!((pool.vault_x, pool.vault_y, pool.lp_supply), (990, 1980, 495));
    assert_eq!(pool.withdraw_tokens(true, 991), Err(AmmError::CurveError));
    assert_eq!(pool.withdraw_tokens(false, 1981), Err(AmmError::CurveError));
    assert_eq!(pool.burn_lp_tokens(496), Err(AmmError::CurveError));
    assert_eq!((pool.vault_x, pool.vault_y, pool.lp_supply), (990, 1980, 495));
}

#[test]
fn locked_pool_rejects_every_operation() {
    let mut config = new_pool(30);
    assert_eq!(config.set_locked(true, &address(9)), Ok(()));
    assert!(config.locked);

    let deposit = Deposit { config, lp_supply: 500, vault_x: 1000, vault_y: 2000 };
    let mut pool = deposit;
    assert_eq!(pool.deposit(50, 100, 200), Err(AmmError::PoolLocked));
    assert_eq!(pool.deposit(0, 0, 0), Err(AmmError::PoolLocked));
    assert_eq!(pool, deposit);

    let swap = Swap { config, vault_x: 1000, vault_y: 2000 };
    let mut pool = swap;
    assert_eq!(pool.swap(true, 100, 0), Err(AmmError::PoolLocked));
    assert_eq!(pool.swap(false, 0, u64::MAX), Err(AmmError::PoolLocked));
    assert_eq!(pool, swap);

    let withdraw = Withdraw { config, lp_supply: 500, vault_x: 1000, vault_y: 2000 };
    let mut pool = withdraw;
    assert_eq!(pool.withdraw(50, 0, 0), Err(AmmError::PoolLocked));
    assert_eq!(pool.withdraw(0, 0, 0), Err(AmmError::PoolLocked));
    assert_eq!(pool, withdraw);
}

#[test]
fn unlocked_pool_works_again() {
    let mut config = new_pool(30);
    config.set_locked(true, &address(9)).unwrap();
    config.set_locked(false, &address(9)).unwrap();
    assert_eq!(config, new_pool(30));
    let mut pool = Swap { config, vault_x: 1000, vault_y: 2000 };
    assert!(pool.swap(true, 100, 0).is_ok());
}

#[test]
fn only_the_authority_may_lock() {
    let mut config = new_pool(30);
    assert_eq!(config.set_locked(true, &address(8)), Err(AuthError::Unauthorized));
    assert_eq!(config, new_pool(30));
    let mut almost = address(9);
    almost.bytes[17] = 1;
    assert_eq!(config.set_locked(true, &almost), Err(AuthError::Unauthorized));
    assert_eq!(config, new_pool(30));
}

#[test]
fn pool_without_authority_cannot_be_locked() {
    let mut config = new_pool(30);
    config.authority = None;
    let before = config;
    assert_eq!(config.set_locked(true, &address(9)), Err(AuthError::Unauthorized));
    assert_eq!(config.set_locked(false, &Address { bytes: [0u8; 32] }), Err(AuthError::Unauthorized));
    assert_eq!(config, before);
}

#[test]
fn addresses_compare_byte_by_byte() {
    assert_eq!(address(3), address(3));
    assert_ne!(address(3), address(4));
    let mut other = address(3);
    other.bytes[31] = 0;
    assert_ne!(address(3), other);
    let mut other = address(3);
    other.bytes[0] = 0;
    assert_ne!(address(3), other);
}

#[test]
fn errors_describe_themselves() {
    assert_eq!(AmmError::PoolLocked.message(), "Pool is locked for operations");
    assert_eq!(AmmError::InvalidAmount.message(), "Invalid amount provided");
    assert_eq!(AmmError::SlippageExceeded.message(), "Slippage tolerance exceeded");
    assert_eq!(AmmError::CurveError.message(), "Curve calculation error");
}

#[test]
fn pool_lifecycle() {
    let config = new_pool(30);
    let mut deposit = Deposit { config, lp_supply: 0, vault_x: 0, vault_y: 0 };
    deposit.deposit(500, 1000, 2000).unwrap();

    let mut swap = Swap { config, vault_x: deposit.vault_x, vault_y: deposit.vault_y };
    swap.swap(true, 100, 1).unwrap();
    assert_eq!((swap.vault_x, swap.vault_y), (1100, 1818));

    let mut deposit =
        Deposit { config, lp_supply: deposit.lp_supply, vault_x: swap.vault_x, vault_y: swap.vault_y };
    let paid = deposit.deposit(250, 550, 909).unwrap();
    assert_eq!((paid.deposit_x.amount, paid.deposit_y.amount), (550, 909));
    assert_eq!((deposit.vault_x, deposit.vault_y, deposit.lp_supply), (1650, 2727, 750));

    let mut withdraw = Withdraw {
        config,
        lp_supply: deposit.lp_supply,
        vault_x: deposit.vault_x,
        vault_y: deposit.vault_y,
    };
    let back = withdraw.withdraw(250, 0, 0).unwrap();
    assert_eq!((back.withdraw_x.amount, back.withdraw_y.amount), (550, 909));
    let rest = withdraw.withdraw(500, 0, 0).unwrap();
    assert_eq!((rest.withdraw_x.amount, rest.withdraw_y.amount), (1100, 1818));
    assert_eq!((withdraw.vault_x, withdraw.vault_y, withdraw.lp_supply), (0, 0, 0));
}

#[test]
fn instructions_name_their_parties() {
    assert_eq!(Asset::select(true), Asset::X);
    assert_eq!(Asset::select(false), Asset::Y);
    assert_eq!(Asset::X.other(), Asset::Y);
    assert_eq!(Asset::Y.other(), Asset::X);
    assert_eq!(Transfer::into_vault(Asset::X, 5), pay_in(Asset::X, 5));
    assert_eq!(Transfer::into_vault(Asset::Y, 6), pay_in(Asset::Y, 6));
    assert_eq!(Transfer::out_of_vault(Asset::X, 7), pay_out(Asset::X, 7));
    assert_eq!(Transfer::out_of_vault(Asset::Y, 8), pay_out(Asset::Y, 8));
    assert_eq!(MintTo::issue(9), MintTo { authority: Authority::Pool, amount: 9 });
    assert_eq!(Burn::redeem(10), Burn { authority: Authority::User, amount: 10 });
}
