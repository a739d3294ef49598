use vstd::prelude::*;

use crate::instructions::{
    spec_claim_check, spec_claim_instructions, spec_merge_check, spec_merge_instructions,
    spec_resolve, spec_set_start_price, spec_split_check, spec_split_instructions, Claim, Merge,
    Split, TokenAccountRef,
};
use crate::laws::{resolve_settles_once, start_price_set_once};
use crate::ledger::{apply, apply_all, Ledger};
use crate::oracle::PriceUpdate;
use crate::state::{OutcomeMarket, Pubkey, Resolution};
use crate::token::TokenInstruction;

verus! {

// ---------------------------------------------------------------------------------------------
// What the chain guarantees of the accounts involved
// ---------------------------------------------------------------------------------------------

/// On chain an address names one account: token account records with the same address are
/// the same record.
pub open spec fn one_account_per_address(refs: Seq<TokenAccountRef>) -> bool {
    forall|i: int, j: int|
        0 <= i < refs.len() && 0 <= j < refs.len() && #[trigger] refs[i].address
            == #[trigger] refs[j].address ==> refs[i] == refs[j]
}

/// `vault` is the collateral vault that `initialize_market` creates for `market` at address
/// `market_address`: a token account of the collateral mint owned by the market address.
pub open spec fn is_vault_of(vault: TokenAccountRef, market_address: Pubkey, market: OutcomeMarket) -> bool {
    &&& vault.address == market.collateral_vault
    &&& vault.owner == market_address
    &&& vault.mint == market.collateral_mint
}

/// The collateral, YES and NO mints of a market are three different mints.
pub open spec fn mints_distinct(market: OutcomeMarket) -> bool {
    &&& market.collateral_mint != market.yes_mint
    &&& market.collateral_mint != market.no_mint
    &&& market.yes_mint != market.no_mint
}

/// What the chain guarantees of the accounts of a `split`: the market is the account at
/// `accounts.market` and `vault` is its vault, the signing user is not the market address
/// (which has no key to sign with), and each address names one account.
pub open spec fn split_on_chain(market: OutcomeMarket, accounts: Split, vault: TokenAccountRef) -> bool {
    &&& is_vault_of(vault, accounts.market, market)
    &&& accounts.user != accounts.market
    &&& one_account_per_address(
        seq![
            accounts.user_collateral_account,
            accounts.user_yes_token_account,
            accounts.user_no_token_account,
            vault,
        ],
    )
}

/// What the chain guarantees of the accounts of a `merge`, as for a `split`.
pub open spec fn merge_on_chain(market: OutcomeMarket, accounts: Merge, vault: TokenAccountRef) -> bool {
    &&& is_vault_of(vault, accounts.market, market)
    &&& accounts.user != accounts.market
    &&& one_account_per_address(
        seq![
            accounts.user_collateral_account,
            accounts.user_yes_token_account,
            accounts.user_no_token_account,
            vault,
        ],
    )
}

/// What the chain guarantees of the accounts of a `claim`, as for a `split`.
pub open spec fn claim_on_chain(market: OutcomeMarket, accounts: Claim, vault: TokenAccountRef) -> bool {
    &&& is_vault_of(vault, accounts.market, market)
    &&& accounts.user != accounts.market
    &&& one_account_per_address(
        seq![accounts.user_collateral_account, accounts.user_outcome_token_account, vault],
    )
}

/// The user's three token accounts and the vault are four different accounts.
pub open spec fn pair_accounts_distinct(
    user_collateral: Pubkey,
    user_yes: Pubkey,
    user_no: Pubkey,
    vault: Pubkey,
) -> bool {
    &&& user_collateral != user_yes
    &&& user_collateral != user_no
    &&& user_collateral != vault
    &&& user_yes != user_no
    &&& user_yes != vault
    &&& user_no != vault
}

/// Accounts that pass the checks of `split` or `merge` on chain are four different accounts:
/// they hold different mints, or have different owners.
proof fn pair_accounts_are_distinct(
    market: OutcomeMarket,
    user: Pubkey,
    market_address: Pubkey,
    user_collateral: TokenAccountRef,
    user_yes: TokenAccountRef,
    user_no: TokenAccountRef,
    vault: TokenAccountRef,
)
    requires
        mints_distinct(market),
        is_vault_of(vault, market_address, market),
        user != market_address,
        user_collateral.owner == user,
        user_collateral.mint == market.collateral_mint,
        user_yes.mint == market.yes_mint,
        user_no.mint == market.no_mint,
        one_account_per_address(seq![user_collateral, user_yes, user_no, vault]),
    ensures
        pair_accounts_distinct(
            user_collateral.address,
            user_yes.address,
            user_no.address,
            vault.address,
        ),
{
    let refs = seq![user_collateral, user_yes, user_no, vault];
    assert(refs[0] == user_collateral && refs[1] == user_yes && refs[2] == user_no && refs[3]
        == vault);
}

/// Accounts that pass the checks of `split` on chain are four different accounts.
pub proof fn split_accounts_are_distinct(
    market: OutcomeMarket,
    accounts: Split,
    vault: TokenAccountRef,
)
    requires
        accounts.spec_check_accounts(market) is Ok,
        mints_distinct(market),
        split_on_chain(market, accounts, vault),
    ensures
        pair_accounts_distinct(
            accounts.user_collateral_account.address,
            accounts.user_yes_token_account.address,
            accounts.user_no_token_account.address,
            accounts.collateral_vault,
        ),
{
    pair_accounts_are_distinct(
        market,
        accounts.user,
        accounts.market,
        accounts.user_collateral_account,
        accounts.user_yes_token_account,
        accounts.user_no_token_account,
        vault,
    );
}

/// Accounts that pass the checks of `merge` on chain are four different accounts.
pub proof fn merge_accounts_are_distinct(
    market: OutcomeMarket,
    accounts: Merge,
    vault: TokenAccountRef,
)
    requires
        accounts.spec_check_accounts(market) is Ok,
        mints_distinct(market),
        merge_on_chain(market, accounts, vault),
    ensures
        pair_accounts_distinct(
            accounts.user_collateral_account.address,
            accounts.user_yes_token_account.address,
            accounts.user_no_token_account.address,
            accounts.collateral_vault,
        ),
{
    pair_accounts_are_distinct(
        market,
        accounts.user,
        accounts.market,
        accounts.user_collateral_account,
        accounts.user_yes_token_account,
        accounts.user_no_token_account,
        vault,
    );
}

/// Accounts that pass the checks of `claim` on chain are three different accounts.
pub proof fn claim_accounts_are_distinct(
    market: OutcomeMarket,
    accounts: Claim,
    amount: u64,
    vault: TokenAccountRef,
)
    requires
        spec_claim_check(market, accounts, amount) is Ok,
        mints_distinct(market),
        claim_on_chain(market, accounts, vault),
    ensures
        accounts.user_collateral_account.address != accounts.collateral_vault,
        accounts.user_outcome_token_account.address != accounts.collateral_vault,
        accounts.user_outcome_token_account.address != accounts.user_collateral_account.address,
{
    let refs = seq![accounts.user_collateral_account, accounts.user_outcome_token_account, vault];
    assert(refs[0] == accounts.user_collateral_account && refs[1]
        == accounts.user_outcome_token_account && refs[2] == vault);
}

// ---------------------------------------------------------------------------------------------
// Token movements of each instruction
// ---------------------------------------------------------------------------------------------

/// The accounts of a `merge` made with the accounts of a `split`.
pub open spec fn merge_accounts_of(accounts: Split) -> Merge {
    Merge {
        user: accounts.user,
        market: accounts.market,
        collateral_mint: accounts.collateral_mint,
        collateral_decimals: accounts.collateral_decimals,
        yes_mint: accounts.yes_mint,
        no_mint: accounts.no_mint,
        collateral_vault: accounts.collateral_vault,
        user_collateral_account: accounts.user_collateral_account,
        user_yes_token_account: accounts.user_yes_token_account,
        user_no_token_account: accounts.user_no_token_account,
    }
}

/// Splitting collateral and then merging the same amount back, with the same accounts,
/// leaves every token balance and every supply as it was: a matched YES/NO pair is always
/// worth one unit of collateral.
pub proof fn split_then_merge_restores_ledger(
    market: OutcomeMarket,
    accounts: Split,
    vault: TokenAccountRef,
    now: i64,
    amount: u64,
    before: Ledger,
)
    requires
        before.wf(),
        mints_distinct(market),
        split_on_chain(market, accounts, vault),
        spec_split_check(market, accounts, now, amount) is Ok,
        apply_all(before, spec_split_instructions(accounts, amount)) is Some,
    ensures
        spec_merge_check(market, merge_accounts_of(accounts), amount) is Ok,
        apply_all(
            apply_all(before, spec_split_instructions(accounts, amount))->Some_0,
            spec_merge_instructions(merge_accounts_of(accounts), amount),
        ) == Some(before),
{
    split_accounts_are_distinct(market, accounts, vault);
    reveal_with_fuel(apply_all, 4);
    let split_seq = spec_split_instructions(accounts, amount);
    let merge_seq = spec_merge_instructions(merge_accounts_of(accounts), amount);
    assert(split_seq.drop_first().drop_first().drop_first() =~= Seq::<TokenInstruction>::empty());
    assert(merge_seq.drop_first().drop_first().drop_first() =~= Seq::<TokenInstruction>::empty());
    let s1 = apply(before, split_seq[0])->Some_0;
    let s2 = apply(s1, split_seq[1])->Some_0;
    let middle = apply(s2, split_seq[2])->Some_0;
    assert(apply_all(before, split_seq) == Some(middle));
    let m1 = apply(middle, merge_seq[0])->Some_0;
    let m2 = apply(m1, merge_seq[1])->Some_0;
    let after = apply(m2, merge_seq[2]);
    assert(after is Some);
    assert(apply_all(middle, merge_seq) == after);
    assert(after->Some_0 =~= before);
}

/// Splitting exchanges collateral for outcome tokens one for one, with no fee: the user
/// pays `amount` collateral into the vault and receives `amount` YES and `amount` NO, and no
/// other account changes.
pub proof fn split_exchanges_one_for_one(
    market: OutcomeMarket,
    accounts: Split,
    vault: TokenAccountRef,
    now: i64,
    amount: u64,
    before: Ledger,
)
    requires
        mints_distinct(market),
        split_on_chain(market, accounts, vault),
        spec_split_check(market, accounts, now, amount) is Ok,
        apply_all(before, spec_split_instructions(accounts, amount)) is Some,
    ensures
        ({
            let after = apply_all(before, spec_split_instructions(accounts, amount))->Some_0;
            let c = accounts.user_collateral_account.address;
            let y = accounts.user_yes_token_account.address;
            let n = accounts.user_no_token_account.address;
            let v = accounts.collateral_vault;
            &&& (after.balance)(c) == (before.balance)(c) - amount
            &&& (after.balance)(v) == (before.balance)(v) + amount
            &&& (after.balance)(y) == (before.balance)(y) + amount
            &&& (after.balance)(n) == (before.balance)(n) + amount
            &&& (after.supply)(market.yes_mint) == (before.supply)(market.yes_mint) + amount
            &&& (after.supply)(market.no_mint) == (before.supply)(market.no_mint) + amount
            &&& forall|k| k != c && k != v && k != y && k != n ==> #[trigger] (after.balance)(k)
                == (before.balance)(k)
        }),
{
    split_accounts_are_distinct(market, accounts, vault);
    reveal_with_fuel(apply_all, 4);
    let seq = spec_split_instructions(accounts, amount);
    assert(seq.drop_first().drop_first().drop_first() =~= Seq::<TokenInstruction>::empty());
    let s1 = apply(before, seq[0])->Some_0;
    let s2 = apply(s1, seq[1])->Some_0;
    let s3 = apply(s2, seq[2])->Some_0;
    assert(apply_all(before, seq) == Some(s3));
}

/// Merging pays one unit of collateral per YES/NO pair, with no fee: `amount` YES and `amount`
/// NO are burned from the user, the vault pays `amount` to the user, and no other account
/// changes.
pub proof fn merge_pays_one_for_one(
    market: OutcomeMarket,
    accounts: Merge,
    vault: TokenAccountRef,
    amount: u64,
    before: Ledger,
)
    requires
        mints_distinct(market),
        merge_on_chain(market, accounts, vault),
        spec_merge_check(market, accounts, amount) is Ok,
        apply_all(before, spec_merge_instructions(accounts, amount)) is Some,
    ensures
        ({
            let after = apply_all(before, spec_merge_instructions(accounts, amount))->Some_0;
            let c = accounts.user_collateral_account.address;
            let y = accounts.user_yes_token_account.address;
            let n = accounts.user_no_token_account.address;
            let v = accounts.collateral_vault;
            &&& (after.balance)(c) == (before.balance)(c) + amount
            &&& (after.balance)(v) == (before.balance)(v) - amount
            &&& (after.balance)(y) == (before.balance)(y) - amount
            &&& (after.balance)(n) == (before.balance)(n) - amount
            &&& (after.supply)(market.yes_mint) == (before.supply)(market.yes_mint) - amount
            &&& (after.supply)(market.no_mint) == (before.supply)(market.no_mint) - amount
            &&& forall|k| k != c && k != v && k != y && k != n ==> #[trigger] (after.balance)(k)
                == (before.balance)(k)
        }),
{
    merge_accounts_are_distinct(market, accounts, vault);
    reveal_with_fuel(apply_all, 4);
    let seq = spec_merge_instructions(accounts, amount);
    assert(seq.drop_first().drop_first().drop_first() =~= Seq::<TokenInstruction>::empty());
    let s1 = apply(before, seq[0])->Some_0;
    let s2 = apply(s1, seq[1])->Some_0;
    let s3 = apply(s2, seq[2])->Some_0;
    assert(apply_all(before, seq) == Some(s3));
}

/// Claiming pays one unit of collateral per winning token, with no fee, and leaves the losing
/// side alone: the winning tokens are burned, the vault pays the user, the supply of the
/// losing mint and every other account are unchanged.
pub proof fn claim_pays_one_for_one(
    market: OutcomeMarket,
    accounts: Claim,
    vault: TokenAccountRef,
    amount: u64,
    before: Ledger,
)
    requires
        mints_distinct(market),
        claim_on_chain(market, accounts, vault),
        spec_claim_check(market, accounts, amount) is Ok,
        apply_all(before, spec_claim_instructions(accounts, amount)) is Some,
    ensures
        ({
            let after = apply_all(before, spec_claim_instructions(accounts, amount))->Some_0;
            let c = accounts.user_collateral_account.address;
            let o = accounts.user_outcome_token_account.address;
            let v = accounts.collateral_vault;
            let losing_mint = if market.resolution == Resolution::Yes {
                market.no_mint
            } else {
                market.yes_mint
            };
            &&& (after.balance)(o) == (before.balance)(o) - amount
            &&& (after.balance)(v) == (before.balance)(v) - amount
            &&& (after.balance)(c) == (before.balance)(c) + amount
            &&& (after.supply)(accounts.outcome_mint) == (before.supply)(accounts.outcome_mint)
                - amount
            &&& (after.supply)(losing_mint) == (before.supply)(losing_mint)
            &&& forall|k| k != c && k != v && k != o ==> #[trigger] (after.balance)(k) == (
            before.balance)(k)
        }),
{
    claim_accounts_are_distinct(market, accounts, amount, vault);
    reveal_with_fuel(apply_all, 3);
    let seq = spec_claim_instructions(accounts, amount);
    assert(seq.drop_first().drop_first() =~= Seq::<TokenInstruction>::empty());
    let s1 = apply(before, seq[0])->Some_0;
    let s2 = apply(s1, seq[1])->Some_0;
    assert(apply_all(before, seq) == Some(s2));
}

// ---------------------------------------------------------------------------------------------
// Collateral backing
// ---------------------------------------------------------------------------------------------

/// The vault covers every token that can still be redeemed one for one: unless the market
/// resolved NO, it holds at least as much collateral as there are YES tokens, and unless it
/// resolved YES, at least as much as there are NO tokens. So every matched pair can be
/// merged and, after resolution, every winning token claimed.
pub open spec fn is_backed(market: OutcomeMarket, l: Ledger) -> bool {
    let vault = (l.balance)(market.collateral_vault);
    &&& market.resolution != Resolution::No ==> (l.supply)(market.yes_mint) <= vault
    &&& market.resolution != Resolution::Yes ==> (l.supply)(market.no_mint) <= vault
}

/// A new market, whose YES and NO mints have issued nothing yet, is backed.
pub proof fn new_market_is_backed(market: OutcomeMarket, l: Ledger)
    requires
        (l.supply)(market.yes_mint) == 0,
        (l.supply)(market.no_mint) == 0,
    ensures
        is_backed(market, l),
{
}

/// A successful `split` keeps the market backed.
pub proof fn split_keeps_backing(
    market: OutcomeMarket,
    accounts: Split,
    vault: TokenAccountRef,
    now: i64,
    amount: u64,
    before: Ledger,
)
    requires
        is_backed(market, before),
        mints_distinct(market),
        split_on_chain(market, accounts, vault),
        spec_split_check(market, accounts, now, amount) is Ok,
        apply_all(before, spec_split_instructions(accounts, amount)) is Some,
    ensures
        is_backed(market, apply_all(before, spec_split_instructions(accounts, amount))->Some_0),
{
    split_exchanges_one_for_one(market, accounts, vault, now, amount, before);
}

/// A successful `merge`, before or after resolution, keeps the market backed.
pub proof fn merge_keeps_backing(
    market: OutcomeMarket,
    accounts: Merge,
    vault: TokenAccountRef,
    amount: u64,
    before: Ledger,
)
    requires
        is_backed(market, before),
        mints_distinct(market),
        merge_on_chain(market, accounts, vault),
        spec_merge_check(market, accounts, amount) is Ok,
        apply_all(before, spec_merge_instructions(accounts, amount)) is Some,
    ensures
        is_backed(market, apply_all(before, spec_merge_instructions(accounts, amount))->Some_0),
{
    merge_pays_one_for_one(market, accounts, vault, amount, before);
}

/// A successful `claim` keeps the market backed.
pub proof fn claim_keeps_backing(
    market: OutcomeMarket,
    accounts: Claim,
    vault: TokenAccountRef,
    amount: u64,
    before: Ledger,
)
    requires
        is_backed(market, before),
        mints_distinct(market),
        claim_on_chain(market, accounts, vault),
        spec_claim_check(market, accounts, amount) is Ok,
        apply_all(before, spec_claim_instructions(accounts, amount)) is Some,
    ensures
        is_backed(market, apply_all(before, spec_claim_instructions(accounts, amount))->Some_0),
{
    claim_pays_one_for_one(market, accounts, vault, amount, before);
}

/// What a token call made outside this program can be: it cannot mint YES or NO (only the
/// market address can, and it signs only inside this program), nor take tokens out of the
/// vault (whose owner is the market address). Burns by holders, transfers between holders
/// and deposits into the vault are all possible.
pub open spec fn outside_call_allowed(market: OutcomeMarket, instruction: TokenInstruction) -> bool {
    match instruction {
        TokenInstruction::MintTo { mint, .. } => mint != market.yes_mint && mint
            != market.no_mint,
        TokenInstruction::TransferChecked { from, .. } => from != market.collateral_vault,
        TokenInstruction::Burn { from, .. } => from != market.collateral_vault,
    }
}

/// A token call made outside this program, such as a holder burning their own YES or NO or
/// anyone depositing into the vault, keeps the market backed.
pub proof fn outside_call_keeps_backing(
    market: OutcomeMarket,
    instruction: TokenInstruction,
    before: Ledger,
)
    requires
        is_backed(market, before),
        outside_call_allowed(market, instruction),
        apply(before, instruction) is Some,
    ensures
        is_backed(market, apply(before, instruction)->Some_0),
{
}

// ---------------------------------------------------------------------------------------------
// Histories
// ---------------------------------------------------------------------------------------------

/// One thing that can happen to a market and to the token ledger: an instruction of the
/// program, or a token call made outside it.
pub enum Step {
    Split { accounts: Split, now: i64, amount: u64 },
    Merge { accounts: Merge, amount: u64 },
    Claim { accounts: Claim, amount: u64 },
    SetStartPrice { price_update: PriceUpdate, now: i64 },
    Resolve { price_update: PriceUpdate, now: i64 },
    InitializeMetadata,
    Outside { instruction: TokenInstruction },
}

/// The market and the ledger after one step. A refused instruction, or one whose token calls
/// the token program refuses, changes nothing: its transaction fails as a whole.
pub open spec fn take_step(market: OutcomeMarket, l: Ledger, step: Step) -> (OutcomeMarket, Ledger) {
    match step {
        Step::Split { accounts, now, amount } => if spec_split_check(
            market,
            accounts,
            now,
            amount,
        ) is Ok {
            match apply_all(l, spec_split_instructions(accounts, amount)) {
                Some(next) => (market, next),
                None => (market, l),
            }
        } else {
            (market, l)
        },
        Step::Merge { accounts, amount } => if spec_merge_check(market, accounts, amount) is Ok {
            match apply_all(l, spec_merge_instructions(accounts, amount)) {
                Some(next) => (market, next),
                None => (market, l),
            }
        } else {
            (market, l)
        },
        Step::Claim { accounts, amount } => if spec_claim_check(market, accounts, amount) is Ok {
            match apply_all(l, spec_claim_instructions(accounts, amount)) {
                Some(next) => (market, next),
                None => (market, l),
            }
        } else {
            (market, l)
        },
        Step::SetStartPrice { price_update, now } => match spec_set_start_price(
            market,
            price_update,
            now,
        ) {
            Ok(start_price) => (OutcomeMarket { start_price: Some(start_price), ..market }, l),
            Err(_) => (market, l),
        },
        Step::Resolve { price_update, now } => match spec_resolve(market, price_update, now) {
            Ok((resolution, resolved_price)) => (
                OutcomeMarket { resolution, resolved_price: Some(resolved_price), ..market },
                l,
            ),
            Err(_) => (market, l),
        },
        Step::InitializeMetadata => (market, l),
        Step::Outside { instruction } => match apply(l, instruction) {
            Some(next) => (market, next),
            None => (market, l),
        },
    }
}

/// The market and the ledger after a sequence of steps.
pub open spec fn run(market: OutcomeMarket, l: Ledger, steps: Seq<Step>) -> (OutcomeMarket, Ledger)
    decreases steps.len(),
{
    if steps.len() == 0 {
        (market, l)
    } else {
        let (next_market, next_ledger) = take_step(market, l, steps[0]);
        run(next_market, next_ledger, steps.drop_first())
    }
}

/// What the chain guarantees of a step on the market at `market_address` with vault `vault`.
pub open spec fn step_on_chain(
    market: OutcomeMarket,
    market_address: Pubkey,
    vault: TokenAccountRef,
    step: Step,
) -> bool {
    match step {
        Step::Split { accounts, .. } => accounts.market == market_address && split_on_chain(
            market,
            accounts,
            vault,
        ),
        Step::Merge { accounts, .. } => accounts.market == market_address && merge_on_chain(
            market,
            accounts,
            vault,
        ),
        Step::Claim { accounts, .. } => accounts.market == market_address && claim_on_chain(
            market,
            accounts,
            vault,
        ),
        Step::Outside { instruction } => outside_call_allowed(market, instruction),
        _ => true,
    }
}

/// The parts of a market that never change after its creation.
pub open spec fn same_identity(a: OutcomeMarket, b: OutcomeMarket) -> bool {
    &&& a.creator == b.creator
    &&& a.price_feed_id == b.price_feed_id
    &&& a.market_type_seed == b.market_type_seed
    &&& a.market_type == b.market_type
    &&& a.collateral_mint == b.collateral_mint
    &&& a.yes_mint == b.yes_mint
    &&& a.no_mint == b.no_mint
    &&& a.collateral_vault == b.collateral_vault
    &&& a.start_time == b.start_time
    &&& a.end_time == b.end_time
    &&& a.bump == b.bump
    &&& a.yes_mint_bump == b.yes_mint_bump
    &&& a.no_mint_bump == b.no_mint_bump
    &&& a.collateral_vault_bump == b.collateral_vault_bump
}

/// How a market may change: its identity stays, a settled resolution and its price stay, and
/// a recorded start price stays.
pub open spec fn may_become(a: OutcomeMarket, b: OutcomeMarket) -> bool {
    &&& same_identity(a, b)
    &&& a.resolution != Resolution::Unresolved ==> b.resolution == a.resolution
        && b.resolved_price == a.resolved_price
    &&& a.start_price is Some ==> b.start_price == a.start_price
}

proof fn step_on_chain_depends_on_identity(
    a: OutcomeMarket,
    b: OutcomeMarket,
    market_address: Pubkey,
    vault: TokenAccountRef,
    step: Step,
)
    requires
        same_identity(a, b),
        step_on_chain(a, market_address, vault, step),
    ensures
        step_on_chain(b, market_address, vault, step),
{
}

/// One step keeps the market's invariant and its backing, and changes the market only as
/// `may_become` allows.
pub proof fn step_keeps_market(
    market: OutcomeMarket,
    l: Ledger,
    market_address: Pubkey,
    vault: TokenAccountRef,
    step: Step,
)
    requires
        market.wf(),
        mints_distinct(market),
        is_backed(market, l),
        is_vault_of(vault, market_address, market),
        step_on_chain(market, market_address, vault, step),
    ensures
        take_step(market, l, step).0.wf(),
        is_backed(take_step(market, l, step).0, take_step(market, l, step).1),
        may_become(market, take_step(market, l, step).0),
{
    match step {
        Step::Split { accounts, now, amount } => {
            if spec_split_check(market, accounts, now, amount) is Ok && apply_all(
                l,
                spec_split_instructions(accounts, amount),
            ) is Some {
                split_keeps_backing(market, accounts, vault, now, amount, l);
            }
        },
        Step::Merge { accounts, amount } => {
            if spec_merge_check(market, accounts, amount) is Ok && apply_all(
                l,
                spec_merge_instructions(accounts, amount),
            ) is Some {
                merge_keeps_backing(market, accounts, vault, amount, l);
            }
        },
        Step::Claim { accounts, amount } => {
            if spec_claim_check(market, accounts, amount) is Ok && apply_all(
                l,
                spec_claim_instructions(accounts, amount),
            ) is Some {
                claim_keeps_backing(market, accounts, vault, amount, l);
            }
        },
        Step::SetStartPrice { price_update, now } => {
            if spec_set_start_price(market, price_update, now) is Ok {
                start_price_set_once(market, price_update, now, price_update, now);
            }
        },
        Step::Resolve { price_update, now } => {
            if spec_resolve(market, price_update, now) is Ok {
                resolve_settles_once(market, price_update, now, price_update, now);
            }
        },
        Step::InitializeMetadata => {},
        Step::Outside { instruction } => {
            if apply(l, instruction) is Some {
                outside_call_keeps_backing(market, instruction, l);
            }
        },
    }
}

/// Whatever happens to a market, through any sequence of its instructions and of token calls
/// made outside it (holders burning their tokens, deposits into the vault): the market keeps
/// its invariant, stays backed, so every matched pair can be merged and every winning token
/// claimed one for one, keeps its identity, and once resolved, or once its start price is
/// recorded, keeps that resolution, resolved price and start price.
pub proof fn market_history(
    market: OutcomeMarket,
    l: Ledger,
    market_address: Pubkey,
    vault: TokenAccountRef,
    steps: Seq<Step>,
)
    requires
        market.wf(),
        mints_distinct(market),
        is_backed(market, l),
        is_vault_of(vault, market_address, market),
        forall|i: int| 0 <= i < steps.len() ==> step_on_chain(market, market_address, vault, #[trigger] steps[i]),
    ensures
        run(market, l, steps).0.wf(),
        is_backed(run(market, l, steps).0, run(market, l, steps).1),
        may_become(market, run(market, l, steps).0),
    decreases steps.len(),
{
    if steps.len() > 0 {
        step_keeps_market(market, l, market_address, vault, steps[0]);
        let (next_market, next_ledger) = take_step(market, l, steps[0]);
        let rest = steps.drop_first();
        assert forall|i: int| 0 <= i < rest.len() implies step_on_chain(
            next_market,
            market_address,
            vault,
            #[trigger] rest[i],
        ) by {
            assert(rest[i] == steps[i + 1]);
            step_on_chain_depends_on_identity(market, next_market, market_address, vault, rest[i]);
        }
        market_history(next_market, next_ledger, market_address, vault, rest);
    }
}

} // verus!
