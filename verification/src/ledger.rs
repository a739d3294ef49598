use vstd::prelude::*;

use crate::state::Pubkey;
use crate::token::TokenInstruction;

verus! {

/// Token balances by token account and token supplies by mint, as the token program keeps
/// them; an account or mint never touched holds zero.
#[verifier::ext_equal]
pub struct Ledger {
    pub balance: spec_fn(Pubkey) -> nat,
    pub supply: spec_fn(Pubkey) -> nat,
}

impl Ledger {
    /// No balance and no supply exceeds the largest amount.
    pub open spec fn wf(self) -> bool {
        &&& forall|k: Pubkey| #[trigger] (self.balance)(k) <= max_amount()
        &&& forall|k: Pubkey| #[trigger] (self.supply)(k) <= max_amount()
    }
}

/// Largest amount a token account or a mint supply can hold.
pub open spec fn max_amount() -> nat {
    u64::MAX as nat
}

/// `f` with the value at `key` replaced by `value`.
pub open spec fn update(f: spec_fn(Pubkey) -> nat, key: Pubkey, value: nat) -> spec_fn(
    Pubkey,
) -> nat {
    |k: Pubkey| if k == key { value } else { f(k) }
}

/// The ledger after one token instruction, or `None` where the token program refuses it:
/// a transfer or burn of more than the account holds, or a credit beyond the largest amount.
/// A transfer from an account to itself changes nothing.
pub open spec fn apply(l: Ledger, instruction: TokenInstruction) -> Option<Ledger> {
    match instruction {
        TokenInstruction::TransferChecked { from, to, amount, .. } => {
            if (l.balance)(from) < amount {
                None
            } else if from == to {
                Some(l)
            } else if (l.balance)(to) + amount > max_amount() {
                None
            } else {
                let debited = update(l.balance, from, ((l.balance)(from) - amount) as nat);
                Some(
                    Ledger {
                        balance: update(debited, to, ((l.balance)(to) + amount) as nat),
                        supply: l.supply,
                    },
                )
            }
        },
        TokenInstruction::MintTo { mint, to, amount, .. } => {
            if (l.supply)(mint) + amount > max_amount() || (l.balance)(to) + amount
                > max_amount() {
                None
            } else {
                Some(
                    Ledger {
                        balance: update(l.balance, to, ((l.balance)(to) + amount) as nat),
                        supply: update(l.supply, mint, ((l.supply)(mint) + amount) as nat),
                    },
                )
            }
        },
        TokenInstruction::Burn { mint, from, amount, .. } => {
            if (l.balance)(from) < amount || (l.supply)(mint) < amount {
                None
            } else {
                Some(
                    Ledger {
                        balance: update(l.balance, from, ((l.balance)(from) - amount) as nat),
                        supply: update(l.supply, mint, ((l.supply)(mint) - amount) as nat),
                    },
                )
            }
        },
    }
}

/// The ledger after a sequence of token instructions, or `None` where one of them is
/// refused (the transaction then changes nothing).
pub open spec fn apply_all(l: Ledger, instructions: Seq<TokenInstruction>) -> Option<Ledger>
    decreases instructions.len(),
{
    if instructions.len() == 0 {
        Some(l)
    } else {
        match apply(l, instructions[0]) {
            None => None,
            Some(next) => apply_all(next, instructions.drop_first()),
        }
    }
}

} // verus!
