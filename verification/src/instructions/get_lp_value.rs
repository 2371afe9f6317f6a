use vstd::prelude::*;
use crate::error::Failure;
use crate::state::check_mint_address;
use crate::state::check_vault_address;
use crate::state::mint_resolves;
use crate::state::vault_resolves;
use crate::state::Account;
use crate::state::Mint;
use crate::state::VaultState;
use crate::state::LP_PRICE_IN_LAMPORTS;

verus! {

/// The accounts of a valuation.
#[derive(Clone, Copy, Debug, PartialEq, Eq)]
pub struct GetLpValue {
    /// The vault that is valued.
    pub vault_state: Account<VaultState>,
    /// The mint of the vault's receipt tokens.
    pub lp_mint: Account<Mint>,
}

/// What a valuation reports.
#[derive(Clone, Copy, Debug, PartialEq, Eq)]
pub struct LpValue {
    /// The vault's balance, in lamports.
    pub vault_balance: u64,
    /// The receipt tokens in circulation.
    pub lp_supply: u64,
    /// The price of one receipt token, in lamports.
    pub lp_price: u64,
}

impl GetLpValue {
    /// Vault and mint sit at their derived addresses.
    pub open spec fn resolved(self) -> bool {
        &&& vault_resolves(self.vault_state)
        &&& mint_resolves(self.lp_mint.key, self.vault_state.data)
    }

    /// What there is to report of the accounts.
    pub open spec fn value(self) -> LpValue {
        LpValue {
            vault_balance: self.vault_state.data.balance,
            lp_supply: self.lp_mint.data.supply,
            lp_price: LP_PRICE_IN_LAMPORTS,
        }
    }
}

/// Reports the balance of a vault, the supply of its receipt tokens and the
/// price of one token, given whether vault and mint sit at their derived
/// addresses. The report is refused only where they do not.
pub fn get_lp_value_given(ctx: &GetLpValue, resolved: bool) -> (result: Result<LpValue, Failure>)
    ensures
        result == if resolved {
            Ok::<LpValue, Failure>(ctx.value())
        } else {
            Err::<LpValue, Failure>(Failure::AddressMismatch)
        },
{
    if !resolved {
        return Err(Failure::AddressMismatch);
    }
    let vault_balance = ctx.vault_state.data.balance;
    let lp_supply = ctx.lp_mint.data.supply;
    Ok(LpValue { vault_balance, lp_supply, lp_price: LP_PRICE_IN_LAMPORTS })
}

/// Reports the balance of a vault, the supply of its receipt tokens and the
/// price of one token. Anyone may ask; nothing changes. The report is refused
/// only where the vault or the mint does not sit at its derived address.
pub fn get_lp_value(ctx: &GetLpValue) -> (result: Result<LpValue, Failure>)
    ensures
        result == if ctx.resolved() {
            Ok::<LpValue, Failure>(ctx.value())
        } else {
            Err::<LpValue, Failure>(Failure::AddressMismatch)
        },
{
    let resolved = check_vault_address(&ctx.vault_state) && check_mint_address(
        &ctx.lp_mint.key,
        &ctx.vault_state.data,
    );
    get_lp_value_given(ctx, resolved)
}

} // verus!
