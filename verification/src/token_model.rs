//! The token's ledger as a mathematical value, and what each entry point does to it.
//!
//! A `TokenState` is everything that the token keeps in storage. A transition takes
//! from the ledger the entries that the contract reads for the entry point, applies
//! the step of `token_steps` that the entry point computes, and writes each value that
//! the step returns under the key that comes with it. What it adds is the
//! authorization: a transition takes the set of addresses that have authorized the
//! invocation, which the contract asks the host for before it calls the entry point.
use crate::errors::Sep0041Error;
use crate::errors::Trap;
use crate::ledger_sum::sum_of;
use crate::ledger_sum::value_at;
use crate::token::DataKey;
use crate::token_rules::AllowanaceDetails;
use crate::token_steps::approve_step;
use crate::token_steps::burn_step;
use crate::token_steps::construction_step;
use crate::token_steps::draw_step;
use crate::token_steps::drawn_burn_step;
use crate::token_steps::mint_step;
use crate::token_steps::transfer_step;
use vstd::prelude::*;

verus! {

/// Everything that the token keeps in storage.
pub struct TokenState {
    pub admin: soroban_sdk::Address,
    pub name: soroban_sdk::String,
    pub symbol: soroban_sdk::String,
    pub decimals: u32,
    /// The total supply; zero stands for an entry that was never written.
    pub total_supply: i128,
    /// The balances that were ever written; an address without one holds nothing.
    pub balances: Map<soroban_sdk::Address, i128>,
    /// The allowances, by the address that gave them and the spender.
    pub allowances: Map<(soroban_sdk::Address, soroban_sdk::Address), AllowanaceDetails>,
}

impl TokenState {
    /// The ledger that the constructor leaves.
    pub open spec fn constructed(
        admin: soroban_sdk::Address,
        name: soroban_sdk::String,
        symbol: soroban_sdk::String,
    ) -> TokenState {
        let written = construction_step(admin, name, symbol);
        TokenState {
            admin: written.admin.1,
            name: written.name.1,
            symbol: written.symbol.1,
            decimals: written.decimals.1,
            total_supply: 0,
            balances: Map::empty(),
            allowances: Map::empty(),
        }
    }

    /// The balance of `id`.
    pub open spec fn balance(self, id: soroban_sdk::Address) -> int {
        value_at(self.balances, id)
    }

    /// The allowance that `from` gave to `spender`, if any.
    pub open spec fn allowance(self, from: soroban_sdk::Address, spender: soroban_sdk::Address) -> Option<
        AllowanaceDetails,
    > {
        if self.allowances.contains_key((from, spender)) {
            Some(self.allowances[(from, spender)])
        } else {
            None
        }
    }

    /// The entry of the balance of `id`, as the contract reads it.
    pub open spec fn balance_entry(self, id: soroban_sdk::Address) -> Option<i128> {
        if self.balances.contains_key(id) {
            Some(self.balances[id])
        } else {
            None
        }
    }

    /// The entry of the total supply, as the contract reads it.
    pub open spec fn supply_entry(self) -> Option<i128> {
        Some(self.total_supply)
    }

    /// The entry of the allowance that `from` gave to `spender`, as an entry point
    /// reads it.
    pub open spec fn allowance_entry(self, from: soroban_sdk::Address, spender: soroban_sdk::Address) -> Option<
        (i128, u64),
    > {
        if self.allowances.contains_key((from, spender)) {
            Some((self.allowances[(from, spender)].amount, self.allowances[(from, spender)].deadline))
        } else {
            None
        }
    }

    /// The ledger after a number was written under a key: a balance under the key of
    /// an address, the total supply under its key.
    pub open spec fn written_amount(self, write: (DataKey, i128)) -> TokenState {
        match write.0 {
            DataKey::Balance(id) => TokenState {
                balances: self.balances.insert(id, write.1),
                ..self
            },
            DataKey::TotalSupply => TokenState { total_supply: write.1, ..self },
            _ => self,
        }
    }

    /// The ledger after an allowance was written under the key of a pair.
    pub open spec fn written_allowance(self, write: (DataKey, AllowanaceDetails)) -> TokenState {
        match write.0 {
            DataKey::Allowance(from, spender) => TokenState {
                allowances: self.allowances.insert((from, spender), write.1),
                ..self
            },
            _ => self,
        }
    }

    /// What holds of every ledger that the entry points can reach: no balance is
    /// negative, the balances add up to the total supply, no allowance is negative,
    /// and the decimals are 18.
    pub open spec fn wf(self) -> bool {
        &&& self.decimals == 18
        &&& self.balances.dom().finite()
        &&& forall|id: soroban_sdk::Address|
            self.balances.contains_key(id) ==> #[trigger] self.balances[id] >= 0
        &&& sum_of(self.balances) == self.total_supply
        &&& forall|pair: (soroban_sdk::Address, soroban_sdk::Address)|
            self.allowances.contains_key(pair) ==> (#[trigger] self.allowances[pair]).amount >= 0
    }

    /// Every stored allowance is of a positive amount.
    pub open spec fn allowances_positive(self) -> bool {
        forall|pair: (soroban_sdk::Address, soroban_sdk::Address)|
            self.allowances.contains_key(pair) ==> (#[trigger] self.allowances[pair]).amount > 0
    }

    /// `mint`: needs the administrator's authorization.
    pub open spec fn mint(self, authorized: Set<soroban_sdk::Address>, to: soroban_sdk::Address, amount: i128) -> Result<
        Result<TokenState, Sep0041Error>,
        Trap,
    > {
        if !authorized.contains(self.admin) {
            Err(Trap::Unauthorized)
        } else {
            match mint_step(to, self.balance_entry(to), self.supply_entry(), amount) {
                Ok(Ok(change)) => Ok(
                    Ok(self.written_amount(change.balance).written_amount(change.total_supply)),
                ),
                Ok(Err(e)) => Ok(Err(e)),
                Err(trap) => Err(trap),
            }
        }
    }

    /// `approve` at ledger time `now`: needs the authorization of `from`.
    pub open spec fn approve(
        self,
        authorized: Set<soroban_sdk::Address>,
        now: u64,
        from: soroban_sdk::Address,
        spender: soroban_sdk::Address,
        amount: i128,
        live_until_ledger: u32,
    ) -> Result<TokenState, Trap> {
        if !authorized.contains(from) {
            Err(Trap::Unauthorized)
        } else {
            match approve_step(from, spender, now, amount, live_until_ledger) {
                Ok(granted) => Ok(self.written_allowance(granted)),
                Err(trap) => Err(trap),
            }
        }
    }

    /// `transfer`: needs the authorization of `from`.
    pub open spec fn transfer(
        self,
        authorized: Set<soroban_sdk::Address>,
        from: soroban_sdk::Address,
        to: soroban_sdk::Address,
        amount: i128,
    ) -> Result<TokenState, Trap> {
        if !authorized.contains(from) {
            Err(Trap::Unauthorized)
        } else {
            match transfer_step(
                from,
                to,
                self.balance_entry(from),
                self.balance_entry(to),
                amount,
                from == to,
            ) {
                Ok(moved) => Ok(self.written_amount(moved.debit).written_amount(moved.credit)),
                Err(trap) => Err(trap),
            }
        }
    }

    /// `burn`: needs the authorization of `from`.
    pub open spec fn burn(self, authorized: Set<soroban_sdk::Address>, from: soroban_sdk::Address, amount: i128) -> Result<
        TokenState,
        Trap,
    > {
        if !authorized.contains(from) {
            Err(Trap::Unauthorized)
        } else {
            match burn_step(from, self.balance_entry(from), self.supply_entry(), amount) {
                Ok(burned) => Ok(
                    self.written_amount(burned.balance).written_amount(burned.total_supply),
                ),
                Err(trap) => Err(trap),
            }
        }
    }

    /// `transfer_from` at ledger time `now`: needs the authorization of `spender`.
    pub open spec fn transfer_from(
        self,
        authorized: Set<soroban_sdk::Address>,
        now: u64,
        spender: soroban_sdk::Address,
        from: soroban_sdk::Address,
        to: soroban_sdk::Address,
        amount: i128,
    ) -> Result<TokenState, Trap> {
        if !authorized.contains(spender) {
            Err(Trap::Unauthorized)
        } else {
            match draw_step(
                spender,
                from,
                to,
                self.allowance_entry(from, spender),
                now,
                self.balance_entry(from),
                self.balance_entry(to),
                amount,
                from == to,
            ) {
                Ok(drawn) => Ok(
                    self.written_amount(drawn.debit).written_amount(drawn.credit).written_allowance(
                        drawn.allowance,
                    ),
                ),
                Err(trap) => Err(trap),
            }
        }
    }

    /// `burn_from` at ledger time `now`: needs the authorization of `spender`.
    pub open spec fn burn_from(
        self,
        authorized: Set<soroban_sdk::Address>,
        now: u64,
        spender: soroban_sdk::Address,
        from: soroban_sdk::Address,
        amount: i128,
    ) -> Result<TokenState, Trap> {
        if !authorized.contains(spender) {
            Err(Trap::Unauthorized)
        } else {
            match drawn_burn_step(
                spender,
                from,
                self.allowance_entry(from, spender),
                now,
                self.balance_entry(from),
                self.supply_entry(),
                amount,
            ) {
                Ok(burned) => Ok(
                    self.written_amount(burned.balance).written_amount(
                        burned.total_supply,
                    ).written_allowance(burned.allowance),
                ),
                Err(trap) => Err(trap),
            }
        }
    }
}

} // verus!
