use vstd::prelude::*;
use crate::address::Address;
use crate::member_list::{list_contains, list_is_wf, list_wf, membership_after, insert_overflows, set_member};
use crate::sell_window::{SellWindow, WindowView, enforce_sell_limit, sale_check, effective_window, record_sale};

verus! {

/// Most blacklisted identities the token keeps.
pub const MAX_BLACKLIST: usize = 1000;

/// Most restricted counterparties the token keeps.
pub const MAX_RESTRICTED: usize = 100;

/// Most sell-limit exemptions the token keeps.
pub const MAX_NO_SELL_LIMIT: usize = 100;

/// Most liquidity pools the token keeps.
pub const MAX_LIQUIDITY_POOLS: usize = 100;

/// Why a token-side operation was refused.
#[derive(Clone, Copy, Debug, PartialEq, Eq, Structural)]
pub enum ErrorCode {
    Paused,
    Blacklisted,
    SellLimitExceeded,
    MathOverflow,
    Unauthorized,
    CapacityExceeded,
}

/// The token's risk parameters: the governance identity allowed to change them,
/// the pause switch, and four membership lists.
pub struct NCTokenState {
    pub governance: Address,
    pub bridge: Address,
    pub treasury: Address,
    pub bond: Address,
    pub emergency_paused: bool,
    pub blacklisted: Vec<Address>,
    pub restricted_list: Vec<Address>,
    pub no_sell_limit: Vec<Address>,
    pub is_liquidity_pool: Vec<Address>,
}

pub struct TokenView {
    pub governance: Address,
    pub bridge: Address,
    pub treasury: Address,
    pub bond: Address,
    pub paused: bool,
    pub blacklisted: Seq<Address>,
    pub restricted: Seq<Address>,
    pub exempt: Seq<Address>,
    pub pools: Seq<Address>,
}

impl View for NCTokenState {
    type V = TokenView;

    open spec fn view(&self) -> TokenView {
        TokenView {
            governance: self.governance,
            bridge: self.bridge,
            treasury: self.treasury,
            bond: self.bond,
            paused: self.emergency_paused,
            blacklisted: self.blacklisted@,
            restricted: self.restricted_list@,
            exempt: self.no_sell_limit@,
            pools: self.is_liquidity_pool@,
        }
    }
}

/// The outcome of a membership change by `caller`: only the governance identity
/// may make one, and a full list takes no new member.
pub open spec fn member_change_result(
    v: TokenView,
    caller: Address,
    list: Seq<Address>,
    account: Address,
    value: bool,
    cap: nat,
) -> Result<(), ErrorCode> {
    if caller != v.governance {
        Err(ErrorCode::Unauthorized)
    } else if insert_overflows(list, account, value, cap) {
        Err(ErrorCode::CapacityExceeded)
    } else {
        Ok(())
    }
}

/// List `after` is list `before` with `account` set to `value`.
pub open spec fn member_set(before: Seq<Address>, after: Seq<Address>, account: Address, value: bool) -> bool {
    forall|x: Address| #[trigger] after.contains(x) == membership_after(before, account, value, x)
}

/// While paused, any transfer that touches a restricted or blacklisted party stops.
pub open spec fn pause_blocks(v: TokenView, from: Address, to: Address) -> bool {
    v.paused && (v.restricted.contains(from) || v.restricted.contains(to) || v.blacklisted.contains(from)
        || v.blacklisted.contains(to))
}

/// A blacklisted party may not deal with a restricted counterparty, nor two
/// blacklisted parties with each other.
pub open spec fn blacklist_blocks(v: TokenView, from: Address, to: Address) -> bool {
    (v.blacklisted.contains(from) && v.restricted.contains(to)) || (v.blacklisted.contains(to)
        && v.restricted.contains(from)) || (v.blacklisted.contains(from) && v.blacklisted.contains(to))
}

/// Sales into a liquidity pool are limited unless the seller is exempt or restricted.
pub open spec fn sell_limit_applies(v: TokenView, from: Address, to: Address) -> bool {
    v.pools.contains(to) && !v.exempt.contains(from) && !v.restricted.contains(from)
}

/// The outcome of a transfer of `amount` from `from` to `to`, given the seller's
/// window `w`, balance and the time.
pub open spec fn transfer_result(
    v: TokenView,
    w: WindowView,
    from: Address,
    to: Address,
    amount: u64,
    balance: u64,
    now: i64,
) -> Result<(), ErrorCode> {
    if pause_blocks(v, from, to) {
        Err(ErrorCode::Paused)
    } else if blacklist_blocks(v, from, to) {
        Err(ErrorCode::Blacklisted)
    } else if sell_limit_applies(v, from, to) {
        sale_check(effective_window(w, now, balance), now, amount)
    } else {
        Ok(())
    }
}

impl NCTokenState {
    /// Each list is free of repeats and within its capacity.
    pub open spec fn wf(&self) -> bool {
        &&& list_wf(self.blacklisted@, MAX_BLACKLIST as nat)
        &&& list_wf(self.restricted_list@, MAX_RESTRICTED as nat)
        &&& list_wf(self.no_sell_limit@, MAX_NO_SELL_LIMIT as nat)
        &&& list_wf(self.is_liquidity_pool@, MAX_LIQUIDITY_POOLS as nat)
    }

    /// Checks the lists, as a state read back from storage must be checked
    /// before the operations here are used on it.
    pub fn is_wf(&self) -> (r: bool)
        ensures
            r == self.wf(),
    {
        list_is_wf(&self.blacklisted, MAX_BLACKLIST) && list_is_wf(&self.restricted_list, MAX_RESTRICTED)
            && list_is_wf(&self.no_sell_limit, MAX_NO_SELL_LIMIT) && list_is_wf(
            &self.is_liquidity_pool,
            MAX_LIQUIDITY_POOLS,
        )
    }

    /// A token governed by `governance`, unpaused, whose bridge and treasury are
    /// exempt from the sell limit.
    pub fn initialize(governance: Address, bridge: Address, treasury: Address, bond: Address) -> (r: NCTokenState)
        ensures
            r.wf(),
            r@.governance == governance,
            r@.bridge == bridge,
            r@.treasury == treasury,
            r@.bond == bond,
            !r@.paused,
            r@.blacklisted.len() == 0,
            r@.restricted.len() == 0,
            r@.pools.len() == 0,
            forall|x: Address| #[trigger] r@.exempt.contains(x) == (x == bridge || x == treasury),
    {
        let mut no_sell_limit: Vec<Address> = Vec::new();
        no_sell_limit.push(bridge);
        proof {
            let one = no_sell_limit@;
            assert(one[0] == bridge);
            assert forall|x: Address| #[trigger] one.contains(x) == (x == bridge) by {
                if one.contains(x) {
                    assert(one[0] == x);
                }
            }
        }
        set_member(&mut no_sell_limit, treasury, true, MAX_NO_SELL_LIMIT);
        NCTokenState {
            governance,
            bridge,
            treasury,
            bond,
            emergency_paused: false,
            blacklisted: Vec::new(),
            restricted_list: Vec::new(),
            no_sell_limit,
            is_liquidity_pool: Vec::new(),
        }
    }

    /// Sets the pause switch; only the governance identity may.
    pub fn set_emergency_pause(&mut self, caller: &Address, value: bool) -> (r: Result<(), ErrorCode>)
        ensures
            r is Err <==> *caller != old(self)@.governance,
            r is Err ==> r == Err::<(), ErrorCode>(ErrorCode::Unauthorized) && final(self)@ == old(self)@,
            r is Ok ==> final(self)@ == (TokenView { paused: value, ..old(self)@ }),
    {
        if !caller.same(&self.governance) {
            return Err(ErrorCode::Unauthorized);
        }
        self.emergency_paused = value;
        Ok(())
    }

    /// Adds `account` to, or removes it from, the blacklist.
    pub fn set_blacklist(&mut self, caller: &Address, account: Address, value: bool) -> (r: Result<(), ErrorCode>)
        requires
            old(self).wf(),
        ensures
            final(self).wf(),
            r == member_change_result(old(self)@, *caller, old(self)@.blacklisted, account, value, MAX_BLACKLIST as nat),
            r is Err ==> final(self)@ == old(self)@,
            r is Ok ==> member_set(old(self)@.blacklisted, final(self)@.blacklisted, account, value),
            r is Ok ==> final(self)@ == (TokenView { blacklisted: final(self)@.blacklisted, ..old(self)@ }),
    {
        if !caller.same(&self.governance) {
            return Err(ErrorCode::Unauthorized);
        }
        if set_member(&mut self.blacklisted, account, value, MAX_BLACKLIST) {
            Ok(())
        } else {
            Err(ErrorCode::CapacityExceeded)
        }
    }

    /// Adds `account` to, or removes it from, the restricted counterparties.
    pub fn set_restricted(&mut self, caller: &Address, account: Address, value: bool) -> (r: Result<(), ErrorCode>)
        requires
            old(self).wf(),
        ensures
            final(self).wf(),
            r == member_change_result(old(self)@, *caller, old(self)@.restricted, account, value, MAX_RESTRICTED as nat),
            r is Err ==> final(self)@ == old(self)@,
            r is Ok ==> member_set(old(self)@.restricted, final(self)@.restricted, account, value),
            r is Ok ==> final(self)@ == (TokenView { restricted: final(self)@.restricted, ..old(self)@ }),
    {
        if !caller.same(&self.governance) {
            return Err(ErrorCode::Unauthorized);
        }
        if set_member(&mut self.restricted_list, account, value, MAX_RESTRICTED) {
            Ok(())
        } else {
            Err(ErrorCode::CapacityExceeded)
        }
    }

    /// Exempts `account` from the sell limit, or ends its exemption.
    pub fn set_no_sell_limit(&mut self, caller: &Address, account: Address, value: bool) -> (r: Result<(), ErrorCode>)
        requires
            old(self).wf(),
        ensures
            final(self).wf(),
            r == member_change_result(old(self)@, *caller, old(self)@.exempt, account, value, MAX_NO_SELL_LIMIT as nat),
            r is Err ==> final(self)@ == old(self)@,
            r is Ok ==> member_set(old(self)@.exempt, final(self)@.exempt, account, value),
            r is Ok ==> final(self)@ == (TokenView { exempt: final(self)@.exempt, ..old(self)@ }),
    {
        if !caller.same(&self.governance) {
            return Err(ErrorCode::Unauthorized);
        }
        if set_member(&mut self.no_sell_limit, account, value, MAX_NO_SELL_LIMIT) {
            Ok(())
        } else {
            Err(ErrorCode::CapacityExceeded)
        }
    }

    /// Marks `pool` as a liquidity pool, or unmarks it.
    pub fn set_liquidity_pool(&mut self, caller: &Address, pool: Address, value: bool) -> (r: Result<(), ErrorCode>)
        requires
            old(self).wf(),
        ensures
            final(self).wf(),
            r == member_change_result(old(self)@, *caller, old(self)@.pools, pool, value, MAX_LIQUIDITY_POOLS as nat),
            r is Err ==> final(self)@ == old(self)@,
            r is Ok ==> member_set(old(self)@.pools, final(self)@.pools, pool, value),
            r is Ok ==> final(self)@ == (TokenView { pools: final(self)@.pools, ..old(self)@ }),
    {
        if !caller.same(&self.governance) {
            return Err(ErrorCode::Unauthorized);
        }
        if set_member(&mut self.is_liquidity_pool, pool, value, MAX_LIQUIDITY_POOLS) {
            Ok(())
        } else {
            Err(ErrorCode::CapacityExceeded)
        }
    }

    pub fn is_blacklisted(&self, account: &Address) -> (r: bool)
        ensures
            r == self@.blacklisted.contains(*account),
    {
        list_contains(&self.blacklisted, account)
    }

    /// Whether `account` is exempt from the sell limit.
    pub fn is_sell_limit(&self, account: &Address) -> (r: bool)
        ensures
            r == self@.exempt.contains(*account),
    {
        list_contains(&self.no_sell_limit, account)
    }

    pub fn is_restricted(&self, account: &Address) -> (r: bool)
        ensures
            r == self@.restricted.contains(*account),
    {
        list_contains(&self.restricted_list, account)
    }

    pub fn is_liquidity_pool(&self, account: &Address) -> (r: bool)
        ensures
            r == self@.pools.contains(*account),
    {
        list_contains(&self.is_liquidity_pool, account)
    }

    /// Decides whether `from` may move `amount` to `to` at `now`, `balance` being
    /// what `from` holds. A sale into a liquidity pool is checked against, and on
    /// success recorded in, the seller's window `window`; nothing else changes.
    /// The balances themselves are moved by the caller once this returns `Ok`.
    pub fn transfer(
        &self,
        window: &mut SellWindow,
        from: &Address,
        to: &Address,
        amount: u64,
        balance: u64,
        now: i64,
    ) -> (r: Result<(), ErrorCode>)
        requires
            sell_limit_applies(self@, *from, *to) ==> now >= 0,
        ensures
            r == transfer_result(self@, old(window)@, *from, *to, amount, balance, now),
            r is Ok && sell_limit_applies(self@, *from, *to) ==> final(window)@ == record_sale(
                effective_window(old(window)@, now, balance),
                now,
                amount,
            ),
            r is Err || !sell_limit_applies(self@, *from, *to) ==> final(window)@ == old(window)@,
    {
        let from_restricted = self.is_restricted(from);
        let to_restricted = self.is_restricted(to);
        let from_blacklisted = self.is_blacklisted(from);
        let to_blacklisted = self.is_blacklisted(to);
        if self.emergency_paused {
            if from_restricted || to_restricted || from_blacklisted || to_blacklisted {
                return Err(ErrorCode::Paused);
            }
        }
        if from_blacklisted && to_restricted {
            return Err(ErrorCode::Blacklisted);
        }
        if to_blacklisted && from_restricted {
            return Err(ErrorCode::Blacklisted);
        }
        if from_blacklisted && to_blacklisted {
            return Err(ErrorCode::Blacklisted);
        }
        if self.is_liquidity_pool(to) && !self.is_sell_limit(from) && !from_restricted {
            enforce_sell_limit(window, now, balance, amount)
        } else {
            Ok(())
        }
    }
}

} // verus!
