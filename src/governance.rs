use vstd::prelude::*;
use crate::address::{Address, is_zero_spec};
use crate::member_list::{list_contains, list_is_wf};
use crate::token::{
    NCTokenState, TokenView, member_change_result, member_set, MAX_BLACKLIST, MAX_RESTRICTED,
    MAX_NO_SELL_LIMIT, MAX_LIQUIDITY_POOLS,
};
use crate::token::ErrorCode as TokenError;

verus! {

/// Delay between queuing a proposal and its earliest execution, until changed: 90 minutes.
pub const DEFAULT_COOLDOWN: i64 = 5400;

/// Most approvals one proposal records.
pub const MAX_APPROVALS: usize = 10;

/// The change a proposal makes to the token once executed.
#[derive(Clone, Copy, Debug, PartialEq, Eq, Structural)]
pub enum TransactionType {
    /// Lifts the emergency pause.
    Unpause,
    /// Sets whether the target is blacklisted.
    Blacklist,
    /// Sets whether the target is exempt from the sell limit.
    NoSellLimit,
    /// Sets whether the target is a restricted counterparty.
    Restrict,
    /// Sets whether the target is a liquidity pool.
    Pair,
}

/// Where a proposal stands. `Rejected` and `Executed` are final.
#[derive(Clone, Copy, Debug, PartialEq, Eq, Structural)]
pub enum TransactionStatus {
    Pending,
    Rejected,
    Executed,
}

/// Why a governance operation was refused.
#[derive(Clone, Copy, Debug, PartialEq, Eq, Structural)]
pub enum ErrorCode {
    InvalidApprovalRequirement,
    TokenAlreadySet,
    TokenNotSet,
    InvalidCooldownPeriod,
    ZeroAddress,
    TransactionNotFound,
    TransactionNotPending,
    AlreadyApproved,
    RejectionReasonRequired,
    CooldownNotExpired,
    InsufficientApprovals,
    Unauthorized,
    TooManyApprovals,
    CapacityExceeded,
    MathOverflow,
}

/// A queued change to the token's risk parameters.
pub struct PendingTransaction {
    pub id: u64,
    pub tx_type: TransactionType,
    pub status: TransactionStatus,
    pub initiator: Address,
    /// The identity the change is about (the zero identity for `Unpause`).
    pub target: Address,
    /// Whether the target joins (`true`) or leaves (`false`) the list.
    pub value: bool,
    /// When the proposal was queued.
    pub timestamp: i64,
    /// Earliest time at which it may run.
    pub execute_after: i64,
    pub approval_count: u8,
    pub approvals: Vec<Address>,
    pub rejection_reason: String,
    pub rejector: Address,
}

pub struct ProposalView {
    pub id: u64,
    pub tx_type: TransactionType,
    pub status: TransactionStatus,
    pub initiator: Address,
    pub target: Address,
    pub value: bool,
    pub timestamp: i64,
    pub execute_after: i64,
    pub approval_count: u8,
    pub approvals: Seq<Address>,
    pub rejection_reason: Seq<char>,
    pub rejector: Address,
}

impl View for PendingTransaction {
    type V = ProposalView;

    open spec fn view(&self) -> ProposalView {
        ProposalView {
            id: self.id,
            tx_type: self.tx_type,
            status: self.status,
            initiator: self.initiator,
            target: self.target,
            value: self.value,
            timestamp: self.timestamp,
            execute_after: self.execute_after,
            approval_count: self.approval_count,
            approvals: self.approvals@,
            rejection_reason: self.rejection_reason@,
            rejector: self.rejector,
        }
    }
}

/// Governance configuration together with every proposal queued so far; the
/// proposal with id `k` is the `k`-th one queued.
pub struct Governance {
    /// The identity allowed to change the configuration and to pause at once.
    pub admin: Address,
    /// The identity governance acts as towards the token.
    pub authority: Address,
    pub cooldown_period: i64,
    pub required_approvals: u8,
    pub nc_token: Address,
    pub token_set: bool,
    pub next_transaction_id: u64,
    pub proposals: Vec<PendingTransaction>,
}

pub struct ConfigView {
    pub admin: Address,
    pub authority: Address,
    pub cooldown_period: i64,
    pub required_approvals: u8,
    pub nc_token: Address,
    pub token_set: bool,
    pub next_transaction_id: u64,
}

/// Whether the proposal may run at `now` under threshold `required`.
pub open spec fn ready(p: ProposalView, required: u8, now: i64) -> bool {
    p.approval_count >= required && now >= p.execute_after
}

/// Proposal `p` with `approver`'s approval added.
pub open spec fn with_approval(p: ProposalView, approver: Address) -> ProposalView {
    ProposalView { approvals: p.approvals.push(approver), approval_count: (p.approval_count + 1) as u8, ..p }
}

/// The governance-side error for a refusal by the token.
pub open spec fn from_token_error(e: TokenError) -> ErrorCode {
    match e {
        TokenError::CapacityExceeded => ErrorCode::CapacityExceeded,
        TokenError::MathOverflow => ErrorCode::MathOverflow,
        _ => ErrorCode::Unauthorized,
    }
}

/// How the token answers when governance, acting as `authority`, applies a change.
pub open spec fn dispatch_result(
    t: TokenView,
    authority: Address,
    kind: TransactionType,
    target: Address,
    value: bool,
) -> Result<(), TokenError> {
    match kind {
        TransactionType::Unpause => if authority != t.governance {
            Err(TokenError::Unauthorized)
        } else {
            Ok(())
        },
        TransactionType::Blacklist => member_change_result(
            t,
            authority,
            t.blacklisted,
            target,
            value,
            MAX_BLACKLIST as nat,
        ),
        TransactionType::NoSellLimit => member_change_result(
            t,
            authority,
            t.exempt,
            target,
            value,
            MAX_NO_SELL_LIMIT as nat,
        ),
        TransactionType::Restrict => member_change_result(
            t,
            authority,
            t.restricted,
            target,
            value,
            MAX_RESTRICTED as nat,
        ),
        TransactionType::Pair => member_change_result(
            t,
            authority,
            t.pools,
            target,
            value,
            MAX_LIQUIDITY_POOLS as nat,
        ),
    }
}

/// Token state `after` is `before` with the change applied.
pub open spec fn dispatched(before: TokenView, after: TokenView, kind: TransactionType, target: Address, value: bool) -> bool {
    match kind {
        TransactionType::Unpause => after == TokenView { paused: false, ..before },
        TransactionType::Blacklist => member_set(before.blacklisted, after.blacklisted, target, value)
            && after == TokenView { blacklisted: after.blacklisted, ..before },
        TransactionType::NoSellLimit => member_set(before.exempt, after.exempt, target, value) && after
            == TokenView { exempt: after.exempt, ..before },
        TransactionType::Restrict => member_set(before.restricted, after.restricted, target, value)
            && after == TokenView { restricted: after.restricted, ..before },
        TransactionType::Pair => member_set(before.pools, after.pools, target, value) && after
            == TokenView { pools: after.pools, ..before },
    }
}

/// No proposal disappears, a final one never changes, and what a proposal
/// proposes stays as it was queued.
pub open spec fn transitions_ok(before: Governance, after: Governance) -> bool {
    &&& before.proposals@.len() <= after.proposals@.len()
    &&& forall|i: int|
        0 <= i < before.proposals@.len() ==> {
            let p = #[trigger] before.proposal(i);
            let q = after.proposal(i);
            &&& p.status != TransactionStatus::Pending ==> q == p
            &&& q.id == p.id && q.tx_type == p.tx_type && q.target == p.target && q.value == p.value
            &&& q.execute_after == p.execute_after
        }
}

/// The outcome of queuing a proposal at `now`: the id it receives, or why not.
pub open spec fn queue_result(g: Governance, now: i64) -> Result<u64, ErrorCode> {
    if !g.token_set {
        Err(ErrorCode::TokenNotSet)
    } else if g.next_transaction_id == u64::MAX {
        Err(ErrorCode::MathOverflow)
    } else if now + g.cooldown_period > i64::MAX {
        Err(ErrorCode::MathOverflow)
    } else {
        Ok(g.next_transaction_id)
    }
}

/// `after` is `before` with a new pending proposal, queued by `initiator` at `now`,
/// that has no approvals yet and may run once the cooldown has passed.
pub open spec fn queued(
    before: Governance,
    after: Governance,
    kind: TransactionType,
    target: Address,
    value: bool,
    initiator: Address,
    now: i64,
) -> bool {
    let n = before.proposals@.len() as int;
    let p = after.proposal(n);
    &&& after.config() == (ConfigView { next_transaction_id: (before.next_transaction_id + 1) as u64, ..before.config() })
    &&& after.proposals@.len() == n + 1
    &&& forall|i: int| 0 <= i < n ==> #[trigger] after.proposal(i) == before.proposal(i)
    &&& p == (ProposalView {
        id: before.next_transaction_id,
        tx_type: kind,
        status: TransactionStatus::Pending,
        initiator,
        target,
        value,
        timestamp: now,
        execute_after: (now + before.cooldown_period) as i64,
        approval_count: 0,
        approvals: Seq::empty(),
        rejection_reason: Seq::empty(),
        rejector: p.rejector,
    })
    &&& is_zero_spec(p.rejector@)
}

/// Why approving proposal `tx_id` is refused, if it is.
pub open spec fn approve_check(g: Governance, tx_id: u64, approver: Address) -> Result<(), ErrorCode> {
    if !g.known(tx_id) {
        Err(ErrorCode::TransactionNotFound)
    } else if g.by_id(tx_id).status != TransactionStatus::Pending {
        Err(ErrorCode::TransactionNotPending)
    } else if g.by_id(tx_id).approvals.contains(approver) {
        Err(ErrorCode::AlreadyApproved)
    } else if g.by_id(tx_id).approvals.len() >= MAX_APPROVALS {
        Err(ErrorCode::TooManyApprovals)
    } else {
        Ok(())
    }
}

/// Why rejecting proposal `tx_id` with `reason` is refused, if it is.
pub open spec fn reject_check(g: Governance, tx_id: u64, reason: Seq<char>) -> Result<(), ErrorCode> {
    if !g.known(tx_id) {
        Err(ErrorCode::TransactionNotFound)
    } else if g.by_id(tx_id).status != TransactionStatus::Pending {
        Err(ErrorCode::TransactionNotPending)
    } else if reason.len() == 0 {
        Err(ErrorCode::RejectionReasonRequired)
    } else {
        Ok(())
    }
}

/// Why running proposal `tx_id` at `now` is refused before the token is asked, if it is.
pub open spec fn execute_check(g: Governance, tx_id: u64, now: i64) -> Result<(), ErrorCode> {
    if !g.known(tx_id) {
        Err(ErrorCode::TransactionNotFound)
    } else if g.by_id(tx_id).status != TransactionStatus::Pending {
        Err(ErrorCode::TransactionNotPending)
    } else if now < g.by_id(tx_id).execute_after {
        Err(ErrorCode::CooldownNotExpired)
    } else if g.by_id(tx_id).approval_count < g.required_approvals {
        Err(ErrorCode::InsufficientApprovals)
    } else {
        Ok(())
    }
}

impl Governance {
    pub open spec fn config(&self) -> ConfigView {
        ConfigView {
            admin: self.admin,
            authority: self.authority,
            cooldown_period: self.cooldown_period,
            required_approvals: self.required_approvals,
            nc_token: self.nc_token,
            token_set: self.token_set,
            next_transaction_id: self.next_transaction_id,
        }
    }

    pub open spec fn proposal(&self, i: int) -> ProposalView {
        self.proposals@[i]@
    }

    /// Whether `tx_id` names a queued proposal.
    pub open spec fn known(&self, tx_id: u64) -> bool {
        1 <= tx_id < self.next_transaction_id
    }

    /// The proposal with id `tx_id`.
    pub open spec fn by_id(&self, tx_id: u64) -> ProposalView {
        self.proposal(tx_id - 1)
    }

    pub open spec fn wf(&self) -> bool {
        &&& self.cooldown_period > 0
        &&& self.required_approvals >= 1
        &&& self.next_transaction_id == self.proposals@.len() + 1
        &&& forall|i: int|
            0 <= i < self.proposals@.len() ==> {
                let p = #[trigger] self.proposal(i);
                &&& p.id == i + 1
                &&& p.approvals.no_duplicates()
                &&& p.approvals.len() <= MAX_APPROVALS
                &&& p.approval_count == p.approvals.len()
            }
    }

    /// Everything but the proposal with id `tx_id` is as in `other`.
    pub open spec fn same_except(&self, other: &Governance, tx_id: u64) -> bool {
        &&& self.config() == other.config()
        &&& self.proposals@.len() == other.proposals@.len()
        &&& forall|i: int|
            0 <= i < self.proposals@.len() && i != tx_id - 1 ==> #[trigger] self.proposal(i) == other.proposal(i)
    }

    pub open spec fn same(&self, other: &Governance) -> bool {
        self.config() == other.config() && self.proposals@.len() == other.proposals@.len() && forall|i: int|
            0 <= i < self.proposals@.len() ==> #[trigger] self.proposal(i) == other.proposal(i)
    }

    /// Checks the configuration and every proposal, as a state read back from
    /// storage must be checked before the operations here are used on it.
    pub fn is_wf(&self) -> (r: bool)
        ensures
            r == self.wf(),
    {
        if self.cooldown_period <= 0 || self.required_approvals < 1 {
            return false;
        }
        let n = self.proposals.len();
        if n as u128 + 1 != self.next_transaction_id as u128 {
            return false;
        }
        let mut i: usize = 0;
        while i < n
            invariant
                n == self.proposals@.len(),
                0 <= i <= n,
                forall|k: int|
                    0 <= k < i ==> {
                        let p = #[trigger] self.proposal(k);
                        &&& p.id == k + 1
                        &&& p.approvals.no_duplicates()
                        &&& p.approvals.len() <= MAX_APPROVALS
                        &&& p.approval_count == p.approvals.len()
                    },
            decreases n - i,
        {
            let p = &self.proposals[i];
            assert(self.proposal(i as int) == p@);
            if p.id != i as u64 + 1 || !list_is_wf(&p.approvals, MAX_APPROVALS) || p.approval_count as usize
                != p.approvals.len() {
                return false;
            }
            i = i + 1;
        }
        true
    }

    /// Governance run by `admin`, acting towards the token as `authority`: a
    /// 90-minute cooldown, one approval needed, no token linked, no proposals.
    pub fn initialize(admin: Address, authority: Address) -> (r: Governance)
        ensures
            r.wf(),
            r.config() == (ConfigView {
                admin,
                authority,
                cooldown_period: DEFAULT_COOLDOWN,
                required_approvals: 1,
                nc_token: r.nc_token,
                token_set: false,
                next_transaction_id: 1,
            }),
            r.proposals@.len() == 0,
    {
        Governance {
            admin,
            authority,
            cooldown_period: DEFAULT_COOLDOWN,
            required_approvals: 1,
            nc_token: Address::zero(),
            token_set: false,
            next_transaction_id: 1,
            proposals: Vec::new(),
        }
    }

    /// Sets how many distinct approvals a proposal needs; at least one.
    pub fn set_required_approvals(&mut self, caller: &Address, required: u8) -> (r: Result<(), ErrorCode>)
        requires
            old(self).wf(),
        ensures
            final(self).wf(),
            r == (if *caller != old(self).admin {
                Err(ErrorCode::Unauthorized)
            } else if required == 0 {
                Err(ErrorCode::InvalidApprovalRequirement)
            } else {
                Ok(())
            }),
            r is Err ==> final(self).same(old(self)),
            r is Ok ==> final(self).config() == (ConfigView { required_approvals: required, ..old(self).config() }),
            r is Ok ==> final(self).proposals@ == old(self).proposals@,
    {
        if !caller.same(&self.admin) {
            return Err(ErrorCode::Unauthorized);
        }
        if required == 0 {
            return Err(ErrorCode::InvalidApprovalRequirement);
        }
        self.required_approvals = required;
        proof {
            lemma_wf_same_proposals(old(self), self);
        }
        Ok(())
    }

    /// Links the token that proposals act on; this can be done once only.
    pub fn set_token(&mut self, caller: &Address, token: Address) -> (r: Result<(), ErrorCode>)
        requires
            old(self).wf(),
        ensures
            final(self).wf(),
            r == (if *caller != old(self).admin {
                Err(ErrorCode::Unauthorized)
            } else if old(self).token_set {
                Err(ErrorCode::TokenAlreadySet)
            } else if is_zero_spec(token@) {
                Err(ErrorCode::ZeroAddress)
            } else {
                Ok(())
            }),
            r is Err ==> final(self).same(old(self)),
            r is Ok ==> final(self).config() == (ConfigView { nc_token: token, token_set: true, ..old(self).config() }),
            r is Ok ==> final(self).proposals@ == old(self).proposals@,
    {
        if !caller.same(&self.admin) {
            return Err(ErrorCode::Unauthorized);
        }
        if self.token_set {
            return Err(ErrorCode::TokenAlreadySet);
        }
        if token.is_zero() {
            return Err(ErrorCode::ZeroAddress);
        }
        self.nc_token = token;
        self.token_set = true;
        proof {
            lemma_wf_same_proposals(old(self), self);
        }
        Ok(())
    }

    /// Sets the cooldown, in seconds, that proposals queued from now on wait.
    pub fn set_cooldown_period(&mut self, caller: &Address, period: i64) -> (r: Result<(), ErrorCode>)
        requires
            old(self).wf(),
        ensures
            final(self).wf(),
            r == (if *caller != old(self).admin {
                Err(ErrorCode::Unauthorized)
            } else if period <= 0 {
                Err(ErrorCode::InvalidCooldownPeriod)
            } else {
                Ok(())
            }),
            r is Err ==> final(self).same(old(self)),
            r is Ok ==> final(self).config() == (ConfigView { cooldown_period: period, ..old(self).config() }),
            r is Ok ==> final(self).proposals@ == old(self).proposals@,
    {
        if !caller.same(&self.admin) {
            return Err(ErrorCode::Unauthorized);
        }
        if period <= 0 {
            return Err(ErrorCode::InvalidCooldownPeriod);
        }
        self.cooldown_period = period;
        proof {
            lemma_wf_same_proposals(old(self), self);
        }
        Ok(())
    }

    /// Pauses the token at once, without a proposal; only the admin may.
    pub fn set_emergency_pause(&self, caller: &Address, token: &mut NCTokenState) -> (r: Result<(), ErrorCode>)
        ensures
            r == (if *caller != self.admin {
                Err(ErrorCode::Unauthorized)
            } else if !self.token_set {
                Err(ErrorCode::TokenNotSet)
            } else if self.authority != old(token)@.governance {
                Err(ErrorCode::Unauthorized)
            } else {
                Ok(())
            }),
            r is Err ==> final(token)@ == old(token)@,
            r is Ok ==> final(token)@ == (TokenView { paused: true, ..old(token)@ }),
    {
        if !caller.same(&self.admin) {
            return Err(ErrorCode::Unauthorized);
        }
        if !self.token_set {
            return Err(ErrorCode::TokenNotSet);
        }
        match token.set_emergency_pause(&self.authority, true) {
            Ok(()) => Ok(()),
            Err(e) => Err(token_error(e)),
        }
    }

    fn queue_transaction(
        &mut self,
        tx_type: TransactionType,
        target: Address,
        value: bool,
        initiator: Address,
        now: i64,
    ) -> (r: Result<u64, ErrorCode>)
        requires
            old(self).wf(),
        ensures
            final(self).wf(),
            r == queue_result(*old(self), now),
            r is Err ==> final(self).same(old(self)),
            r is Ok ==> queued(*old(self), *final(self), tx_type, target, value, initiator, now),
    {
        if !self.token_set {
            return Err(ErrorCode::TokenNotSet);
        }
        if self.next_transaction_id == u64::MAX {
            return Err(ErrorCode::MathOverflow);
        }
        let execute_after = match now.checked_add(self.cooldown_period) {
            Some(t) => t,
            None => {
                return Err(ErrorCode::MathOverflow);
            },
        };
        let tx_id = self.next_transaction_id;
        let proposal = PendingTransaction {
            id: tx_id,
            tx_type,
            status: TransactionStatus::Pending,
            initiator,
            target,
            value,
            timestamp: now,
            execute_after,
            approval_count: 0,
            approvals: Vec::new(),
            rejection_reason: String::new(),
            rejector: Address::zero(),
        };
        self.proposals.push(proposal);
        self.next_transaction_id = tx_id + 1;
        proof {
            assert forall|i: int| 0 <= i < old(self).proposals@.len() implies #[trigger] self.proposal(i)
                == old(self).proposal(i) by {
                assert(self.proposals@[i] == old(self).proposals@[i]);
            }
            assert(self.proposal(old(self).proposals@.len() as int).approvals =~= Seq::<Address>::empty());
            assert forall|i: int| 0 <= i < self.proposals@.len() implies {
                let p = #[trigger] self.proposal(i);
                &&& p.id == i + 1
                &&& p.approvals.no_duplicates()
                &&& p.approvals.len() <= MAX_APPROVALS
                &&& p.approval_count == p.approvals.len()
            } by {
                if i < old(self).proposals@.len() {
                    assert(self.proposal(i) == old(self).proposal(i));
                }
            }
        }
        Ok(tx_id)
    }

    /// Queues lifting the emergency pause.
    pub fn set_unpause(&mut self, initiator: Address, now: i64) -> (r: Result<u64, ErrorCode>)
        requires
            old(self).wf(),
        ensures
            final(self).wf(),
            r == queue_result(*old(self), now),
            r is Err ==> final(self).same(old(self)),
            r is Ok ==> queued(*old(self), *final(self), TransactionType::Unpause, final(self).by_id(r->Ok_0).target, false, initiator, now),
            r is Ok ==> is_zero_spec(final(self).by_id(r->Ok_0).target@),
    {
        let zero = Address::zero();
        self.queue_transaction(TransactionType::Unpause, zero, false, initiator, now)
    }

    /// Queues setting whether `account` is blacklisted.
    pub fn set_blacklist(&mut self, initiator: Address, account: Address, value: bool, now: i64) -> (r: Result<u64, ErrorCode>)
        requires
            old(self).wf(),
        ensures
            final(self).wf(),
            r == (if is_zero_spec(account@) { Err(ErrorCode::ZeroAddress) } else { queue_result(*old(self), now) }),
            r is Err ==> final(self).same(old(self)),
            r is Ok ==> queued(*old(self), *final(self), TransactionType::Blacklist, account, value, initiator, now),
    {
        if account.is_zero() {
            return Err(ErrorCode::ZeroAddress);
        }
        self.queue_transaction(TransactionType::Blacklist, account, value, initiator, now)
    }

    /// Queues setting whether `account` is exempt from the sell limit.
    pub fn set_no_sell_limit(&mut self, initiator: Address, account: Address, value: bool, now: i64) -> (r: Result<u64, ErrorCode>)
        requires
            old(self).wf(),
        ensures
            final(self).wf(),
            r == (if is_zero_spec(account@) { Err(ErrorCode::ZeroAddress) } else { queue_result(*old(self), now) }),
            r is Err ==> final(self).same(old(self)),
            r is Ok ==> queued(*old(self), *final(self), TransactionType::NoSellLimit, account, value, initiator, now),
    {
        if account.is_zero() {
            return Err(ErrorCode::ZeroAddress);
        }
        self.queue_transaction(TransactionType::NoSellLimit, account, value, initiator, now)
    }

    /// Queues setting whether `account` is a restricted counterparty.
    pub fn set_restricted(&mut self, initiator: Address, account: Address, value: bool, now: i64) -> (r: Result<u64, ErrorCode>)
        requires
            old(self).wf(),
        ensures
            final(self).wf(),
            r == (if is_zero_spec(account@) { Err(ErrorCode::ZeroAddress) } else { queue_result(*old(self), now) }),
            r is Err ==> final(self).same(old(self)),
            r is Ok ==> queued(*old(self), *final(self), TransactionType::Restrict, account, value, initiator, now),
    {
        if account.is_zero() {
            return Err(ErrorCode::ZeroAddress);
        }
        self.queue_transaction(TransactionType::Restrict, account, value, initiator, now)
    }

    /// Queues setting whether `pool` is a liquidity pool.
    pub fn set_liquidity_pool(&mut self, initiator: Address, pool: Address, value: bool, now: i64) -> (r: Result<u64, ErrorCode>)
        requires
            old(self).wf(),
        ensures
            final(self).wf(),
            r == (if is_zero_spec(pool@) { Err(ErrorCode::ZeroAddress) } else { queue_result(*old(self), now) }),
            r is Err ==> final(self).same(old(self)),
            r is Ok ==> queued(*old(self), *final(self), TransactionType::Pair, pool, value, initiator, now),
    {
        if pool.is_zero() {
            return Err(ErrorCode::ZeroAddress);
        }
        self.queue_transaction(TransactionType::Pair, pool, value, initiator, now)
    }
    /// Applies a change to the token, acting as the governance authority.
    fn apply_change(
        &self,
        token: &mut NCTokenState,
        tx_type: TransactionType,
        target: Address,
        value: bool,
    ) -> (r: Result<(), ErrorCode>)
        requires
            old(token).wf(),
        ensures
            final(token).wf(),
            match dispatch_result(old(token)@, self.authority, tx_type, target, value) {
                Ok(_) => r is Ok && dispatched(old(token)@, final(token)@, tx_type, target, value),
                Err(e) => r == Err::<(), ErrorCode>(from_token_error(e)) && final(token)@ == old(token)@,
            },
    {
        let res = match tx_type {
            TransactionType::Unpause => token.set_emergency_pause(&self.authority, false),
            TransactionType::Blacklist => token.set_blacklist(&self.authority, target, value),
            TransactionType::NoSellLimit => token.set_no_sell_limit(&self.authority, target, value),
            TransactionType::Restrict => token.set_restricted(&self.authority, target, value),
            TransactionType::Pair => token.set_liquidity_pool(&self.authority, target, value),
        };
        match res {
            Ok(()) => Ok(()),
            Err(e) => Err(token_error(e)),
        }
    }

    /// Records `approver`'s approval of proposal `tx_id` at `now`. When the
    /// approvals then reach the threshold and the cooldown has passed, the
    /// proposal runs within the same call and `Ok(true)` is returned; if the
    /// token refuses the change, nothing is recorded at all.
    pub fn approve_transaction(
        &mut self,
        token: &mut NCTokenState,
        tx_id: u64,
        approver: Address,
        now: i64,
    ) -> (r: Result<bool, ErrorCode>)
        requires
            old(self).wf(),
            old(token).wf(),
        ensures
            final(self).wf(),
            final(token).wf(),
            transitions_ok(*old(self), *final(self)),
            r is Err ==> final(self).same(old(self)) && final(token)@ == old(token)@,
            approve_check(*old(self), tx_id, approver) matches Err(e) ==> r == Err::<bool, ErrorCode>(e),
            approve_check(*old(self), tx_id, approver) is Ok ==> {
                let p = with_approval(old(self).by_id(tx_id), approver);
                if !ready(p, old(self).required_approvals, now) {
                    &&& r == Ok::<bool, ErrorCode>(false)
                    &&& final(self).same_except(old(self), tx_id)
                    &&& final(self).by_id(tx_id) == p
                    &&& final(token)@ == old(token)@
                } else {
                    match dispatch_result(old(token)@, old(self).authority, p.tx_type, p.target, p.value) {
                        Err(e) => r == Err::<bool, ErrorCode>(from_token_error(e)),
                        Ok(_) => {
                            &&& r == Ok::<bool, ErrorCode>(true)
                            &&& final(self).same_except(old(self), tx_id)
                            &&& final(self).by_id(tx_id) == (ProposalView { status: TransactionStatus::Executed, ..p })
                            &&& dispatched(old(token)@, final(token)@, p.tx_type, p.target, p.value)
                        },
                    }
                }
            },
    {
        if tx_id == 0 || tx_id >= self.next_transaction_id {
            return Err(ErrorCode::TransactionNotFound);
        }
        let n = self.proposals.len();
        assert(tx_id - 1 < n);
        let idx = (tx_id - 1) as usize;
        assert(self.proposal(idx as int) == self.by_id(tx_id));
        if self.proposals[idx].status != TransactionStatus::Pending {
            return Err(ErrorCode::TransactionNotPending);
        }
        if list_contains(&self.proposals[idx].approvals, &approver) {
            return Err(ErrorCode::AlreadyApproved);
        }
        if self.proposals[idx].approvals.len() >= MAX_APPROVALS {
            return Err(ErrorCode::TooManyApprovals);
        }
        let count = self.proposals[idx].approval_count + 1;
        let auto = count >= self.required_approvals && now >= self.proposals[idx].execute_after;
        if auto {
            let tx_type = self.proposals[idx].tx_type;
            let target = self.proposals[idx].target;
            let value = self.proposals[idx].value;
            let applied = self.apply_change(token, tx_type, target, value);
            if applied.is_err() {
                return match applied {
                    Err(e) => Err(e),
                    Ok(()) => Ok(false),
                };
            }
        }
        let ghost before = self.proposals@;
        self.proposals[idx].approvals.push(approver);
        self.proposals[idx].approval_count = count;
        if auto {
            self.proposals[idx].status = TransactionStatus::Executed;
        }
        proof {
            assert(self.proposals@ =~= old(self).proposals@.update(idx as int, self.proposals@[idx as int]));
            lemma_updated_one(old(self), self, idx as int);
            let ap = old(self).proposal(idx as int).approvals;
            assert forall|a: int, b: int| 0 <= a < b < ap.len() + 1 implies ap.push(approver)[a] != ap.push(approver)[b] by {
                if b == ap.len() {
                    assert(ap.push(approver)[a] == ap[a]);
                }
            }
        }
        Ok(auto)
    }

    /// Rejects proposal `tx_id`, recording `approver` and a non-empty `reason`.
    pub fn reject_transaction(&mut self, tx_id: u64, approver: Address, reason: String) -> (r: Result<(), ErrorCode>)
        requires
            old(self).wf(),
        ensures
            final(self).wf(),
            transitions_ok(*old(self), *final(self)),
            r == reject_check(*old(self), tx_id, reason@),
            r is Err ==> final(self).same(old(self)),
            r is Ok ==> final(self).same_except(old(self), tx_id),
            r is Ok ==> final(self).by_id(tx_id) == (ProposalView {
                status: TransactionStatus::Rejected,
                rejection_reason: reason@,
                rejector: approver,
                ..old(self).by_id(tx_id)
            }),
    {
        if tx_id == 0 || tx_id >= self.next_transaction_id {
            return Err(ErrorCode::TransactionNotFound);
        }
        let n = self.proposals.len();
        assert(tx_id - 1 < n);
        let idx = (tx_id - 1) as usize;
        assert(self.proposal(idx as int) == self.by_id(tx_id));
        if self.proposals[idx].status != TransactionStatus::Pending {
            return Err(ErrorCode::TransactionNotPending);
        }
        if reason.as_str().is_empty() {
            return Err(ErrorCode::RejectionReasonRequired);
        }
        self.proposals[idx].status = TransactionStatus::Rejected;
        self.proposals[idx].rejection_reason = reason;
        self.proposals[idx].rejector = approver;
        proof {
            assert(self.proposals@ =~= old(self).proposals@.update(idx as int, self.proposals@[idx as int]));
            lemma_updated_one(old(self), self, idx as int);
        }
        Ok(())
    }

    /// Runs proposal `tx_id` at `now`: it must be pending, past its cooldown, and
    /// approved by at least the threshold in force now.
    pub fn execute_transaction(&mut self, token: &mut NCTokenState, tx_id: u64, now: i64) -> (r: Result<(), ErrorCode>)
        requires
            old(self).wf(),
            old(token).wf(),
        ensures
            final(self).wf(),
            final(token).wf(),
            transitions_ok(*old(self), *final(self)),
            r is Err ==> final(self).same(old(self)) && final(token)@ == old(token)@,
            execute_check(*old(self), tx_id, now) matches Err(e) ==> r == Err::<(), ErrorCode>(e),
            execute_check(*old(self), tx_id, now) is Ok ==> {
                let p = old(self).by_id(tx_id);
                match dispatch_result(old(token)@, old(self).authority, p.tx_type, p.target, p.value) {
                    Err(e) => r == Err::<(), ErrorCode>(from_token_error(e)),
                    Ok(_) => {
                        &&& r is Ok
                        &&& final(self).same_except(old(self), tx_id)
                        &&& final(self).by_id(tx_id) == (ProposalView { status: TransactionStatus::Executed, ..p })
                        &&& dispatched(old(token)@, final(token)@, p.tx_type, p.target, p.value)
                    },
                }
            },
    {
        if tx_id == 0 || tx_id >= self.next_transaction_id {
            return Err(ErrorCode::TransactionNotFound);
        }
        let n = self.proposals.len();
        assert(tx_id - 1 < n);
        let idx = (tx_id - 1) as usize;
        assert(self.proposal(idx as int) == self.by_id(tx_id));
        if self.proposals[idx].status != TransactionStatus::Pending {
            return Err(ErrorCode::TransactionNotPending);
        }
        if now < self.proposals[idx].execute_after {
            return Err(ErrorCode::CooldownNotExpired);
        }
        if self.proposals[idx].approval_count < self.required_approvals {
            return Err(ErrorCode::InsufficientApprovals);
        }
        let tx_type = self.proposals[idx].tx_type;
        let target = self.proposals[idx].target;
        let value = self.proposals[idx].value;
        let applied = self.apply_change(token, tx_type, target, value);
        if applied.is_err() {
            return applied;
        }
        self.proposals[idx].status = TransactionStatus::Executed;
        proof {
            assert(self.proposals@ =~= old(self).proposals@.update(idx as int, self.proposals@[idx as int]));
            lemma_updated_one(old(self), self, idx as int);
        }
        Ok(())
    }
}

/// A rejected or executed proposal is final: approving it, rejecting it and
/// running it are all refused as not pending (and a refused call changes nothing).
pub proof fn lemma_final_proposal_refuses(g: Governance, tx_id: u64, approver: Address, reason: Seq<char>, now: i64)
    requires
        g.known(tx_id),
        g.by_id(tx_id).status != TransactionStatus::Pending,
    ensures
        approve_check(g, tx_id, approver) == Err::<(), ErrorCode>(ErrorCode::TransactionNotPending),
        reject_check(g, tx_id, reason) == Err::<(), ErrorCode>(ErrorCode::TransactionNotPending),
        execute_check(g, tx_id, now) == Err::<(), ErrorCode>(ErrorCode::TransactionNotPending),
{
}

/// Once `approver`'s approval of a proposal is recorded, whether or not the
/// proposal ran, approving it again is refused.
pub proof fn lemma_repeat_approval_refused(before: Governance, after: Governance, tx_id: u64, approver: Address)
    requires
        after.known(tx_id),
        after.by_id(tx_id).approvals == with_approval(before.by_id(tx_id), approver).approvals,
    ensures
        approve_check(after, tx_id, approver) is Err,
{
    let ap = after.by_id(tx_id).approvals;
    assert(ap[ap.len() - 1] == approver);
}

/// After a change to the proposal at `idx` alone that kept what it proposes, the
/// other proposals read as before.
proof fn lemma_updated_one(a: &Governance, b: &Governance, idx: int)
    requires
        0 <= idx < a.proposals@.len(),
        b.proposals@ == a.proposals@.update(idx, b.proposals@[idx]),
    ensures
        forall|i: int| 0 <= i < a.proposals@.len() && i != idx ==> #[trigger] b.proposal(i) == a.proposal(i),
        b.proposals@.len() == a.proposals@.len(),
{
}

proof fn lemma_wf_same_proposals(a: &Governance, b: &Governance)
    requires
        a.wf(),
        b.proposals@ == a.proposals@,
        b.next_transaction_id == a.next_transaction_id,
        b.cooldown_period > 0,
        b.required_approvals >= 1,
    ensures
        b.wf(),
{
    assert forall|i: int| 0 <= i < b.proposals@.len() implies #[trigger] b.proposal(i) == a.proposal(i) by {}
}

/// The governance-side error for a refusal by the token.
fn token_error(e: TokenError) -> (r: ErrorCode)
    ensures
        r == from_token_error(e),
{
    match e {
        TokenError::CapacityExceeded => ErrorCode::CapacityExceeded,
        TokenError::MathOverflow => ErrorCode::MathOverflow,
        _ => ErrorCode::Unauthorized,
    }
}

} // verus!
