//! Treasury: collects deposits (such as early-unstake penalties) and pays out
//! through two-phase, timelocked withdrawals.
//!
//! A withdrawal is first requested, which records it and locks it until
//! `now + timelock`; once the timelock has elapsed it can be executed, which
//! debits the balance. A request executes at most once.
use vstd::prelude::*;
use crate::arith::{clamp_i128, clamp_u64, sat_add_i128, sat_sub_i128};
use crate::errors::PeerXError;
use crate::types::Address;

verus! {

/// Default governance timelock: 48 hours in seconds.
pub const DEFAULT_TREASURY_TIMELOCK_SECS: u64 = 172_800;

/// A pending or executed governance withdrawal.
#[derive(Debug, PartialEq, Eq)]
pub struct WithdrawRequest {
    /// Unique request identifier (allocated from a counter starting at 0).
    pub id: u64,
    /// Amount to be withdrawn.
    pub amount: i128,
    /// Destination that receives the funds.
    pub destination: Address,
    /// Time at which the request was created.
    pub requested_at: u64,
    /// Earliest time at which the request can be executed.
    pub executable_after: u64,
    /// Whether the request has been executed.
    pub executed: bool,
}

impl Clone for WithdrawRequest {
    fn clone(&self) -> (r: Self)
        ensures
            r == *self,
    {
        WithdrawRequest {
            id: self.id,
            amount: self.amount,
            destination: self.destination.clone(),
            requested_at: self.requested_at,
            executable_after: self.executable_after,
            executed: self.executed,
        }
    }
}

/// The persistent slots in which the contract keeps the treasury.
#[derive(Clone, Copy, Debug, PartialEq, Eq, Structural)]
pub enum TreasuryKey {
    /// Current treasury balance.
    Balance,
    /// Governance timelock duration in seconds.
    TimelockDuration,
    /// Next available request ID.
    NextRequestId,
    /// Individual withdrawal request keyed by ID.
    WithdrawRequest(u64),
    /// Total lifetime deposits.
    TotalDeposited,
    /// Total lifetime withdrawals.
    TotalWithdrawn,
}

/// What a successful deposit publishes: the source tag, the amount and the
/// balance after the deposit.
#[derive(Debug, PartialEq, Eq)]
pub struct TreasuryDeposit {
    /// Free-form tag naming where the deposit came from (e.g. `penalty`).
    pub source: String,
    /// Amount deposited.
    pub amount: i128,
    /// Treasury balance after the deposit.
    pub new_balance: i128,
}

/// Stored treasury values that make a well-formed treasury: non-negative
/// balance and totals, and request `i` with ID `i` and a positive amount.
pub open spec fn stored_treasury_ok(
    balance: i128,
    requests: Seq<WithdrawRequest>,
    total_deposited: i128,
    total_withdrawn: i128,
) -> bool {
    &&& balance >= 0
    &&& total_deposited >= 0
    &&& total_withdrawn >= 0
    &&& requests.len() < u64::MAX
    &&& forall|i: int| 0 <= i < requests.len() ==> (#[trigger] requests[i]).id == i && requests[i].amount > 0
}

/// The treasury's state: its balance, timelock, lifetime totals and every
/// withdrawal request, request `i` at position `i`.
pub struct TreasuryManager {
    balance: i128,
    timelock_duration: u64,
    requests: Vec<WithdrawRequest>,
    total_deposited: i128,
    total_withdrawn: i128,
}

impl TreasuryManager {
    /// Current balance.
    pub closed spec fn spec_balance(&self) -> i128 {
        self.balance
    }

    /// Configured timelock duration in seconds.
    pub closed spec fn spec_timelock(&self) -> u64 {
        self.timelock_duration
    }

    /// Lifetime deposits.
    pub closed spec fn spec_total_deposited(&self) -> i128 {
        self.total_deposited
    }

    /// Lifetime withdrawals.
    pub closed spec fn spec_total_withdrawn(&self) -> i128 {
        self.total_withdrawn
    }

    /// All withdrawal requests, request `i` at index `i`.
    pub closed spec fn spec_requests(&self) -> Seq<WithdrawRequest> {
        self.requests@
    }

    /// The ID the next request will get.
    pub open spec fn spec_next_id(&self) -> nat {
        self.spec_requests().len()
    }

    /// The request with the given ID, if it exists.
    pub open spec fn spec_request(&self, id: u64) -> Option<WithdrawRequest> {
        if id < self.spec_requests().len() {
            Some(self.spec_requests()[id as int])
        } else {
            None
        }
    }

    /// Well-formedness: request `i` has ID `i`, the balance and the totals are
    /// non-negative, and every request is for a positive amount.
    pub open spec fn wf(&self) -> bool {
        &&& self.spec_balance() >= 0
        &&& self.spec_total_deposited() >= 0
        &&& self.spec_total_withdrawn() >= 0
        &&& self.spec_requests().len() <= u64::MAX
        &&& forall|i: int|
            0 <= i < self.spec_requests().len() ==> {
                &&& (#[trigger] self.spec_requests()[i]).id == i
                &&& self.spec_requests()[i].amount > 0
            }
    }

    /// The balance equals lifetime deposits minus lifetime withdrawals.
    pub open spec fn ledger_consistent(&self) -> bool {
        self.spec_balance() == self.spec_total_deposited() - self.spec_total_withdrawn()
    }

    /// An empty treasury with the default 48-hour timelock.
    pub fn new() -> (t: TreasuryManager)
        ensures
            t.wf(),
            t.ledger_consistent(),
            ledger_sound(t),
            t.spec_balance() == 0,
            t.spec_timelock() == DEFAULT_TREASURY_TIMELOCK_SECS,
            t.spec_total_deposited() == 0,
            t.spec_total_withdrawn() == 0,
            t.spec_requests().len() == 0,
    {
        TreasuryManager {
            balance: 0,
            timelock_duration: DEFAULT_TREASURY_TIMELOCK_SECS,
            requests: Vec::new(),
            total_deposited: 0,
            total_withdrawn: 0,
        }
    }

    /// What depositing `amount` tagged `source` does to `pre`, giving `post`
    /// and the result `r`.
    pub open spec fn deposit_outcome(
        pre: TreasuryManager,
        post: TreasuryManager,
        amount: i128,
        source: String,
        r: Result<TreasuryDeposit, PeerXError>,
    ) -> bool {
        &&& amount <= 0 ==> r == Err::<TreasuryDeposit, PeerXError>(PeerXError::TreasuryInvalidAmount)
            && post == pre
        &&& amount > 0 ==> {
            &&& r == Ok::<TreasuryDeposit, PeerXError>(
                TreasuryDeposit { source, amount, new_balance: post.spec_balance() },
            )
            &&& post.spec_balance() == clamp_i128(pre.spec_balance() + amount)
            &&& post.spec_total_deposited() == clamp_i128(pre.spec_total_deposited() + amount)
            &&& post.spec_total_withdrawn() == pre.spec_total_withdrawn()
            &&& post.spec_timelock() == pre.spec_timelock()
            &&& post.spec_requests() == pre.spec_requests()
        }
    }

    /// The treasury as stored: balance, timelock, every request in ID order,
    /// and the lifetime totals. `None` when the stored values are not a
    /// well-formed treasury (a negative balance or total, a request whose ID
    /// is not its position, or one for a non-positive amount).
    pub fn from_stored(
        balance: i128,
        timelock_duration: u64,
        requests: Vec<WithdrawRequest>,
        total_deposited: i128,
        total_withdrawn: i128,
    ) -> (r: Option<TreasuryManager>)
        ensures
            r matches Some(t) ==> t.wf() && t.spec_balance() == balance && t.spec_timelock()
                == timelock_duration && t.spec_requests() == requests@ && t.spec_total_deposited()
                == total_deposited && t.spec_total_withdrawn() == total_withdrawn,
            r is Some <==> stored_treasury_ok(balance, requests@, total_deposited, total_withdrawn),
    {
        if balance < 0 || total_deposited < 0 || total_withdrawn < 0 {
            return None;
        }
        if requests.len() as u64 == u64::MAX {
            return None;
        }
        let mut i: usize = 0;
        while i < requests.len()
            invariant
                i <= requests@.len(),
                forall|k: int| 0 <= k < i ==> (#[trigger] requests@[k]).id == k && requests@[k].amount > 0,
            decreases requests@.len() - i,
        {
            if requests[i].id != i as u64 || requests[i].amount <= 0 {
                return None;
            }
            i = i + 1;
        }
        Some(TreasuryManager { balance, timelock_duration, requests, total_deposited, total_withdrawn })
    }

    /// The ID the next request will get.
    pub fn next_request_id(&self) -> (r: u64)
        requires
            self.wf(),
        ensures
            r == self.spec_next_id(),
    {
        self.requests.len() as u64
    }

    /// Credits `amount` to the treasury; `source` tags the deposit in the
    /// published record. Fails with `TreasuryInvalidAmount` when `amount <= 0`.
    pub fn deposit(&mut self, amount: i128, source: String) -> (r: Result<TreasuryDeposit, PeerXError>)
        requires
            old(self).wf(),
        ensures
            final(self).wf(),
            Self::deposit_outcome(*old(self), *final(self), amount, source, r),
            old(self).ledger_consistent() && old(self).spec_total_deposited() + amount
                <= i128::MAX ==> final(self).ledger_consistent(),
    {
        if amount <= 0 {
            return Err(PeerXError::TreasuryInvalidAmount);
        }
        let new_balance = sat_add_i128(self.balance, amount);
        self.balance = new_balance;
        self.total_deposited = sat_add_i128(self.total_deposited, amount);
        Ok(TreasuryDeposit { source, amount, new_balance })
    }

    /// The current balance (0 before any deposit).
    pub fn balance(&self) -> (r: i128)
        ensures
            r == self.spec_balance(),
    {
        self.balance
    }

    /// The configured timelock duration in seconds.
    pub fn get_timelock_duration(&self) -> (r: u64)
        ensures
            r == self.spec_timelock(),
    {
        self.timelock_duration
    }

    /// Overrides the timelock duration; requests made afterwards use it.
    pub fn set_timelock_duration(&mut self, duration_secs: u64)
        requires
            old(self).wf(),
        ensures
            final(self).wf(),
            final(self).spec_timelock() == duration_secs,
            final(self).spec_balance() == old(self).spec_balance(),
            final(self).spec_total_deposited() == old(self).spec_total_deposited(),
            final(self).spec_total_withdrawn() == old(self).spec_total_withdrawn(),
            final(self).spec_requests() == old(self).spec_requests(),
    {
        self.timelock_duration = duration_secs;
    }

    /// What requesting a withdrawal of `amount` to `destination` at time `now`
    /// does to `pre`, giving `post` and the result `r`.
    pub open spec fn request_outcome(
        pre: TreasuryManager,
        post: TreasuryManager,
        amount: i128,
        destination: Address,
        now: u64,
        r: Result<u64, PeerXError>,
    ) -> bool {
        &&& amount <= 0 ==> r == Err::<u64, PeerXError>(PeerXError::TreasuryInvalidAmount)
        &&& amount > 0 && amount > pre.spec_balance() ==> r == Err::<u64, PeerXError>(
            PeerXError::TreasuryInsufficientFunds,
        )
        &&& r is Err ==> post == pre
        &&& 0 < amount <= pre.spec_balance() ==> {
            &&& r == Ok::<u64, PeerXError>(pre.spec_next_id() as u64)
            &&& post.spec_requests() == pre.spec_requests().push(
                WithdrawRequest {
                    id: pre.spec_next_id() as u64,
                    amount,
                    destination,
                    requested_at: now,
                    executable_after: clamp_u64(now + pre.spec_timelock()) as u64,
                    executed: false,
                },
            )
            &&& post.spec_balance() == pre.spec_balance()
            &&& post.spec_total_deposited() == pre.spec_total_deposited()
            &&& post.spec_total_withdrawn() == pre.spec_total_withdrawn()
            &&& post.spec_timelock() == pre.spec_timelock()
        }
    }

    /// Creates a pending withdrawal request at time `now`, executable from
    /// `now + timelock` (saturating), and returns its ID. The balance is not
    /// touched until the request is executed.
    ///
    /// Errors: `TreasuryInvalidAmount` when `amount <= 0`;
    /// `TreasuryInsufficientFunds` when `amount` exceeds the balance.
    pub fn request_withdraw(&mut self, amount: i128, destination: Address, now: u64) -> (r: Result<
        u64,
        PeerXError,
    >)
        requires
            old(self).wf(),
            old(self).spec_next_id() < u64::MAX,
        ensures
            final(self).wf(),
            Self::request_outcome(*old(self), *final(self), amount, destination, now, r),
            old(self).ledger_consistent() ==> final(self).ledger_consistent(),
    {
        if amount <= 0 {
            return Err(PeerXError::TreasuryInvalidAmount);
        }
        if amount > self.balance {
            return Err(PeerXError::TreasuryInsufficientFunds);
        }
        let executable_after = now.saturating_add(self.timelock_duration);
        let request_id = self.requests.len() as u64;
        let request = WithdrawRequest {
            id: request_id,
            amount,
            destination,
            requested_at: now,
            executable_after,
            executed: false,
        };
        self.requests.push(request);
        Ok(request_id)
    }

    /// What executing request `request_id` at time `now` does to `pre`,
    /// giving `post` and the result `r`.
    pub open spec fn execute_outcome(
        pre: TreasuryManager,
        post: TreasuryManager,
        request_id: u64,
        now: u64,
        r: Result<WithdrawRequest, PeerXError>,
    ) -> bool {
        &&& r is Err ==> post == pre
        &&& pre.spec_request(request_id) is None ==> r == Err::<WithdrawRequest, PeerXError>(
            PeerXError::TreasuryWithdrawNotFound,
        )
        &&& pre.spec_request(request_id) matches Some(req) ==> {
            if req.executed {
                r == Err::<WithdrawRequest, PeerXError>(PeerXError::TreasuryWithdrawAlreadyExecuted)
            } else if now < req.executable_after {
                r == Err::<WithdrawRequest, PeerXError>(PeerXError::TreasuryTimelockNotElapsed)
            } else if req.amount > pre.spec_balance() {
                r == Err::<WithdrawRequest, PeerXError>(PeerXError::TreasuryInsufficientFunds)
            } else {
                &&& r == Ok::<WithdrawRequest, PeerXError>(WithdrawRequest { executed: true, ..req })
                &&& post.spec_requests() == pre.spec_requests().update(
                    request_id as int,
                    WithdrawRequest { executed: true, ..req },
                )
                &&& post.spec_balance() == pre.spec_balance() - req.amount
                &&& post.spec_total_withdrawn() == clamp_i128(
                    pre.spec_total_withdrawn() + req.amount,
                )
                &&& post.spec_total_deposited() == pre.spec_total_deposited()
                &&& post.spec_timelock() == pre.spec_timelock()
            }
        }
    }

    /// Executes request `request_id` at time `now`: debits the balance by its
    /// amount, adds it to the lifetime withdrawals, marks the request executed
    /// and returns it.
    ///
    /// Errors, checked in this order: `TreasuryWithdrawNotFound` for an
    /// unknown ID; `TreasuryWithdrawAlreadyExecuted`;
    /// `TreasuryTimelockNotElapsed` when `now < executable_after`;
    /// `TreasuryInsufficientFunds` when the amount exceeds the balance.
    pub fn execute_withdraw(&mut self, request_id: u64, now: u64) -> (r: Result<
        WithdrawRequest,
        PeerXError,
    >)
        requires
            old(self).wf(),
        ensures
            final(self).wf(),
            Self::execute_outcome(*old(self), *final(self), request_id, now, r),
            old(self).ledger_consistent() ==> final(self).ledger_consistent(),
    {
        if request_id >= self.requests.len() as u64 {
            return Err(PeerXError::TreasuryWithdrawNotFound);
        }
        let idx = request_id as usize;
        let mut request = self.requests[idx].clone();
        if request.executed {
            return Err(PeerXError::TreasuryWithdrawAlreadyExecuted);
        }
        if now < request.executable_after {
            return Err(PeerXError::TreasuryTimelockNotElapsed);
        }
        if request.amount > self.balance {
            return Err(PeerXError::TreasuryInsufficientFunds);
        }
        self.balance = sat_sub_i128(self.balance, request.amount);
        self.total_withdrawn = sat_add_i128(self.total_withdrawn, request.amount);
        request.executed = true;
        let stored = request.clone();
        self.requests.set(idx, stored);
        Ok(request)
    }

    /// The withdrawal request with the given ID; `TreasuryWithdrawNotFound`
    /// when there is none.
    pub fn get_withdraw_request(&self, request_id: u64) -> (r: Result<WithdrawRequest, PeerXError>)
        requires
            self.wf(),
        ensures
            self.spec_request(request_id) matches Some(req) ==> r == Ok::<
                WithdrawRequest,
                PeerXError,
            >(req),
            self.spec_request(request_id) is None ==> r == Err::<WithdrawRequest, PeerXError>(
                PeerXError::TreasuryWithdrawNotFound,
            ),
    {
        if request_id >= self.requests.len() as u64 {
            return Err(PeerXError::TreasuryWithdrawNotFound);
        }
        Ok(self.requests[request_id as usize].clone())
    }

    /// `(total_deposited, total_withdrawn, current_balance)` for auditing.
    pub fn get_stats(&self) -> (r: (i128, i128, i128))
        ensures
            r == (self.spec_total_deposited(), self.spec_total_withdrawn(), self.spec_balance()),
    {
        (self.total_deposited, self.total_withdrawn, self.balance)
    }
}

/// A withdrawal request executes at most once: once an execution of it has
/// succeeded, any later execution fails with `TreasuryWithdrawAlreadyExecuted`
/// and leaves the treasury unchanged.
pub proof fn law_withdrawal_executes_at_most_once(
    t0: TreasuryManager,
    t1: TreasuryManager,
    t2: TreasuryManager,
    id: u64,
    now1: u64,
    now2: u64,
    r1: Result<WithdrawRequest, PeerXError>,
    r2: Result<WithdrawRequest, PeerXError>,
)
    requires
        t0.wf(),
        TreasuryManager::execute_outcome(t0, t1, id, now1, r1),
        r1 is Ok,
        TreasuryManager::execute_outcome(t1, t2, id, now2, r2),
    ensures
        r2 == Err::<WithdrawRequest, PeerXError>(PeerXError::TreasuryWithdrawAlreadyExecuted),
        t2 == t1,
{
    assert(t0.spec_request(id) is Some);
    assert(t1.spec_requests()[id as int].executed);
}

/// A withdrawal requested at time `t` with timelock `d` cannot be executed
/// before `t + d`, and executing it at or after `t + d` (with the treasury
/// otherwise unchanged) succeeds and debits exactly the requested amount;
/// the request itself leaves the balance untouched.
pub proof fn law_timelocked_withdrawal(
    t0: TreasuryManager,
    t1: TreasuryManager,
    t2: TreasuryManager,
    amount: i128,
    destination: Address,
    t: u64,
    now: u64,
    id: u64,
    r2: Result<WithdrawRequest, PeerXError>,
)
    requires
        t0.wf(),
        0 < amount <= t0.spec_balance(),
        TreasuryManager::request_outcome(t0, t1, amount, destination, t, Ok(id)),
        TreasuryManager::execute_outcome(t1, t2, id, now, r2),
    ensures
        t1.spec_balance() == t0.spec_balance(),
        now < clamp_u64(t + t0.spec_timelock()) ==> r2 == Err::<WithdrawRequest, PeerXError>(
            PeerXError::TreasuryTimelockNotElapsed,
        ),
        now >= clamp_u64(t + t0.spec_timelock()) ==> {
            &&& r2 is Ok
            &&& t2.spec_balance() == t0.spec_balance() - amount
        },
{
    assert(t1.spec_request(id) is Some);
    assert(t1.spec_requests()[id as int] == t1.spec_requests().last());
}

/// One call on the treasury, with the arguments it was given.
pub enum TreasuryCall {
    /// `deposit(amount, source)`.
    Deposit { amount: i128, source: String },
    /// `request_withdraw(amount, destination, now)`.
    RequestWithdraw { amount: i128, destination: Address, now: u64 },
    /// `execute_withdraw(request_id, now)`.
    ExecuteWithdraw { request_id: u64, now: u64 },
    /// `set_timelock_duration(duration_secs)`.
    SetTimelockDuration { duration_secs: u64 },
}

/// `post` is what `call` can leave of `pre`, as the call's contract states it
/// (both well formed, whatever the call returned).
pub open spec fn treasury_step(pre: TreasuryManager, post: TreasuryManager, call: TreasuryCall) -> bool {
    &&& pre.wf()
    &&& post.wf()
    &&& match call {
        TreasuryCall::Deposit { amount, source } => exists|r: Result<TreasuryDeposit, PeerXError>|
            #[trigger] TreasuryManager::deposit_outcome(pre, post, amount, source, r),
        TreasuryCall::RequestWithdraw { amount, destination, now } => pre.spec_next_id() < u64::MAX
            && exists|r: Result<u64, PeerXError>|
            #[trigger] TreasuryManager::request_outcome(pre, post, amount, destination, now, r),
        TreasuryCall::ExecuteWithdraw { request_id, now } => exists|r: Result<WithdrawRequest, PeerXError>|
            #[trigger] TreasuryManager::execute_outcome(pre, post, request_id, now, r),
        TreasuryCall::SetTimelockDuration { duration_secs } => {
            &&& post.spec_timelock() == duration_secs
            &&& post.spec_balance() == pre.spec_balance()
            &&& post.spec_total_deposited() == pre.spec_total_deposited()
            &&& post.spec_total_withdrawn() == pre.spec_total_withdrawn()
            &&& post.spec_requests() == pre.spec_requests()
        },
    }
}

/// The audit figures agree: the balance is lifetime deposits minus lifetime
/// withdrawals, and withdrawals are between zero and the deposits.
pub open spec fn ledger_sound(t: TreasuryManager) -> bool {
    &&& t.spec_balance() == t.spec_total_deposited() - t.spec_total_withdrawn()
    &&& 0 <= t.spec_total_withdrawn() <= t.spec_total_deposited()
}

/// No deposit in `call` would push lifetime deposits past `i128::MAX`.
pub open spec fn deposit_fits(pre: TreasuryManager, call: TreasuryCall) -> bool {
    call matches TreasuryCall::Deposit { amount, .. } ==> pre.spec_total_deposited() + amount <= i128::MAX
}

proof fn lemma_step_keeps_ledger_sound(pre: TreasuryManager, post: TreasuryManager, call: TreasuryCall)
    requires
        treasury_step(pre, post, call),
        ledger_sound(pre),
        deposit_fits(pre, call),
    ensures
        ledger_sound(post),
{
    match call {
        TreasuryCall::Deposit { amount, source } => {
            let r = choose|r: Result<TreasuryDeposit, PeerXError>|
                #[trigger] TreasuryManager::deposit_outcome(pre, post, amount, source, r);
            assert(TreasuryManager::deposit_outcome(pre, post, amount, source, r));
        },
        TreasuryCall::RequestWithdraw { amount, destination, now } => {
            let r = choose|r: Result<u64, PeerXError>|
                #[trigger] TreasuryManager::request_outcome(pre, post, amount, destination, now, r);
            assert(TreasuryManager::request_outcome(pre, post, amount, destination, now, r));
        },
        TreasuryCall::ExecuteWithdraw { request_id, now } => {
            let r = choose|r: Result<WithdrawRequest, PeerXError>|
                #[trigger] TreasuryManager::execute_outcome(pre, post, request_id, now, r);
            assert(TreasuryManager::execute_outcome(pre, post, request_id, now, r));
            if r is Ok {
                let req = pre.spec_request(request_id).unwrap();
                assert(req == pre.spec_requests()[request_id as int]);
                assert(req.amount > 0);
            }
        },
        TreasuryCall::SetTimelockDuration { duration_secs } => {},
    }
}

proof fn lemma_ledger_sound_up_to(states: Seq<TreasuryManager>, calls: Seq<TreasuryCall>, k: int)
    requires
        states.len() == calls.len() + 1,
        ledger_sound(states[0]),
        forall|i: int| 0 <= i < calls.len() ==> #[trigger] treasury_step(states[i], states[i + 1], calls[i]),
        forall|i: int| 0 <= i < calls.len() ==> #[trigger] deposit_fits(states[i], calls[i]),
        0 <= k < states.len(),
    ensures
        ledger_sound(states[k]),
    decreases k,
{
    if k > 0 {
        lemma_ledger_sound_up_to(states, calls, k - 1);
        assert(treasury_step(states[k - 1], states[k - 1 + 1], calls[k - 1]));
        assert(deposit_fits(states[k - 1], calls[k - 1]));
        lemma_step_keeps_ledger_sound(states[k - 1], states[k], calls[k - 1]);
    }
}

/// The treasury's audit figures always agree: starting from a fresh treasury
/// (or any whose figures agree), after any sequence of deposits, withdrawal
/// requests, executions and timelock changes in which no deposit saturates
/// the lifetime total, `get_stats` gives `(d, w, b)` with `b == d - w` and
/// `0 <= w <= d`, and `b` is the balance.
pub proof fn law_treasury_ledger_balances(states: Seq<TreasuryManager>, calls: Seq<TreasuryCall>)
    requires
        states.len() == calls.len() + 1,
        ledger_sound(states[0]),
        forall|i: int| 0 <= i < calls.len() ==> #[trigger] treasury_step(states[i], states[i + 1], calls[i]),
        forall|i: int| 0 <= i < calls.len() ==> #[trigger] deposit_fits(states[i], calls[i]),
    ensures
        forall|i: int| 0 <= i < states.len() ==> #[trigger] ledger_sound(states[i]),
{
    assert forall|i: int| 0 <= i < states.len() implies #[trigger] ledger_sound(states[i]) by {
        lemma_ledger_sound_up_to(states, calls, i);
    }
}

} // verus!
