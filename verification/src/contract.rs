//! The counter contract's own state and its admin-gated entry points:
//! access control, the trading pause, query-cache administration, the
//! treasury entry points and the swap pre-flight.
use vstd::prelude::*;
use crate::cache::QueryCache;
use crate::errors::{PeerXError, SwapChecklist};
use crate::events::Events;
use crate::preflight::{checklist_spec, estimate_fits, preflight_swap, PreflightInputs};
use crate::treasury::{TreasuryDeposit, TreasuryManager};
use crate::types::{holds, Address};

verus! {

/// The contract code version written by `initialize`.
pub const CONTRACT_VERSION: u32 = 1;

/// Who may do what: the admin, the read-only (auditor/dashboard) role, and
/// whether trading is paused.
pub struct AccessControl {
    admin: Option<Address>,
    paused: bool,
    read_only_role: Option<Address>,
}

impl AccessControl {
    /// The configured admin, if any.
    pub closed spec fn spec_admin(&self) -> Option<Address> {
        self.admin
    }

    /// Whether trading is paused.
    pub closed spec fn spec_paused(&self) -> bool {
        self.paused
    }

    /// The configured read-only role, if any.
    pub closed spec fn spec_read_only_role(&self) -> Option<Address> {
        self.read_only_role
    }

    /// Access control as stored: the admin, the pause flag and the read-only
    /// role.
    pub fn from_stored(admin: Option<Address>, paused: bool, read_only_role: Option<Address>) -> (r: AccessControl)
        ensures
            r.spec_admin() == admin,
            r.spec_paused() == paused,
            r.spec_read_only_role() == read_only_role,
    {
        AccessControl { admin, paused, read_only_role }
    }

    /// Fails closed: `Ok` exactly when an admin is configured and it is
    /// `caller`, `NotAdmin` otherwise.
    pub fn require_admin(&self, caller: &Address) -> (r: Result<(), PeerXError>)
        ensures
            r is Ok <==> holds(self.spec_admin(), *caller),
            r is Err ==> r == Err::<(), PeerXError>(PeerXError::NotAdmin),
    {
        match &self.admin {
            Some(a) => if a.same_as(caller) {
                Ok(())
            } else {
                Err(PeerXError::NotAdmin)
            },
            None => Err(PeerXError::NotAdmin),
        }
    }

    /// `Ok` exactly when a read-only role is configured and it is `role`,
    /// `NotReadOnlyRole` otherwise.
    pub fn require_read_only_role(&self, role: &Address) -> (r: Result<(), PeerXError>)
        ensures
            r is Ok <==> holds(self.spec_read_only_role(), *role),
            r is Err ==> r == Err::<(), PeerXError>(PeerXError::NotReadOnlyRole),
    {
        match &self.read_only_role {
            Some(stored) => if stored.same_as(role) {
                Ok(())
            } else {
                Err(PeerXError::NotReadOnlyRole)
            },
            None => Err(PeerXError::NotReadOnlyRole),
        }
    }

    /// Whether trading is paused.
    pub fn is_paused(&self) -> (r: bool)
        ensures
            r == self.spec_paused(),
    {
        self.paused
    }
}

/// Pauses trading (admin only); `Ok(true)` on success.
pub fn pause_trading(access: &mut AccessControl, caller: &Address) -> (r: Result<bool, PeerXError>)
    ensures
        holds(old(access).spec_admin(), *caller) ==> r == Ok::<bool, PeerXError>(true)
            && final(access).spec_paused(),
        !holds(old(access).spec_admin(), *caller) ==> r == Err::<bool, PeerXError>(PeerXError::NotAdmin)
            && final(access).spec_paused() == old(access).spec_paused(),
        final(access).spec_admin() == old(access).spec_admin(),
        final(access).spec_read_only_role() == old(access).spec_read_only_role(),
{
    access.require_admin(caller)?;
    access.paused = true;
    Ok(true)
}

/// Resumes trading (admin only); `Ok(true)` on success.
pub fn resume_trading(access: &mut AccessControl, caller: &Address) -> (r: Result<bool, PeerXError>)
    ensures
        holds(old(access).spec_admin(), *caller) ==> r == Ok::<bool, PeerXError>(true)
            && !final(access).spec_paused(),
        !holds(old(access).spec_admin(), *caller) ==> r == Err::<bool, PeerXError>(PeerXError::NotAdmin)
            && final(access).spec_paused() == old(access).spec_paused(),
        final(access).spec_admin() == old(access).spec_admin(),
        final(access).spec_read_only_role() == old(access).spec_read_only_role(),
{
    access.require_admin(caller)?;
    access.paused = false;
    Ok(true)
}

/// Hands the admin role to `new_admin` (admin only). Once the caller is
/// known to be the admin, `record_sensitive_action` is run — the
/// sensitive-action rate limiter, which counts the action and refuses it
/// when the limit is reached — and its refusal is returned unchanged.
pub fn set_admin<F: FnOnce() -> Result<(), PeerXError>>(
    access: &mut AccessControl,
    caller: &Address,
    new_admin: Address,
    record_sensitive_action: F,
) -> (r: Result<(), PeerXError>)
    requires
        record_sensitive_action.requires(()),
    ensures
        !holds(old(access).spec_admin(), *caller) ==> r == Err::<(), PeerXError>(PeerXError::NotAdmin),
        holds(old(access).spec_admin(), *caller) ==> record_sensitive_action.ensures((), r),
        r is Ok ==> final(access).spec_admin() == Some(new_admin),
        r is Err ==> final(access).spec_admin() == old(access).spec_admin(),
        final(access).spec_paused() == old(access).spec_paused(),
        final(access).spec_read_only_role() == old(access).spec_read_only_role(),
{
    access.require_admin(caller)?;
    record_sensitive_action()?;
    access.admin = Some(new_admin);
    Ok(())
}

/// The withdrawal phase named by the treasury entry point's `phase` symbol.
#[derive(Clone, Copy, Debug, PartialEq, Eq, Structural)]
pub enum WithdrawPhase {
    /// `request`: create a timelocked request.
    Request,
    /// `execute`: execute an existing request.
    Execute,
}

/// The symbol text `request`.
pub open spec fn request_text() -> Seq<char> {
    seq!['r', 'e', 'q', 'u', 'e', 's', 't']
}

/// The symbol text `execute`.
pub open spec fn execute_text() -> Seq<char> {
    seq!['e', 'x', 'e', 'c', 'u', 't', 'e']
}

/// The phase a symbol text names: `request` or `execute`, none for any other.
pub open spec fn phase_of(s: Seq<char>) -> Option<WithdrawPhase> {
    if s == request_text() {
        Some(WithdrawPhase::Request)
    } else if s == execute_text() {
        Some(WithdrawPhase::Execute)
    } else {
        None
    }
}

impl WithdrawPhase {
    /// `Request` for the symbol `request`, `Execute` for `execute`, none for
    /// any other symbol.
    pub fn from_symbol(s: &str) -> (r: Option<WithdrawPhase>)
        ensures
            r == phase_of(s@),
    {
        let owned = s.to_owned();
        let request = String::from_str("request");
        let execute = String::from_str("execute");
        proof {
            reveal_strlit("request");
            reveal_strlit("execute");
            assert(request@ == request_text());
            assert(execute@ == execute_text());
        }
        if owned == request {
            Some(WithdrawPhase::Request)
        } else if owned == execute {
            Some(WithdrawPhase::Execute)
        } else {
            None
        }
    }
}

/// The counter contract's state.
pub struct CounterContract {
    /// Access control and the trading pause.
    pub access: AccessControl,
    /// Query caches and their statistics.
    pub cache: QueryCache,
    /// The treasury.
    pub treasury: TreasuryManager,
    /// The swap histogram.
    pub events: Events,
    /// The stored code version (0 before `initialize`).
    pub version: u32,
    /// The stored slippage limit used by the swap pre-flight, if one was set.
    pub max_slippage_bps: Option<u32>,
}

impl CounterContract {
    /// Well-formedness of the parts.
    pub open spec fn wf(&self) -> bool {
        &&& self.cache.wf()
        &&& self.treasury.wf()
        &&& self.events.wf()
    }

    /// A freshly deployed contract with the given access control: nothing
    /// cached or recorded, an empty treasury, no version stored.
    pub fn new(access: AccessControl) -> (c: CounterContract)
        ensures
            c.wf(),
            c.access == access,
            c.version == 0,
            c.max_slippage_bps is None,
            c.cache.spec_ttl() == crate::cache::DEFAULT_CACHE_TTL_SECONDS,
            c.cache.spec_hits() == 0 && c.cache.spec_misses() == 0,
            c.cache.spec_entries().len() == 0 && c.cache.spec_top() is None,
            c.treasury.spec_balance() == 0 && c.treasury.spec_requests().len() == 0,
            c.treasury.spec_total_deposited() == 0 && c.treasury.spec_total_withdrawn() == 0,
            c.treasury.spec_timelock() == crate::treasury::DEFAULT_TREASURY_TIMELOCK_SECS,
            c.events.spec_swap_count() == 0 && c.events.spec_buckets() == (0u64, 0u64, 0u64, 0u64),
    {
        CounterContract {
            access,
            cache: QueryCache::new(),
            treasury: TreasuryManager::new(),
            events: Events::new(),
            version: 0,
            max_slippage_bps: None,
        }
    }

    /// Stores `CONTRACT_VERSION` unless a version is stored already.
    pub fn initialize(&mut self)
        ensures
            final(self).version == (if old(self).version == 0 { CONTRACT_VERSION } else { old(self).version }),
            final(self).access == old(self).access,
            final(self).cache == old(self).cache,
            final(self).treasury == old(self).treasury,
            final(self).events == old(self).events,
            final(self).max_slippage_bps == old(self).max_slippage_bps,
    {
        if self.version == 0 {
            self.version = CONTRACT_VERSION;
        }
    }

    /// The stored code version.
    pub fn get_contract_version(&self) -> (r: u32)
        ensures
            r == self.version,
    {
        self.version
    }

    /// Sets the query-cache time-to-live (admin only).
    pub fn set_cache_ttl(&mut self, caller: &Address, ttl_seconds: u64) -> (r: Result<(), PeerXError>)
        requires
            old(self).wf(),
        ensures
            final(self).wf(),
            holds(old(self).access.spec_admin(), *caller) ==> r is Ok && final(self).cache.spec_ttl() == ttl_seconds
                && final(self).cache.spec_entries() == old(self).cache.spec_entries()
                && final(self).cache.spec_top() == old(self).cache.spec_top()
                && final(self).cache.spec_hits() == old(self).cache.spec_hits()
                && final(self).cache.spec_misses() == old(self).cache.spec_misses(),
            !holds(old(self).access.spec_admin(), *caller) ==> r == Err::<(), PeerXError>(PeerXError::NotAdmin)
                && final(self).cache == old(self).cache,
            final(self).access == old(self).access,
            final(self).treasury == old(self).treasury,
    {
        self.access.require_admin(caller)?;
        self.cache.set_cache_ttl(ttl_seconds);
        Ok(())
    }

    /// Drops both query caches (admin only); statistics stay.
    pub fn clear_cache(&mut self, caller: &Address) -> (r: Result<(), PeerXError>)
        requires
            old(self).wf(),
        ensures
            final(self).wf(),
            holds(old(self).access.spec_admin(), *caller) ==> r is Ok && final(self).cache.spec_entries().len() == 0
                && final(self).cache.spec_top() is None
                && final(self).cache.spec_ttl() == old(self).cache.spec_ttl()
                && final(self).cache.spec_hits() == old(self).cache.spec_hits()
                && final(self).cache.spec_misses() == old(self).cache.spec_misses(),
            !holds(old(self).access.spec_admin(), *caller) ==> r == Err::<(), PeerXError>(PeerXError::NotAdmin)
                && final(self).cache == old(self).cache,
            final(self).access == old(self).access,
            final(self).treasury == old(self).treasury,
    {
        self.access.require_admin(caller)?;
        self.cache.invalidate_query_cache();
        Ok(())
    }

    /// `(hits, misses, hit_ratio_bps)` of the query caches.
    pub fn get_cache_stats(&self) -> (r: (u64, u64, u32))
        ensures
            r == (self.cache.spec_hits(), self.cache.spec_misses(), crate::cache::ratio_bps_spec(self.cache.spec_hits(), self.cache.spec_misses()) as u32),
    {
        self.cache.get_cache_stats()
    }

    /// Portfolio stats `(trade count, pnl)` of `user` at `now`, through the
    /// portfolio cache (see `QueryCache::get_portfolio`); `fresh` is what the
    /// portfolio gives for the user.
    pub fn get_portfolio(&mut self, user: &Address, now: u64, fresh: (u32, i128)) -> (r: (u32, i128))
        requires
            old(self).wf(),
        ensures
            final(self).wf(),
            QueryCache::portfolio_outcome(old(self).cache, final(self).cache, *user, now, fresh, r),
            final(self).access == old(self).access,
            final(self).treasury == old(self).treasury,
    {
        self.cache.get_portfolio(user, now, fresh)
    }

    /// The best `limit` traders at `now`, through the top-traders cache (see
    /// `QueryCache::get_top_traders`); `fresh` is the portfolio's ranking of
    /// `candidate_limit(limit)` traders.
    pub fn get_top_traders(&mut self, limit: u32, now: u64, fresh: Vec<(Address, i128)>) -> (r: Vec<(Address, i128)>)
        requires
            old(self).wf(),
        ensures
            final(self).wf(),
            QueryCache::top_traders_outcome(old(self).cache, final(self).cache, limit, now, fresh@, r@),
            r@.len() <= limit,
            final(self).access == old(self).access,
            final(self).treasury == old(self).treasury,
    {
        self.cache.get_top_traders(limit, now, fresh)
    }

    /// Stores the slippage limit used by the swap pre-flight.
    pub fn set_max_slippage_bps(&mut self, bps: u32)
        ensures
            final(self).max_slippage_bps == Some(bps),
            final(self).access == old(self).access,
            final(self).cache == old(self).cache,
            final(self).treasury == old(self).treasury,
            final(self).events == old(self).events,
            final(self).version == old(self).version,
    {
        self.max_slippage_bps = Some(bps);
    }

    /// Pre-flight check of swapping `amount`, with this contract's trading
    /// pause and slippage limit and the other guards' outcomes in `inputs`.
    pub fn preflight_swap(&self, inputs: &PreflightInputs, amount: i128) -> (r: SwapChecklist)
        requires
            inputs.pair_valid && !self.access.spec_paused() ==> estimate_fits(*inputs, amount),
        ensures
            r == checklist_spec(*inputs, amount, self.access.spec_paused(), self.max_slippage_bps),
    {
        preflight_swap(inputs, amount, self.access.is_paused(), self.max_slippage_bps)
    }

    /// Credits `amount` to the treasury, tagged with `source`.
    pub fn treasury_deposit(&mut self, amount: i128, source: String) -> (r: Result<TreasuryDeposit, PeerXError>)
        requires
            old(self).wf(),
        ensures
            final(self).wf(),
            TreasuryManager::deposit_outcome(old(self).treasury, final(self).treasury, amount, source, r),
            final(self).access == old(self).access,
            final(self).cache == old(self).cache,
    {
        self.treasury.deposit(amount, source)
    }

    /// The treasury balance.
    pub fn treasury_balance(&self) -> (r: i128)
        ensures
            r == self.treasury.spec_balance(),
    {
        self.treasury.balance()
    }

    /// Admin-gated two-phase treasury withdrawal at time `now`. The phase
    /// `request` creates a timelocked request for `amount` to `destination`
    /// and returns its ID; `execute` executes request `request_id` and returns
    /// that ID. Any other phase fails with `TreasuryInvalidPhase`, leaving the
    /// treasury unchanged; a caller that is not the admin fails first with
    /// `NotAdmin`.
    pub fn treasury_withdraw(
        &mut self,
        admin: &Address,
        phase: &str,
        amount: i128,
        destination: Address,
        request_id: u64,
        now: u64,
    ) -> (r: Result<u64, PeerXError>)
        requires
            old(self).wf(),
            phase@ == request_text() ==> old(self).treasury.spec_next_id() < u64::MAX,
        ensures
            final(self).wf(),
            !holds(old(self).access.spec_admin(), *admin) ==> r == Err::<u64, PeerXError>(PeerXError::NotAdmin)
                && final(self).treasury == old(self).treasury,
            holds(old(self).access.spec_admin(), *admin) && phase_of(phase@) is None ==> r == Err::<
                u64,
                PeerXError,
            >(PeerXError::TreasuryInvalidPhase) && final(self).treasury == old(self).treasury,
            holds(old(self).access.spec_admin(), *admin) && phase_of(phase@) == Some(WithdrawPhase::Request)
                ==> TreasuryManager::request_outcome(
                old(self).treasury,
                final(self).treasury,
                amount,
                destination,
                now,
                r,
            ),
            holds(old(self).access.spec_admin(), *admin) && phase_of(phase@) == Some(WithdrawPhase::Execute)
                ==> exists|er: Result<crate::treasury::WithdrawRequest, PeerXError>|
                TreasuryManager::execute_outcome(old(self).treasury, final(self).treasury, request_id, now, er)
                && (match er {
                    Ok(_) => r == Ok::<u64, PeerXError>(request_id),
                    Err(e) => r == Err::<u64, PeerXError>(e),
                }),
            final(self).access == old(self).access,
            final(self).cache == old(self).cache,
    {
        self.access.require_admin(admin)?;
        let phase = match WithdrawPhase::from_symbol(phase) {
            Some(p) => p,
            None => return Err(PeerXError::TreasuryInvalidPhase),
        };
        match phase {
            WithdrawPhase::Request => self.treasury.request_withdraw(amount, destination, now),
            WithdrawPhase::Execute => {
                let er = self.treasury.execute_withdraw(request_id, now);
                match er {
                    Ok(_) => Ok(request_id),
                    Err(e) => Err(e),
                }
            },
        }
    }
}

} // verus!
