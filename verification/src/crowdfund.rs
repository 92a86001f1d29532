//! The escrow state machine.
//!
//! An instance collects deposits toward a funding target by a deadline.
//! Its phase is derived afresh on every call from the current tick, the
//! stored configuration, the recipient-claimed flag and a live balance
//! query against the token ledger — it is never cached.

use crate::balance::read_balance;
use crate::contract::{balances_moved, Token};
use crate::errors::Error;
use crate::events;
use crate::events::CrowdfundEvent;
use crate::sums::{lemma_map_sum_insert, map_sum};
use vstd::hash_map::HashMapWithView;
use vstd::prelude::*;

verus! {

/// The derived lifecycle stage of an escrow.
#[derive(Clone, Copy, PartialEq, Eq, Structural, Debug)]
pub enum State {
    /// Before the deadline: deposits are accepted.
    Running,
    /// The deadline has passed and the target was met (or the recipient
    /// has already claimed): only the recipient may withdraw.
    Success,
    /// The deadline has passed with the target unmet: depositors are
    /// refunded.
    Expired,
}

/// Write-once configuration of one escrow instance.
#[derive(Clone, Copy, PartialEq, Eq, Debug)]
pub struct EscrowConfig {
    /// The principal paid out on success.
    pub recipient: u64,
    /// The tick at which the escrow stops running; exclusive on the
    /// running side.
    pub deadline: u64,
    /// The tick at which the escrow was initialized.
    pub started: u64,
    /// The funding target; positive.
    pub target: i128,
    /// The identifier of the token the escrow is denominated in.
    pub token: u64,
}

/// The complete state of one escrow instance.
pub struct Crowdfund {
    /// The escrow's own principal in the token ledger.
    pub account: u64,
    /// The write-once configuration; `None` until initialization.
    pub config: Option<EscrowConfig>,
    /// Whether the recipient has withdrawn the funds after success.
    pub claimed: bool,
    /// The amount currently escrowed per depositor.
    pub pledges: HashMapWithView<u64, i128>,
    /// The advisory notifications emitted so far.
    pub events: Vec<CrowdfundEvent>,
}

impl Crowdfund {
    /// The escrow's own principal.
    pub open spec fn account_of(self) -> u64 {
        self.account
    }

    /// The stored configuration, if any.
    pub open spec fn config_of(self) -> Option<EscrowConfig> {
        self.config
    }

    /// Whether the escrow has been configured.
    pub open spec fn is_initialized(self) -> bool {
        self.config_of() is Some
    }

    /// The configured recipient.
    pub open spec fn recipient_of(self) -> u64 {
        self.config_of().unwrap().recipient
    }

    /// The configured deadline tick.
    pub open spec fn deadline_of(self) -> u64 {
        self.config_of().unwrap().deadline
    }

    /// The tick the escrow was initialized at.
    pub open spec fn started_of(self) -> u64 {
        self.config_of().unwrap().started
    }

    /// The configured funding target.
    pub open spec fn target_of(self) -> int {
        self.config_of().unwrap().target as int
    }

    /// The configured token identifier.
    pub open spec fn token_of(self) -> u64 {
        self.config_of().unwrap().token
    }

    /// Whether the recipient has already claimed.
    pub open spec fn claimed_of(self) -> bool {
        self.claimed
    }

    /// The pledge map as stored.
    pub open spec fn pledges_map(self) -> Map<u64, i128> {
        self.pledges@
    }

    /// The pledge of a depositor; absent entries hold zero.
    pub open spec fn pledge_of(self, user: u64) -> int {
        if self.pledges_map().contains_key(user) {
            self.pledges_map()[user] as int
        } else {
            0
        }
    }

    /// The notifications emitted so far.
    pub open spec fn events_seq(self) -> Seq<CrowdfundEvent> {
        self.events@
    }

    /// Well-formedness: pledges are finitely many and nonnegative, a
    /// claim implies a configuration, and a configured target is
    /// positive.
    pub open spec fn wf(self) -> bool {
        &&& self.pledges_map().dom().finite()
        &&& forall|p: u64|
            self.pledges_map().contains_key(p) ==> #[trigger] self.pledges_map()[p] >= 0
        &&& self.claimed_of() ==> self.is_initialized()
        &&& self.is_initialized() ==> self.target_of() > 0
    }

    /// The phase the escrow is in at `current_tick`, judged against the
    /// live balance of its account in `tok`.
    pub open spec fn phase(self, tok: Token, current_tick: u64) -> State {
        if current_tick < self.deadline_of() {
            State::Running
        } else if self.claimed_of() || tok.balance_of(self.account_of()) >= self.target_of() {
            State::Success
        } else {
            State::Expired
        }
    }

    /// The pledged total never exceeds what the escrow account holds.
    pub open spec fn pledges_covered(self, tok: Token) -> bool {
        map_sum(self.pledges_map()) <= tok.balance_of(self.account_of())
    }
}

/// The number a phase is reported as over the external interface.
pub open spec fn state_code(s: State) -> u32 {
    match s {
        State::Running => 0,
        State::Success => 1,
        State::Expired => 2,
    }
}

/// Well-formedness carries over when the pledge map is unchanged.
proof fn lemma_wf_unchanged_pledges(a: Crowdfund, b: Crowdfund)
    requires
        a.wf(),
        b.pledges_map() == a.pledges_map(),
        b.claimed_of() ==> b.is_initialized(),
        b.is_initialized() ==> b.target_of() > 0,
    ensures
        b.wf(),
{
    assert forall|p: u64| b.pledges_map().contains_key(p) implies #[trigger] b.pledges_map()[p]
        >= 0 by {
        assert(a.pledges_map()[p] >= 0);
    }
}

/// Storing a nonnegative pledge keeps the escrow well-formed.
proof fn lemma_wf_pledge_insert(a: Crowdfund, b: Crowdfund, user: u64, v: i128)
    requires
        a.wf(),
        v >= 0,
        b.pledges_map() == a.pledges_map().insert(user, v),
        b.claimed_of() == a.claimed_of(),
        b.config_of() == a.config_of(),
    ensures
        b.wf(),
{
    assert forall|p: u64| b.pledges_map().contains_key(p) implies #[trigger] b.pledges_map()[p]
        >= 0 by {
        if p != user {
            assert(a.pledges_map()[p] >= 0);
        }
    }
}

/// The configured recipient.
fn get_recipient(c: &Crowdfund) -> (r: u64)
    requires
        c.is_initialized(),
    ensures
        r == c.recipient_of(),
{
    if let Some(cfg) = &c.config {
        cfg.recipient
    } else {
        unreached()
    }
}

/// Whether the recipient has already claimed.
fn get_recipient_claimed(c: &Crowdfund) -> (r: bool)
    ensures
        r == c.claimed_of(),
{
    c.claimed
}

/// The configured deadline tick.
fn get_deadline(c: &Crowdfund) -> (r: u64)
    requires
        c.is_initialized(),
    ensures
        r == c.deadline_of(),
{
    if let Some(cfg) = &c.config {
        cfg.deadline
    } else {
        unreached()
    }
}

/// The tick the escrow was initialized at.
fn get_started(c: &Crowdfund) -> (r: u64)
    requires
        c.is_initialized(),
    ensures
        r == c.started_of(),
{
    if let Some(cfg) = &c.config {
        cfg.started
    } else {
        unreached()
    }
}

/// The configured funding target.
fn get_target_amount(c: &Crowdfund) -> (r: i128)
    requires
        c.is_initialized(),
    ensures
        r == c.target_of(),
{
    if let Some(cfg) = &c.config {
        cfg.target
    } else {
        unreached()
    }
}

/// The configured token identifier.
fn get_token(c: &Crowdfund) -> (r: u64)
    requires
        c.is_initialized(),
    ensures
        r == c.token_of(),
{
    if let Some(cfg) = &c.config {
        cfg.token
    } else {
        unreached()
    }
}

/// The pledge of a depositor; depositors never seen hold zero.
fn get_user_deposited(c: &Crowdfund, user: u64) -> (r: i128)
    ensures
        r == c.pledge_of(user),
{
    match c.pledges.get(&user) {
        Some(amount) => *amount,
        None => 0,
    }
}

/// The escrow account's live balance in the token ledger.
fn get_balance(c: &Crowdfund, t: &Token) -> (r: i128)
    ensures
        r == t.balance_of(c.account_of()),
{
    read_balance(t, c.account)
}

/// Whether the escrow account's balance has reached the target.
fn target_reached(c: &Crowdfund, t: &Token) -> (r: bool)
    requires
        c.is_initialized(),
    ensures
        r == (t.balance_of(c.account_of()) >= c.target_of()),
{
    let target_amount = get_target_amount(c);
    let token_balance = get_balance(c, t);
    token_balance >= target_amount
}

/// The phase at `current_tick`, derived afresh from the stored state and
/// a live balance query.
fn get_state(c: &Crowdfund, t: &Token, current_tick: u64) -> (r: State)
    requires
        c.is_initialized(),
    ensures
        r == c.phase(*t, current_tick),
{
    if current_tick < get_deadline(c) {
        return State::Running;
    }
    if get_recipient_claimed(c) || target_reached(c, t) {
        return State::Success;
    }
    State::Expired
}

/// Stores `amount` as the pledge of `user`.
fn set_user_deposited(c: &mut Crowdfund, user: u64, amount: i128)
    requires
        old(c).wf(),
        amount >= 0,
    ensures
        final(c).wf(),
        final(c).pledges_map() == old(c).pledges_map().insert(user, amount),
        final(c).config_of() == old(c).config_of(),
        final(c).claimed_of() == old(c).claimed_of(),
        final(c).account_of() == old(c).account_of(),
        final(c).events_seq() == old(c).events_seq(),
{
    c.pledges.insert(user, amount);
    proof {
        lemma_wf_pledge_insert(*old(c), *c, user, amount);
    }
}

/// Marks the escrow as claimed by the recipient.
fn set_recipient_claimed(c: &mut Crowdfund)
    requires
        old(c).wf(),
        old(c).is_initialized(),
    ensures
        final(c).wf(),
        final(c).claimed_of(),
        final(c).pledges_map() == old(c).pledges_map(),
        final(c).config_of() == old(c).config_of(),
        final(c).account_of() == old(c).account_of(),
        final(c).events_seq() == old(c).events_seq(),
{
    c.claimed = true;
    proof {
        lemma_wf_unchanged_pledges(*old(c), *c);
    }
}

/// Transfers tokens from the escrow account, on the escrow's own
/// authority.
fn transfer(c: &Crowdfund, t: &mut Token, to: u64, amount: i128) -> (r: Result<(), Error>)
    requires
        old(t).wf(),
    ensures
        final(t).wf(),
        r == old(t).spec_transfer_result(c.account_of(), to, amount, true),
        r is Err ==> *final(t) == *old(t),
        r is Ok ==> {
            &&& balances_moved(*old(t), *final(t), c.account_of(), to, amount)
            &&& final(t).allowances_map() == old(t).allowances_map()
            &&& final(t).auth_map() == old(t).auth_map()
            &&& final(t).admin_of() == old(t).admin_of()
            &&& final(t).metadata_of() == old(t).metadata_of()
        },
{
    t.transfer(c.account, to, amount, true)
}

/// The notifications a successful deposit appends: the new total, and
/// the one-time target announcement on the deposit that first reaches
/// the target.
pub open spec fn deposit_events(
    log: Seq<CrowdfundEvent>,
    target: int,
    balance_before: int,
    balance_after: int,
) -> Seq<CrowdfundEvent> {
    let with_total = log.push(
        CrowdfundEvent::PledgedAmountChanged { total: balance_after as i128 },
    );
    if balance_before < target && balance_after >= target {
        with_total.push(
            CrowdfundEvent::TargetReached {
                pledged: balance_after as i128,
                target: target as i128,
            },
        )
    } else {
        with_total
    }
}

impl Crowdfund {
    /// The outcome of [`Crowdfund::deposit`] as a function of the
    /// starting state.
    pub open spec fn spec_deposit_result(
        self,
        tok: Token,
        current_tick: u64,
        user: u64,
        amount: i128,
        user_auth: bool,
    ) -> Result<(), Error> {
        if !user_auth {
            Err(Error::Unauthorized)
        } else if amount <= 0 {
            Err(Error::InvalidAmount)
        } else if !self.is_initialized() {
            Err(Error::NotInitialized)
        } else if self.phase(tok, current_tick) != State::Running {
            Err(Error::NotRunning)
        } else if user == self.recipient_of() {
            Err(Error::RecipientMayNotDeposit)
        } else if self.pledge_of(user) + amount > i128::MAX {
            Err(Error::Overflow)
        } else {
            tok.spec_transfer_result(user, self.account_of(), amount, true)
        }
    }

    /// The outcome of [`Crowdfund::withdraw`] as a function of the
    /// starting state.
    pub open spec fn spec_withdraw_result(self, tok: Token, current_tick: u64, to: u64) -> Result<
        (),
        Error,
    > {
        if !self.is_initialized() {
            Err(Error::NotInitialized)
        } else {
            match self.phase(tok, current_tick) {
                State::Running => Err(Error::StillRunning),
                State::Success => if to != self.recipient_of() {
                    Err(Error::OnlyRecipientMayWithdraw)
                } else if self.claimed_of() {
                    Err(Error::AlreadyClaimed)
                } else {
                    tok.spec_transfer_result(
                        self.account_of(),
                        self.recipient_of(),
                        tok.balance_of(self.account_of()) as i128,
                        true,
                    )
                },
                State::Expired => if to == self.recipient_of() {
                    Err(Error::RecipientMayNotWithdraw)
                } else {
                    tok.spec_transfer_result(
                        self.account_of(),
                        to,
                        self.pledge_of(to) as i128,
                        true,
                    )
                },
            }
        }
    }

    /// A fresh, unconfigured escrow whose ledger principal is `account`.
    pub fn new(account: u64) -> (c: Crowdfund)
        ensures
            c.wf(),
            !c.is_initialized(),
            !c.claimed_of(),
            c.account_of() == account,
            c.pledges_map() == Map::<u64, i128>::empty(),
            c.events_seq() == Seq::<CrowdfundEvent>::empty(),
    {
        Crowdfund {
            account,
            config: None,
            claimed: false,
            pledges: HashMapWithView::new(),
            events: Vec::new(),
        }
    }

    /// Configures the escrow, exactly once.
    ///
    /// Fails with `AlreadyInitialized` on a second call and with
    /// `InvalidAmount` on a target that is not positive; a failed call
    /// changes nothing.
    pub fn initialize(
        &mut self,
        current_tick: u64,
        recipient: u64,
        deadline: u64,
        target_amount: i128,
        token: u64,
    ) -> (r: Result<(), Error>)
        requires
            old(self).wf(),
        ensures
            final(self).wf(),
            r == if old(self).is_initialized() {
                Err::<(), Error>(Error::AlreadyInitialized)
            } else if target_amount <= 0 {
                Err::<(), Error>(Error::InvalidAmount)
            } else {
                Ok::<(), Error>(())
            },
            r is Err ==> *final(self) == *old(self),
            r is Ok ==> {
                &&& final(self).config_of() == Some(
                    EscrowConfig {
                        recipient,
                        deadline,
                        started: current_tick,
                        target: target_amount,
                        token,
                    },
                )
                &&& !final(self).claimed_of()
                &&& final(self).pledges_map() == old(self).pledges_map()
                &&& final(self).events_seq() == old(self).events_seq()
                &&& final(self).account_of() == old(self).account_of()
            },
    {
        if self.config.is_some() {
            return Err(Error::AlreadyInitialized);
        }
        if target_amount <= 0 {
            return Err(Error::InvalidAmount);
        }
        self.config = Some(
            EscrowConfig { recipient, deadline, started: current_tick, target: target_amount, token },
        );
        self.claimed = false;
        proof {
            lemma_wf_unchanged_pledges(*old(self), *self);
        }
        Ok(())
    }

    /// The configured recipient.
    pub fn recipient(&self) -> (r: u64)
        requires
            self.is_initialized(),
        ensures
            r == self.recipient_of(),
    {
        get_recipient(self)
    }

    /// The configured deadline tick.
    pub fn deadline(&self) -> (r: u64)
        requires
            self.is_initialized(),
        ensures
            r == self.deadline_of(),
    {
        get_deadline(self)
    }

    /// The tick the escrow was initialized at.
    pub fn started(&self) -> (r: u64)
        requires
            self.is_initialized(),
        ensures
            r == self.started_of(),
    {
        get_started(self)
    }

    /// The configured funding target.
    pub fn target(&self) -> (r: i128)
        requires
            self.is_initialized(),
        ensures
            r == self.target_of(),
    {
        get_target_amount(self)
    }

    /// The configured token identifier.
    pub fn token(&self) -> (r: u64)
        requires
            self.is_initialized(),
        ensures
            r == self.token_of(),
    {
        get_token(self)
    }

    /// The notifications emitted so far.
    pub fn events(&self) -> (r: &Vec<CrowdfundEvent>)
        ensures
            r@ == self.events_seq(),
    {
        &self.events
    }

    /// The phase at `current_tick`, reported as its code: 0 running,
    /// 1 success, 2 expired.
    pub fn state(&self, token: &Token, current_tick: u64) -> (r: u32)
        requires
            self.is_initialized(),
        ensures
            r == state_code(self.phase(*token, current_tick)),
    {
        match get_state(self, token, current_tick) {
            State::Running => 0,
            State::Success => 1,
            State::Expired => 2,
        }
    }

    /// What `user` may still expect from the escrow: after success the
    /// whole pot for the recipient and nothing for anyone else,
    /// otherwise the user's own pledge.
    pub fn balance(&self, token: &Token, current_tick: u64, user: u64) -> (r: i128)
        requires
            self.is_initialized(),
        ensures
            self.phase(*token, current_tick) == State::Success ==> r == if user
                == self.recipient_of() {
                token.balance_of(self.account_of())
            } else {
                0
            },
            self.phase(*token, current_tick) != State::Success ==> r == self.pledge_of(user),
    {
        let recipient = get_recipient(self);
        let st = get_state(self, token, current_tick);
        if st == State::Success {
            if user != recipient {
                return 0;
            }
            return get_balance(self, token);
        }
        get_user_deposited(self, user)
    }

    /// Pledges `amount` of `user`'s tokens toward the target.
    ///
    /// Legal only while the escrow is running, for a positive amount,
    /// for anyone but the recipient, and with the depositor's
    /// authorization; the amount moves into the escrow account and the
    /// pledge record grows by exactly that amount, atomically.
    pub fn deposit(
        &mut self,
        token: &mut Token,
        current_tick: u64,
        user: u64,
        amount: i128,
        user_auth: bool,
    ) -> (r: Result<(), Error>)
        requires
            old(self).wf(),
            old(token).wf(),
        ensures
            final(self).wf(),
            final(token).wf(),
            r == old(self).spec_deposit_result(*old(token), current_tick, user, amount, user_auth),
            r is Err ==> *final(self) == *old(self) && *final(token) == *old(token),
            r is Ok ==> {
                &&& final(self).pledges_map() == old(self).pledges_map().insert(
                    user,
                    (old(self).pledge_of(user) + amount) as i128,
                )
                &&& map_sum(final(self).pledges_map()) == map_sum(old(self).pledges_map()) + amount
                &&& final(self).config_of() == old(self).config_of()
                &&& final(self).claimed_of() == old(self).claimed_of()
                &&& final(self).account_of() == old(self).account_of()
                &&& balances_moved(*old(token), *final(token), user, old(self).account_of(), amount)
                &&& final(token).allowances_map() == old(token).allowances_map()
                &&& final(token).auth_map() == old(token).auth_map()
                &&& final(token).admin_of() == old(token).admin_of()
                &&& final(token).metadata_of() == old(token).metadata_of()
                &&& final(self).events_seq() == deposit_events(
                    old(self).events_seq(),
                    old(self).target_of(),
                    old(token).balance_of(old(self).account_of()),
                    final(token).balance_of(old(self).account_of()),
                )
            },
            r is Ok && old(self).pledges_covered(*old(token)) && user != old(self).account_of()
                ==> final(self).pledges_covered(*final(token)),
    {
        if !user_auth {
            return Err(Error::Unauthorized);
        }
        if amount <= 0 {
            return Err(Error::InvalidAmount);
        }
        if self.config.is_none() {
            return Err(Error::NotInitialized);
        }
        let st = get_state(self, token, current_tick);
        if st != State::Running {
            return Err(Error::NotRunning);
        }
        let current_target_met = target_reached(self, token);
        let recipient = get_recipient(self);
        if user == recipient {
            return Err(Error::RecipientMayNotDeposit);
        }
        let balance = get_user_deposited(self, user);
        if balance > i128::MAX - amount {
            return Err(Error::Overflow);
        }
        match token.transfer(user, self.account, amount, true) {
            Ok(()) => (),
            Err(e) => {
                return Err(e);
            },
        }
        set_user_deposited(self, user, balance + amount);
        proof {
            lemma_map_sum_insert(old(self).pledges_map(), user, (balance + amount) as i128);
        }
        let contract_balance = get_balance(self, token);
        let ghost mid = *self;
        events::pledged_amount_changed(&mut self.events, contract_balance);
        if !current_target_met && target_reached(self, token) {
            let target_amount = get_target_amount(self);
            events::target_reached(&mut self.events, contract_balance, target_amount);
        }
        proof {
            lemma_wf_unchanged_pledges(mid, *self);
        }
        Ok(())
    }

    /// Pays the escrow out, as the phase allows.
    ///
    /// While running, nobody may withdraw. After success, the recipient
    /// — and only the recipient, only once — receives the escrow
    /// account's entire balance. After expiry, any depositor but the
    /// recipient is refunded exactly their own pledge, which is zeroed.
    pub fn withdraw(&mut self, token: &mut Token, current_tick: u64, to: u64) -> (r: Result<
        (),
        Error,
    >)
        requires
            old(self).wf(),
            old(token).wf(),
        ensures
            final(self).wf(),
            final(token).wf(),
            r == old(self).spec_withdraw_result(*old(token), current_tick, to),
            r is Err ==> *final(self) == *old(self) && *final(token) == *old(token),
            r is Ok && old(self).phase(*old(token), current_tick) == State::Success ==> {
                &&& final(self).claimed_of()
                &&& final(self).pledges_map() == old(self).pledges_map()
                &&& final(self).config_of() == old(self).config_of()
                &&& final(self).account_of() == old(self).account_of()
                &&& final(self).events_seq() == old(self).events_seq()
                &&& balances_moved(
                    *old(token),
                    *final(token),
                    old(self).account_of(),
                    old(self).recipient_of(),
                    old(token).balance_of(old(self).account_of()) as i128,
                )
                &&& old(self).recipient_of() != old(self).account_of() ==> final(token).balance_of(
                    old(self).account_of(),
                ) == 0
                &&& final(token).allowances_map() == old(token).allowances_map()
                &&& final(token).auth_map() == old(token).auth_map()
                &&& final(token).admin_of() == old(token).admin_of()
                &&& final(token).metadata_of() == old(token).metadata_of()
            },
            r is Ok && old(self).phase(*old(token), current_tick) == State::Expired ==> {
                &&& final(self).claimed_of() == old(self).claimed_of()
                &&& final(self).pledges_map() == old(self).pledges_map().insert(to, 0)
                &&& map_sum(final(self).pledges_map()) == map_sum(old(self).pledges_map()) - old(
                    self,
                ).pledge_of(to)
                &&& final(self).config_of() == old(self).config_of()
                &&& final(self).account_of() == old(self).account_of()
                &&& balances_moved(
                    *old(token),
                    *final(token),
                    old(self).account_of(),
                    to,
                    old(self).pledge_of(to) as i128,
                )
                &&& final(self).events_seq() == old(self).events_seq().push(
                    CrowdfundEvent::PledgedAmountChanged {
                        total: final(token).balance_of(old(self).account_of()) as i128,
                    },
                )
                &&& final(token).allowances_map() == old(token).allowances_map()
                &&& final(token).auth_map() == old(token).auth_map()
                &&& final(token).admin_of() == old(token).admin_of()
                &&& final(token).metadata_of() == old(token).metadata_of()
            },
            r is Ok && old(self).phase(*old(token), current_tick) == State::Expired && old(
                self,
            ).pledges_covered(*old(token)) ==> final(self).pledges_covered(*final(token)),
    {
        if self.config.is_none() {
            return Err(Error::NotInitialized);
        }
        let st = get_state(self, token, current_tick);
        let recipient = get_recipient(self);
        match st {
            State::Running => Err(Error::StillRunning),
            State::Success => {
                if to != recipient {
                    return Err(Error::OnlyRecipientMayWithdraw);
                }
                if get_recipient_claimed(self) {
                    return Err(Error::AlreadyClaimed);
                }
                let bal = get_balance(self, token);
                match transfer(self, token, recipient, bal) {
                    Ok(()) => (),
                    Err(e) => {
                        return Err(e);
                    },
                }
                set_recipient_claimed(self);
                Ok(())
            },
            State::Expired => {
                if to == recipient {
                    return Err(Error::RecipientMayNotWithdraw);
                }
                let balance = get_user_deposited(self, to);
                match transfer(self, token, to, balance) {
                    Ok(()) => (),
                    Err(e) => {
                        return Err(e);
                    },
                }
                set_user_deposited(self, to, 0);
                proof {
                    lemma_map_sum_insert(old(self).pledges_map(), to, 0i128);
                }
                let contract_balance = get_balance(self, token);
                let ghost mid = *self;
                events::pledged_amount_changed(&mut self.events, contract_balance);
                proof {
                    lemma_wf_unchanged_pledges(mid, *self);
                }
                Ok(())
            },
        }
    }
}

/// Phase monotonicity: once the deadline has passed the phase is never
/// Running again, whatever later operations do to the balance.
pub proof fn phase_not_running_after_deadline(c: Crowdfund, t: Token, current_tick: u64)
    requires
        c.is_initialized(),
        current_tick >= c.deadline_of(),
    ensures
        c.phase(t, current_tick) != State::Running,
{
}

/// A deposit once the escrow is no longer running is rejected outright
/// with `NotRunning`.
pub proof fn deposit_rejected_when_not_running(
    c: Crowdfund,
    t: Token,
    current_tick: u64,
    user: u64,
    amount: i128,
    user_auth: bool,
)
    requires
        user_auth,
        amount > 0,
        c.is_initialized(),
        c.phase(t, current_tick) != State::Running,
    ensures
        c.spec_deposit_result(t, current_tick, user, amount, user_auth) == Err::<(), Error>(
            Error::NotRunning,
        ),
{
}

/// The claim is effective at most once: after the recipient has
/// claimed, every further withdrawal fails — the recipient's with
/// `AlreadyClaimed` — and by `withdraw`'s contract a failed call leaves
/// both the escrow and the ledger unchanged.
pub proof fn claim_at_most_once(c: Crowdfund, t: Token, current_tick: u64, to: u64)
    requires
        c.is_initialized(),
        c.claimed_of(),
        current_tick >= c.deadline_of(),
    ensures
        c.spec_withdraw_result(t, current_tick, to) == Err::<(), Error>(
            if to == c.recipient_of() {
                Error::AlreadyClaimed
            } else {
                Error::OnlyRecipientMayWithdraw
            },
        ),
{
}

/// An escrow without pledges is covered by any well-formed ledger: the
/// pledged total is zero and balances are never negative.
pub proof fn empty_escrow_covered(c: Crowdfund, t: Token)
    requires
        t.wf(),
        c.pledges_map() == Map::<u64, i128>::empty(),
    ensures
        c.pledges_covered(t),
{
    assert(c.pledges_map().dom() =~= Set::<u64>::empty());
}

/// Coverage survives any ledger change that does not drain the escrow
/// account: together with the coverage clauses of `deposit` and
/// `withdraw`, the pledged total stays within the escrow account's
/// balance in every reachable state before a successful claim.
pub proof fn coverage_monotone(c: Crowdfund, t1: Token, t2: Token)
    requires
        c.pledges_covered(t1),
        t2.balance_of(c.account_of()) >= t1.balance_of(c.account_of()),
    ensures
        c.pledges_covered(t2),
{
}

/// The target announcement fires only on the deposit that first reaches
/// the target: once the balance is at the target, a later deposit
/// appends the changed total alone.
pub proof fn target_event_fires_once(
    log: Seq<CrowdfundEvent>,
    target: int,
    balance_before: int,
    balance_after: int,
)
    requires
        balance_before >= target,
    ensures
        deposit_events(log, target, balance_before, balance_after) == log.push(
            CrowdfundEvent::PledgedAmountChanged { total: balance_after as i128 },
        ),
{
}

/// The pledge a bare map holds for a user.
pub open spec fn pledge_in(m: Map<u64, i128>, user: u64) -> int {
    if m.contains_key(user) {
        m[user] as int
    } else {
        0
    }
}

/// The pledge map after a run of deposits, each recorded the way
/// `deposit` records it: the user's pledge grows by the amount.
pub open spec fn pledges_after(m: Map<u64, i128>, ds: Seq<(u64, i128)>) -> Map<u64, i128>
    decreases ds.len(),
{
    if ds.len() == 0 {
        m
    } else {
        pledges_after(m.insert(ds[0].0, (pledge_in(m, ds[0].0) + ds[0].1) as i128), ds.skip(1))
    }
}

/// The total amount of a run of deposits.
pub open spec fn deposits_total(ds: Seq<(u64, i128)>) -> int
    decreases ds.len(),
{
    if ds.len() == 0 {
        0
    } else {
        ds[0].1 + deposits_total(ds.skip(1))
    }
}

/// Whether every running pledge in a run of deposits stays within the
/// numeric range, as `deposit` checks before recording.
pub open spec fn deposits_fit(m: Map<u64, i128>, ds: Seq<(u64, i128)>) -> bool
    decreases ds.len(),
{
    if ds.len() == 0 {
        true
    } else {
        &&& 0 <= pledge_in(m, ds[0].0) + ds[0].1 <= i128::MAX
        &&& deposits_fit(m.insert(ds[0].0, (pledge_in(m, ds[0].0) + ds[0].1) as i128), ds.skip(1))
    }
}

/// A run of deposits grows the pledged total by exactly the run's
/// total.
pub proof fn deposits_accumulate(m: Map<u64, i128>, ds: Seq<(u64, i128)>)
    requires
        m.dom().finite(),
        deposits_fit(m, ds),
    ensures
        pledges_after(m, ds).dom().finite(),
        map_sum(pledges_after(m, ds)) == map_sum(m) + deposits_total(ds),
    decreases ds.len(),
{
    if ds.len() > 0 {
        let v = (pledge_in(m, ds[0].0) + ds[0].1) as i128;
        lemma_map_sum_insert(m, ds[0].0, v);
        deposits_accumulate(m.insert(ds[0].0, v), ds.skip(1));
    }
}

/// The pledge map after a run of refunds, each recorded the way an
/// expired `withdraw` records it: the user's pledge is zeroed.
pub open spec fn pledges_after_refunds(m: Map<u64, i128>, users: Seq<u64>) -> Map<u64, i128>
    decreases users.len(),
{
    if users.len() == 0 {
        m
    } else {
        pledges_after_refunds(m.insert(users[0], 0), users.skip(1))
    }
}

/// The total a run of refunds pays out: each refund pays the recipient's
/// pledge as recorded at that moment, so a repeated refund pays zero.
pub open spec fn refunds_total(m: Map<u64, i128>, users: Seq<u64>) -> int
    decreases users.len(),
{
    if users.len() == 0 {
        0
    } else {
        pledge_in(m, users[0]) + refunds_total(m.insert(users[0], 0), users.skip(1))
    }
}

/// A run of refunds pays out exactly what it drains from the pledged
/// total.
pub proof fn refunds_drain(m: Map<u64, i128>, users: Seq<u64>)
    requires
        m.dom().finite(),
    ensures
        pledges_after_refunds(m, users).dom().finite(),
        refunds_total(m, users) == map_sum(m) - map_sum(pledges_after_refunds(m, users)),
    decreases users.len(),
{
    if users.len() > 0 {
        lemma_map_sum_insert(m, users[0], 0);
        refunds_drain(m.insert(users[0], 0), users.skip(1));
    }
}

/// Refund conservation, end to end: run any deposits from an empty
/// pledge book — only non-recipients can deposit — and then refund in
/// any order. When the refunds leave no pledged total behind, they have
/// paid out exactly the sum of all deposits. No successful claim can
/// have occurred in between: a claim forces the Success phase, in which
/// refunds are refused.
pub proof fn refunds_return_all_deposits(ds: Seq<(u64, i128)>, users: Seq<u64>)
    requires
        deposits_fit(Map::<u64, i128>::empty(), ds),
        map_sum(
            pledges_after_refunds(pledges_after(Map::<u64, i128>::empty(), ds), users),
        ) == 0,
    ensures
        refunds_total(pledges_after(Map::<u64, i128>::empty(), ds), users) == deposits_total(ds),
{
    let m0 = Map::<u64, i128>::empty();
    assert(m0.dom() =~= Set::<u64>::empty());
    deposits_accumulate(m0, ds);
    assert(map_sum(m0) == 0);
    refunds_drain(pledges_after(m0, ds), users);
}

} // verus!
