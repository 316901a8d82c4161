//! Raw-mode bookkeeping: the terminal attributes in force before raw mode
//! was first switched on, kept until raw mode is switched off again.
use vstd::prelude::*;

verus! {

/// The outcome of an attempt to switch raw mode on or off.
pub enum RawModeChange<T> {
    /// Raw mode was switched on (or was on already); the terminal had the
    /// attributes `T` before the attempt.
    Entered(T),
    /// Switching raw mode on failed.
    EnterFailed,
    /// The attributes from before raw mode were restored.
    Left,
    /// Restoring them failed.
    LeaveFailed,
}

/// `Some(attributes)` while raw mode is on, holding the attributes from
/// before it; `None` while it is off. `T` is the platform's attribute type.
pub struct RawModeState<T> {
    pub prior: Option<T>,
}

impl<T> RawModeState<T> {
    /// Raw mode off, as at program start.
    pub fn new() -> (r: Self)
        ensures
            r.prior is None,
    {
        RawModeState { prior: None }
    }

    /// Whether raw mode is on.
    pub fn is_raw_mode_enabled(&self) -> (r: bool)
        ensures
            r == self.prior is Some,
    {
        self.prior.is_some()
    }

    /// Whether switching raw mode on has work to do on the terminal: only
    /// when it is off. When it is on already, switching it on succeeds at once.
    pub fn enable_raw_mode(&self) -> (must_switch: bool)
        ensures
            must_switch == self.prior is None,
    {
        self.prior.is_none()
    }

    /// Records the outcome of an attempt to switch raw mode on or off.
    /// A successful switch on keeps the attributes from before raw mode, a
    /// successful switch off forgets them, and a failed attempt changes nothing.
    pub fn record(&mut self, change: RawModeChange<T>)
        ensures
            final(self).prior == raw_mode_next(old(self).prior, change),
    {
        match change {
            RawModeChange::Entered(current) => {
                if self.prior.is_none() {
                    self.prior = Some(current);
                }
            },
            RawModeChange::EnterFailed => {},
            RawModeChange::Left => {
                self.prior = None;
            },
            RawModeChange::LeaveFailed => {},
        }
    }

    /// The attributes that switching raw mode off must restore, or `None`
    /// when raw mode is off and there is nothing to do.
    pub fn disable_raw_mode(&self) -> (r: Option<&T>)
        ensures
            r is Some <==> self.prior is Some,
            r matches Some(t) ==> *t == self.prior->0,
    {
        self.prior.as_ref()
    }
}

/// The bookkeeping after a successful switch-on request, made while the
/// terminal had the attributes `current`: the attributes from before raw
/// mode, whichever request first switched it on.
pub open spec fn prior_after_enable<T>(prior: Option<T>, current: T) -> Option<T> {
    match prior {
        Some(p) => Some(p),
        None => Some(current),
    }
}

/// The bookkeeping after one recorded outcome.
pub open spec fn raw_mode_next<T>(prior: Option<T>, change: RawModeChange<T>) -> Option<T> {
    match change {
        RawModeChange::Entered(current) => prior_after_enable(prior, current),
        RawModeChange::EnterFailed => prior,
        RawModeChange::Left => None,
        RawModeChange::LeaveFailed => prior,
    }
}

/// The bookkeeping after a run of recorded outcomes, in order.
pub open spec fn raw_mode_after<T>(prior: Option<T>, changes: Seq<RawModeChange<T>>) -> Option<T>
    decreases changes.len(),
{
    if changes.len() == 0 {
        prior
    } else {
        raw_mode_next(raw_mode_after(prior, changes.drop_last()), changes.last())
    }
}

/// Whether the latest successful change in `changes` switched raw mode on;
/// `on_before` when none succeeded.
pub open spec fn latest_success_switched_on<T>(on_before: bool, changes: Seq<RawModeChange<T>>) -> bool
    decreases changes.len(),
{
    if changes.len() == 0 {
        on_before
    } else {
        match changes.last() {
            RawModeChange::Entered(_) => true,
            RawModeChange::Left => false,
            _ => latest_success_switched_on(on_before, changes.drop_last()),
        }
    }
}

/// Raw mode is on exactly when the latest successful change switched it on,
/// and a failed attempt changes nothing.
pub proof fn lemma_raw_mode_follows_latest_success<T>(prior: Option<T>, changes: Seq<RawModeChange<T>>)
    ensures
        raw_mode_after(prior, changes) is Some <==> latest_success_switched_on(prior is Some, changes),
        raw_mode_after(prior, changes.push(RawModeChange::EnterFailed)) == raw_mode_after(prior, changes),
        raw_mode_after(prior, changes.push(RawModeChange::LeaveFailed)) == raw_mode_after(prior, changes),
    decreases changes.len(),
{
    assert(changes.push(RawModeChange::EnterFailed).drop_last() == changes);
    assert(changes.push(RawModeChange::LeaveFailed).drop_last() == changes);
    if changes.len() > 0 {
        lemma_raw_mode_follows_latest_success(prior, changes.drop_last());
    }
}

/// The bookkeeping after a run of successful switch-on requests, made while
/// the terminal had the attributes in `currents`, one after another.
pub open spec fn prior_after_enables<T>(prior: Option<T>, currents: Seq<T>) -> Option<T>
    decreases currents.len(),
{
    if currents.len() == 0 {
        prior
    } else {
        prior_after_enables(prior_after_enable(prior, currents[0]), currents.drop_first())
    }
}

/// Switching raw mode off restores the mode from before the first switch
/// into raw mode: from raw mode off, any run of switch-on requests keeps the
/// attributes that the terminal had at the first of them, and those are what
/// [`RawModeState::disable_raw_mode`] hands back to restore.
pub proof fn lemma_disable_restores_first_mode<T>(currents: Seq<T>)
    requires
        currents.len() > 0,
    ensures
        prior_after_enables(None, currents) == Some(currents[0]),
{
    lemma_enables_keep_prior(currents[0], currents.drop_first());
}

proof fn lemma_enables_keep_prior<T>(p: T, currents: Seq<T>)
    ensures
        prior_after_enables(Some(p), currents) == Some(p),
    decreases currents.len(),
{
    if currents.len() > 0 {
        lemma_enables_keep_prior(p, currents.drop_first());
    }
}

} // verus!
