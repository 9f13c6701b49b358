//! The cancellation state of an explicitly cancellable future.
//!
//! The future shares an [`ExecutionContextData`] with the code that it runs: that code
//! enters critical sections and structured cancellations (raising the prevention count),
//! may try to disable cancellation, and may wait on cancellation notifications
//! ([`CancellationNotificationFuture`]). The executor side polls the future; the
//! decisions it takes on each poll are [`ExplicitlyCancellableFuture::start_poll`],
//! [`ExplicitlyCancellableFuture::finish_poll_inner`] and
//! [`ExplicitlyCancellableFuture::finish_ready`].
//!
//! Wakers are represented by `u64` tokens: a registration stores the token, and a
//! notification hands back the tokens whose wakers must be woken.
use crate::slabs::{
    in_key_order, listed_along,
    token_slab_contents, token_slab_drain, token_slab_insert, token_slab_new, token_slab_remove,
    TokenEntries,
};
use slab::Slab;
use vstd::prelude::*;

verus! {

/// Whether the cancellation notification has fired.
#[derive(PartialEq, Eq, Structural, Clone, Copy, Debug)]
pub enum CancellationNotificationStatus {
    /// No notification yet.
    Pending,
    /// Notified of cancellation.
    Notified,
    /// Notifications disabled: cancellation will not be delivered.
    Disabled,
}

impl CancellationNotificationStatus {
    /// The atomic encoding of a status.
    pub open spec fn code(self) -> u8 {
        match self {
            CancellationNotificationStatus::Pending => 0,
            CancellationNotificationStatus::Notified => 1,
            CancellationNotificationStatus::Disabled => 2,
        }
    }

    /// Decodes a status. Codes above 2 are invalid (the encoding never produces them).
    pub fn from_code(value: u8) -> (r: CancellationNotificationStatus)
        requires
            value <= 2,
        ensures
            r.code() == value,
    {
        if value == 0 {
            CancellationNotificationStatus::Pending
        } else if value == 1 {
            CancellationNotificationStatus::Notified
        } else {
            CancellationNotificationStatus::Disabled
        }
    }

    /// Encodes a status.
    pub fn to_code(self) -> (r: u8)
        ensures
            r == self.code(),
    {
        match self {
            CancellationNotificationStatus::Pending => 0,
            CancellationNotificationStatus::Notified => 1,
            CancellationNotificationStatus::Disabled => 2,
        }
    }
}

impl From<CancellationNotificationStatus> for u8 {
    /// Encodes a status.
    fn from(value: CancellationNotificationStatus) -> (r: u8) {
        value.to_code()
    }
}

impl vstd::std_specs::convert::FromSpecImpl<CancellationNotificationStatus> for u8 {
    open spec fn obeys_from_spec() -> bool {
        true
    }

    open spec fn from_spec(v: CancellationNotificationStatus) -> u8 {
        v.code()
    }
}

/// The status after a cancellation notification: a pending notification fires, a fired
/// or disabled one stays as it is.
pub open spec fn notified_status(s: CancellationNotificationStatus) -> CancellationNotificationStatus {
    match s {
        CancellationNotificationStatus::Pending => CancellationNotificationStatus::Notified,
        _ => s,
    }
}

/// The status after an attempt to disable notifications: a pending notification is
/// disabled, a fired or disabled one stays as it is.
pub open spec fn disabled_status(s: CancellationNotificationStatus) -> CancellationNotificationStatus {
    match s {
        CancellationNotificationStatus::Pending => CancellationNotificationStatus::Disabled,
        _ => s,
    }
}

/// Whether an attempt to disable notifications in status `s` succeeds: it does unless the
/// notification has already fired.
pub open spec fn disable_succeeds(s: CancellationNotificationStatus) -> bool {
    s != CancellationNotificationStatus::Notified
}

/// The prevention count after one more holder enters.
pub open spec fn entered(n: nat) -> nat {
    n + 1
}

/// The prevention count after one holder leaves.
pub open spec fn exited(n: nat) -> nat {
    (n - 1) as nat
}

/// The notification shared by everything that observes the cancellation of one future:
/// its status and the registry of waker tokens of the observers waiting for it.
pub struct CancellationNotificationData {
    status: CancellationNotificationStatus,
    wakers: Option<Slab<u64>>,
}

impl CancellationNotificationData {
    /// The notification status.
    pub closed spec fn spec_status(&self) -> CancellationNotificationStatus {
        self.status
    }

    /// The registered waker tokens by registration key; `None` once the registry was
    /// consumed by the notification.
    pub closed spec fn registry(&self) -> Option<Map<usize, u64>> {
        match self.wakers {
            Some(s) => Some(token_slab_contents(s)),
            None => None,
        }
    }

    /// The registry is finite, and it is consumed exactly when the notification fired.
    pub open spec fn wf(&self) -> bool {
        &&& (self.registry() is None <==> self.spec_status()
            == CancellationNotificationStatus::Notified)
        &&& (self.registry() matches Some(m) ==> m.dom().finite())
    }

    /// A pending notification with an empty registry.
    pub fn new() -> (r: CancellationNotificationData)
        ensures
            r.wf(),
            r.spec_status() == CancellationNotificationStatus::Pending,
            r.registry() == Some(TokenEntries::empty()),
    {
        CancellationNotificationData {
            status: CancellationNotificationStatus::Pending,
            wakers: Some(token_slab_new()),
        }
    }

    /// The notification status.
    pub fn status(&self) -> (r: CancellationNotificationStatus)
        ensures
            r == self.spec_status(),
    {
        self.status
    }

    /// Fires the notification if it is pending, consuming the registry and returning the
    /// waker tokens to wake; otherwise changes nothing and wakes nobody.
    pub fn notify(&mut self) -> (woken: Vec<u64>)
        requires
            old(self).wf(),
        ensures
            final(self).wf(),
            final(self).spec_status() == notified_status(old(self).spec_status()),
            old(self).spec_status() == CancellationNotificationStatus::Pending ==> {
                &&& final(self).registry() is None
                &&& in_key_order(old(self).registry()->Some_0, woken@)
            },
            old(self).spec_status() != CancellationNotificationStatus::Pending ==> {
                &&& *final(self) == *old(self)
                &&& woken@.len() == 0
            },
    {
        match self.status {
            CancellationNotificationStatus::Pending => {
                self.status = CancellationNotificationStatus::Notified;
                let taken = self.wakers.take();
                match taken {
                    Some(mut wakers) => {
                        let woken = token_slab_drain(&mut wakers);
                        woken
                    },
                    None => Vec::new(),
                }
            },
            _ => Vec::new(),
        }
    }

    /// Disables the notification if it is pending. Succeeds unless the notification has
    /// already fired.
    pub fn try_disable(&mut self) -> (ok: bool)
        requires
            old(self).wf(),
        ensures
            final(self).wf(),
            ok == disable_succeeds(old(self).spec_status()),
            final(self).spec_status() == disabled_status(old(self).spec_status()),
            final(self).registry() == old(self).registry(),
    {
        match self.status {
            CancellationNotificationStatus::Pending => {
                self.status = CancellationNotificationStatus::Disabled;
                true
            },
            CancellationNotificationStatus::Notified => false,
            CancellationNotificationStatus::Disabled => true,
        }
    }
}


/// A waiter on the cancellation notification. While registered, its waker token is stored
/// in the notification's registry under `id`.
pub struct CancellationNotificationFuture {
    id: Option<usize>,
    waker: u64,
}

impl CancellationNotificationFuture {
    /// The registration key, if registered.
    pub closed spec fn spec_id(&self) -> Option<usize> {
        self.id
    }

    /// The waker token of this waiter.
    pub closed spec fn spec_waker(&self) -> u64 {
        self.waker
    }

    /// The waiter is consistent with the notification: a registration it holds is present
    /// in the registry, holding its token (unless the registry was consumed).
    pub open spec fn registered_in(&self, data: CancellationNotificationData) -> bool {
        match (self.spec_id(), data.registry()) {
            (Some(k), Some(m)) => m.dom().contains(k) && m[k] == self.spec_waker(),
            _ => true,
        }
    }

    /// Creates a waiter with the given waker token, registering it unless the notification
    /// already fired.
    pub fn new(data: &mut CancellationNotificationData, waker: u64) -> (r: CancellationNotificationFuture)
        requires
            old(data).wf(),
        ensures
            final(data).wf(),
            final(data).spec_status() == old(data).spec_status(),
            r.spec_waker() == waker,
            r.registered_in(*final(data)),
            match old(data).registry() {
                Some(m) => {
                    &&& r.spec_id() is Some
                    &&& !m.dom().contains(r.spec_id()->Some_0)
                    &&& final(data).registry() == Some(m.insert(r.spec_id()->Some_0, waker))
                },
                None => r.spec_id() is None && final(data).registry() is None,
            },
    {
        let id = match &mut data.wakers {
            Some(wakers) => Some(token_slab_insert(wakers, waker)),
            None => None,
        };
        CancellationNotificationFuture { id, waker }
    }

    /// Removes the registration `id` from the registry, if both are present.
    fn remove_waker(&mut self, data: &mut CancellationNotificationData, id: Option<usize>)
        requires
            old(data).wf(),
            match (id, old(data).registry()) {
                (Some(k), Some(m)) => m.dom().contains(k),
                _ => true,
            },
        ensures
            final(data).wf(),
            *final(self) == *old(self),
            final(data).spec_status() == old(data).spec_status(),
            final(data).registry() == match (id, old(data).registry()) {
                (Some(k), Some(m)) => Some(m.remove(k)),
                _ => old(data).registry(),
            },
    {
        if let Some(id) = id {
            if let Some(wakers) = &mut data.wakers {
                let _ = token_slab_remove(wakers, id);
            }
        }
    }

    /// A new, separately registered waiter on the same notification, with its own token.
    pub fn clone_with(&self, data: &mut CancellationNotificationData, waker: u64) -> (r: CancellationNotificationFuture)
        requires
            old(data).wf(),
        ensures
            final(data).wf(),
            r.spec_waker() == waker,
            r.registered_in(*final(data)),
            final(data).spec_status() == old(data).spec_status(),
            match old(data).registry() {
                Some(m) => {
                    &&& r.spec_id() is Some
                    &&& !m.dom().contains(r.spec_id()->Some_0)
                    &&& final(data).registry() == Some(m.insert(r.spec_id()->Some_0, waker))
                },
                None => r.spec_id() is None && final(data).registry() is None,
            },
    {
        CancellationNotificationFuture::new(data, waker)
    }

    /// Releases the waiter, removing its registration from the registry.
    pub fn release(&mut self, data: &mut CancellationNotificationData)
        requires
            old(data).wf(),
            old(self).registered_in(*old(data)),
        ensures
            final(data).wf(),
            *final(self) == *old(self),
            final(data).spec_status() == old(data).spec_status(),
            final(data).registry() == match (old(self).spec_id(), old(data).registry()) {
                (Some(k), Some(m)) => Some(m.remove(k)),
                _ => old(data).registry(),
            },
    {
        let id = self.id;
        self.remove_waker(data, id);
    }

    /// Polls the waiter: ready exactly when the notification fired (the registration is
    /// then given up); otherwise pending, and the caller registers its waker under the
    /// token.
    pub fn poll(&mut self, data: &mut CancellationNotificationData) -> (ready: bool)
        requires
            old(data).wf(),
            old(self).registered_in(*old(data)),
        ensures
            final(data).wf(),
            ready == (old(data).spec_status() == CancellationNotificationStatus::Notified),
            *final(data) == *old(data),
            ready ==> final(self).spec_id() is None,
            !ready ==> *final(self) == *old(self),
            final(self).spec_waker() == old(self).spec_waker(),
            final(self).registered_in(*final(data)),
    {
        match data.status {
            CancellationNotificationStatus::Notified => {
                let id = self.id.take();
                self.remove_waker(data, id);
                true
            },
            _ => false,
        }
    }
}

/// The execution context shared by a cancellable future and the code it runs: the
/// cancellation notification and how many holders currently prevent immediate
/// cancellation (critical sections and structured cancellations).
pub struct ExecutionContextData {
    notification: CancellationNotificationData,
    prevent_cancellation: usize,
}

impl ExecutionContextData {
    /// The cancellation notification.
    pub closed spec fn spec_notification(&self) -> CancellationNotificationData {
        self.notification
    }

    /// How many holders prevent immediate cancellation.
    pub closed spec fn spec_prevent(&self) -> nat {
        self.prevent_cancellation as nat
    }

    /// Well-formed: the notification is.
    pub open spec fn wf(&self) -> bool {
        self.spec_notification().wf()
    }

    /// A fresh context: notification pending with no waiters, nothing preventing
    /// cancellation.
    pub fn new() -> (r: ExecutionContextData)
        ensures
            r.wf(),
            r.spec_prevent() == 0,
            r.spec_notification().spec_status() == CancellationNotificationStatus::Pending,
            r.spec_notification().registry() == Some(TokenEntries::empty()),
    {
        ExecutionContextData { notification: CancellationNotificationData::new(), prevent_cancellation: 0 }
    }

    /// Read access to the notification.
    pub fn notification(&self) -> (r: &CancellationNotificationData)
        ensures
            *r == self.spec_notification(),
    {
        &self.notification
    }

    /// Mutable access to the notification (for its waiters); the prevention count is
    /// untouched.
    pub fn notification_mut(&mut self) -> (r: &mut CancellationNotificationData)
        ensures
            *r == old(self).spec_notification(),
            final(self).spec_notification() == *final(r),
            final(self).spec_prevent() == old(self).spec_prevent(),
    {
        &mut self.notification
    }

    /// How many holders prevent immediate cancellation.
    pub fn prevent_cancellation(&self) -> (r: usize)
        ensures
            r == self.spec_prevent(),
    {
        self.prevent_cancellation
    }

    /// The future does not currently prevent its cancellation.
    pub fn can_exit(&self) -> (r: bool)
        ensures
            r == (self.spec_prevent() == 0),
    {
        self.prevent_cancellation == 0
    }

    /// Enters a critical section or structured cancellation: one more holder prevents
    /// cancellation. The notification is shared with the holder.
    pub fn enter_structured_cancellation(&mut self)
        requires
            old(self).spec_prevent() < usize::MAX,
        ensures
            final(self).spec_prevent() == entered(old(self).spec_prevent()),
            final(self).spec_notification() == old(self).spec_notification(),
    {
        self.prevent_cancellation = self.prevent_cancellation + 1;
    }

    /// Fires the cancellation notification (if pending), returning the waker tokens of the
    /// waiters to wake.
    pub fn notify_cancelled(&mut self) -> (woken: Vec<u64>)
        requires
            old(self).wf(),
        ensures
            final(self).wf(),
            final(self).spec_prevent() == old(self).spec_prevent(),
            final(self).spec_notification().spec_status() == notified_status(
                old(self).spec_notification().spec_status(),
            ),
            old(self).spec_notification().spec_status() == CancellationNotificationStatus::Pending
                ==> {
                &&& final(self).spec_notification().registry() is None
                &&& in_key_order(old(self).spec_notification().registry()->Some_0, woken@)
            },
            old(self).spec_notification().spec_status() != CancellationNotificationStatus::Pending
                ==> {
                &&& final(self).spec_notification() == old(self).spec_notification()
                &&& woken@.len() == 0
            },
    {
        self.notification.notify()
    }

    /// Releases one holder; true when no holder is left.
    pub fn exit_prevent_cancellation(&mut self) -> (r: bool)
        requires
            old(self).spec_prevent() > 0,
        ensures
            final(self).spec_prevent() == exited(old(self).spec_prevent()),
            final(self).spec_notification() == old(self).spec_notification(),
            r == (final(self).spec_prevent() == 0),
    {
        self.prevent_cancellation = self.prevent_cancellation - 1;
        self.prevent_cancellation == 0
    }

    /// Tries to disable the cancellation notification; succeeds unless it already fired.
    pub fn try_to_disable_cancellation(&mut self) -> (ok: bool)
        requires
            old(self).wf(),
        ensures
            final(self).wf(),
            ok == disable_succeeds(old(self).spec_notification().spec_status()),
            final(self).spec_notification().spec_status() == disabled_status(
                old(self).spec_notification().spec_status(),
            ),
            final(self).spec_notification().registry() == old(self).spec_notification().registry(),
            final(self).spec_prevent() == old(self).spec_prevent(),
    {
        self.notification.try_disable()
    }

    /// The executor's side of a cancellation: true when the future may exit at once
    /// (nothing prevents it); otherwise the waiters are notified (the returned tokens are
    /// to be woken) and the future keeps running.
    pub fn outer_notify_cancelled(&mut self) -> (r: (bool, Vec<u64>))
        requires
            old(self).wf(),
        ensures
            final(self).wf(),
            r.0 == (old(self).spec_prevent() == 0),
            final(self).spec_prevent() == old(self).spec_prevent(),
            r.0 ==> *final(self) == *old(self) && r.1@.len() == 0,
            !r.0 ==> final(self).spec_notification().spec_status() == notified_status(
                old(self).spec_notification().spec_status(),
            ),
            !r.0 && old(self).spec_notification().spec_status()
                == CancellationNotificationStatus::Pending ==> {
                &&& final(self).spec_notification().registry() is None
                &&& in_key_order(old(self).spec_notification().registry()->Some_0, r.1@)
            },
            !r.0 && old(self).spec_notification().spec_status()
                != CancellationNotificationStatus::Pending ==> {
                &&& final(self).spec_notification() == old(self).spec_notification()
                &&& r.1@.len() == 0
            },
    {
        if self.can_exit() {
            (true, Vec::new())
        } else {
            let woken = self.notify_cancelled();
            (false, woken)
        }
    }

    /// The running code's attempt to disable cancellation, made while it holds one
    /// prevention: on success the hold is kept (cancellation stays prevented); on failure
    /// (the notification already fired) the hold is released.
    pub fn inner_try_to_disable_cancellation(&mut self) -> (ok: bool)
        requires
            old(self).wf(),
            old(self).spec_notification().spec_status() == CancellationNotificationStatus::Notified
                ==> old(self).spec_prevent() > 0,
        ensures
            final(self).wf(),
            ok == disable_succeeds(old(self).spec_notification().spec_status()),
            final(self).spec_notification().spec_status() == disabled_status(
                old(self).spec_notification().spec_status(),
            ),
            final(self).spec_notification().registry() == old(self).spec_notification().registry(),
            ok ==> final(self).spec_prevent() == old(self).spec_prevent(),
            !ok ==> final(self).spec_prevent() == exited(old(self).spec_prevent()),
    {
        if self.try_to_disable_cancellation() {
            true
        } else {
            let _ = self.exit_prevent_cancellation();
            false
        }
    }
}


/// The outcome of one poll.
#[derive(PartialEq, Eq, Structural, Debug)]
pub enum PollState<T> {
    /// Finished with a value.
    Ready(T),
    /// Not finished; the task is woken when it can make progress.
    Pending,
}

/// What the executor does after the start of a poll.
#[derive(PartialEq, Eq, Structural, Clone, Copy, Debug)]
pub enum PollStep {
    /// Finish with `Ready(None)` (cancelled) without polling the wrapped future.
    Exit,
    /// Poll the wrapped future.
    PollInner,
}

/// The decisions of a future that runs a wrapped future until it finishes or is cancelled
/// through its handle. It finishes with `Some(value)`, or with `None` when cancelled.
pub struct ExplicitlyCancellableFuture {
    started: bool,
}

/// The outcome of a poll once the wrapped future was polled: a cancelled future that no
/// longer prevents its cancellation finishes with `None`; otherwise the wrapped future's
/// outcome is passed on.
pub open spec fn outcome_after_inner<T>(prevent_after: nat, is_cancelled: bool, inner: PollState<T>) -> PollState<Option<T>> {
    if is_cancelled && prevent_after == 0 {
        PollState::Ready(None)
    } else {
        match inner {
            PollState::Ready(v) => PollState::Ready(Some(v)),
            PollState::Pending => PollState::Pending,
        }
    }
}

/// The value a finished future hands out: `None` if it was cancelled by the time it
/// finished and nothing prevents the cancellation, otherwise its own value.
pub open spec fn outcome_on_exit<T>(prevent: nat, was_cancelled: bool, out: Option<T>) -> Option<T> {
    if was_cancelled && prevent == 0 {
        None
    } else {
        out
    }
}

impl ExplicitlyCancellableFuture {
    /// Whether the future has been polled.
    pub closed spec fn spec_started(&self) -> bool {
        self.started
    }

    /// A future that was never polled.
    pub fn new() -> (r: ExplicitlyCancellableFuture)
        ensures
            !r.spec_started(),
    {
        ExplicitlyCancellableFuture { started: false }
    }

    /// Whether the future has been polled.
    pub fn is_started(&self) -> (r: bool)
        ensures
            r == self.spec_started(),
    {
        self.started
    }

    /// The start of a poll, given whether the handle has cancelled the future. Returns
    /// whether the task's waker is to be registered with the handle (first poll only), the
    /// next step, and the waker tokens of notified waiters to wake.
    ///
    /// A cancelled future exits at once unless something prevents its cancellation; then
    /// the waiters on the cancellation notification are notified and the wrapped future is
    /// polled so that it can finish its critical work.
    pub fn start_poll(&mut self, exec: &mut ExecutionContextData, is_cancelled: bool) -> (r: (bool, PollStep, Vec<u64>))
        requires
            old(exec).wf(),
        ensures
            final(exec).wf(),
            r.0 == !old(self).spec_started(),
            final(self).spec_started(),
            final(exec).spec_prevent() == old(exec).spec_prevent(),
            !is_cancelled ==> r.1 == PollStep::PollInner && *final(exec) == *old(exec) && r.2@.len() == 0,
            is_cancelled && old(exec).spec_prevent() == 0 ==> r.1 == PollStep::Exit && *final(exec)
                == *old(exec) && r.2@.len() == 0,
            is_cancelled && old(exec).spec_prevent() > 0 ==> {
                &&& r.1 == PollStep::PollInner
                &&& final(exec).spec_notification().spec_status() == notified_status(
                    old(exec).spec_notification().spec_status(),
                )
                &&& old(exec).spec_notification().spec_status()
                    == CancellationNotificationStatus::Pending ==> in_key_order(
                    old(exec).spec_notification().registry()->Some_0,
                    r.2@,
                ) && final(exec).spec_notification().registry() is None
                &&& old(exec).spec_notification().spec_status()
                    != CancellationNotificationStatus::Pending ==> *final(exec) == *old(exec)
                    && r.2@.len() == 0
            },
    {
        let register_waker = !self.started;
        self.started = true;
        if is_cancelled {
            let (exit, woken) = exec.outer_notify_cancelled();
            if exit {
                return (register_waker, PollStep::Exit, woken);
            }
            (register_waker, PollStep::PollInner, woken)
        } else {
            (register_waker, PollStep::PollInner, Vec::new())
        }
    }

    /// The outcome of a poll once the wrapped future returned `inner`, given the context
    /// after that poll and whether the future was cancelled at the start of the poll.
    pub fn finish_poll_inner<T>(&self, exec: &ExecutionContextData, is_cancelled: bool, inner: PollState<T>) -> (r: PollState<Option<T>>)
        ensures
            r == outcome_after_inner(exec.spec_prevent(), is_cancelled, inner),
    {
        if is_cancelled && exec.can_exit() {
            return PollState::Ready(None);
        }
        match inner {
            PollState::Ready(v) => PollState::Ready(Some(v)),
            PollState::Pending => PollState::Pending,
        }
    }

    /// The value handed out when the poll finished with `out`, given whether the handle
    /// had cancelled the future by the time it was marked as exited.
    pub fn finish_ready<T>(&self, exec: &ExecutionContextData, was_cancelled: bool, out: Option<T>) -> (r: Option<T>)
        ensures
            r == outcome_on_exit(exec.spec_prevent(), was_cancelled, out),
    {
        if was_cancelled && exec.can_exit() {
            None
        } else {
            out
        }
    }
}

/// Creates the decision state of a new cancellable future and the execution context it
/// shares with the code it runs.
pub fn make_cancellable_future() -> (r: (ExplicitlyCancellableFuture, ExecutionContextData))
    ensures
        !r.0.spec_started(),
        r.1.wf(),
        r.1.spec_prevent() == 0,
        r.1.spec_notification().spec_status() == CancellationNotificationStatus::Pending,
        r.1.spec_notification().registry() == Some(TokenEntries::empty()),
{
    (ExplicitlyCancellableFuture::new(), ExecutionContextData::new())
}


/// Distinct statuses have distinct codes: decoding the code of a status gives the status
/// back.
pub proof fn lemma_status_code_injective(a: CancellationNotificationStatus, b: CancellationNotificationStatus)
    ensures
        a.code() == b.code() ==> a == b,
        a.code() <= 2,
{
}

/// A fired or disabled notification is settled: neither notifying nor disabling changes
/// its status again.
pub proof fn lemma_settled_status_is_final(s: CancellationNotificationStatus)
    requires
        s != CancellationNotificationStatus::Pending,
    ensures
        notified_status(s) == s,
        disabled_status(s) == s,
{
}

/// Disabling and notifying exclude each other: once disabling succeeded, a later
/// notification does not fire; once a pending notification fired, disabling fails.
pub proof fn lemma_disable_and_notify_exclusive(s: CancellationNotificationStatus)
    ensures
        disable_succeeds(s) ==> notified_status(disabled_status(s))
            == CancellationNotificationStatus::Disabled,
        s == CancellationNotificationStatus::Pending ==> !disable_succeeds(notified_status(s)),
{
}

/// Leaving a critical section undoes entering it, and one entered can always be left.
pub proof fn lemma_exit_undoes_enter(n: nat)
    ensures
        exited(entered(n)) == n,
        entered(n) > 0,
{
}

/// Firing the notification wakes every registered waiter.
pub proof fn lemma_notification_wakes_registered_waiter(
    fut: CancellationNotificationFuture,
    data: CancellationNotificationData,
    woken: Seq<u64>,
)
    requires
        fut.registered_in(data),
        fut.spec_id() is Some,
        data.registry() is Some,
        in_key_order(data.registry()->Some_0, woken),
    ensures
        woken.contains(fut.spec_waker()),
{
    let k = fut.spec_id()->Some_0;
    let m = data.registry()->Some_0;
    let keys = choose|keys: Seq<usize>| listed_along(m, woken, keys);
    assert(keys.contains(k));
    let i = choose|i: int| 0 <= i < keys.len() && keys[i] == k;
    assert(woken[i] == m[k]);
}

/// Cancellation takes effect once nothing prevents it: a cancelled future with no holder
/// left finishes with `None` whatever its wrapped future did.
pub proof fn lemma_cancellation_takes_effect<T>(inner: PollState<T>, out: Option<T>)
    ensures
        outcome_after_inner(0, true, inner) == PollState::<Option<T>>::Ready(None),
        outcome_on_exit(0, true, out) is None,
{
}

/// While something prevents cancellation, or when the future is not cancelled, the
/// wrapped future's outcome is handed out unchanged.
pub proof fn lemma_prevented_cancellation_passes_outcome<T>(prevent: nat, is_cancelled: bool, v: T)
    requires
        prevent > 0 || !is_cancelled,
    ensures
        outcome_after_inner(prevent, is_cancelled, PollState::Ready(v)) == PollState::Ready(Some(v)),
        outcome_after_inner(prevent, is_cancelled, PollState::<T>::Pending) is Pending,
        outcome_on_exit(prevent, is_cancelled, Some(v)) == Some(v),
{
}

} // verus!
