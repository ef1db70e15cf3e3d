//! The single-fire rendezvous through which one task hands another the
//! outcome it produced, exactly once.
use vstd::prelude::*;

verus! {

/// Where a rendezvous stands: nothing fired yet, fired with a payload, or
/// fired with a payload that could not be kept.
#[derive(Clone, Copy, PartialEq, Eq, Structural, Debug)]
pub enum NotifierState {
    Pending,
    Notified,
    Corrupted,
}

/// Why a notification or a read of its payload failed.
#[derive(Clone, Copy, PartialEq, Eq, Structural, Debug)]
pub enum NotificationError {
    AlreadyFired,
    NoAvailableData,
    LockAcquisition,
}

/// A rendezvous as a plain value: its state and the payload it still holds.
pub type NotifierModel<T> = (NotifierState, Option<T>);

/// What notifying does to a rendezvous in state `s`, with `stored` the payload
/// as it could be kept (`None` where keeping it failed), and what the call returns.
pub open spec fn notified<T>(s: NotifierModel<T>, stored: Option<T>) -> (NotifierModel<T>, Result<(), NotificationError>) {
    if s.0 == NotifierState::Pending {
        match stored {
            Some(d) => ((NotifierState::Notified, Some(d)), Ok(())),
            None => ((NotifierState::Corrupted, None), Ok(())),
        }
    } else {
        (s, Err(NotificationError::AlreadyFired))
    }
}

/// What reading the payload does to a rendezvous in state `s`, and what it
/// returns: `None` while nothing has fired.
pub open spec fn taken<T>(s: NotifierModel<T>) -> (NotifierModel<T>, Option<Result<T, NotificationError>>) {
    match s.0 {
        NotifierState::Pending => (s, None),
        NotifierState::Notified => match s.1 {
            Some(d) => ((NotifierState::Notified, None), Some(Ok(d))),
            None => (s, Some(Err(NotificationError::NoAvailableData))),
        },
        NotifierState::Corrupted => (s, Some(Err(NotificationError::NoAvailableData))),
    }
}

/// A single-use rendezvous holding at most one payload of type `T`.
pub struct Notifier<T> {
    state: NotifierState,
    data: Option<T>,
}

impl<T> View for Notifier<T> {
    type V = NotifierModel<T>;

    closed spec fn view(&self) -> NotifierModel<T> {
        (self.state, self.data)
    }
}

impl<T> Notifier<T> {
    /// A fresh rendezvous: pending, with no payload.
    pub fn new() -> (n: Self)
        ensures
            n@ == (NotifierState::Pending, None::<T>),
    {
        Self { state: NotifierState::Pending, data: None }
    }

    /// The current state.
    pub fn get_state(&self) -> (r: NotifierState)
        ensures
            r == self@.0,
    {
        self.state
    }

    /// Whether a notification can still fire.
    pub fn can_notify(&self) -> (r: bool)
        ensures
            r == (self@.0 == NotifierState::Pending),
    {
        match self.get_state() {
            NotifierState::Pending => true,
            _ => false,
        }
    }

    /// Fires the rendezvous with `data`; fails with `AlreadyFired`, changing
    /// nothing, where it has fired before.
    pub fn notify(&mut self, data: T) -> (r: Result<(), NotificationError>)
        ensures
            (final(self)@, r) == notified(old(self)@, Some(data)),
    {
        self.fire(Some(data))
    }

    /// Fires the rendezvous with a payload that could not be kept: it becomes
    /// corrupted, and the notification itself still succeeds. Fails with
    /// `AlreadyFired`, changing nothing, where it has fired before.
    pub fn notify_unsaved(&mut self) -> (r: Result<(), NotificationError>)
        ensures
            (final(self)@, r) == notified(old(self)@, None::<T>),
    {
        self.fire(None)
    }

    fn fire(&mut self, stored: Option<T>) -> (r: Result<(), NotificationError>)
        ensures
            (final(self)@, r) == notified(old(self)@, stored),
    {
        if !self.can_notify() {
            return Err(NotificationError::AlreadyFired);
        }
        match stored {
            Some(d) => {
                self.data = Some(d);
                self.state = NotifierState::Notified;
            },
            None => {
                self.data = None;
                self.state = NotifierState::Corrupted;
            },
        }
        Ok(())
    }

    /// Reads the outcome once the rendezvous has fired: the payload, which is
    /// removed, or `NoAvailableData` where it is gone or was never kept.
    /// `None` while nothing has fired.
    pub fn take_notification(&mut self) -> (r: Option<Result<T, NotificationError>>)
        ensures
            (final(self)@, r) == taken(old(self)@),
    {
        match self.get_state() {
            NotifierState::Pending => None,
            NotifierState::Notified => match self.data.take() {
                Some(d) => Some(Ok(d)),
                None => Some(Err(NotificationError::NoAvailableData)),
            },
            NotifierState::Corrupted => Some(Err(NotificationError::NoAvailableData)),
        }
    }
}

/// Once a notification has succeeded, every later one fails with
/// `AlreadyFired`, before or after the payload is read.
pub proof fn lemma_notify_at_most_once<T>(s: NotifierModel<T>, first: Option<T>, later: Option<T>)
    requires
        notified(s, first).1 is Ok,
    ensures
        notified(notified(s, first).0, later).1 == Err::<(), NotificationError>(
            NotificationError::AlreadyFired,
        ),
        notified(taken(notified(s, first).0).0, later).1 == Err::<(), NotificationError>(
            NotificationError::AlreadyFired,
        ),
{
}

/// After a successful notification with `data`, the first read returns
/// `data` and every read after it fails with `NoAvailableData`.
pub proof fn lemma_single_delivery<T>(s: NotifierModel<T>, data: T)
    requires
        notified(s, Some(data)).1 is Ok,
    ensures
        taken(notified(s, Some(data)).0).1 == Some(Ok::<T, NotificationError>(data)),
        taken(taken(notified(s, Some(data)).0).0).1 == Some(
            Err::<T, NotificationError>(NotificationError::NoAvailableData),
        ),
        taken(taken(taken(notified(s, Some(data)).0).0).0).1 == Some(
            Err::<T, NotificationError>(NotificationError::NoAvailableData),
        ),
{
}

} // verus!
