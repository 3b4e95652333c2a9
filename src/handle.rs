//! Owned handles to foreign objects that can be closed once, and the tokens of
//! event registrations that can be removed once.
use vstd::prelude::*;

verus! {

/// Why closing a handle failed.
#[derive(Clone, Copy, Debug, PartialEq, Eq, Structural)]
pub enum CloseError {
    /// The handle was closed before.
    AlreadyClosed,
}

/// A foreign object's handle that is open until closed; closing hands the object
/// over for its teardown, and closing again fails.
pub struct Handle<T> {
    inner: Option<T>,
}

impl<T> Handle<T> {
    /// The object, while the handle is open.
    pub closed spec fn object(&self) -> Option<T> {
        self.inner
    }

    pub open spec fn is_open(&self) -> bool {
        self.object() is Some
    }

    /// An open handle to `object`.
    pub fn new(object: T) -> (r: Self)
        ensures
            r.object() == Some(object),
    {
        Handle { inner: Some(object) }
    }

    /// True while the handle has not been closed.
    pub fn open(&self) -> (r: bool)
        ensures
            r == self.is_open(),
    {
        self.inner.is_some()
    }

    /// The object, while the handle is open.
    pub fn get(&self) -> (r: Option<&T>)
        ensures
            match self.object() {
                Some(o) => r matches Some(x) && *x == o,
                None => r is None,
            },
    {
        self.inner.as_ref()
    }

    /// What closing the handle returns: the object of an open handle, else the
    /// report of a repeated close.
    pub open spec fn close_result(self) -> Result<T, CloseError> {
        match self.object() {
            Some(o) => Ok(o),
            None => Err(CloseError::AlreadyClosed),
        }
    }

    /// The handle after a close.
    pub closed spec fn after_close(self) -> Self {
        Handle { inner: None }
    }

    /// Closes the handle, handing over the object; a closed handle stays closed
    /// and reports the repeated close.
    pub fn close(&mut self) -> (r: Result<T, CloseError>)
        ensures
            r == old(self).close_result(),
            *final(self) == old(self).after_close(),
    {
        match self.inner.take() {
            Some(o) => Ok(o),
            None => Err(CloseError::AlreadyClosed),
        }
    }
}

/// Closing an open handle twice: the first close succeeds with the object, the
/// second reports a failure.
pub proof fn lemma_close_twice<T>(h: Handle<T>)
    requires
        h.is_open(),
    ensures
        h.close_result() == Ok::<T, CloseError>(h.object()->0),
        h.after_close().close_result() == Err::<T, CloseError>(CloseError::AlreadyClosed),
{
}

/// The token of one event registration. Removing the registration consumes the
/// token, so a token serves exactly one removal.
pub struct EventRegistrationToken {
    value: i64,
}

impl EventRegistrationToken {
    pub closed spec fn spec_value(&self) -> i64 {
        self.value
    }

    /// The token the foreign side issued for a registration.
    pub fn new(value: i64) -> (r: Self)
        ensures
            r.spec_value() == value,
    {
        EventRegistrationToken { value }
    }

    /// Gives up the token for the removal call.
    pub fn into_raw(self) -> (r: i64)
        ensures
            r == self.spec_value(),
    {
        self.value
    }
}

} // verus!
