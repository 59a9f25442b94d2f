//! Per-session state: the handles that startup installs once and every
//! later call reads.

use vstd::prelude::*;

verus! {

/// A slot that is written once, when a session has started, and only read
/// afterwards.
pub struct HandleSlot<T> {
    value: Option<T>,
}

impl<T> View for HandleSlot<T> {
    type V = Option<T>;

    closed spec fn view(&self) -> Option<T> {
        self.value
    }
}

/// Why a session handle could not be had.
#[derive(Debug, Clone, Copy, PartialEq, Eq, Structural)]
pub enum SessionError {
    /// No session has been started yet.
    NotInitialized,
    /// A session has already been started; its handle stays.
    AlreadyInitialized,
}

impl<T> HandleSlot<T> {
    /// An empty slot.
    pub fn new() -> (s: Self)
        ensures
            s@ is None,
    {
        HandleSlot { value: None }
    }

    /// Installs the handle of a started session. A slot that holds one
    /// already keeps it, and `v` comes back.
    pub fn install(&mut self, v: T) -> (r: Result<(), (SessionError, T)>)
        ensures
            old(self)@ is None ==> r is Ok && final(self)@ == Some(v),
            old(self)@ is Some ==> r == Err::<(), (SessionError, T)>((SessionError::AlreadyInitialized, v))
                && final(self)@ == old(self)@,
    {
        if self.value.is_some() {
            Err((SessionError::AlreadyInitialized, v))
        } else {
            self.value = Some(v);
            Ok(())
        }
    }

    /// The installed handle, or `NotInitialized`.
    pub fn get(&self) -> (r: Result<&T, SessionError>)
        ensures
            match self@ {
                Some(v) => r == Ok::<&T, SessionError>(&v),
                None => r == Err::<&T, SessionError>(SessionError::NotInitialized),
            },
    {
        match &self.value {
            Some(v) => Ok(v),
            None => Err(SessionError::NotInitialized),
        }
    }

    /// Whether a handle is installed.
    pub fn is_installed(&self) -> (r: bool)
        ensures
            r == self@ is Some,
    {
        self.value.is_some()
    }
}

} // verus!
