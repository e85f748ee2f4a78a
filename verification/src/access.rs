//! Scoped access to the bytes of a mapping.
//!
//! A mapping says how many bytes it has and where they start; the caller
//! makes the view of them and hands it in with the logic to run on it. Which
//! kind of access a mapping offers goes by its form: a read-only mapping has
//! no write access, and a write-only mapping no read access.
//!
//! The kernel was told of the access when the mapping came to be and is told
//! of its end at the release, so an access asks nothing of the kernel and
//! leaves the mapping as it was. Whatever the logic returns, the release
//! that follows is the same.

use crate::error::AccessError;
use crate::mapped::{MappedDmaBufRo, MappedDmaBufRw, MappedDmaBufWo};
use vstd::prelude::*;

verus! {

/// What a scoped access returns for what the caller's logic returned: its
/// result as it is, its error marked as the caller's own.
pub open spec fn surfaced<R, E>(inner: Result<R, E>) -> Result<R, AccessError<E>> {
    match inner {
        Ok(result) => Ok(result),
        Err(error) => Err(AccessError::ClosureError(error)),
    }
}

/// An error of the caller's logic is surfaced as that error, a result as that
/// result, and nothing is ever surfaced as a failure of the platform.
pub proof fn lemma_surfaced_failure_is_the_callers<R, E>(inner: Result<R, E>)
    ensures
        inner matches Err(error) ==> surfaced(inner) == Err::<R, AccessError<E>>(
            AccessError::ClosureError(error),
        ),
        inner matches Ok(result) ==> surfaced(inner) == Ok::<R, AccessError<E>>(result),
        !(surfaced(inner) matches Err(AccessError::FdAccessError(_))),
{
}

/// What a scoped access returns for what the caller's logic returned.
pub fn surface<R, E>(inner: Result<R, E>) -> (out: Result<R, AccessError<E>>)
    ensures
        out == surfaced(inner),
{
    match inner {
        Ok(result) => Ok(result),
        Err(error) => Err(AccessError::ClosureError(error)),
    }
}

impl<'a> MappedDmaBufRo<'a> {
    /// Runs `logic` on `view`, the bytes of the mapping, and returns what it
    /// returns; an error of the logic comes back as
    /// [`AccessError::ClosureError`].
    pub fn with_read_access<R, E, F>(&self, view: &[u8], logic: F) -> (out: Result<
        R,
        AccessError<E>,
    >) where F: FnOnce(&[u8]) -> Result<R, E>
        requires
            view@.len() == self.len(),
            logic.requires((view,)),
        ensures
            exists|inner: Result<R, E>| #[trigger]
                logic.ensures((view,), inner) && out == surfaced(inner),
            !(out matches Err(AccessError::FdAccessError(_))),
    {
        surface(logic(view))
    }
}

impl<'a> MappedDmaBufWo<'a> {
    /// Runs `logic` on `view`, the bytes of the mapping, which it may change,
    /// and returns what it returns; an error of the logic comes back as
    /// [`AccessError::ClosureError`]. The view is left as the logic left it,
    /// and the mapping as it was.
    pub fn with_write_access<R, E, F>(&mut self, view: &mut [u8], logic: F) -> (out: Result<
        R,
        AccessError<E>,
    >) where F: FnOnce(&mut [u8]) -> Result<R, E>
        requires
            old(view)@.len() == old(self).len(),
            forall|bytes: &mut [u8]| bytes@ == old(view)@ ==> #[trigger] logic.requires((bytes,)),
        ensures
            exists|bytes: &mut [u8], inner: Result<R, E>|
                {
                    &&& bytes@ == old(view)@
                    &&& final(bytes)@ == final(view)@
                    &&& #[trigger] logic.ensures((bytes,), inner)
                    &&& out == surfaced(inner)
                },
            !(out matches Err(AccessError::FdAccessError(_))),
            final(self).fd() == old(self).fd(),
            final(self).size() == old(self).size(),
            final(self).len() == old(self).len(),
            final(self).addr() == old(self).addr(),
    {
        surface(logic(view))
    }
}

impl<'a> MappedDmaBufRw<'a> {
    /// Runs `logic` on `view`, the bytes of the mapping, and returns what it
    /// returns; an error of the logic comes back as
    /// [`AccessError::ClosureError`].
    pub fn with_read_access<R, E, F>(&self, view: &[u8], logic: F) -> (out: Result<
        R,
        AccessError<E>,
    >) where F: FnOnce(&[u8]) -> Result<R, E>
        requires
            view@.len() == self.len(),
            logic.requires((view,)),
        ensures
            exists|inner: Result<R, E>| #[trigger]
                logic.ensures((view,), inner) && out == surfaced(inner),
            !(out matches Err(AccessError::FdAccessError(_))),
    {
        surface(logic(view))
    }

    /// Runs `logic` on `view`, the bytes of the mapping, which it may change,
    /// and returns what it returns; an error of the logic comes back as
    /// [`AccessError::ClosureError`]. The view is left as the logic left it,
    /// and the mapping as it was.
    pub fn with_write_access<R, E, F>(&mut self, view: &mut [u8], logic: F) -> (out: Result<
        R,
        AccessError<E>,
    >) where F: FnOnce(&mut [u8]) -> Result<R, E>
        requires
            old(view)@.len() == old(self).len(),
            forall|bytes: &mut [u8]| bytes@ == old(view)@ ==> #[trigger] logic.requires((bytes,)),
        ensures
            exists|bytes: &mut [u8], inner: Result<R, E>|
                {
                    &&& bytes@ == old(view)@
                    &&& final(bytes)@ == final(view)@
                    &&& #[trigger] logic.ensures((bytes,), inner)
                    &&& out == surfaced(inner)
                },
            !(out matches Err(AccessError::FdAccessError(_))),
            final(self).fd() == old(self).fd(),
            final(self).size() == old(self).size(),
            final(self).len() == old(self).len(),
            final(self).addr() == old(self).addr(),
    {
        surface(logic(view))
    }

    /// Write access under the name that says what this mapping is for: the
    /// logic may read the bytes as well as change them, and both are kept in
    /// step with the device.
    pub fn with_readwrite_access<R, E, F>(&mut self, view: &mut [u8], logic: F) -> (out: Result<
        R,
        AccessError<E>,
    >) where F: FnOnce(&mut [u8]) -> Result<R, E>
        requires
            old(view)@.len() == old(self).len(),
            forall|bytes: &mut [u8]| bytes@ == old(view)@ ==> #[trigger] logic.requires((bytes,)),
        ensures
            exists|bytes: &mut [u8], inner: Result<R, E>|
                {
                    &&& bytes@ == old(view)@
                    &&& final(bytes)@ == final(view)@
                    &&& #[trigger] logic.ensures((bytes,), inner)
                    &&& out == surfaced(inner)
                },
            !(out matches Err(AccessError::FdAccessError(_))),
            final(self).fd() == old(self).fd(),
            final(self).size() == old(self).size(),
            final(self).len() == old(self).len(),
            final(self).addr() == old(self).addr(),
    {
        self.with_write_access(view, logic)
    }
}

} // verus!
