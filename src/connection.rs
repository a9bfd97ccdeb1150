//! The connection state of a session with one device.
//!
//! A session starts unconnected, opens its connection on first use and keeps
//! it for later commands. A failed attempt to connect leaves it unconnected,
//! so the next use tries again; an I/O error on the connection drops it, so
//! the next use opens a fresh one. It never holds more than one connection.
use vstd::prelude::*;

verus! {

/// The lazily opened connection of a session; `C` is the connection handle.
pub struct LazyConnection<C> {
    handle: Option<C>,
}

impl<C> LazyConnection<C> {
    /// The live connection, if there is one.
    pub closed spec fn live(&self) -> Option<C> {
        self.handle
    }

    /// A session that has not connected yet.
    pub fn new() -> (r: Self)
        ensures
            r.live() is None,
    {
        LazyConnection { handle: None }
    }

    /// Whether the next use must open a connection first.
    pub fn needs_connect(&self) -> (r: bool)
        ensures
            r == (self.live() is None),
    {
        self.handle.is_none()
    }

    /// Records the connection that was just opened.
    pub fn on_connected(&mut self, conn: C)
        requires
            old(self).live() is None,
        ensures
            final(self).live() == Some(conn),
    {
        self.handle = Some(conn);
    }

    /// Records a failed attempt to connect: nothing is kept of it, so the
    /// next use connects again.
    pub fn on_connect_failed(&mut self)
        requires
            old(self).live() is None,
        ensures
            final(self).live() is None,
    {
    }

    /// Records an I/O error on the connection, which is dropped.
    pub fn on_io_error(&mut self)
        ensures
            final(self).live() is None,
    {
        self.handle = None;
    }

    /// The live connection, for one read or write.
    pub fn handle_mut(&mut self) -> (r: &mut C)
        requires
            old(self).live() is Some,
        ensures
            *r == old(self).live()->0,
            final(self).live() == Some(*final(r)),
    {
        self.handle.as_mut().unwrap()
    }
}

} // verus!
