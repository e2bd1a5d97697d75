//! The loop that accepts SOCKS5 connections.

use vstd::prelude::*;

verus! {

/// The acceptor of SOCKS5 connections.
#[derive(Debug, Clone, Copy, PartialEq, Eq, Structural)]
pub struct Acceptor {
    /// The number that the next connection gets.
    pub next_id: usize,
}

/// What to do next for the acceptor.
#[derive(Debug, Clone, Copy, PartialEq, Eq, Structural)]
pub enum AcceptAction {
    /// Serve the connection under this number, and accept the next one
    /// meanwhile.
    Serve(usize),
    /// Accept no more connections.
    Stop,
}

impl Acceptor {
    /// An acceptor that has seen no connection.
    pub fn new() -> (acceptor: Acceptor)
        ensures
            acceptor.next_id == 0,
    {
        Acceptor { next_id: 0 }
    }

    /// Goes on once a connection was accepted or could not be. Connections are
    /// numbered in the order in which they come; the first that cannot be
    /// accepted is the end.
    pub fn serve(&mut self, accepted: bool) -> (action: AcceptAction)
        requires
            accepted ==> old(self).next_id < usize::MAX,
        ensures
            action == if accepted {
                AcceptAction::Serve(old(self).next_id)
            } else {
                AcceptAction::Stop
            },
            final(self).next_id == if accepted {
                old(self).next_id + 1
            } else {
                old(self).next_id as int
            },
    {
        if !accepted {
            return AcceptAction::Stop;
        }
        let id = self.next_id;
        self.next_id = id + 1;
        AcceptAction::Serve(id)
    }
}

} // verus!
