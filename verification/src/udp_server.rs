//! The decisions of the UDP server's receive loop: when to bind again after
//! a session ends, and when to stop.
use vstd::prelude::*;

verus! {

/// What the receive loop does after a session on the socket has ended.
#[derive(Debug, Clone, Copy, PartialEq, Eq, Structural)]
pub enum ServerStep {
    /// A restart was asked for: bind again at once.
    Rebind,
    /// No restart: wait the reconnect delay before the loop goes on.
    Sleep,
}

/// A UDP server: its addresses, its reconnect delay and the flags that
/// control its receive loop.
#[derive(Debug, Clone)]
pub struct UdpServer {
    pub local_addr: String,
    pub remote_addr: String,
    /// Milliseconds to wait before binding again.
    pub reconnect_delay_ms: u64,
    /// Whether the socket is bound.
    pub is_connected: bool,
    /// The current session (and, without `restart`, the loop) ends.
    pub cancel: bool,
    /// The loop binds again once the session has ended.
    pub restart: bool,
}

/// The reconnect delay used when none is given: three seconds.
pub const DEFAULT_RECONNECT_DELAY_MS: u64 = 3000;

/// The loop flags `(cancel, restart)` after a session has ended with the
/// flags `flags`, and what the loop does next.
pub open spec fn spec_after_session(flags: (bool, bool)) -> ((bool, bool), ServerStep) {
    if flags.1 {
        ((false, false), ServerStep::Rebind)
    } else {
        (flags, ServerStep::Sleep)
    }
}

impl UdpServer {
    /// The loop flags `(cancel, restart)`.
    pub open spec fn flags(&self) -> (bool, bool) {
        (self.cancel, self.restart)
    }

    /// Creates a server on `local_addr` that is not bound yet, with no
    /// restart asked for; the reconnect delay is three seconds unless given.
    pub fn new(local_addr: String, remote_addr: String, reconnect_delay_ms: Option<u64>) -> (res: UdpServer)
        ensures
            res.local_addr@ == local_addr@,
            res.remote_addr@ == remote_addr@,
            res.reconnect_delay_ms == match reconnect_delay_ms {
                Some(d) => d,
                None => DEFAULT_RECONNECT_DELAY_MS,
            },
            !res.is_connected,
            res.flags() == (false, false),
    {
        let delay = match reconnect_delay_ms {
            Some(d) => d,
            None => DEFAULT_RECONNECT_DELAY_MS,
        };
        UdpServer {
            local_addr,
            remote_addr,
            reconnect_delay_ms: delay,
            is_connected: false,
            cancel: false,
            restart: false,
        }
    }

    /// Asks for a restart: the current session ends and the socket is bound again.
    pub fn restart(&mut self)
        ensures
            final(self).flags() == (true, true),
            final(self).is_connected == old(self).is_connected,
            final(self).reconnect_delay_ms == old(self).reconnect_delay_ms,
    {
        self.restart = true;
        self.cancel = true;
    }

    /// Whether the loop (and the current session) goes on.
    pub fn running(&self) -> (res: bool)
        ensures
            res == !self.cancel,
    {
        !self.cancel
    }

    /// Records the outcome of an attempt to bind the socket.
    pub fn on_bind(&mut self, bound: bool)
        ensures
            final(self).is_connected == bound,
            final(self).flags() == old(self).flags(),
    {
        self.is_connected = bound;
    }

    /// Decides what follows the end of a session: after a restart request
    /// the flags are cleared and the socket is bound again; otherwise the
    /// loop waits its reconnect delay.
    pub fn after_session(&mut self) -> (res: ServerStep)
        ensures
            (final(self).flags(), res) == spec_after_session(old(self).flags()),
            final(self).is_connected == old(self).is_connected,
    {
        if self.restart {
            self.cancel = false;
            self.restart = false;
            ServerStep::Rebind
        } else {
            ServerStep::Sleep
        }
    }

    /// Leaves the loop: the cancel flag is cleared so the server can run again.
    pub fn on_exit(&mut self)
        ensures
            final(self).flags() == (false, old(self).restart),
    {
        self.cancel = false;
    }
}

/// A restart asked for at any time ends the session, and the session that
/// follows binds again with the flags of a new server.
pub proof fn lemma_restart_rebinds()
    ensures
        spec_after_session((true, true)) == ((false, false), ServerStep::Rebind),
{
}

/// Without a restart request, the end of a session changes no flag.
pub proof fn lemma_no_restart_keeps_flags(cancel: bool)
    ensures
        spec_after_session((cancel, false)) == ((cancel, false), ServerStep::Sleep),
{
}

} // verus!
