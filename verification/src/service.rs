//! The relay embedded in the desktop agent: its counters and run state.
use vstd::prelude::*;
use crate::text::{after_last, after_last_char, chars_of, push_chars, push_str, string_of};

verus! {

/// `x + 1`, wrapping to 0 past `u64::MAX` as an atomic `fetch_add` does.
pub open spec fn bump(x: u64) -> u64 {
    if x == u64::MAX {
        0
    } else {
        (x + 1) as u64
    }
}

fn bump_exec(x: u64) -> (r: u64)
    ensures
        r == bump(x),
{
    if x == u64::MAX {
        0
    } else {
        x + 1
    }
}

/// Counters shown on the relay page of the agent window.
pub struct RelayStats {
    pub active_hosts: u64,
    pub active_sessions: u64,
    pub total_video_frames: u64,
}

impl RelayStats {
    pub fn new() -> (s: Self)
        ensures
            s.active_hosts == 0,
            s.active_sessions == 0,
            s.total_video_frames == 0,
    {
        RelayStats { active_hosts: 0, active_sessions: 0, total_video_frames: 0 }
    }

    /// A host registered; only a host that did not replace an existing
    /// connection of the same identifier adds to the count.
    pub fn host_registered(&mut self, replaced_existing: bool)
        ensures
            final(self).active_hosts == (if replaced_existing {
                old(self).active_hosts
            } else {
                bump(old(self).active_hosts)
            }),
            final(self).active_sessions == old(self).active_sessions,
            final(self).total_video_frames == old(self).total_video_frames,
    {
        if !replaced_existing {
            self.active_hosts = bump_exec(self.active_hosts);
        }
    }

    /// A viewer was paired with a host.
    pub fn session_started(&mut self)
        ensures
            final(self).active_sessions == bump(old(self).active_sessions),
            final(self).active_hosts == old(self).active_hosts,
            final(self).total_video_frames == old(self).total_video_frames,
    {
        self.active_sessions = bump_exec(self.active_sessions);
    }

    /// A video frame was forwarded to a viewer.
    pub fn video_frame_relayed(&mut self)
        ensures
            final(self).total_video_frames == bump(old(self).total_video_frames),
            final(self).active_hosts == old(self).active_hosts,
            final(self).active_sessions == old(self).active_sessions,
    {
        self.total_video_frames = bump_exec(self.total_video_frames);
    }
}

/// The embedded relay: where it listens and whether it runs.
pub struct RelayService {
    pub bind_addr: String,
    pub is_running: bool,
    pub stats: RelayStats,
}

impl RelayService {
    pub fn new(bind_addr: String) -> (s: Self)
        ensures
            s.bind_addr == bind_addr,
            !s.is_running,
            s.stats.active_hosts == 0 && s.stats.active_sessions == 0
                && s.stats.total_video_frames == 0,
    {
        RelayService { bind_addr, is_running: false, stats: RelayStats::new() }
    }

    /// Asks the listener to stop accepting connections.
    pub fn stop(&mut self)
        ensures
            !final(self).is_running,
            final(self).bind_addr == old(self).bind_addr,
            final(self).stats == old(self).stats,
    {
        self.is_running = false;
    }

    /// The port part of the bind address: what follows its last `:`.
    pub fn listen_port(&self) -> (p: String)
        ensures
            p@ == after_last(self.bind_addr@, ':'),
    {
        let cs = chars_of(self.bind_addr.as_str());
        string_of(after_last_char(cs.as_slice(), ':').as_slice())
    }

    /// Where to look for a relay that already holds the port: `127.0.0.1:<port>`.
    pub fn probe_address(&self) -> (a: String)
        ensures
            a@ == "127.0.0.1:"@ + after_last(self.bind_addr@, ':'),
    {
        let mut out: Vec<char> = Vec::new();
        push_str(&mut out, "127.0.0.1:");
        let cs = chars_of(self.bind_addr.as_str());
        push_chars(&mut out, after_last_char(cs.as_slice(), ':').as_slice());
        string_of(out.as_slice())
    }

    /// The listener is bound.
    pub fn bind_succeeded(&mut self)
        ensures
            final(self).is_running,
            final(self).bind_addr == old(self).bind_addr,
            final(self).stats == old(self).stats,
    {
        self.is_running = true;
    }

    /// The port was taken. When a relay already answers there it is reused and
    /// counts as running; otherwise starting fails with a message naming the
    /// port and the bind error.
    pub fn bind_failed(&mut self, existing_relay_answers: bool, bind_error: &str) -> (r: Result<
        (),
        String,
    >)
        ensures
            existing_relay_answers ==> (r is Ok && final(self).is_running),
            !existing_relay_answers ==> final(self).is_running == old(self).is_running,
            !existing_relay_answers ==> (r matches Err(msg) && msg@ == "[SERVER][ERROR] Port "@
                + after_last(old(self).bind_addr@, ':') + " is occupied by another process: "@
                + bind_error@),
            final(self).bind_addr == old(self).bind_addr,
            final(self).stats == old(self).stats,
    {
        if existing_relay_answers {
            self.is_running = true;
            return Ok(());
        }
        let mut out: Vec<char> = Vec::new();
        push_str(&mut out, "[SERVER][ERROR] Port ");
        let cs = chars_of(self.bind_addr.as_str());
        push_chars(&mut out, after_last_char(cs.as_slice(), ':').as_slice());
        push_str(&mut out, " is occupied by another process: ");
        push_str(&mut out, bind_error);
        Err(string_of(out.as_slice()))
    }
}

} // verus!
