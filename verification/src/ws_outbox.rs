//! The queue of messages a relay writes to a browser viewer: control and file
//! messages in a lane of their own that always goes first, and video in a
//! short lane that makes the host's reader wait when it is full.
use vstd::prelude::*;

verus! {

/// How many video frames may wait for a browser viewer.
pub const VIDEO_LANE_CAPACITY: usize = 2;

/// Messages waiting for one browser viewer.
pub struct WsOutbox {
    control: Vec<Vec<u8>>,
    video: Vec<Vec<u8>>,
}

/// Messages as byte sequences.
pub open spec fn messages(v: Seq<Vec<u8>>) -> Seq<Seq<u8>> {
    v.map_values(|m: Vec<u8>| m@)
}

impl View for WsOutbox {
    /// The control lane and the video lane, oldest first.
    type V = (Seq<Seq<u8>>, Seq<Seq<u8>>);

    closed spec fn view(&self) -> (Seq<Seq<u8>>, Seq<Seq<u8>>) {
        (messages(self.control@), messages(self.video@))
    }
}

impl WsOutbox {
    pub fn new() -> (o: Self)
        ensures
            o@.0.len() == 0,
            o@.1.len() == 0,
    {
        let o = WsOutbox { control: Vec::new(), video: Vec::new() };
        assert(o@.0 =~= Seq::<Seq<u8>>::empty());
        assert(o@.1 =~= Seq::<Seq<u8>>::empty());
        o
    }

    /// Queues a control or file message; that lane has no limit.
    pub fn push_control(&mut self, m: Vec<u8>)
        ensures
            final(self)@.0 == old(self)@.0.push(m@),
            final(self)@.1 == old(self)@.1,
    {
        let ghost before = self.control@;
        self.control.push(m);
        assert(messages(self.control@) =~= messages(before).push(m@));
    }

    /// Whether the video lane can take another frame.
    pub fn has_video_room(&self) -> (b: bool)
        ensures
            b == (self@.1.len() < VIDEO_LANE_CAPACITY),
    {
        self.video.len() < VIDEO_LANE_CAPACITY
    }

    /// Queues a video frame; only when the lane has room, so the lane never
    /// holds more than its capacity.
    pub fn push_video(&mut self, m: Vec<u8>)
        requires
            old(self)@.1.len() < VIDEO_LANE_CAPACITY,
        ensures
            final(self)@.1 == old(self)@.1.push(m@),
            final(self)@.0 == old(self)@.0,
            final(self)@.1.len() <= VIDEO_LANE_CAPACITY,
    {
        let ghost before = self.video@;
        self.video.push(m);
        assert(messages(self.video@) =~= messages(before).push(m@));
    }

    /// The next message to write: the oldest control message while there is
    /// one, else the oldest video frame; `None` when both lanes are empty.
    pub fn next(&mut self) -> (r: Option<Vec<u8>>)
        ensures
            old(self)@.0.len() > 0 ==> (r matches Some(m) && m@ == old(self)@.0[0]),
            old(self)@.0.len() > 0 ==> final(self)@.0 == old(self)@.0.drop_first(),
            old(self)@.0.len() > 0 ==> final(self)@.1 == old(self)@.1,
            old(self)@.0.len() == 0 && old(self)@.1.len() > 0 ==> (r matches Some(m) && m@
                == old(self)@.1[0]),
            old(self)@.0.len() == 0 && old(self)@.1.len() > 0 ==> final(self)@.1 == old(
                self)@.1.drop_first(),
            old(self)@.0.len() == 0 ==> final(self)@.0 == old(self)@.0,
            old(self)@.0.len() == 0 && old(self)@.1.len() == 0 ==> r is None,
            old(self)@.0.len() == 0 && old(self)@.1.len() == 0 ==> final(self)@ == old(self)@,
    {
        if self.control.len() > 0 {
            let ghost before = self.control@;
            let m = self.control.remove(0);
            assert(messages(self.control@) =~= messages(before).drop_first());
            Some(m)
        } else if self.video.len() > 0 {
            let ghost before = self.video@;
            let m = self.video.remove(0);
            assert(messages(self.video@) =~= messages(before).drop_first());
            Some(m)
        } else {
            None
        }
    }
}

/// How many times a browser viewer's host is looked up before the relay
/// gives up, one lookup every 100 ms.
pub const VIEWER_LOOKUP_ATTEMPTS: u32 = 20;

/// The wait between two lookups of a browser viewer's host.
pub const VIEWER_LOOKUP_WAIT_MS: u64 = 100;

} // verus!
