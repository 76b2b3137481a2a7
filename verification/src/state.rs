//! A connection-state snapshot, reduced to what the bot reads from one:
//! the channels it knows of, each with the server it belongs to, if any.

use vstd::prelude::*;

verus! {

/// What a channel is attached to.
#[derive(Clone, Copy)]
pub enum ChannelKind {
    /// A channel that belongs to a server.
    Public { server_id: u64 },
    /// A direct or group channel with no server behind it.
    Private,
}

/// One channel of a connection-state snapshot.
#[derive(Clone, Copy)]
pub struct Channel {
    /// The channel's identifier.
    pub id: u64,
    /// Where the channel is attached.
    pub kind: ChannelKind,
}

/// A snapshot of the connection state.
pub struct State {
    /// The channels the snapshot knows of, in the order it lists them.
    pub channels: Vec<Channel>,
}

/// The channel with the given identifier, as the lookup finds it: the first
/// one in the sequence, or nothing when no channel carries the identifier.
pub open spec fn spec_find_channel(s: Seq<Channel>, channel_id: u64) -> Option<Channel>
    decreases s.len(),
{
    if s.len() == 0 {
        None
    } else if s[0].id == channel_id {
        Some(s[0])
    } else {
        spec_find_channel(s.skip(1), channel_id)
    }
}

impl State {
    /// A freshly constructed snapshot: it knows of no channels yet.
    pub fn new() -> (s: State)
        ensures
            s.channels@ =~= Seq::<Channel>::empty(),
    {
        State { channels: Vec::new() }
    }

    /// Looks the channel with the given identifier up: the first match in
    /// the snapshot, if any channel carries it.
    pub fn find_channel(&self, channel_id: u64) -> (r: Option<Channel>)
        ensures
            r == spec_find_channel(self.channels@, channel_id),
    {
        let ghost s = self.channels@;
        let n = self.channels.len();
        let mut i: usize = 0;
        proof {
            assert(s.skip(0) =~= s);
        }
        while i < n
            invariant
                i <= n,
                n == s.len(),
                s == self.channels@,
                spec_find_channel(s, channel_id) == spec_find_channel(s.skip(i as int), channel_id),
            decreases n - i,
        {
            if self.channels[i].id == channel_id {
                proof {
                    assert(s.skip(i as int)[0] == s[i as int]);
                }
                return Some(self.channels[i]);
            }
            proof {
                assert(s.skip(i as int)[0] == s[i as int]);
                assert(s.skip(i as int).skip(1) =~= s.skip(i as int + 1));
            }
            i = i + 1;
        }
        proof {
            assert(s.skip(n as int).len() == 0);
        }
        None
    }
}

} // verus!
