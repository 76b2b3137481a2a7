//! Per-server lookups made while a message is handled.

use vstd::prelude::*;
use crate::gateway::Message;
use crate::state::Channel;
use crate::state::ChannelKind;
use crate::state::State;
use crate::state::spec_find_channel;

verus! {

/// The server behind the channel the lookup finds: its identifier when the
/// first channel carrying the message's channel identifier belongs to a
/// server, and nothing when no such channel is known or it belongs to none.
pub open spec fn spec_prefix_server(s: Seq<Channel>, channel_id: u64) -> Option<u64> {
    match spec_find_channel(s, channel_id) {
        Some(c) => match c.kind {
            ChannelKind::Public { server_id } => Some(server_id),
            ChannelKind::Private => None,
        },
        None => None,
    }
}

/// Resolves the server a message was posted in, by looking the message's
/// channel up in the given connection-state snapshot. The identifier it
/// returns is where a per-server command prefix would be keyed; nothing
/// further is done with it yet.
pub fn get_prefix_for_server(state: &State, message: &Message) -> (r: Option<u64>)
    ensures
        r == spec_prefix_server(state.channels@, message.channel_id),
{
    match state.find_channel(message.channel_id) {
        Some(channel) => match channel.kind {
            ChannelKind::Public { server_id } => Some(server_id),
            ChannelKind::Private => None,
        },
        None => None,
    }
}

} // verus!
