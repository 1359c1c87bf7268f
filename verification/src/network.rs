//! How the messaging core reacts to what the peer-to-peer transport
//! reports.
//!
//! The transport itself lives outside this crate.  It hands each event over
//! as plain values, and [`react`] answers with the list of things to do:
//! notices for the front end, and peers to add to or remove from the mesh.

use crate::chat::ChatMeassage;
use vstd::prelude::*;
use vstd::string::StringExecFns;

verus! {

/// An event of the transport, with peers, message ids and addresses in
/// their printed form.
pub enum PeerEvent {
    /// Local discovery found these peers.
    Discovered(Vec<String>),
    /// Local discovery lost these peers.
    Expired(Vec<String>),
    /// A message arrived.
    Message {
        /// The text of the message.
        text: String,
        /// The id of the message.
        id: String,
        /// The peer that forwarded the message.
        from: String,
    },
    /// The node started listening on this address.
    Listening(String),
    /// Any other event.
    Other,
}

/// What a [`PeerEvent`] is, mathematically.
pub enum PeerEventView {
    /// Local discovery found these peers.
    Discovered(Seq<Seq<char>>),
    /// Local discovery lost these peers.
    Expired(Seq<Seq<char>>),
    /// A message arrived: its text, its id and the forwarding peer.
    Message(Seq<char>, Seq<char>, Seq<char>),
    /// The node started listening on this address.
    Listening(Seq<char>),
    /// Any other event.
    Other,
}

impl DeepView for PeerEvent {
    type V = PeerEventView;

    open spec fn deep_view(&self) -> PeerEventView {
        match self {
            PeerEvent::Discovered(peers) => PeerEventView::Discovered(peers.deep_view()),
            PeerEvent::Expired(peers) => PeerEventView::Expired(peers.deep_view()),
            PeerEvent::Message { text, id, from } => PeerEventView::Message(text@, id@, from@),
            PeerEvent::Listening(address) => PeerEventView::Listening(address@),
            PeerEvent::Other => PeerEventView::Other,
        }
    }
}

/// One thing to do in reaction to an event.
pub enum Reaction {
    /// Pass this notice to the front end.
    Notify(ChatMeassage),
    /// Add the peer at this position of the event's list to the mesh.
    AddPeer(usize),
    /// Remove the peer at this position of the event's list from the mesh.
    RemovePeer(usize),
}

/// What a [`Reaction`] is, mathematically.
pub enum ReactionView {
    /// A notice with this text.
    Notify(Seq<char>),
    /// Add the peer at this position.
    AddPeer(int),
    /// Remove the peer at this position.
    RemovePeer(int),
}

impl DeepView for Reaction {
    type V = ReactionView;

    open spec fn deep_view(&self) -> ReactionView {
        match self {
            Reaction::Notify(message) => ReactionView::Notify(message.data@),
            Reaction::AddPeer(position) => ReactionView::AddPeer(*position as int),
            Reaction::RemovePeer(position) => ReactionView::RemovePeer(*position as int),
        }
    }
}

/// The notice for a discovered peer.
pub open spec fn discovered_text(peer: Seq<char>) -> Seq<char> {
    "mDNS discovered a new peer: "@ + peer
}

/// The notice for a peer that discovery lost.
pub open spec fn expired_text(peer: Seq<char>) -> Seq<char> {
    "mDNS discover peer has expired: "@ + peer
}

/// The notice for a message that arrived.
pub open spec fn message_text(text: Seq<char>, id: Seq<char>, from: Seq<char>) -> Seq<char> {
    "Got message: '"@ + text + "' with id: "@ + id + " from peer: "@ + from
}

/// The notice for a new listening address.
pub open spec fn listening_text(address: Seq<char>) -> Seq<char> {
    "Local node is listening on "@ + address
}

/// The reactions to a change in the peers that local discovery knows,
/// where `found` says whether the peers were discovered or lost: for each
/// peer in turn, a notice and then the request to add or to remove it.
pub open spec fn peer_reactions(peers: Seq<Seq<char>>, found: bool) -> Seq<ReactionView> {
    Seq::new(
        2 * peers.len(),
        |k: int|
            if k % 2 == 0 {
                if found {
                    ReactionView::Notify(discovered_text(peers[k / 2]))
                } else {
                    ReactionView::Notify(expired_text(peers[k / 2]))
                }
            } else {
                if found {
                    ReactionView::AddPeer(k / 2)
                } else {
                    ReactionView::RemovePeer(k / 2)
                }
            },
    )
}

/// The reactions to an event, in the order in which they are to be carried
/// out.
pub open spec fn reactions(event: PeerEventView) -> Seq<ReactionView> {
    match event {
        PeerEventView::Discovered(peers) => peer_reactions(peers, true),
        PeerEventView::Expired(peers) => peer_reactions(peers, false),
        PeerEventView::Message(text, id, from) => seq![
            ReactionView::Notify(message_text(text, id, from)),
        ],
        PeerEventView::Listening(address) => seq![ReactionView::Notify(listening_text(address))],
        PeerEventView::Other => Seq::<ReactionView>::empty(),
    }
}

/// Builds the reactions to a change in the peers that local discovery
/// knows.
fn react_to_peers(peers: &Vec<String>, found: bool) -> (steps: Vec<Reaction>)
    ensures
        steps.deep_view() == peer_reactions(peers.deep_view(), found),
{
    let ghost all = peers.deep_view();
    let mut steps: Vec<Reaction> = Vec::new();
    let mut i: usize = 0;
    while i < peers.len()
        invariant
            i <= peers.len(),
            all == peers.deep_view(),
            steps.deep_view() == peer_reactions(all.subrange(0, i as int), found),
        decreases peers.len() - i,
    {
        let ghost before = steps.deep_view();
        let peer = peers[i].as_str();
        if found {
            let text = String::from_str("mDNS discovered a new peer: ").concat(peer);
            steps.push(Reaction::Notify(ChatMeassage::new_message(text)));
            steps.push(Reaction::AddPeer(i));
        } else {
            let text = String::from_str("mDNS discover peer has expired: ").concat(peer);
            steps.push(Reaction::Notify(ChatMeassage::new_message(text)));
            steps.push(Reaction::RemovePeer(i));
        }
        proof {
            let after = steps.deep_view();
            let target = peer_reactions(all.subrange(0, i + 1), found);
            assert(after.len() == before.len() + 2);
            assert forall|k: int| 0 <= k < after.len() implies after[k] == target[k] by {
                if k < 2 * i {
                    assert(after[k] == before[k]);
                }
            }
        }
        i += 1;
    }
    steps
}

/// Decides what to do about an event of the transport.
pub fn react(event: &PeerEvent) -> (steps: Vec<Reaction>)
    ensures
        steps.deep_view() == reactions(event.deep_view()),
{
    match event {
        PeerEvent::Discovered(peers) => react_to_peers(peers, true),
        PeerEvent::Expired(peers) => react_to_peers(peers, false),
        PeerEvent::Message { text, id, from } => {
            let notice = String::from_str("Got message: '").concat(text.as_str()).concat(
                "' with id: ",
            ).concat(id.as_str()).concat(" from peer: ").concat(from.as_str());
            let mut steps: Vec<Reaction> = Vec::new();
            steps.push(Reaction::Notify(ChatMeassage::new_message(notice)));
            steps
        },
        PeerEvent::Listening(address) => {
            let notice = String::from_str("Local node is listening on ").concat(address.as_str());
            let mut steps: Vec<Reaction> = Vec::new();
            steps.push(Reaction::Notify(ChatMeassage::new_message(notice)));
            steps
        },
        PeerEvent::Other => Vec::new(),
    }
}

} // verus!
