//! What travels over the mesh, and the rules by which a packet changes the
//! local state. The transport itself (libp2p gossipsub and mDNS, run by an
//! async task) lives outside this crate; the decisions of that task are the
//! functions `initial_dial_targets`, `handle_event` and `process_packet`.

use vstd::prelude::*;
use crate::storage::{strings_view, AppData, AppDataV, Friend, FriendV, FriendRequest, FriendRequestV, Group, Message, MessageV, has_friend, has_request_from, has_group, has_message, contains_friend, contains_request_from, contains_message, find_group};

verus! {

/// A packet published on the global topic.
#[derive(Debug)]
pub enum NetworkPacket {
    FriendRequestPacket { request: FriendRequest },
    FriendAcceptPacket { friend: Friend, target_id: String },
    ChatMessagePacket { message: Message },
    SyncStatePacket { data: AppData },
}

/// A command from the user interface to the network task.
#[derive(Debug)]
pub enum NetworkCommand {
    SendPacket(NetworkPacket),
}

/// The view of a `NetworkPacket`.
pub enum NetworkPacketV {
    FriendRequestPacket { request: FriendRequestV },
    FriendAcceptPacket { friend: FriendV, target_id: Seq<char> },
    ChatMessagePacket { message: MessageV },
    SyncStatePacket { data: AppDataV },
}

impl View for NetworkPacket {
    type V = NetworkPacketV;

    open spec fn view(&self) -> NetworkPacketV {
        match self {
            NetworkPacket::FriendRequestPacket { request } => NetworkPacketV::FriendRequestPacket {
                request: request@,
            },
            NetworkPacket::FriendAcceptPacket { friend, target_id } => NetworkPacketV::FriendAcceptPacket {
                friend: friend@,
                target_id: target_id@,
            },
            NetworkPacket::ChatMessagePacket { message } => NetworkPacketV::ChatMessagePacket {
                message: message@,
            },
            NetworkPacket::SyncStatePacket { data } => NetworkPacketV::SyncStatePacket { data: data@ },
        }
    }
}

impl View for NetworkCommand {
    type V = NetworkPacketV;

    open spec fn view(&self) -> NetworkPacketV {
        match self {
            NetworkCommand::SendPacket(p) => p@,
        }
    }
}

impl Clone for NetworkPacket {
    fn clone(&self) -> (res: Self)
        ensures
            res@ == self@,
    {
        match self {
            NetworkPacket::FriendRequestPacket { request } => NetworkPacket::FriendRequestPacket {
                request: request.clone(),
            },
            NetworkPacket::FriendAcceptPacket { friend, target_id } => NetworkPacket::FriendAcceptPacket {
                friend: friend.clone(),
                target_id: target_id.clone(),
            },
            NetworkPacket::ChatMessagePacket { message } => NetworkPacket::ChatMessagePacket {
                message: message.clone(),
            },
            NetworkPacket::SyncStatePacket { data } => NetworkPacket::SyncStatePacket {
                data: data.clone(),
            },
        }
    }
}

/// The state after `packet` arrives at a client in state `d`, and whether
/// the state changed (then it is saved and the interface told).
///
/// Without an account nothing happens. A friend request addressed to the
/// user by someone else is kept unless one from that sender is pending. An
/// acceptance addressed to the user adds the new friend unless already a
/// friend. A message to or from the user, or to one of the user's groups, is
/// kept unless one with its ID is already kept. A full state replaces the
/// state.
pub open spec fn process_packet_spec(d: AppDataV, packet: NetworkPacketV) -> (AppDataV, bool) {
    match d.identity {
        None => (d, false),
        Some(me) => {
            let my_id = me.user_id;
            match packet {
                NetworkPacketV::FriendRequestPacket { request } => {
                    if request.target_id == my_id && request.sender_id != my_id
                        && !has_request_from(d.pending_requests, request.sender_id) {
                        (AppDataV { pending_requests: d.pending_requests.push(request), ..d }, true)
                    } else {
                        (d, false)
                    }
                },
                NetworkPacketV::FriendAcceptPacket { friend, target_id } => {
                    if target_id == my_id && !has_friend(d.friends, friend.user_id) {
                        (AppDataV { friends: d.friends.push(friend), ..d }, true)
                    } else {
                        (d, false)
                    }
                },
                NetworkPacketV::ChatMessagePacket { message } => {
                    if (message.target_id == my_id || message.sender_id == my_id || has_group(
                        d.groups,
                        message.target_id,
                    )) && !has_message(d.messages, message.id) {
                        (AppDataV { messages: d.messages.push(message), ..d }, true)
                    } else {
                        (d, false)
                    }
                },
                NetworkPacketV::SyncStatePacket { data } => (data, true),
            }
        },
    }
}

/// Applies a packet from the mesh (or one the user sends) to the local
/// state. Returns whether the state changed.
pub fn process_packet(data: &mut AppData, packet: &NetworkPacket) -> (updated: bool)
    ensures
        (final(data)@, updated) == process_packet_spec(old(data)@, packet@),
{
    let my_id = match &data.identity {
        Some(i) => i.user_id.clone(),
        None => {
            return false;
        },
    };
    match packet {
        NetworkPacket::FriendRequestPacket { request } => {
            if request.target_id == my_id && request.sender_id != my_id {
                let exists = contains_request_from(&data.pending_requests, &request.sender_id);
                if !exists {
                    let ghost before = data.pending_requests@;
                    data.pending_requests.push(request.clone());
                    assert(data.pending_requests@.map_values(|r: FriendRequest| r@) =~= before.map_values(
                        |r: FriendRequest| r@,
                    ).push(request@));
                    return true;
                }
            }
            false
        },
        NetworkPacket::FriendAcceptPacket { friend, target_id } => {
            if *target_id == my_id {
                if !contains_friend(&data.friends, &friend.user_id) {
                    let ghost before = data.friends@;
                    data.friends.push(friend.clone());
                    assert(data.friends@.map_values(|f: Friend| f@) =~= before.map_values(
                        |f: Friend| f@,
                    ).push(friend@));
                    return true;
                }
            }
            false
        },
        NetworkPacket::ChatMessagePacket { message } => {
            let found = find_group(&data.groups, &message.target_id);
            let is_in_group = found.is_some();
            proof {
                let v = data.groups@.map_values(|g: Group| g@);
                if let Some(i) = found {
                    assert(v[i as int].id == message.target_id@);
                }
                assert(is_in_group == has_group(v, message.target_id@));
            }
            if message.target_id == my_id || message.sender_id == my_id || is_in_group {
                if !contains_message(&data.messages, &message.id) {
                    let ghost before = data.messages@;
                    data.messages.push(message.clone());
                    assert(data.messages@.map_values(|m: Message| m@) =~= before.map_values(
                        |m: Message| m@,
                    ).push(message@));
                    return true;
                }
            }
            false
        },
        NetworkPacket::SyncStatePacket { data: new_data } => {
            *data = new_data.clone();
            true
        },
    }
}

// ---------------------------------------------------------------------------
// The network task's decisions
// ---------------------------------------------------------------------------

/// The public libp2p bootstrap nodes dialled to reach peers beyond the local
/// network.
pub open spec fn default_bootstrap_nodes_spec() -> Seq<Seq<char>> {
    seq![
        "/dns4/bootstrap.libp2p.io/tcp/4001/p2p/QmNnooDu7bfjPFoTZYxMNLWUQJyrVwtbZg5gBMjTezGAJN"@,
        "/dns4/bootstrap.libp2p.io/tcp/4001/p2p/QmQCU2EcMqAqQPR2i9bChDtGNJchTbq5TbXJJ16u19uLTa"@,
        "/dns4/bootstrap.libp2p.io/tcp/4001/p2p/QmbLHAnMoJPWSCR5Zhtx6BHJX9KiKNN6tpvbUcqanj75Nb"@,
        "/dns4/bootstrap.libp2p.io/tcp/4001/p2p/QmcZf1Y3323GEvhbdUZee3VxnEEdSiRShsJeNoUXk85wbC"@,
    ]
}

/// The public bootstrap nodes.
pub fn default_bootstrap_nodes() -> (res: Vec<String>)
    ensures
        strings_view(res@) == default_bootstrap_nodes_spec(),
{
    let mut v: Vec<String> = Vec::new();
    v.push("/dns4/bootstrap.libp2p.io/tcp/4001/p2p/QmNnooDu7bfjPFoTZYxMNLWUQJyrVwtbZg5gBMjTezGAJN".to_owned());
    v.push("/dns4/bootstrap.libp2p.io/tcp/4001/p2p/QmQCU2EcMqAqQPR2i9bChDtGNJchTbq5TbXJJ16u19uLTa".to_owned());
    v.push("/dns4/bootstrap.libp2p.io/tcp/4001/p2p/QmbLHAnMoJPWSCR5Zhtx6BHJX9KiKNN6tpvbUcqanj75Nb".to_owned());
    v.push("/dns4/bootstrap.libp2p.io/tcp/4001/p2p/QmcZf1Y3323GEvhbdUZee3VxnEEdSiRShsJeNoUXk85wbC".to_owned());
    assert(strings_view(v@) =~= default_bootstrap_nodes_spec());
    v
}

/// The addresses dialled when the network task starts: the public bootstrap
/// nodes, then the user's own, in order.
pub fn initial_dial_targets(custom_nodes: &Vec<String>) -> (res: Vec<String>)
    ensures
        strings_view(res@) == default_bootstrap_nodes_spec() + strings_view(custom_nodes@),
{
    let mut v = default_bootstrap_nodes();
    let ghost base = strings_view(v@);
    let mut i: usize = 0;
    while i < custom_nodes.len()
        invariant
            i <= custom_nodes@.len(),
            base == default_bootstrap_nodes_spec(),
            strings_view(v@) == base + strings_view(custom_nodes@).take(i as int),
        decreases custom_nodes@.len() - i,
    {
        let ghost prev = v@;
        v.push(custom_nodes[i].clone());
        assert(strings_view(custom_nodes@).take(i + 1) =~= strings_view(custom_nodes@).take(i as int).push(
            custom_nodes@[i as int]@,
        ));
        assert(strings_view(v@) =~= strings_view(prev).push(custom_nodes@[i as int]@));
        i = i + 1;
    }
    assert(strings_view(custom_nodes@).take(custom_nodes@.len() as int) =~= strings_view(custom_nodes@));
    v
}

/// What the network task is woken by.
#[derive(Debug)]
pub enum NetworkEvent {
    /// The keep-alive timer fired; `mesh_peers` peers are known to gossipsub.
    KeepAliveTick { mesh_peers: usize },
    /// A command arrived from the interface, or `None` when the interface is
    /// gone.
    Command(Option<NetworkCommand>),
    /// A gossipsub message arrived; `None` when its bytes are not a packet.
    GossipMessage(Option<NetworkPacket>),
}

/// What the network task does in answer to an event.
#[derive(Debug)]
pub struct NetworkStep {
    /// Addresses to dial.
    pub dial: Vec<String>,
    /// A packet to publish on the topic.
    pub publish: Option<NetworkPacket>,
    /// A packet that changed the state: the state is then saved and the
    /// interface is told of the packet and of the new state.
    pub applied: Option<NetworkPacket>,
    /// The task ends.
    pub stop: bool,
}

/// Below this many gossipsub peers the keep-alive timer dials the public
/// bootstrap nodes again.
pub const MIN_MESH_PEERS: usize = 2;

/// Decides what the network task does on `event`, and applies any packet to
/// the state.
///
/// On a keep-alive tick with fewer than two peers the public bootstrap nodes
/// are dialled. A packet the user sends is applied to the local state and
/// published. A packet from the mesh is applied. When the interface is gone
/// the task stops. Anything else does nothing.
pub fn handle_event(data: &mut AppData, event: NetworkEvent) -> (step: NetworkStep)
    ensures
        match event {
            NetworkEvent::KeepAliveTick { mesh_peers } => {
                &&& final(data)@ == old(data)@
                &&& strings_view(step.dial@) == (if mesh_peers < 2 {
                    default_bootstrap_nodes_spec()
                } else {
                    Seq::empty()
                })
                &&& step.publish is None && step.applied is None && !step.stop
            },
            NetworkEvent::Command(None) => {
                &&& final(data)@ == old(data)@
                &&& step.dial@.len() == 0 && step.publish is None && step.applied is None && step.stop
            },
            NetworkEvent::Command(Some(cmd)) => {
                let (d, changed) = process_packet_spec(old(data)@, cmd@);
                &&& final(data)@ == d
                &&& step.dial@.len() == 0 && !step.stop
                &&& step.publish matches Some(p) && p@ == cmd@
                &&& if changed { step.applied matches Some(p) && p@ == cmd@ } else { step.applied is None }
            },
            NetworkEvent::GossipMessage(None) => {
                &&& final(data)@ == old(data)@
                &&& step.dial@.len() == 0 && step.publish is None && step.applied is None && !step.stop
            },
            NetworkEvent::GossipMessage(Some(packet)) => {
                let (d, changed) = process_packet_spec(old(data)@, packet@);
                &&& final(data)@ == d
                &&& step.dial@.len() == 0 && step.publish is None && !step.stop
                &&& if changed { step.applied matches Some(p) && p@ == packet@ } else { step.applied is None }
            },
        },
{
    match event {
        NetworkEvent::KeepAliveTick { mesh_peers } => {
            let dial = if mesh_peers < MIN_MESH_PEERS {
                default_bootstrap_nodes()
            } else {
                let v: Vec<String> = Vec::new();
                assert(strings_view(v@) =~= Seq::<Seq<char>>::empty());
                v
            };
            NetworkStep { dial, publish: None, applied: None, stop: false }
        },
        NetworkEvent::Command(None) => NetworkStep {
            dial: Vec::new(),
            publish: None,
            applied: None,
            stop: true,
        },
        NetworkEvent::Command(Some(NetworkCommand::SendPacket(packet))) => {
            let changed = process_packet(data, &packet);
            let applied = if changed {
                Some(packet.clone())
            } else {
                None
            };
            NetworkStep { dial: Vec::new(), publish: Some(packet), applied, stop: false }
        },
        NetworkEvent::GossipMessage(None) => NetworkStep {
            dial: Vec::new(),
            publish: None,
            applied: None,
            stop: false,
        },
        NetworkEvent::GossipMessage(Some(packet)) => {
            let changed = process_packet(data, &packet);
            let applied = if changed {
                Some(packet)
            } else {
                None
            };
            NetworkStep { dial: Vec::new(), publish: None, applied, stop: false }
        },
    }
}

} // verus!
