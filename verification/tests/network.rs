use zero_day_chat::network::{
    default_bootstrap_nodes, handle_event, initial_dial_targets, process_packet, NetworkCommand,
    NetworkEvent, NetworkPacket,
};
use zero_day_chat::storage::{AppData, Friend, FriendRequest, Group, IdentityData, Message};

fn logged_in() -> AppData {
    let mut d = AppData::new();
    d.identity = Some(IdentityData {
        display_name: "Me".to_string(),
        user_id: "zd1me".to_string(),
        seed_phrase: "p".to_string(),
        public_key_hex: "00".to_string(),
    });
    d
}

fn request(sender: &str, target: &str) -> NetworkPacket {
    NetworkPacket::FriendRequestPacket {
        request: FriendRequest {
            id: format!("freq-{}", sender),
            sender_id: sender.to_string(),
            sender_name: "S".to_string(),
            target_id: target.to_string(),
        },
    }
}

fn message(id: &str, sender: &str, target: &str) -> NetworkPacket {
    NetworkPacket::ChatMessagePacket {
        message: Message {
            id: id.to_string(),
            sender_id: sender.to_string(),
            sender_name: "S".to_string(),
            target_id: target.to_string(),
            channel_id: None,
            content: "c".to_string(),
            timestamp: 3,
        },
    }
}

#[test]
fn packets_ignored_without_account() {
    let mut d = AppData::new();
    assert!(!process_packet(&mut d, &request("zd1a", "zd1me")));
    assert!(!process_packet(&mut d, &message("m", "zd1a", "zd1me")));
    assert!(!process_packet(&mut d, &NetworkPacket::SyncStatePacket { data: logged_in() }));
    assert!(d.identity.is_none() && d.pending_requests.is_empty() && d.messages.is_empty());
}

#[test]
fn friend_request_packets() {
    let mut d = logged_in();
    assert!(!process_packet(&mut d, &request("zd1a", "zd1other")));
    assert!(!process_packet(&mut d, &request("zd1me", "zd1me")));
    assert!(process_packet(&mut d, &request("zd1a", "zd1me")));
    assert_eq!(d.pending_requests.len(), 1);
    // the same packet again changes nothing
    assert!(!process_packet(&mut d, &request("zd1a", "zd1me")));
    assert_eq!(d.pending_requests.len(), 1);
}

#[test]
fn friend_accept_packets() {
    let mut d = logged_in();
    let p = NetworkPacket::FriendAcceptPacket {
        friend: Friend { user_id: "zd1b".to_string(), display_name: "B".to_string() },
        target_id: "zd1me".to_string(),
    };
    let q = NetworkPacket::FriendAcceptPacket {
        friend: Friend { user_id: "zd1c".to_string(), display_name: "C".to_string() },
        target_id: "zd1x".to_string(),
    };
    assert!(process_packet(&mut d, &p));
    assert!(!process_packet(&mut d, &p));
    assert!(!process_packet(&mut d, &q));
    assert_eq!(d.friends.len(), 1);
    assert_eq!(d.friends[0].display_name, "B");
}

#[test]
fn chat_message_packets() {
    let mut d = logged_in();
    d.groups.push(Group {
        id: "g1".to_string(),
        name: "G".to_string(),
        owner_id: "o".to_string(),
        channels: vec![],
        members: vec![],
    });
    assert!(process_packet(&mut d, &message("m1", "zd1a", "zd1me")));
    assert!(process_packet(&mut d, &message("m2", "zd1me", "zd1a")));
    assert!(process_packet(&mut d, &message("m3", "zd1a", "g1")));
    assert!(!process_packet(&mut d, &message("m4", "zd1a", "zd1b")));
    assert!(!process_packet(&mut d, &message("m1", "zd1a", "zd1me")));
    let ids: Vec<&str> = d.messages.iter().map(|m| m.id.as_str()).collect();
    assert_eq!(ids, vec!["m1", "m2", "m3"]);
}

#[test]
fn sync_state_replaces_everything() {
    let mut d = logged_in();
    let mut other = AppData::new();
    other.bootstrap_nodes.push("n".to_string());
    assert!(process_packet(&mut d, &NetworkPacket::SyncStatePacket { data: other }));
    assert!(d.identity.is_none());
    assert_eq!(d.bootstrap_nodes, vec!["n".to_string()]);
}

#[test]
fn dial_targets() {
    let defaults = default_bootstrap_nodes();
    assert_eq!(defaults.len(), 4);
    assert!(defaults.iter().all(|a| a.starts_with("/dns4/bootstrap.libp2p.io/tcp/4001/p2p/")));
    assert_eq!(
        defaults[0],
        "/dns4/bootstrap.libp2p.io/tcp/4001/p2p/QmNnooDu7bfjPFoTZYxMNLWUQJyrVwtbZg5gBMjTezGAJN"
    );
    let custom = vec!["/ip4/10.0.0.1/tcp/9".to_string()];
    let all = initial_dial_targets(&custom);
    assert_eq!(all.len(), 5);
    assert_eq!(all[4], "/ip4/10.0.0.1/tcp/9");
    assert_eq!(all[..4], defaults[..]);
}

#[test]
fn keep_alive_redials_when_few_peers() {
    let mut d = logged_in();
    let step = handle_event(&mut d, NetworkEvent::KeepAliveTick { mesh_peers: 1 });
    assert_eq!(step.dial, default_bootstrap_nodes());
    assert!(step.publish.is_none() && step.applied.is_none() && !step.stop);
    let step = handle_event(&mut d, NetworkEvent::KeepAliveTick { mesh_peers: 2 });
    assert!(step.dial.is_empty());
}

#[test]
fn commands_are_applied_and_published() {
    let mut d = logged_in();
    let step = handle_event(&mut d, NetworkEvent::Command(Some(NetworkCommand::SendPacket(message("m1", "zd1me", "zd1a")))));
    assert!(matches!(step.publish, Some(NetworkPacket::ChatMessagePacket { .. })));
    assert!(step.applied.is_some());
    assert_eq!(d.messages.len(), 1);
    // sent again (already stored): published, not applied
    let step = handle_event(&mut d, NetworkEvent::Command(Some(NetworkCommand::SendPacket(message("m1", "zd1me", "zd1a")))));
    assert!(step.publish.is_some());
    assert!(step.applied.is_none());
    let step = handle_event(&mut d, NetworkEvent::Command(None));
    assert!(step.stop);
}

#[test]
fn gossip_messages_are_applied_not_published() {
    let mut d = logged_in();
    let step = handle_event(&mut d, NetworkEvent::GossipMessage(Some(request("zd1a", "zd1me"))));
    assert!(step.publish.is_none());
    assert!(step.applied.is_some());
    assert_eq!(d.pending_requests.len(), 1);
    let step = handle_event(&mut d, NetworkEvent::GossipMessage(None));
    assert!(step.applied.is_none() && !step.stop && step.dial.is_empty());
}
