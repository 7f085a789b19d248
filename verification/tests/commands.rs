use zero_day_chat::commands::{
    accept_friend_request, add_bootstrap_node, add_friend, add_friend_would_cut_char,
    create_account, create_channel, create_channel_with_id, create_group, create_group_with_ids,
    delete_group, friend_request_with_id, join_group, join_group_with_id, leave_group, logout,
    recover_account, send_friend_request, send_message, send_message_with_id,
};
use zero_day_chat::network::{NetworkCommand, NetworkPacket};
use zero_day_chat::storage::{AppData, Channel, Friend, FriendRequest, Group, IdentityData};

fn me() -> IdentityData {
    IdentityData {
        display_name: "Me".to_string(),
        user_id: "zd1me".to_string(),
        seed_phrase: "phrase".to_string(),
        public_key_hex: "00".to_string(),
    }
}

fn logged_in() -> AppData {
    let mut d = AppData::new();
    d.identity = Some(me());
    d
}

fn group(id: &str, owner: &str) -> Group {
    Group {
        id: id.to_string(),
        name: "g".to_string(),
        owner_id: owner.to_string(),
        channels: vec![],
        members: vec![owner.to_string()],
    }
}

fn is_hex_id(s: &str, prefix: &str, bytes: usize) -> bool {
    s.starts_with(prefix)
        && s.len() == prefix.len() + 2 * bytes
        && s[prefix.len()..].chars().all(|c| c.is_ascii_digit() || ('a'..='f').contains(&c))
}

#[test]
fn fresh_state_is_empty() {
    let d = AppData::new();
    assert!(d.identity.is_none());
    assert!(d.friends.is_empty() && d.pending_requests.is_empty() && d.groups.is_empty());
    assert!(d.messages.is_empty() && d.bootstrap_nodes.is_empty());
    let d2 = AppData::from_loaded(None);
    assert!(d2.identity.is_none() && d2.friends.is_empty());
    let mut saved = AppData::new();
    saved.bootstrap_nodes.push("x".to_string());
    let d3 = AppData::from_loaded(Some(saved));
    assert_eq!(d3.bootstrap_nodes, vec!["x".to_string()]);
}

#[test]
fn create_account_sets_identity() {
    let mut d = AppData::new();
    d.bootstrap_nodes.push("n".to_string());
    create_account(&mut d, "  Zed ".to_string()).unwrap();
    let id = d.identity.clone().unwrap();
    assert_eq!(id.display_name, "Zed");
    assert!(id.user_id.starts_with("zd1"));
    assert_eq!(id.seed_phrase.split(' ').count(), 24);
    assert_eq!(d.bootstrap_nodes, vec!["n".to_string()]);
}

#[test]
fn logout_then_recover_restores_account() {
    let mut d = AppData::new();
    create_account(&mut d, "Zoe".to_string()).unwrap();
    let before = d.identity.clone().unwrap();
    logout(&mut d);
    assert!(d.identity.is_none());
    recover_account(&mut d, before.display_name.clone(), before.user_id.clone(), before.seed_phrase.clone())
        .unwrap();
    let after = d.identity.clone().unwrap();
    assert_eq!(after.user_id, before.user_id);
    assert_eq!(after.seed_phrase, before.seed_phrase);
    assert_eq!(after.public_key_hex, before.public_key_hex);
    assert_eq!(after.display_name, before.display_name);
}

#[test]
fn recover_failure_leaves_state() {
    let mut d = logged_in();
    let err = recover_account(&mut d, "x".to_string(), String::new(), "bad".to_string()).unwrap_err();
    assert_eq!(err, "Invalid BIP-39 seed phrase. Please check your 24 words.");
    assert_eq!(d.identity.unwrap().user_id, "zd1me");
}

#[test]
fn add_friend_rules() {
    let mut d = AppData::new();
    assert_eq!(add_friend(&mut d, "   ".to_string(), None).unwrap_err(), "Friend User ID cannot be empty.");
    add_friend(&mut d, " zd1abcdefghij ".to_string(), None).unwrap();
    assert_eq!(d.friends[0].user_id, "zd1abcdefghij");
    assert_eq!(d.friends[0].display_name, "Peer-zd1abcde");
    assert_eq!(
        add_friend(&mut d, "zd1abcdefghij".to_string(), Some("X".to_string())).unwrap_err(),
        "Friend is already in your contacts."
    );
    add_friend(&mut d, "short".to_string(), Some("  ".to_string())).unwrap();
    assert_eq!(d.friends[1].display_name, "Peer-short");
    add_friend(&mut d, "zd1other".to_string(), Some("  Bea ".to_string())).unwrap();
    assert_eq!(d.friends[2].display_name, "Bea");
    assert_eq!(d.friends.len(), 3);
}

#[test]
fn add_friend_multibyte_id() {
    let mut d = AppData::new();
    // "é" takes two bytes: the first eight bytes end on a character boundary.
    add_friend(&mut d, "éééé-more".to_string(), None).unwrap();
    assert_eq!(d.friends[0].display_name, "Peer-éééé");
    // here the eighth byte falls inside "é"
    assert!(add_friend_would_cut_char(&d, "abcdefgé", &None));
    assert!(!add_friend_would_cut_char(&d, "abcdefgé", &Some("Named".to_string())));
    assert!(!add_friend_would_cut_char(&d, "abcdefgh", &None));
}

#[test]
fn send_friend_request_rules() {
    let d = AppData::new();
    assert_eq!(send_friend_request(&d, "x".to_string()).unwrap_err(), "No active session.");
    let d = logged_in();
    assert_eq!(send_friend_request(&d, "  ".to_string()).unwrap_err(), "Target User ID cannot be empty.");
    assert_eq!(send_friend_request(&d, " zd1me ".to_string()).unwrap_err(), "You cannot add yourself.");
    let NetworkCommand::SendPacket(p) = send_friend_request(&d, " zd1you ".to_string()).unwrap();
    match p {
        NetworkPacket::FriendRequestPacket { request } => {
            assert!(is_hex_id(&request.id, "freq-", 6));
            assert_eq!(request.sender_id, "zd1me");
            assert_eq!(request.sender_name, "Me");
            assert_eq!(request.target_id, "zd1you");
        },
        _ => panic!("wrong packet"),
    }
    let NetworkCommand::SendPacket(p) = friend_request_with_id(&d, "zd1you", &[0xde, 0xad, 0, 1, 0xff, 0x10]).unwrap();
    match p {
        NetworkPacket::FriendRequestPacket { request } => assert_eq!(request.id, "freq-dead0001ff10"),
        _ => panic!("wrong packet"),
    }
}

#[test]
fn accept_friend_request_flow() {
    let mut d = AppData::new();
    assert_eq!(accept_friend_request(&mut d, "r1".to_string()).unwrap_err(), "No active session.");
    let mut d = logged_in();
    d.pending_requests.push(FriendRequest {
        id: "r1".to_string(),
        sender_id: "zd1bob".to_string(),
        sender_name: "Bob".to_string(),
        target_id: "zd1me".to_string(),
    });
    assert_eq!(accept_friend_request(&mut d, "r9".to_string()).unwrap_err(), "Friend request not found.");
    let NetworkCommand::SendPacket(p) = accept_friend_request(&mut d, "r1".to_string()).unwrap();
    assert!(d.pending_requests.is_empty());
    assert_eq!(d.friends.len(), 1);
    assert_eq!(d.friends[0].user_id, "zd1bob");
    assert_eq!(d.friends[0].display_name, "Bob");
    match p {
        NetworkPacket::FriendAcceptPacket { friend, target_id } => {
            assert_eq!(friend.user_id, "zd1me");
            assert_eq!(friend.display_name, "Me");
            assert_eq!(target_id, "zd1bob");
        },
        _ => panic!("wrong packet"),
    }
}

#[test]
fn accept_existing_friend_not_duplicated() {
    let mut d = logged_in();
    d.friends.push(Friend { user_id: "zd1bob".to_string(), display_name: "Old".to_string() });
    d.pending_requests.push(FriendRequest {
        id: "r1".to_string(),
        sender_id: "zd1bob".to_string(),
        sender_name: "Bob".to_string(),
        target_id: "zd1me".to_string(),
    });
    accept_friend_request(&mut d, "r1".to_string()).unwrap();
    assert_eq!(d.friends.len(), 1);
    assert_eq!(d.friends[0].display_name, "Old");
}

#[test]
fn create_group_shape() {
    let mut d = AppData::new();
    assert_eq!(create_group(&mut d, "G".to_string()).unwrap_err(), "No active session.");
    let mut d = logged_in();
    create_group(&mut d, "Team".to_string()).unwrap();
    let g = &d.groups[0];
    assert!(is_hex_id(&g.id, "zd-grp-", 6));
    assert_eq!(g.name, "Team");
    assert_eq!(g.owner_id, "zd1me");
    assert_eq!(g.members, vec!["zd1me".to_string()]);
    assert_eq!(g.channels.len(), 1);
    assert!(is_hex_id(&g.channels[0].id, "ch-", 4));
    assert_eq!(g.channels[0].name, "general");
    assert_eq!(g.channels[0].category, "TEXT CHANNELS");
    create_group_with_ids(&mut d, "T2".to_string(), &[1, 2, 3, 4, 5, 6], &[0xa, 0xb, 0xc, 0xd]).unwrap();
    assert_eq!(d.groups[1].id, "zd-grp-010203040506");
    assert_eq!(d.groups[1].channels[0].id, "ch-0a0b0c0d");
}

#[test]
fn join_and_leave_group() {
    let mut d = AppData::new();
    assert_eq!(join_group(&mut d, "g1".to_string()).unwrap_err(), "No active session.");
    let mut d = logged_in();
    assert_eq!(join_group(&mut d, "  ".to_string()).unwrap_err(), "Group ID link cannot be empty.");
    join_group(&mut d, " g1 ".to_string()).unwrap();
    assert_eq!(d.groups[0].id, "g1");
    assert_eq!(d.groups[0].name, "Joined Mesh Group");
    assert_eq!(d.groups[0].owner_id, "remote_owner");
    assert_eq!(d.groups[0].members, vec!["zd1me".to_string()]);
    assert_eq!(d.groups[0].channels[0].name, "general");
    assert_eq!(
        join_group(&mut d, "g1".to_string()).unwrap_err(),
        "You are already a member of this group."
    );
    join_group_with_id(&mut d, "g2".to_string(), &[0, 0, 0, 1]).unwrap();
    assert_eq!(d.groups[1].channels[0].id, "ch-00000001");
    leave_group(&mut d, "g1".to_string());
    assert_eq!(d.groups.len(), 1);
    assert_eq!(d.groups[0].id, "g2");
    leave_group(&mut d, "nope".to_string());
    assert_eq!(d.groups.len(), 1);
}

#[test]
fn join_then_leave_gives_back_groups() {
    let mut d = logged_in();
    d.groups.push(group("a", "zd1me"));
    join_group(&mut d, " b ".to_string()).unwrap();
    leave_group(&mut d, "b".to_string());
    assert_eq!(d.groups.len(), 1);
    assert_eq!(d.groups[0].id, "a");
}

#[test]
fn delete_group_rules() {
    let mut d = AppData::new();
    assert_eq!(delete_group(&mut d, "a".to_string()).unwrap_err(), "No active session.");
    let mut d = logged_in();
    d.groups.push(group("a", "zd1other"));
    d.groups.push(group("b", "zd1me"));
    d.groups.push(group("b", "zd1other"));
    assert_eq!(
        delete_group(&mut d, "a".to_string()).unwrap_err(),
        "Permission denied: Only the group owner can delete this group."
    );
    assert_eq!(d.groups.len(), 3);
    delete_group(&mut d, "b".to_string()).unwrap();
    assert_eq!(d.groups.len(), 1);
    assert_eq!(d.groups[0].id, "a");
    delete_group(&mut d, "missing".to_string()).unwrap();
    assert_eq!(d.groups.len(), 1);
}

#[test]
fn create_channel_rules() {
    let mut d = AppData::new();
    assert_eq!(
        create_channel(&mut d, "a".to_string(), "c".to_string(), String::new()).unwrap_err(),
        "No active session."
    );
    let mut d = logged_in();
    d.groups.push(group("other", "zd1other"));
    d.groups.push(group("mine", "zd1me"));
    assert_eq!(
        create_channel(&mut d, "none".to_string(), "c".to_string(), String::new()).unwrap_err(),
        "Group not found."
    );
    assert_eq!(
        create_channel(&mut d, "other".to_string(), "c".to_string(), String::new()).unwrap_err(),
        "Only the group owner can create channels."
    );
    create_channel(&mut d, "mine".to_string(), "voice".to_string(), "  ".to_string()).unwrap();
    let c: &Channel = &d.groups[1].channels[0];
    assert!(is_hex_id(&c.id, "ch-", 4));
    assert_eq!(c.name, "voice");
    assert_eq!(c.category, "TEXT CHANNELS");
    create_channel_with_id(&mut d, "mine".to_string(), "x".to_string(), " Voice ".to_string(), &[1, 2, 3, 4])
        .unwrap();
    assert_eq!(d.groups[1].channels[1].id, "ch-01020304");
    assert_eq!(d.groups[1].channels[1].category, " Voice ");
    assert!(d.groups[0].channels.is_empty());
}

#[test]
fn send_message_stores_and_returns_packet() {
    let mut d = AppData::new();
    assert_eq!(
        send_message(&mut d, "t".to_string(), None, "hi".to_string(), 5).unwrap_err(),
        "No active session."
    );
    let mut d = logged_in();
    let NetworkCommand::SendPacket(p) =
        send_message(&mut d, "zd1you".to_string(), Some("ch-1".to_string()), "hi".to_string(), 1700000000)
            .unwrap();
    assert_eq!(d.messages.len(), 1);
    let m = &d.messages[0];
    assert!(is_hex_id(&m.id, "msg-", 6));
    assert_eq!(m.sender_id, "zd1me");
    assert_eq!(m.sender_name, "Me");
    assert_eq!(m.target_id, "zd1you");
    assert_eq!(m.channel_id, Some("ch-1".to_string()));
    assert_eq!(m.content, "hi");
    assert_eq!(m.timestamp, 1700000000);
    match p {
        NetworkPacket::ChatMessagePacket { message } => assert_eq!(message.id, m.id),
        _ => panic!("wrong packet"),
    }
    send_message_with_id(&mut d, "t".to_string(), None, "x".to_string(), 1, &[9, 9, 9, 9, 9, 9]).unwrap();
    assert_eq!(d.messages[1].id, "msg-090909090909");
}

#[test]
fn bootstrap_nodes_rules() {
    let mut d = AppData::new();
    assert_eq!(
        add_bootstrap_node(&mut d, "  ".to_string()).unwrap_err(),
        "Bootstrap Multiaddress cannot be empty."
    );
    assert_eq!(add_bootstrap_node(&mut d, " /ip4/1.2.3.4/tcp/1 ".to_string()), Ok(true));
    assert_eq!(add_bootstrap_node(&mut d, "/ip4/1.2.3.4/tcp/1".to_string()), Ok(false));
    assert_eq!(d.bootstrap_nodes, vec!["/ip4/1.2.3.4/tcp/1".to_string()]);
}
