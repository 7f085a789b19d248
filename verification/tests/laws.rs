use zero_day_chat::commands::{join_group, leave_group, send_friend_request, send_message};
use zero_day_chat::identity::restore_identity;
use zero_day_chat::network::{process_packet, NetworkCommand};
use zero_day_chat::storage::{AppData, Group, IdentityData};

const PHRASE: &str = "abandon abandon abandon abandon abandon abandon abandon abandon abandon abandon abandon about";

fn logged_in() -> AppData {
    let mut d = AppData::new();
    d.identity = Some(IdentityData {
        display_name: "Me".to_string(),
        user_id: "zd1me".to_string(),
        seed_phrase: "p".to_string(),
        public_key_hex: "00".to_string(),
    });
    d
}

#[test]
fn own_friend_request_is_not_taken_in() {
    let mut d = logged_in();
    let NetworkCommand::SendPacket(p) = send_friend_request(&d, "zd1you".to_string()).unwrap();
    assert!(!process_packet(&mut d, &p));
    assert!(d.pending_requests.is_empty());
}

#[test]
fn sent_message_is_stored_once() {
    let mut d = logged_in();
    let NetworkCommand::SendPacket(p) =
        send_message(&mut d, "zd1you".to_string(), None, "hello".to_string(), 10).unwrap();
    assert!(!process_packet(&mut d, &p));
    assert_eq!(d.messages.len(), 1);
}

#[test]
fn leaving_twice_is_leaving_once() {
    let mut d = logged_in();
    d.groups.push(Group { id: "a".into(), name: "A".into(), owner_id: "o".into(), channels: vec![], members: vec![] });
    d.groups.push(Group { id: "b".into(), name: "B".into(), owner_id: "o".into(), channels: vec![], members: vec![] });
    leave_group(&mut d, "a".to_string());
    let ids: Vec<String> = d.groups.iter().map(|g| g.id.clone()).collect();
    leave_group(&mut d, "a".to_string());
    let again: Vec<String> = d.groups.iter().map(|g| g.id.clone()).collect();
    assert_eq!(ids, again);
    assert_eq!(ids, vec!["b".to_string()]);
}

#[test]
fn join_then_leave_restores_groups() {
    let mut d = logged_in();
    join_group(&mut d, "x".to_string()).unwrap();
    leave_group(&mut d, "x".to_string());
    assert!(d.groups.is_empty());
}

#[test]
fn account_does_not_depend_on_display_name() {
    let a = restore_identity("One".to_string(), String::new(), PHRASE.to_string()).unwrap();
    let b = restore_identity("Two".to_string(), a.user_id.clone(), PHRASE.to_string()).unwrap();
    assert_eq!(a.user_id, b.user_id);
    assert_eq!(a.private_key_hex, b.private_key_hex);
    assert_eq!(b.display_name, "Two");
}
