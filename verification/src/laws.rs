//! Properties of the library as a whole, each proved over the specifications
//! that the functions' contracts use.

use vstd::prelude::*;
use crate::commands::{
    accept_spec, add_bootstrap_node_spec, add_friend_spec, channel_category, create_channel_spec,
    delete_group_spec, friend_request_spec, groups_without, is_fresh_identity, join_group_spec,
    message_of, msg_friend_exists, with_identity,
};
use crate::identity::{IdentityKeysV, identity_data_of, is_account_id, keys_from_phrase, restore_spec};
use crate::encoding::{hex_lower, is_hex_digit};
use crate::network::{NetworkPacketV, process_packet_spec};
use crate::storage::{
    AppDataV, ChannelV, FriendRequestV, FriendV, GroupV, IdentityDataV, MessageV, has_friend, has_group,
    has_message, has_request_from, has_text,
};
use crate::text::{lemma_trim_idempotent, lemma_trim_of_trimmed_edges, trim};

verus! {

// ---------------------------------------------------------------------------
// Accounts
// ---------------------------------------------------------------------------

/// An account ID has no white space at either end, so trimming keeps it.
pub proof fn lemma_account_id_trimmed(id: Seq<char>)
    requires
        is_account_id(id),
    ensures
        trim(id) == id,
{
    reveal_strlit("zd1");
    assert(id[0] == id.take(3)[0]);
    assert(is_hex_digit(id[34]));
    lemma_trim_of_trimmed_edges(id);
}

/// Recovering a freshly created account: after logging out, the stored seed
/// phrase and account ID, given with the stored display name, restore exactly
/// the stored account.
pub proof fn law_recover_after_logout(d: AppDataV, display_name: Seq<char>, id: IdentityDataV)
    requires
        is_fresh_identity(display_name, id),
        d.identity == Some(id),
    ensures
        restore_spec(id.display_name, id.user_id, id.seed_phrase) matches Ok(k)
            && with_identity(with_identity(d, None), Some(identity_data_of(k))) == d,
{
    lemma_account_id_trimmed(id.user_id);
    lemma_trim_idempotent(display_name);
    assert(keys_from_phrase(id.display_name, id.seed_phrase) == keys_from_phrase(display_name, id.seed_phrase));
}

/// The account a seed phrase restores does not depend on the display name
/// given: its ID and keys are those of the phrase alone.
pub proof fn law_account_depends_on_phrase_only(name1: Seq<char>, name2: Seq<char>, user_id: Seq<char>, phrase: Seq<char>)
    ensures
        restore_spec(name1, user_id, phrase) is Ok <==> restore_spec(name2, user_id, phrase) is Ok,
        restore_spec(name1, user_id, phrase) matches Ok(k1) ==> (restore_spec(name2, user_id, phrase) matches Ok(k2)
            && k1.user_id == k2.user_id && k1.public_key_hex == k2.public_key_hex && k1.private_key_hex
            == k2.private_key_hex && k1.seed_phrase == k2.seed_phrase),
{
}

/// A blank account ID never makes restoring fail: only the phrase decides.
pub proof fn law_blank_account_id_not_checked(name: Seq<char>, user_id: Seq<char>, phrase: Seq<char>)
    requires
        trim(user_id).len() == 0,
    ensures
        restore_spec(name, user_id, phrase) == restore_spec(name, Seq::empty(), phrase),
{
    assert(trim(Seq::<char>::empty()) =~= Seq::<char>::empty());
}

/// A non-blank account ID given with a seed phrase is checked: restoring
/// succeeds only with the account ID the phrase derives, and any other
/// non-blank ID is refused as a mismatch, however well-formed it is.
pub proof fn law_restore_checks_account_id(name: Seq<char>, user_id: Seq<char>, phrase: Seq<char>)
    ensures
        restore_spec(name, user_id, phrase) matches Ok(k) ==> trim(user_id).len() == 0 || trim(user_id)
            == k.user_id,
        restore_spec(name, Seq::empty(), phrase) matches Ok(k) ==> (if trim(user_id).len() == 0 || trim(
            user_id,
        ) == k.user_id {
            restore_spec(name, user_id, phrase) == Ok::<IdentityKeysV, Seq<char>>(k)
        } else {
            restore_spec(name, user_id, phrase) == Err::<IdentityKeysV, Seq<char>>(
                "Account ID does not match the key derived from this seed phrase."@,
            )
        }),
{
    assert(trim(Seq::<char>::empty()) =~= Seq::<char>::empty());
}

// ---------------------------------------------------------------------------
// Packets
// ---------------------------------------------------------------------------

/// Without an account, no packet changes anything.
pub proof fn law_no_account_ignores_packets(d: AppDataV, packet: NetworkPacketV)
    requires
        d.identity is None,
    ensures
        process_packet_spec(d, packet) == (d, false),
{
}

/// Receiving the same packet twice changes nothing the second time (a full
/// state, which replaces everything, is the exception).
pub proof fn law_packet_idempotent(d: AppDataV, packet: NetworkPacketV)
    requires
        !(packet is SyncStatePacket),
    ensures
        process_packet_spec(process_packet_spec(d, packet).0, packet) == (process_packet_spec(d, packet).0, false),
{
    let d1 = process_packet_spec(d, packet).0;
    match packet {
        NetworkPacketV::FriendRequestPacket { request } => {
            if process_packet_spec(d, packet).1 {
                let n = d.pending_requests.len() as int;
                assert(d1.pending_requests[n] == request);
                assert(has_request_from(d1.pending_requests, request.sender_id));
            }
        },
        NetworkPacketV::FriendAcceptPacket { friend, target_id } => {
            if process_packet_spec(d, packet).1 {
                let n = d.friends.len() as int;
                assert(d1.friends[n] == friend);
                assert(has_friend(d1.friends, friend.user_id));
            }
        },
        NetworkPacketV::ChatMessagePacket { message } => {
            if process_packet_spec(d, packet).1 {
                let n = d.messages.len() as int;
                assert(d1.messages[n] == message);
                assert(has_message(d1.messages, message.id));
            }
        },
        NetworkPacketV::SyncStatePacket { data } => {},
    }
}

/// A chat message addressed to the user, sent by the user, or addressed to a
/// group the user is in, whose ID is not stored yet, is appended and the call
/// reports a change, whatever its timestamp.
pub proof fn law_chat_message_kept(d: AppDataV, message: MessageV)
    requires
        d.identity is Some,
        message.target_id == d.identity->Some_0.user_id || message.sender_id == d.identity->Some_0.user_id
            || exists|i: int| 0 <= i < d.groups.len() && (#[trigger] d.groups[i]).id == message.target_id,
        forall|i: int| 0 <= i < d.messages.len() ==> (#[trigger] d.messages[i]).id != message.id,
    ensures
        process_packet_spec(d, NetworkPacketV::ChatMessagePacket { message }) == (
            AppDataV { messages: d.messages.push(message), ..d },
            true,
        ),
{
}

/// A chat message that is neither to nor from the user nor to one of the
/// user's groups is dropped, and so is one whose ID is already stored.
pub proof fn law_chat_message_dropped(d: AppDataV, message: MessageV)
    requires
        d.identity is Some,
        (message.target_id != d.identity->Some_0.user_id && message.sender_id != d.identity->Some_0.user_id
            && forall|i: int| 0 <= i < d.groups.len() ==> (#[trigger] d.groups[i]).id != message.target_id)
            || exists|i: int| 0 <= i < d.messages.len() && (#[trigger] d.messages[i]).id == message.id,
    ensures
        process_packet_spec(d, NetworkPacketV::ChatMessagePacket { message }) == (d, false),
{
}

/// A friend request to the user from someone else, who has no request
/// pending yet, is appended to the pending requests.
pub proof fn law_friend_request_kept(d: AppDataV, request: FriendRequestV)
    requires
        d.identity is Some,
        request.target_id == d.identity->Some_0.user_id,
        request.sender_id != d.identity->Some_0.user_id,
        forall|i: int| 0 <= i < d.pending_requests.len() ==> (#[trigger] d.pending_requests[i]).sender_id
            != request.sender_id,
    ensures
        process_packet_spec(d, NetworkPacketV::FriendRequestPacket { request }) == (
            AppDataV { pending_requests: d.pending_requests.push(request), ..d },
            true,
        ),
{
}

/// An acceptance addressed to the user from someone not yet a friend adds
/// that friend.
pub proof fn law_friend_accept_kept(d: AppDataV, friend: FriendV, target_id: Seq<char>)
    requires
        d.identity is Some,
        target_id == d.identity->Some_0.user_id,
        forall|i: int| 0 <= i < d.friends.len() ==> (#[trigger] d.friends[i]).user_id != friend.user_id,
    ensures
        process_packet_spec(d, NetworkPacketV::FriendAcceptPacket { friend, target_id }) == (
            AppDataV { friends: d.friends.push(friend), ..d },
            true,
        ),
{
}

/// A friend request that is not addressed to the user, that the user sent,
/// or whose sender already has a request pending, is dropped.
pub proof fn law_friend_request_dropped(d: AppDataV, request: FriendRequestV)
    requires
        d.identity is Some,
        request.target_id != d.identity->Some_0.user_id || request.sender_id == d.identity->Some_0.user_id
            || exists|i: int|
            0 <= i < d.pending_requests.len() && (#[trigger] d.pending_requests[i]).sender_id == request.sender_id,
    ensures
        process_packet_spec(d, NetworkPacketV::FriendRequestPacket { request }) == (d, false),
{
}

/// An acceptance addressed to someone else, or from someone who is already a
/// friend, is dropped.
pub proof fn law_friend_accept_dropped(d: AppDataV, friend: FriendV, target_id: Seq<char>)
    requires
        d.identity is Some,
        target_id != d.identity->Some_0.user_id || exists|i: int|
            0 <= i < d.friends.len() && (#[trigger] d.friends[i]).user_id == friend.user_id,
    ensures
        process_packet_spec(d, NetworkPacketV::FriendAcceptPacket { friend, target_id }) == (d, false),
{
}

/// With an account, a full state replaces the whole local state.
pub proof fn law_full_state_replaces(d: AppDataV, data: AppDataV)
    requires
        d.identity is Some,
    ensures
        process_packet_spec(d, NetworkPacketV::SyncStatePacket { data }) == (data, true),
{
}

/// A friend request the user sends is not taken in by the user's own client
/// when the network task applies it.
pub proof fn law_own_friend_request_ignored(d: AppDataV, target_id: Seq<char>, nonce: Seq<u8>)
    requires
        friend_request_spec(d, target_id, nonce) is Ok,
    ensures
        process_packet_spec(
            d,
            NetworkPacketV::FriendRequestPacket { request: friend_request_spec(d, target_id, nonce)->Ok_0 },
        ) == (d, false),
{
}

/// A message the user sends is stored once: when the network task applies
/// the packet that `send_message` hands it, nothing changes.
pub proof fn law_sent_message_stored_once(
    d: AppDataV,
    target_id: Seq<char>,
    channel_id: Option<Seq<char>>,
    content: Seq<char>,
    timestamp: u64,
    nonce: Seq<u8>,
)
    requires
        d.identity is Some,
    ensures
        ({
            let m = message_of(d.identity->Some_0, target_id, channel_id, content, timestamp, nonce);
            let d1 = AppDataV { messages: d.messages.push(m), ..d };
            process_packet_spec(d1, NetworkPacketV::ChatMessagePacket { message: m }) == (d1, false)
        }),
{
    let m = message_of(d.identity->Some_0, target_id, channel_id, content, timestamp, nonce);
    let d1 = AppDataV { messages: d.messages.push(m), ..d };
    assert(d1.messages[d.messages.len() as int] == m);
    assert(has_message(d1.messages, m.id));
}

// ---------------------------------------------------------------------------
// What every operation keeps
// ---------------------------------------------------------------------------

/// No two friends share an account ID.
pub open spec fn friends_unique(friends: Seq<FriendV>) -> bool {
    forall|i: int, j: int|
        0 <= i < j < friends.len() ==> (#[trigger] friends[i]).user_id != (#[trigger] friends[j]).user_id
}

/// No two pending requests come from the same sender.
pub open spec fn request_senders_unique(requests: Seq<FriendRequestV>) -> bool {
    forall|i: int, j: int|
        0 <= i < j < requests.len() ==> (#[trigger] requests[i]).sender_id != (#[trigger] requests[j]).sender_id
}

/// No address is listed twice.
pub open spec fn texts_unique(items: Seq<Seq<char>>) -> bool {
    forall|i: int, j: int| 0 <= i < j < items.len() ==> #[trigger] items[i] != #[trigger] items[j]
}

/// Appending a friend whose ID is new keeps friend IDs unique.
proof fn lemma_push_new_friend(friends: Seq<FriendV>, f: FriendV)
    requires
        friends_unique(friends),
        !has_friend(friends, f.user_id),
    ensures
        friends_unique(friends.push(f)),
{
    let s = friends.push(f);
    assert forall|i: int, j: int| 0 <= i < j < s.len() implies (#[trigger] s[i]).user_id != (
    #[trigger] s[j]).user_id by {
        if j == friends.len() {
            assert(friends[i] == s[i]);
        } else {
            assert(friends[i] == s[i] && friends[j] == s[j]);
        }
    }
}

/// Whatever `add_friend` returns, friend IDs stay unique and the old list is
/// kept as it was; a friend it adds comes last, with a trimmed, non-empty ID.
pub proof fn law_add_friend_keeps_friends_unique(d: AppDataV, friend_id: Seq<char>, display_name: Option<Seq<char>>)
    requires
        friends_unique(d.friends),
    ensures
        match add_friend_spec(d, friend_id, display_name) {
            Ok(d1) => {
                &&& friends_unique(d1.friends)
                &&& d1.friends.len() == d.friends.len() + 1
                &&& d1.friends.take(d.friends.len() as int) == d.friends
                &&& d1.friends.last().user_id == trim(friend_id)
                &&& trim(d1.friends.last().user_id) == d1.friends.last().user_id
                &&& d1.friends.last().user_id.len() > 0
            },
            Err(_) => true,
        },
{
    if add_friend_spec(d, friend_id, display_name) is Ok {
        let d1 = add_friend_spec(d, friend_id, display_name)->Ok_0;
        lemma_push_new_friend(d.friends, d1.friends.last());
        assert(d1.friends =~= d.friends.push(d1.friends.last()));
        assert(d1.friends.take(d.friends.len() as int) =~= d.friends);
        lemma_trim_idempotent(friend_id);
    }
}

/// Adding the same friend twice is refused the second time.
pub proof fn law_add_friend_twice(d: AppDataV, friend_id: Seq<char>, name1: Option<Seq<char>>, name2: Option<Seq<char>>)
    requires
        add_friend_spec(d, friend_id, name1) is Ok,
    ensures
        add_friend_spec(add_friend_spec(d, friend_id, name1)->Ok_0, friend_id, name2) == Err::<AppDataV, Seq<char>>(
            msg_friend_exists(),
        ),
{
    let d1 = add_friend_spec(d, friend_id, name1)->Ok_0;
    let n = d.friends.len() as int;
    assert(d1.friends[n].user_id == trim(friend_id));
    assert(has_friend(d1.friends, trim(friend_id)));
}

/// Accepting a request keeps friend IDs and request senders unique; the
/// sender is then a friend.
pub proof fn law_accept_keeps_lists_unique(d: AppDataV, request_id: Seq<char>)
    requires
        friends_unique(d.friends),
        request_senders_unique(d.pending_requests),
        accept_spec(d, request_id) is Ok,
    ensures
        ({
            let d1 = accept_spec(d, request_id)->Ok_0.0;
            &&& friends_unique(d1.friends)
            &&& request_senders_unique(d1.pending_requests)
            &&& d1.pending_requests.len() + 1 == d.pending_requests.len()
        }),
        exists|i: int|
            0 <= i < d.pending_requests.len() && (#[trigger] d.pending_requests[i]).id == request_id && has_friend(
                accept_spec(d, request_id)->Ok_0.0.friends,
                d.pending_requests[i].sender_id,
            ),
{
    let d1 = accept_spec(d, request_id)->Ok_0.0;
    let i = choose|i: int| crate::commands::is_first_request(d.pending_requests, request_id, i);
    let req = d.pending_requests[i];
    let f = FriendV { user_id: req.sender_id, display_name: req.sender_name };
    if !has_friend(d.friends, f.user_id) {
        lemma_push_new_friend(d.friends, f);
        let n = d.friends.len() as int;
        assert(d1.friends[n] == f);
    }
    assert(has_friend(d1.friends, req.sender_id));
    let r = d.pending_requests.remove(i);
    assert forall|a: int, b: int| 0 <= a < b < r.len() implies (#[trigger] r[a]).sender_id != (
    #[trigger] r[b]).sender_id by {
        let a0 = if a < i { a } else { a + 1 };
        let b0 = if b < i { b } else { b + 1 };
        assert(r[a] == d.pending_requests[a0]);
        assert(r[b] == d.pending_requests[b0]);
    }
}

/// Accepting a request takes out exactly the first pending request with
/// that ID and keeps every other one in order; its sender becomes a friend
/// (added last unless already a friend), nothing else changes, and the
/// acceptance goes to that sender, naming the user.
pub proof fn law_accept_takes_out_that_request(d: AppDataV, request_id: Seq<char>)
    requires
        accept_spec(d, request_id) is Ok,
    ensures
        d.identity is Some,
        ({
            let me = d.identity->Some_0;
            let (d1, p) = accept_spec(d, request_id)->Ok_0;
            exists|i: int|
                {
                    &&& 0 <= i < d.pending_requests.len()
                    &&& (#[trigger] d.pending_requests[i]).id == request_id
                    &&& forall|j: int| 0 <= j < i ==> (#[trigger] d.pending_requests[j]).id != request_id
                    &&& d1.pending_requests == d.pending_requests.remove(i)
                    &&& d1.friends == if has_friend(d.friends, d.pending_requests[i].sender_id) {
                        d.friends
                    } else {
                        d.friends.push(
                            FriendV {
                                user_id: d.pending_requests[i].sender_id,
                                display_name: d.pending_requests[i].sender_name,
                            },
                        )
                    }
                    &&& p == NetworkPacketV::FriendAcceptPacket {
                        friend: FriendV { user_id: me.user_id, display_name: me.display_name },
                        target_id: d.pending_requests[i].sender_id,
                    }
                }
        }),
        accept_spec(d, request_id)->Ok_0.0 == (AppDataV {
            pending_requests: accept_spec(d, request_id)->Ok_0.0.pending_requests,
            friends: accept_spec(d, request_id)->Ok_0.0.friends,
            ..d
        }),
{
    let i = choose|i: int| crate::commands::is_first_request(d.pending_requests, request_id, i);
    assert(d.pending_requests[i].id == request_id);
}

/// With an account, accepting an ID that no pending request has is refused,
/// and without an account every acceptance is refused.
pub proof fn law_accept_unknown_request(d: AppDataV, request_id: Seq<char>)
    ensures
        d.identity is None ==> accept_spec(d, request_id) == Err::<(AppDataV, NetworkPacketV), Seq<char>>(
            "No active session."@,
        ),
        d.identity is Some && (forall|i: int|
            0 <= i < d.pending_requests.len() ==> (#[trigger] d.pending_requests[i]).id != request_id)
            ==> accept_spec(d, request_id) == Err::<(AppDataV, NetworkPacketV), Seq<char>>(
            "Friend request not found."@,
        ),
{
}

/// Applying a packet other than a full state keeps friend IDs and request
/// senders unique.
pub proof fn law_packet_keeps_lists_unique(d: AppDataV, packet: NetworkPacketV)
    requires
        friends_unique(d.friends),
        request_senders_unique(d.pending_requests),
        !(packet is SyncStatePacket),
    ensures
        friends_unique(process_packet_spec(d, packet).0.friends),
        request_senders_unique(process_packet_spec(d, packet).0.pending_requests),
{
    let d1 = process_packet_spec(d, packet).0;
    if process_packet_spec(d, packet).1 {
        match packet {
            NetworkPacketV::FriendRequestPacket { request } => {
                let s = d1.pending_requests;
                assert forall|i: int, j: int| 0 <= i < j < s.len() implies (#[trigger] s[i]).sender_id != (
                #[trigger] s[j]).sender_id by {
                    if j == d.pending_requests.len() {
                        assert(d.pending_requests[i] == s[i]);
                    } else {
                        assert(d.pending_requests[i] == s[i] && d.pending_requests[j] == s[j]);
                    }
                }
            },
            NetworkPacketV::FriendAcceptPacket { friend, target_id } => {
                lemma_push_new_friend(d.friends, friend);
            },
            _ => {},
        }
    }
}

/// No two kept messages share an ID.
pub open spec fn message_ids_unique(messages: Seq<MessageV>) -> bool {
    forall|i: int, j: int| 0 <= i < j < messages.len() ==> (#[trigger] messages[i]).id != (#[trigger] messages[j]).id
}

/// Applying a packet other than a full state keeps message IDs unique.
/// (Messages the user sends get random IDs, which nothing checks, so
/// `send_message` is not covered.)
pub proof fn law_packet_keeps_message_ids_unique(d: AppDataV, packet: NetworkPacketV)
    requires
        message_ids_unique(d.messages),
        !(packet is SyncStatePacket),
    ensures
        message_ids_unique(process_packet_spec(d, packet).0.messages),
{
    let d1 = process_packet_spec(d, packet).0;
    if process_packet_spec(d, packet).1 {
        if let NetworkPacketV::ChatMessagePacket { message } = packet {
            let s = d1.messages;
            assert forall|i: int, j: int| 0 <= i < j < s.len() implies (#[trigger] s[i]).id != (#[trigger] s[j]).id by {
                if j == d.messages.len() {
                    assert(d.messages[i] == s[i]);
                } else {
                    assert(d.messages[i] == s[i] && d.messages[j] == s[j]);
                }
            }
        }
    }
}

/// Adding a bootstrap node keeps the list free of repeats, and adding the
/// same address again changes nothing.
pub proof fn law_bootstrap_nodes(d: AppDataV, addr: Seq<char>)
    requires
        texts_unique(d.bootstrap_nodes),
        add_bootstrap_node_spec(d, addr) is Ok,
    ensures
        texts_unique(add_bootstrap_node_spec(d, addr)->Ok_0.0.bootstrap_nodes),
        add_bootstrap_node_spec(add_bootstrap_node_spec(d, addr)->Ok_0.0, addr) == Ok::<(AppDataV, bool), Seq<char>>(
            (add_bootstrap_node_spec(d, addr)->Ok_0.0, false),
        ),
{
    let d1 = add_bootstrap_node_spec(d, addr)->Ok_0.0;
    let clean = trim(addr);
    let s = d1.bootstrap_nodes;
    if add_bootstrap_node_spec(d, addr)->Ok_0.1 {
        let n = d.bootstrap_nodes.len() as int;
        assert(s[n] == clean);
        assert forall|i: int, j: int| 0 <= i < j < s.len() implies #[trigger] s[i] != #[trigger] s[j] by {
            if j == n {
                assert(d.bootstrap_nodes[i] == s[i]);
            } else {
                assert(d.bootstrap_nodes[i] == s[i] && d.bootstrap_nodes[j] == s[j]);
            }
        }
    }
    assert(has_text(s, clean));
}

// ---------------------------------------------------------------------------
// Groups
// ---------------------------------------------------------------------------

/// Filtering out the groups with one ID keeps a list in which none has it.
proof fn lemma_without_absent(groups: Seq<GroupV>, id: Seq<char>)
    requires
        !has_group(groups, id),
    ensures
        groups_without(groups, id) == groups,
    decreases groups.len(),
{
    reveal_with_fuel(Seq::<_>::filter, 1);
    if groups.len() > 0 {
        let init = groups.drop_last();
        assert forall|i: int| 0 <= i < init.len() implies (#[trigger] init[i]).id != id by {
            assert(init[i] == groups[i]);
        }
        lemma_without_absent(init, id);
        assert(groups.last() == groups[groups.len() - 1]);
        assert(init.push(groups.last()) =~= groups);
    } else {
        assert(groups.filter(|g: GroupV| g.id != id) =~= groups);
    }
}

/// Joining a group and leaving it again gives back the groups one had.
pub proof fn law_join_then_leave(d: AppDataV, group_id: Seq<char>, nonce: Seq<u8>)
    requires
        join_group_spec(d, group_id, nonce) is Ok,
    ensures
        groups_without(join_group_spec(d, group_id, nonce)->Ok_0.groups, trim(group_id)) == d.groups,
{
    let d1 = join_group_spec(d, group_id, nonce)->Ok_0;
    let id = trim(group_id);
    reveal_with_fuel(Seq::<_>::filter, 1);
    assert(d1.groups.drop_last() =~= d.groups);
    lemma_without_absent(d.groups, id);
}

/// Leaving a group a second time changes nothing.
pub proof fn law_leave_idempotent(groups: Seq<GroupV>, group_id: Seq<char>)
    ensures
        groups_without(groups_without(groups, group_id), group_id) == groups_without(groups, group_id),
{
    let g = groups_without(groups, group_id);
    broadcast use vstd::seq_lib::group_filter_ensures;
    assert forall|i: int| 0 <= i < g.len() implies (#[trigger] g[i]).id != group_id by {}
    lemma_without_absent(g, group_id);
}

/// After leaving (or deleting) a group, no group with that ID is left.
pub proof fn law_leave_removes_group(groups: Seq<GroupV>, group_id: Seq<char>)
    ensures
        !has_group(groups_without(groups, group_id), group_id),
{
    let g = groups_without(groups, group_id);
    broadcast use vstd::seq_lib::group_filter_ensures;
    assert forall|i: int| 0 <= i < g.len() implies (#[trigger] g[i]).id != group_id by {}
}

/// No two groups share an ID.
pub open spec fn group_ids_unique(groups: Seq<GroupV>) -> bool {
    forall|i: int, j: int| 0 <= i < j < groups.len() ==> (#[trigger] groups[i]).id != (#[trigger] groups[j]).id
}

/// Joining a group keeps group IDs unique.
pub proof fn law_join_keeps_group_ids_unique(d: AppDataV, group_id: Seq<char>, nonce: Seq<u8>)
    requires
        group_ids_unique(d.groups),
        join_group_spec(d, group_id, nonce) is Ok,
    ensures
        group_ids_unique(join_group_spec(d, group_id, nonce)->Ok_0.groups),
{
    let s = join_group_spec(d, group_id, nonce)->Ok_0.groups;
    assert forall|i: int, j: int| 0 <= i < j < s.len() implies (#[trigger] s[i]).id != (#[trigger] s[j]).id by {
        if j == d.groups.len() {
            assert(d.groups[i] == s[i]);
        } else {
            assert(d.groups[i] == s[i] && d.groups[j] == s[j]);
        }
    }
}

// ---------------------------------------------------------------------------
// Group ownership
// ---------------------------------------------------------------------------

/// Only the owner deletes a group: when the first group with the ID is owned
/// by someone else (a member who joined it, say), deleting is refused.
pub proof fn law_delete_group_refused_to_non_owner(d: AppDataV, group_id: Seq<char>, i: int)
    requires
        d.identity is Some,
        0 <= i < d.groups.len(),
        d.groups[i].id == group_id,
        forall|j: int| 0 <= j < i ==> (#[trigger] d.groups[j]).id != group_id,
        d.groups[i].owner_id != d.identity->Some_0.user_id,
    ensures
        delete_group_spec(d, group_id) == Err::<AppDataV, Seq<char>>(
            "Permission denied: Only the group owner can delete this group."@,
        ),
{
    assert(crate::commands::is_first_group(d.groups, group_id, i));
}

/// The owner of the first group with the ID deletes it, and so does anyone
/// logged in when no group has the ID: every group with that ID goes.
pub proof fn law_delete_group_by_owner_succeeds(d: AppDataV, group_id: Seq<char>)
    requires
        d.identity is Some,
        forall|i: int|
            0 <= i < d.groups.len() && (#[trigger] d.groups[i]).id == group_id && (forall|j: int|
                0 <= j < i ==> (#[trigger] d.groups[j]).id != group_id) ==> d.groups[i].owner_id
                == d.identity->Some_0.user_id,
    ensures
        delete_group_spec(d, group_id) == Ok::<AppDataV, Seq<char>>(
            AppDataV { groups: groups_without(d.groups, group_id), ..d },
        ),
{
}

/// A deletion that goes through was made by the owner of the first group
/// with that ID (if there is one); afterwards no group has the ID, every
/// other group is kept, and nothing else changes.
pub proof fn law_delete_group_by_owner(d: AppDataV, group_id: Seq<char>)
    requires
        delete_group_spec(d, group_id) is Ok,
    ensures
        d.identity is Some,
        forall|i: int|
            0 <= i < d.groups.len() && (#[trigger] d.groups[i]).id == group_id && (forall|j: int|
                0 <= j < i ==> (#[trigger] d.groups[j]).id != group_id) ==> d.groups[i].owner_id
                == d.identity->Some_0.user_id,
        !has_group(delete_group_spec(d, group_id)->Ok_0.groups, group_id),
        forall|i: int|
            0 <= i < d.groups.len() && (#[trigger] d.groups[i]).id != group_id ==> delete_group_spec(
                d,
                group_id,
            )->Ok_0.groups.contains(d.groups[i]),
        delete_group_spec(d, group_id)->Ok_0 == (AppDataV {
            groups: delete_group_spec(d, group_id)->Ok_0.groups,
            ..d
        }),
{
    let me = d.identity->Some_0;
    assert forall|i: int|
        0 <= i < d.groups.len() && (#[trigger] d.groups[i]).id == group_id && (forall|j: int|
            0 <= j < i ==> (#[trigger] d.groups[j]).id != group_id) implies d.groups[i].owner_id
        == me.user_id by {
        assert(crate::commands::is_first_group(d.groups, group_id, i));
    }
    law_leave_removes_group(d.groups, group_id);
    broadcast use vstd::seq_lib::group_filter_ensures;
}

/// Only the owner adds channels: when the first group with the ID is owned
/// by someone else, creating a channel in it is refused.
pub proof fn law_create_channel_refused_to_non_owner(
    d: AppDataV,
    group_id: Seq<char>,
    channel_name: Seq<char>,
    category: Seq<char>,
    nonce: Seq<u8>,
    i: int,
)
    requires
        d.identity is Some,
        0 <= i < d.groups.len(),
        d.groups[i].id == group_id,
        forall|j: int| 0 <= j < i ==> (#[trigger] d.groups[j]).id != group_id,
        d.groups[i].owner_id != d.identity->Some_0.user_id,
    ensures
        create_channel_spec(d, group_id, channel_name, category, nonce) == Err::<AppDataV, Seq<char>>(
            "Only the group owner can create channels."@,
        ),
{
    assert(crate::commands::is_first_group(d.groups, group_id, i));
    let k = choose|k: int| crate::commands::is_first_group(d.groups, group_id, k);
    assert(k == i);
}

/// The owner of the first group with the ID adds a channel to it: the
/// channel, named as given, with ID `ch-` and the hex of the bytes, filed
/// under the given category or `TEXT CHANNELS` when that is blank, is
/// appended to that group, and nothing else changes.
pub proof fn law_create_channel_by_owner_succeeds(
    d: AppDataV,
    group_id: Seq<char>,
    channel_name: Seq<char>,
    category: Seq<char>,
    nonce: Seq<u8>,
    i: int,
)
    requires
        d.identity is Some,
        0 <= i < d.groups.len(),
        d.groups[i].id == group_id,
        forall|j: int| 0 <= j < i ==> (#[trigger] d.groups[j]).id != group_id,
        d.groups[i].owner_id == d.identity->Some_0.user_id,
    ensures
        ({
            let c = ChannelV {
                id: "ch-"@ + hex_lower(nonce),
                name: channel_name,
                category: if trim(category).len() == 0 {
                    "TEXT CHANNELS"@
                } else {
                    category
                },
            };
            create_channel_spec(d, group_id, channel_name, category, nonce) == Ok::<AppDataV, Seq<char>>(
                AppDataV {
                    groups: d.groups.update(i, GroupV { channels: d.groups[i].channels.push(c), ..d.groups[i] }),
                    ..d
                },
            )
        }),
{
    assert(crate::commands::is_first_group(d.groups, group_id, i));
    let k = choose|k: int| crate::commands::is_first_group(d.groups, group_id, k);
    assert(k == i);
}

/// A channel that is created goes into the first group with the ID, which
/// the user owns: the channel is appended to that group and nothing else
/// changes.
pub proof fn law_create_channel_in_owned_group(
    d: AppDataV,
    group_id: Seq<char>,
    channel_name: Seq<char>,
    category: Seq<char>,
    nonce: Seq<u8>,
)
    requires
        create_channel_spec(d, group_id, channel_name, category, nonce) is Ok,
    ensures
        d.identity is Some,
        ({
            let d1 = create_channel_spec(d, group_id, channel_name, category, nonce)->Ok_0;
            let c = ChannelV { id: "ch-"@ + hex_lower(nonce), name: channel_name, category: channel_category(category) };
            exists|i: int|
                {
                    &&& 0 <= i < d.groups.len()
                    &&& (#[trigger] d.groups[i]).id == group_id
                    &&& forall|j: int| 0 <= j < i ==> (#[trigger] d.groups[j]).id != group_id
                    &&& d.groups[i].owner_id == d.identity->Some_0.user_id
                    &&& d1 == AppDataV {
                        groups: d.groups.update(i, GroupV { channels: d.groups[i].channels.push(c), ..d.groups[i] }),
                        ..d
                    }
                }
        }),
{
    let i = choose|i: int| crate::commands::is_first_group(d.groups, group_id, i);
    assert(d.groups[i].id == group_id);
}

} // verus!
