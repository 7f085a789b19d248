//! The user's commands: each takes the current state and either changes it
//! or refuses with a message, as the desktop client's command handlers do.
//! Saving the state afterwards and handing packets to the network task are
//! left to the caller. Identifiers are made of a fixed prefix and random
//! bytes in hex; each command that draws them has a twin that takes the
//! bytes as arguments and whose contract is exact.

use vstd::prelude::*;
use crate::encoding::{hex_lower, prefixed_hex_id, random_bytes};
use crate::identity::{
    bip39_accepts, bip39_display, generate_new_identity, identity_data_of, is_account_id,
    keys_from_phrase, restore_identity, restore_spec, word_count_of,
};
use crate::network::{NetworkCommand, NetworkPacket, NetworkPacketV};
use crate::storage::{
    AppData, AppDataV, Channel, ChannelV, Friend, FriendRequest, FriendRequestV, FriendV, Group,
    GroupV, IdentityData, IdentityDataV, Message, MessageV, contains_friend, contains_text,
    find_group, has_friend, has_group, has_text, opt_string_view, strings_view,
};
use crate::text::{byte_prefix, trim, trimmed, utf8_len, utf8_len_up_to, utf8_prefix};

verus! {

// ---------------------------------------------------------------------------
// Refusals, as the user reads them
// ---------------------------------------------------------------------------

pub open spec fn msg_no_session() -> Seq<char> {
    "No active session."@
}

pub open spec fn msg_friend_id_empty() -> Seq<char> {
    "Friend User ID cannot be empty."@
}

pub open spec fn msg_friend_exists() -> Seq<char> {
    "Friend is already in your contacts."@
}

pub open spec fn msg_target_empty() -> Seq<char> {
    "Target User ID cannot be empty."@
}

pub open spec fn msg_add_self() -> Seq<char> {
    "You cannot add yourself."@
}

pub open spec fn msg_request_not_found() -> Seq<char> {
    "Friend request not found."@
}

pub open spec fn msg_group_id_empty() -> Seq<char> {
    "Group ID link cannot be empty."@
}

pub open spec fn msg_already_member() -> Seq<char> {
    "You are already a member of this group."@
}

pub open spec fn msg_delete_not_owner() -> Seq<char> {
    "Permission denied: Only the group owner can delete this group."@
}

pub open spec fn msg_group_not_found() -> Seq<char> {
    "Group not found."@
}

pub open spec fn msg_channel_not_owner() -> Seq<char> {
    "Only the group owner can create channels."@
}

pub open spec fn msg_bootstrap_empty() -> Seq<char> {
    "Bootstrap Multiaddress cannot be empty."@
}

/// `d` with a new stored identity.
pub open spec fn with_identity(d: AppDataV, identity: Option<IdentityDataV>) -> AppDataV {
    AppDataV { identity, ..d }
}

// ---------------------------------------------------------------------------
// Account
// ---------------------------------------------------------------------------

/// `id` is the stored form of an account freshly generated for
/// `display_name`: its phrase has 24 words and is accepted as it stands, and
/// it holds the keys of that phrase.
pub open spec fn is_fresh_identity(display_name: Seq<char>, id: IdentityDataV) -> bool {
    &&& word_count_of(id.seed_phrase) == 24
    &&& bip39_accepts(id.seed_phrase)
    &&& bip39_display(id.seed_phrase) == id.seed_phrase
    &&& trim(id.seed_phrase) == id.seed_phrase
    &&& id == identity_data_of(keys_from_phrase(display_name, id.seed_phrase))
    &&& is_account_id(id.user_id)
}

/// Creates an account with a fresh random seed phrase and makes it the
/// current one.
pub fn create_account(data: &mut AppData, display_name: String) -> (res: Result<(), String>)
    ensures
        res is Ok,
        exists|id: IdentityDataV|
            is_fresh_identity(display_name@, id) && final(data)@ == with_identity(old(data)@, Some(id)),
{
    let ghost before = data@;
    let ghost name = display_name@;
    let keys = match generate_new_identity(display_name) {
        Ok(k) => k,
        Err(e) => {
            return Err(e);
        },
    };
    let ghost kv = keys@;
    data.identity = Some(IdentityData::from(keys));
    assert(is_fresh_identity(name, identity_data_of(kv)));
    assert(data@ == with_identity(before, Some(identity_data_of(kv))));
    Ok(())
}

/// Restores an account from its seed phrase (see `restore_identity`) and
/// makes it the current one; on failure the state is unchanged.
pub fn recover_account(data: &mut AppData, display_name: String, user_id: String, seed_phrase: String) -> (res: Result<(), String>)
    ensures
        match restore_spec(display_name@, user_id@, seed_phrase@) {
            Ok(k) => res is Ok && final(data)@ == with_identity(old(data)@, Some(identity_data_of(k))),
            Err(e) => res matches Err(m) && m@ == e && final(data)@ == old(data)@,
        },
{
    let keys = match restore_identity(display_name, user_id, seed_phrase) {
        Ok(k) => k,
        Err(e) => {
            return Err(e);
        },
    };
    data.identity = Some(IdentityData::from(keys));
    Ok(())
}

/// Forgets the current account; everything else stays.
pub fn logout(data: &mut AppData)
    ensures
        final(data)@ == with_identity(old(data)@, None),
{
    data.identity = None;
}

// ---------------------------------------------------------------------------
// Friends
// ---------------------------------------------------------------------------

/// The name given to a friend added without one: `Peer-` and the first
/// eight bytes of the ID.
pub open spec fn peer_name(id: Seq<char>) -> Seq<char> {
    "Peer-"@ + byte_prefix(id, 8)
}

/// The number of bytes of `id` that the fallback name takes.
pub open spec fn peer_name_bytes(id: Seq<char>) -> nat {
    if utf8_len(id) < 8 {
        utf8_len(id)
    } else {
        8
    }
}

/// The name a friend is stored under.
pub open spec fn friend_name(id: Seq<char>, display_name: Option<Seq<char>>) -> Seq<char> {
    let name = trim(
        match display_name {
            Some(n) => n,
            None => Seq::empty(),
        },
    );
    if name.len() == 0 {
        peer_name(id)
    } else {
        name
    }
}

/// `add_friend` would cut the ID inside a character to make the fallback
/// name: byte `peer_name_bytes(id)` of the ID does not start a character, so
/// the bytes before it are not a string (the one input on which the command
/// cannot proceed).
pub open spec fn add_friend_cuts_char(d: AppDataV, friend_id: Seq<char>, display_name: Option<Seq<char>>) -> bool {
    let id = trim(friend_id);
    &&& id.len() != 0
    &&& !has_friend(d.friends, id)
    &&& trim(
        match display_name {
            Some(n) => n,
            None => Seq::empty(),
        },
    ).len() == 0
    &&& utf8_len(byte_prefix(id, 8)) != peer_name_bytes(id)
}

/// Decides `add_friend_cuts_char`: whether `add_friend` could not make the
/// fallback name, because the ID's eighth byte falls inside a character.
pub fn add_friend_would_cut_char(data: &AppData, friend_id: &str, display_name: &Option<String>) -> (b: bool)
    ensures
        b == add_friend_cuts_char(data@, friend_id@, opt_string_view(*display_name)),
{
    let clean_id = trimmed(friend_id);
    if clean_id.as_str().is_empty() || contains_friend(&data.friends, &clean_id) {
        return false;
    }
    let name = match display_name {
        Some(n) => trimmed(n.as_str()),
        None => String::new(),
    };
    proof {
        if display_name is None {
            assert(trim(Seq::<char>::empty()) =~= Seq::<char>::empty());
        }
    }
    if !name.as_str().is_empty() {
        return false;
    }
    let want = utf8_len_up_to(clean_id.as_str(), 8);
    let head = utf8_prefix(clean_id.as_str(), 8);
    let got = utf8_len_up_to(head.as_str(), 9);
    proof {
        assert(want as nat == peer_name_bytes(clean_id@));
        crate::text::lemma_byte_prefix_len(clean_id@, 8);
    }
    got != want
}

/// What `add_friend` does.
pub open spec fn add_friend_spec(d: AppDataV, friend_id: Seq<char>, display_name: Option<Seq<char>>) -> Result<AppDataV, Seq<char>> {
    let id = trim(friend_id);
    if id.len() == 0 {
        Err(msg_friend_id_empty())
    } else if has_friend(d.friends, id) {
        Err(msg_friend_exists())
    } else {
        Ok(
            AppDataV {
                friends: d.friends.push(FriendV { user_id: id, display_name: friend_name(id, display_name) }),
                ..d
            },
        )
    }
}

/// Adds a contact by account ID, under the given name or, when that is
/// blank, under `Peer-` and the ID's first eight bytes.
pub fn add_friend(data: &mut AppData, friend_id: String, display_name: Option<String>) -> (res: Result<(), String>)
    requires
        !add_friend_cuts_char(old(data)@, friend_id@, opt_string_view(display_name)),
    ensures
        match add_friend_spec(old(data)@, friend_id@, opt_string_view(display_name)) {
            Ok(d) => res is Ok && final(data)@ == d,
            Err(e) => res matches Err(m) && m@ == e && final(data)@ == old(data)@,
        },
{
    let clean_id = trimmed(friend_id.as_str());
    if clean_id.as_str().is_empty() {
        return Err("Friend User ID cannot be empty.".to_owned());
    }
    if contains_friend(&data.friends, &clean_id) {
        return Err("Friend is already in your contacts.".to_owned());
    }
    let name = match &display_name {
        Some(n) => trimmed(n.as_str()),
        None => String::new(),
    };
    proof {
        let raw = match display_name {
            Some(n) => n@,
            None => Seq::<char>::empty(),
        };
        if display_name is None {
            assert(trim(raw) =~= Seq::<char>::empty());
        }
        assert(name@ == trim(raw));
    }
    let final_name = if name.as_str().is_empty() {
        let mut n = "Peer-".to_owned();
        let head = utf8_prefix(clean_id.as_str(), 8);
        n.append(head.as_str());
        n
    } else {
        name
    };
    let ghost before = data.friends@;
    let friend = Friend { user_id: clean_id, display_name: final_name };
    let ghost fv = friend@;
    data.friends.push(friend);
    assert(data.friends@.map_values(|f: Friend| f@) =~= before.map_values(|f: Friend| f@).push(fv));
    Ok(())
}

// ---------------------------------------------------------------------------
// Bootstrap nodes
// ---------------------------------------------------------------------------

/// What `add_bootstrap_node` does: the trimmed address is added unless it is
/// blank (refused) or already listed (nothing changes). The flag tells
/// whether the list changed.
pub open spec fn add_bootstrap_node_spec(d: AppDataV, addr: Seq<char>) -> Result<(AppDataV, bool), Seq<char>> {
    let clean = trim(addr);
    if clean.len() == 0 {
        Err(msg_bootstrap_empty())
    } else if has_text(d.bootstrap_nodes, clean) {
        Ok((d, false))
    } else {
        Ok((AppDataV { bootstrap_nodes: d.bootstrap_nodes.push(clean), ..d }, true))
    }
}

/// Adds a node address to dial at start-up. Returns whether the list
/// changed (the state needs saving only then).
pub fn add_bootstrap_node(data: &mut AppData, node_multiaddr: String) -> (res: Result<bool, String>)
    ensures
        match add_bootstrap_node_spec(old(data)@, node_multiaddr@) {
            Ok((d, changed)) => res == Ok::<bool, String>(changed) && final(data)@ == d,
            Err(e) => res matches Err(m) && m@ == e && final(data)@ == old(data)@,
        },
{
    let clean_addr = trimmed(node_multiaddr.as_str());
    if clean_addr.as_str().is_empty() {
        return Err("Bootstrap Multiaddress cannot be empty.".to_owned());
    }
    if contains_text(&data.bootstrap_nodes, &clean_addr) {
        return Ok(false);
    }
    let ghost before = data.bootstrap_nodes@;
    let ghost cv = clean_addr@;
    data.bootstrap_nodes.push(clean_addr);
    assert(strings_view(data.bootstrap_nodes@) =~= strings_view(before).push(cv));
    Ok(true)
}

// ---------------------------------------------------------------------------
// Friend requests
// ---------------------------------------------------------------------------

/// Why `send_friend_request` refuses, or the identity it sends as.
pub open spec fn friend_request_check(d: AppDataV, target_id: Seq<char>) -> Result<IdentityDataV, Seq<char>> {
    match d.identity {
        None => Err(msg_no_session()),
        Some(me) => {
            let target = trim(target_id);
            if target.len() == 0 {
                Err(msg_target_empty())
            } else if target == me.user_id {
                Err(msg_add_self())
            } else {
                Ok(me)
            }
        },
    }
}

/// The request from `me` to `target_id` whose ID is made of `nonce`.
pub open spec fn friend_request_of(me: IdentityDataV, target_id: Seq<char>, nonce: Seq<u8>) -> FriendRequestV {
    FriendRequestV {
        id: "freq-"@ + hex_lower(nonce),
        sender_id: me.user_id,
        sender_name: me.display_name,
        target_id: trim(target_id),
    }
}

/// The request `send_friend_request` makes when its random bytes are
/// `nonce`, or the refusal.
pub open spec fn friend_request_spec(d: AppDataV, target_id: Seq<char>, nonce: Seq<u8>) -> Result<FriendRequestV, Seq<char>> {
    match friend_request_check(d, target_id) {
        Err(e) => Err(e),
        Ok(me) => Ok(friend_request_of(me, target_id, nonce)),
    }
}

/// A copy of the current identity, if any.
fn current_identity(data: &AppData) -> (res: Option<IdentityData>)
    ensures
        match data@.identity {
            Some(i) => res matches Some(c) && c@ == i,
            None => res is None,
        },
{
    match &data.identity {
        Some(i) => Some(i.clone()),
        None => None,
    }
}

/// The friend request to `target_id` with ID `freq-` and the hex of `nonce`,
/// as a command for the network task. The state does not change.
pub fn friend_request_with_id(data: &AppData, target_id: &str, nonce: &[u8]) -> (res: Result<NetworkCommand, String>)
    ensures
        match friend_request_spec(data@, target_id@, nonce@) {
            Ok(r) => res matches Ok(c) && c@ == (NetworkPacketV::FriendRequestPacket { request: r }),
            Err(e) => res matches Err(m) && m@ == e,
        },
{
    let identity = match current_identity(data) {
        Some(i) => i,
        None => {
            return Err("No active session.".to_owned());
        },
    };
    let clean_target = trimmed(target_id);
    if clean_target.as_str().is_empty() {
        return Err("Target User ID cannot be empty.".to_owned());
    }
    if clean_target == identity.user_id {
        return Err("You cannot add yourself.".to_owned());
    }
    let req = FriendRequest {
        id: prefixed_hex_id("freq-", nonce),
        sender_id: identity.user_id,
        sender_name: identity.display_name,
        target_id: clean_target,
    };
    Ok(NetworkCommand::SendPacket(NetworkPacket::FriendRequestPacket { request: req }))
}

/// Makes a friend request to `target_id` with a random ID, as a command for
/// the network task. Whatever bytes were drawn, the request is the one
/// `friend_request_of` gives for six of them.
pub fn send_friend_request(data: &AppData, target_id: String) -> (res: Result<NetworkCommand, String>)
    ensures
        match friend_request_check(data@, target_id@) {
            Err(e) => res matches Err(m) && m@ == e,
            Ok(me) => res matches Ok(c) && exists|nonce: Seq<u8>|
                nonce.len() == 6 && c@ == (NetworkPacketV::FriendRequestPacket {
                    request: #[trigger] friend_request_of(me, target_id@, nonce),
                }),
        },
{
    if data.identity.is_none() {
        return Err("No active session.".to_owned());
    }
    let nonce = random_bytes(6);
    friend_request_with_id(data, target_id.as_str(), nonce.as_slice())
}

/// `i` is the position of the first pending request with ID `id`.
pub open spec fn is_first_request(requests: Seq<FriendRequestV>, id: Seq<char>, i: int) -> bool {
    &&& 0 <= i < requests.len()
    &&& requests[i].id == id
    &&& forall|j: int| 0 <= j < i ==> (#[trigger] requests[j]).id != id
}

/// What `accept_friend_request` does: the first pending request with the
/// given ID leaves the list, its sender becomes a friend unless already one,
/// and an acceptance naming the user goes back to the sender.
pub open spec fn accept_spec(d: AppDataV, request_id: Seq<char>) -> Result<(AppDataV, NetworkPacketV), Seq<char>> {
    match d.identity {
        None => Err(msg_no_session()),
        Some(me) => {
            if exists|i: int| is_first_request(d.pending_requests, request_id, i) {
                let i = choose|i: int| is_first_request(d.pending_requests, request_id, i);
                let req = d.pending_requests[i];
                let friend = FriendV { user_id: req.sender_id, display_name: req.sender_name };
                let friends = if has_friend(d.friends, friend.user_id) {
                    d.friends
                } else {
                    d.friends.push(friend)
                };
                Ok(
                    (
                        AppDataV { pending_requests: d.pending_requests.remove(i), friends, ..d },
                        NetworkPacketV::FriendAcceptPacket {
                            friend: FriendV { user_id: me.user_id, display_name: me.display_name },
                            target_id: req.sender_id,
                        },
                    ),
                )
            } else {
                Err(msg_request_not_found())
            }
        },
    }
}

/// Accepts a pending friend request. Returns the acceptance to send.
pub fn accept_friend_request(data: &mut AppData, request_id: String) -> (res: Result<NetworkCommand, String>)
    ensures
        match accept_spec(old(data)@, request_id@) {
            Ok((d, p)) => res matches Ok(c) && c@ == p && final(data)@ == d,
            Err(e) => res matches Err(m) && m@ == e && final(data)@ == old(data)@,
        },
{
    let ghost d0 = data@;
    let identity = match current_identity(data) {
        Some(i) => i,
        None => {
            return Err("No active session.".to_owned());
        },
    };
    let ghost rv = data.pending_requests@.map_values(|r: FriendRequest| r@);
    let mut pos: usize = 0;
    while pos < data.pending_requests.len()
        invariant
            pos <= data.pending_requests@.len(),
            rv == data.pending_requests@.map_values(|r: FriendRequest| r@),
            forall|j: int| 0 <= j < pos ==> (#[trigger] rv[j]).id != request_id@,
        ensures
            pos < data.pending_requests@.len() ==> rv[pos as int].id == request_id@,
        decreases data.pending_requests@.len() - pos,
    {
        if data.pending_requests[pos].id == request_id {
            break;
        }
        pos = pos + 1;
    }
    if pos == data.pending_requests.len() {
        assert(!exists|i: int| is_first_request(d0.pending_requests, request_id@, i));
        return Err("Friend request not found.".to_owned());
    }
    assert(is_first_request(rv, request_id@, pos as int));
    proof {
        let k = choose|i: int| is_first_request(d0.pending_requests, request_id@, i);
        assert(k == pos as int);
    }
    let req = data.pending_requests.remove(pos);
    assert(data.pending_requests@.map_values(|r: FriendRequest| r@) =~= rv.remove(pos as int));
    let sender_id = req.sender_id.clone();
    let friend = Friend { user_id: req.sender_id, display_name: req.sender_name };
    if !contains_friend(&data.friends, &friend.user_id) {
        let ghost before = data.friends@;
        let ghost fv = friend@;
        data.friends.push(friend);
        assert(data.friends@.map_values(|f: Friend| f@) =~= before.map_values(|f: Friend| f@).push(fv));
    }
    Ok(
        NetworkCommand::SendPacket(
            NetworkPacket::FriendAcceptPacket {
                friend: Friend { user_id: identity.user_id, display_name: identity.display_name },
                target_id: sender_id,
            },
        ),
    )
}

// ---------------------------------------------------------------------------
// Groups and channels
// ---------------------------------------------------------------------------

/// The channel every new or joined group starts with.
pub open spec fn general_channel(nonce: Seq<u8>) -> ChannelV {
    ChannelV { id: "ch-"@ + hex_lower(nonce), name: "general"@, category: "TEXT CHANNELS"@ }
}

/// The `general` channel, with ID `ch-` and the hex of `nonce`.
fn general_channel_with_id(nonce: &[u8]) -> (res: Channel)
    ensures
        res@ == general_channel(nonce@),
{
    Channel {
        id: prefixed_hex_id("ch-", nonce),
        name: "general".to_owned(),
        category: "TEXT CHANNELS".to_owned(),
    }
}

/// A list holding one string.
fn single_string(s: String) -> (res: Vec<String>)
    ensures
        strings_view(res@) == seq![s@],
{
    let mut v: Vec<String> = Vec::new();
    v.push(s);
    assert(strings_view(v@) =~= seq![s@]);
    v
}

/// A list holding one channel.
fn single_channel(c: Channel) -> (res: Vec<Channel>)
    ensures
        res@.map_values(|x: Channel| x@) == seq![c@],
{
    let mut v: Vec<Channel> = Vec::new();
    v.push(c);
    assert(v@.map_values(|x: Channel| x@) =~= seq![c@]);
    v
}

/// Appends a group and states the new view.
fn push_group(data: &mut AppData, g: Group)
    ensures
        final(data)@ == (AppDataV { groups: old(data)@.groups.push(g@), ..old(data)@ }),
{
    let ghost before = data.groups@;
    let ghost gv = g@;
    data.groups.push(g);
    assert(data.groups@.map_values(|x: Group| x@) =~= before.map_values(|x: Group| x@).push(gv));
}

/// What `create_group` does when its random bytes are `group_nonce` (six)
/// and `channel_nonce` (four): a group owned by the user, with the user as
/// its only member and one `general` channel.
pub open spec fn create_group_spec(d: AppDataV, name: Seq<char>, group_nonce: Seq<u8>, channel_nonce: Seq<u8>) -> Result<AppDataV, Seq<char>> {
    match d.identity {
        None => Err(msg_no_session()),
        Some(me) => Ok(
            AppDataV {
                groups: d.groups.push(
                    GroupV {
                        id: "zd-grp-"@ + hex_lower(group_nonce),
                        name,
                        owner_id: me.user_id,
                        channels: seq![general_channel(channel_nonce)],
                        members: seq![me.user_id],
                    },
                ),
                ..d
            },
        ),
    }
}

/// `create_group` with its identifiers made of the given bytes.
pub fn create_group_with_ids(data: &mut AppData, name: String, group_nonce: &[u8], channel_nonce: &[u8]) -> (res: Result<(), String>)
    ensures
        match create_group_spec(old(data)@, name@, group_nonce@, channel_nonce@) {
            Ok(d) => res is Ok && final(data)@ == d,
            Err(e) => res matches Err(m) && m@ == e && final(data)@ == old(data)@,
        },
{
    let user_id = match &data.identity {
        Some(i) => i.user_id.clone(),
        None => {
            return Err("No active session.".to_owned());
        },
    };
    let group = Group {
        id: prefixed_hex_id("zd-grp-", group_nonce),
        name,
        owner_id: user_id.clone(),
        channels: single_channel(general_channel_with_id(channel_nonce)),
        members: single_string(user_id),
    };
    push_group(data, group);
    Ok(())
}

/// Creates a group owned by the user, with random IDs: whatever bytes were
/// drawn, the result is `create_group_spec` for six and four of them.
pub fn create_group(data: &mut AppData, name: String) -> (res: Result<(), String>)
    ensures
        old(data)@.identity is None ==> (res matches Err(m) && m@ == msg_no_session() && final(data)@
            == old(data)@),
        old(data)@.identity is Some ==> res is Ok && exists|gn: Seq<u8>, cn: Seq<u8>|
            gn.len() == 6 && cn.len() == 4 && #[trigger] create_group_spec(old(data)@, name@, gn, cn)
                == Ok::<AppDataV, Seq<char>>(final(data)@),
{
    if data.identity.is_none() {
        return Err("No active session.".to_owned());
    }
    let group_nonce = random_bytes(6);
    let channel_nonce = random_bytes(4);
    create_group_with_ids(data, name, group_nonce.as_slice(), channel_nonce.as_slice())
}

/// What `join_group` does when its random bytes are `channel_nonce`: the
/// group with the trimmed ID is added, unless the ID is blank or already
/// one of the user's groups.
pub open spec fn join_group_spec(d: AppDataV, group_id: Seq<char>, channel_nonce: Seq<u8>) -> Result<AppDataV, Seq<char>> {
    match d.identity {
        None => Err(msg_no_session()),
        Some(me) => {
            let id = trim(group_id);
            if id.len() == 0 {
                Err(msg_group_id_empty())
            } else if has_group(d.groups, id) {
                Err(msg_already_member())
            } else {
                Ok(
                    AppDataV {
                        groups: d.groups.push(
                            GroupV {
                                id,
                                name: "Joined Mesh Group"@,
                                owner_id: "remote_owner"@,
                                channels: seq![general_channel(channel_nonce)],
                                members: seq![me.user_id],
                            },
                        ),
                        ..d
                    },
                )
            }
        },
    }
}

/// `join_group` with the channel ID made of the given bytes.
pub fn join_group_with_id(data: &mut AppData, group_id: String, channel_nonce: &[u8]) -> (res: Result<(), String>)
    ensures
        match join_group_spec(old(data)@, group_id@, channel_nonce@) {
            Ok(d) => res is Ok && final(data)@ == d,
            Err(e) => res matches Err(m) && m@ == e && final(data)@ == old(data)@,
        },
{
    let user_id = match &data.identity {
        Some(i) => i.user_id.clone(),
        None => {
            return Err("No active session.".to_owned());
        },
    };
    let clean_group_id = trimmed(group_id.as_str());
    if clean_group_id.as_str().is_empty() {
        return Err("Group ID link cannot be empty.".to_owned());
    }
    let found = find_group(&data.groups, &clean_group_id);
    if let Some(i) = found {
        assert(data@.groups[i as int].id == clean_group_id@);
        return Err("You are already a member of this group.".to_owned());
    }
    let group = Group {
        id: clean_group_id,
        name: "Joined Mesh Group".to_owned(),
        owner_id: "remote_owner".to_owned(),
        channels: single_channel(general_channel_with_id(channel_nonce)),
        members: single_string(user_id),
    };
    push_group(data, group);
    Ok(())
}

/// Why `join_group` refuses, whatever its random bytes.
pub open spec fn join_group_refusal(d: AppDataV, group_id: Seq<char>) -> Option<Seq<char>> {
    match join_group_spec(d, group_id, Seq::empty()) {
        Err(e) => Some(e),
        Ok(_) => None,
    }
}

/// Joins a group by its ID: whatever bytes were drawn for the channel ID,
/// the result is `join_group_spec` for four of them.
pub fn join_group(data: &mut AppData, group_id: String) -> (res: Result<(), String>)
    ensures
        join_group_refusal(old(data)@, group_id@) matches Some(e) ==> (res matches Err(m) && m@ == e
            && final(data)@ == old(data)@),
        join_group_refusal(old(data)@, group_id@) is None ==> res is Ok && exists|cn: Seq<u8>|
            cn.len() == 4 && #[trigger] join_group_spec(old(data)@, group_id@, cn) == Ok::<
                AppDataV,
                Seq<char>,
            >(final(data)@),
{
    let nonce = random_bytes(4);
    join_group_with_id(data, group_id, nonce.as_slice())
}

/// The groups without those whose ID is `group_id`.
pub open spec fn groups_without(groups: Seq<GroupV>, group_id: Seq<char>) -> Seq<GroupV> {
    groups.filter(|g: GroupV| g.id != group_id)
}

/// Removes every group whose ID is `group_id`.
fn remove_groups(data: &mut AppData, group_id: &String)
    ensures
        final(data)@ == (AppDataV { groups: groups_without(old(data)@.groups, group_id@), ..old(data)@ }),
{
    let ghost gv = data.groups@.map_values(|g: Group| g@);
    let ghost pred = |g: GroupV| g.id != group_id@;
    let mut rest: Vec<Group> = Vec::new();
    std::mem::swap(&mut rest, &mut data.groups);
    assert(rest@.map_values(|g: Group| g@) == gv);
    let n = rest.len();
    let mut kept: Vec<Group> = Vec::new();
    let mut i: usize = 0;
    while i < n
        invariant
            i <= n,
            n == gv.len(),
            rest@.len() == n - i,
            forall|j: int| 0 <= j < n - i ==> (#[trigger] rest@[j])@ == gv[i + j],
            kept@.map_values(|g: Group| g@) == gv.take(i as int).filter(pred),
            pred == (|g: GroupV| g.id != group_id@),
        decreases n - i,
    {
        let g = rest.remove(0);
        assert(g@ == gv[i as int]);
        reveal_with_fuel(Seq::<_>::filter, 1);
        assert(gv.take(i + 1).drop_last() =~= gv.take(i as int));
        assert(gv.take(i + 1).last() == gv[i as int]);
        assert(gv.take(i + 1).filter(pred) == if pred(gv[i as int]) {
            gv.take(i as int).filter(pred).push(gv[i as int])
        } else {
            gv.take(i as int).filter(pred)
        });
        let ghost before = kept@;
        if g.id != *group_id {
            let ghost v = g@;
            kept.push(g);
            assert(kept@.map_values(|x: Group| x@) =~= before.map_values(|x: Group| x@).push(v));
        }
        i = i + 1;
    }
    assert(gv.take(n as int) =~= gv);
    data.groups = kept;
    assert(gv.filter(pred) == groups_without(gv, group_id@));
}

/// Leaves a group: every group with that ID is forgotten.
pub fn leave_group(data: &mut AppData, group_id: String)
    ensures
        final(data)@ == (AppDataV { groups: groups_without(old(data)@.groups, group_id@), ..old(data)@ }),
{
    remove_groups(data, &group_id);
}

/// `i` is the position of the first group with ID `id`.
pub open spec fn is_first_group(groups: Seq<GroupV>, id: Seq<char>, i: int) -> bool {
    &&& 0 <= i < groups.len()
    &&& groups[i].id == id
    &&& forall|j: int| 0 <= j < i ==> (#[trigger] groups[j]).id != id
}

/// The first group with ID `id` is owned by someone other than `user_id`.
pub open spec fn first_group_owned_by_other(groups: Seq<GroupV>, id: Seq<char>, user_id: Seq<char>) -> bool {
    exists|i: int| #[trigger] is_first_group(groups, id, i) && groups[i].owner_id != user_id
}

/// What `delete_group` does: refused when the first group with that ID is
/// someone else's; otherwise every group with that ID is removed.
pub open spec fn delete_group_spec(d: AppDataV, group_id: Seq<char>) -> Result<AppDataV, Seq<char>> {
    match d.identity {
        None => Err(msg_no_session()),
        Some(me) => {
            if first_group_owned_by_other(d.groups, group_id, me.user_id) {
                Err(msg_delete_not_owner())
            } else {
                Ok(AppDataV { groups: groups_without(d.groups, group_id), ..d })
            }
        },
    }
}

/// Deletes a group the user owns.
pub fn delete_group(data: &mut AppData, group_id: String) -> (res: Result<(), String>)
    ensures
        match delete_group_spec(old(data)@, group_id@) {
            Ok(d) => res is Ok && final(data)@ == d,
            Err(e) => res matches Err(m) && m@ == e && final(data)@ == old(data)@,
        },
{
    let current_user_id = match &data.identity {
        Some(i) => i.user_id.clone(),
        None => {
            return Err("No active session.".to_owned());
        },
    };
    let found = find_group(&data.groups, &group_id);
    let ghost gv = data@.groups;
    match found {
        Some(i) => {
            assert(is_first_group(gv, group_id@, i as int));
            if data.groups[i].owner_id != current_user_id {
                return Err("Permission denied: Only the group owner can delete this group.".to_owned());
            }
            assert forall|k: int| #[trigger] is_first_group(gv, group_id@, k) implies gv[k].owner_id
                == current_user_id@ by {
                assert(k == i as int);
            }
        },
        None => {
            assert forall|k: int| #[trigger] is_first_group(gv, group_id@, k) implies false by {
                assert(gv[k].id == group_id@);
            }
        },
    }
    remove_groups(data, &group_id);
    Ok(())
}

/// The category a new channel is filed under: the given one, or
/// `TEXT CHANNELS` when it is blank.
pub open spec fn channel_category(category: Seq<char>) -> Seq<char> {
    if trim(category).len() == 0 {
        "TEXT CHANNELS"@
    } else {
        category
    }
}

/// What `create_channel` does when its random bytes are `nonce`: a channel
/// is appended to the first group with the given ID, which the user must
/// own.
pub open spec fn create_channel_spec(d: AppDataV, group_id: Seq<char>, channel_name: Seq<char>, category: Seq<char>, nonce: Seq<u8>) -> Result<AppDataV, Seq<char>> {
    match d.identity {
        None => Err(msg_no_session()),
        Some(me) => {
            if exists|i: int| is_first_group(d.groups, group_id, i) {
                let i = choose|i: int| is_first_group(d.groups, group_id, i);
                let g = d.groups[i];
                if g.owner_id != me.user_id {
                    Err(msg_channel_not_owner())
                } else {
                    let c = ChannelV {
                        id: "ch-"@ + hex_lower(nonce),
                        name: channel_name,
                        category: channel_category(category),
                    };
                    Ok(AppDataV { groups: d.groups.update(i, GroupV { channels: g.channels.push(c), ..g }), ..d })
                }
            } else {
                Err(msg_group_not_found())
            }
        },
    }
}

/// Why `create_channel` refuses, whatever its random bytes.
pub open spec fn create_channel_refusal(d: AppDataV, group_id: Seq<char>) -> Option<Seq<char>> {
    match create_channel_spec(d, group_id, Seq::empty(), Seq::empty(), Seq::empty()) {
        Err(e) => Some(e),
        Ok(_) => None,
    }
}

/// `create_channel` with the channel ID made of the given bytes.
pub fn create_channel_with_id(data: &mut AppData, group_id: String, channel_name: String, category: String, nonce: &[u8]) -> (res: Result<(), String>)
    ensures
        match create_channel_spec(old(data)@, group_id@, channel_name@, category@, nonce@) {
            Ok(d) => res is Ok && final(data)@ == d,
            Err(e) => res matches Err(m) && m@ == e && final(data)@ == old(data)@,
        },
{
    let ghost d0 = data@;
    let user_id = match &data.identity {
        Some(i) => i.user_id.clone(),
        None => {
            return Err("No active session.".to_owned());
        },
    };
    let found = find_group(&data.groups, &group_id);
    let i = match found {
        Some(i) => i,
        None => {
            assert forall|k: int| #[trigger] is_first_group(d0.groups, group_id@, k) implies false by {
                assert(d0.groups[k].id == group_id@);
            }
            return Err("Group not found.".to_owned());
        },
    };
    assert(is_first_group(d0.groups, group_id@, i as int));
    proof {
        let k = choose|k: int| is_first_group(d0.groups, group_id@, k);
        assert(k == i as int);
    }
    if data.groups[i].owner_id != user_id {
        return Err("Only the group owner can create channels.".to_owned());
    }
    let clean_category = trimmed(category.as_str());
    let new_category = if clean_category.as_str().is_empty() {
        "TEXT CHANNELS".to_owned()
    } else {
        category
    };
    let new_channel = Channel { id: prefixed_hex_id("ch-", nonce), name: channel_name, category: new_category };
    let ghost cv = new_channel@;
    let mut group = data.groups.remove(i);
    let ghost gold = group@;
    group.channels.push(new_channel);
    assert(group@.channels =~= gold.channels.push(cv));
    let ghost gnew = group@;
    data.groups.insert(i, group);
    assert(data.groups@.map_values(|g: Group| g@) =~= d0.groups.update(i as int, gnew));
    Ok(())
}

/// Adds a channel to a group the user owns: whatever bytes were drawn for
/// its ID, the result is `create_channel_spec` for four of them.
pub fn create_channel(data: &mut AppData, group_id: String, channel_name: String, category: String) -> (res: Result<(), String>)
    ensures
        create_channel_refusal(old(data)@, group_id@) matches Some(e) ==> (res matches Err(m) && m@ == e
            && final(data)@ == old(data)@),
        create_channel_refusal(old(data)@, group_id@) is None ==> res is Ok && exists|n: Seq<u8>|
            n.len() == 4 && #[trigger] create_channel_spec(old(data)@, group_id@, channel_name@, category@, n)
                == Ok::<AppDataV, Seq<char>>(final(data)@),
{
    let nonce = random_bytes(4);
    create_channel_with_id(data, group_id, channel_name, category, nonce.as_slice())
}

// ---------------------------------------------------------------------------
// Messages
// ---------------------------------------------------------------------------

/// The message the user sends when its random bytes are `nonce`.
pub open spec fn message_of(me: IdentityDataV, target_id: Seq<char>, channel_id: Option<Seq<char>>, content: Seq<char>, timestamp: u64, nonce: Seq<u8>) -> MessageV {
    MessageV {
        id: "msg-"@ + hex_lower(nonce),
        sender_id: me.user_id,
        sender_name: me.display_name,
        target_id,
        channel_id,
        content,
        timestamp,
    }
}

/// `send_message` with the message ID made of the given bytes: the message
/// is kept and returned as a command for the network task.
pub fn send_message_with_id(data: &mut AppData, target_id: String, channel_id: Option<String>, content: String, timestamp: u64, nonce: &[u8]) -> (res: Result<NetworkCommand, String>)
    ensures
        match old(data)@.identity {
            None => res matches Err(m) && m@ == msg_no_session() && final(data)@ == old(data)@,
            Some(me) => {
                let msg = message_of(me, target_id@, opt_string_view(channel_id), content@, timestamp, nonce@);
                &&& res matches Ok(c) && c@ == (NetworkPacketV::ChatMessagePacket { message: msg })
                &&& final(data)@ == (AppDataV { messages: old(data)@.messages.push(msg), ..old(data)@ })
            },
        },
{
    let identity = match current_identity(data) {
        Some(i) => i,
        None => {
            return Err("No active session.".to_owned());
        },
    };
    let msg = Message {
        id: prefixed_hex_id("msg-", nonce),
        sender_id: identity.user_id,
        sender_name: identity.display_name,
        target_id,
        channel_id,
        content,
        timestamp,
    };
    let ghost mv = msg@;
    let ghost before = data.messages@;
    data.messages.push(msg.clone());
    assert(data.messages@.map_values(|m: Message| m@) =~= before.map_values(|m: Message| m@).push(mv));
    Ok(NetworkCommand::SendPacket(NetworkPacket::ChatMessagePacket { message: msg }))
}

/// Sends a chat message stamped `timestamp` (seconds since the Unix epoch):
/// whatever bytes were drawn for its ID, it is `message_of` six of them.
pub fn send_message(data: &mut AppData, target_id: String, channel_id: Option<String>, content: String, timestamp: u64) -> (res: Result<NetworkCommand, String>)
    ensures
        match old(data)@.identity {
            None => res matches Err(m) && m@ == msg_no_session() && final(data)@ == old(data)@,
            Some(me) => res matches Ok(c) && exists|n: Seq<u8>|
                n.len() == 6 && c@ == (NetworkPacketV::ChatMessagePacket {
                    message: #[trigger] message_of(me, target_id@, opt_string_view(channel_id), content@, timestamp, n),
                }) && final(data)@ == (AppDataV {
                    messages: old(data)@.messages.push(message_of(me, target_id@, opt_string_view(channel_id), content@, timestamp, n)),
                    ..old(data)@
                }),
        },
{
    if data.identity.is_none() {
        return Err("No active session.".to_owned());
    }
    let nonce = random_bytes(6);
    send_message_with_id(data, target_id, channel_id, content, timestamp, nonce.as_slice())
}

} // verus!
