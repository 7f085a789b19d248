//! The persistent application state and its mathematical model.
//!
//! Each record has a view made of character sequences; the contracts of the
//! library speak of those views. Reading and writing the JSON file that holds
//! an `AppData` is I/O and stays outside this crate; `StorageManager` only
//! remembers where that file is.

use vstd::prelude::*;

verus! {

/// The account of the local user, as it is stored.
#[derive(Debug)]
pub struct IdentityData {
    pub display_name: String,
    pub user_id: String,
    pub seed_phrase: String,
    pub public_key_hex: String,
}

/// A contact.
#[derive(Debug)]
pub struct Friend {
    pub user_id: String,
    pub display_name: String,
}

/// A friend request, received or sent.
#[derive(Debug)]
pub struct FriendRequest {
    pub id: String,
    pub sender_id: String,
    pub sender_name: String,
    pub target_id: String,
}

/// A channel of a group.
#[derive(Debug)]
pub struct Channel {
    pub id: String,
    pub name: String,
    pub category: String,
}

/// A group the local user belongs to.
#[derive(Debug)]
pub struct Group {
    pub id: String,
    pub name: String,
    pub owner_id: String,
    pub channels: Vec<Channel>,
    pub members: Vec<String>,
}

/// A chat message, sent or received.
#[derive(Debug)]
pub struct Message {
    pub id: String,
    pub sender_id: String,
    pub sender_name: String,
    pub target_id: String,
    pub channel_id: Option<String>,
    pub content: String,
    pub timestamp: u64,
}

/// Everything the client keeps between runs.
#[derive(Debug)]
pub struct AppData {
    pub identity: Option<IdentityData>,
    pub friends: Vec<Friend>,
    pub pending_requests: Vec<FriendRequest>,
    pub groups: Vec<Group>,
    pub messages: Vec<Message>,
    pub bootstrap_nodes: Vec<String>,
}

/// Knows the path of the file that holds the saved `AppData`.
#[derive(Debug)]
pub struct StorageManager {
    file_path: String,
}

// ---------------------------------------------------------------------------
// Views
// ---------------------------------------------------------------------------

/// The view of an `IdentityData`.
pub struct IdentityDataV {
    pub display_name: Seq<char>,
    pub user_id: Seq<char>,
    pub seed_phrase: Seq<char>,
    pub public_key_hex: Seq<char>,
}

/// The view of a `Friend`.
pub struct FriendV {
    pub user_id: Seq<char>,
    pub display_name: Seq<char>,
}

/// The view of a `FriendRequest`.
pub struct FriendRequestV {
    pub id: Seq<char>,
    pub sender_id: Seq<char>,
    pub sender_name: Seq<char>,
    pub target_id: Seq<char>,
}

/// The view of a `Channel`.
pub struct ChannelV {
    pub id: Seq<char>,
    pub name: Seq<char>,
    pub category: Seq<char>,
}

/// The view of a `Group`: its channels and members by their views.
pub struct GroupV {
    pub id: Seq<char>,
    pub name: Seq<char>,
    pub owner_id: Seq<char>,
    pub channels: Seq<ChannelV>,
    pub members: Seq<Seq<char>>,
}

/// The view of a `Message`.
pub struct MessageV {
    pub id: Seq<char>,
    pub sender_id: Seq<char>,
    pub sender_name: Seq<char>,
    pub target_id: Seq<char>,
    pub channel_id: Option<Seq<char>>,
    pub content: Seq<char>,
    pub timestamp: u64,
}

/// The view of an `AppData`: every list by the views of its items.
pub struct AppDataV {
    pub identity: Option<IdentityDataV>,
    pub friends: Seq<FriendV>,
    pub pending_requests: Seq<FriendRequestV>,
    pub groups: Seq<GroupV>,
    pub messages: Seq<MessageV>,
    pub bootstrap_nodes: Seq<Seq<char>>,
}

/// The views of a vector of strings.
pub open spec fn strings_view(v: Seq<String>) -> Seq<Seq<char>> {
    v.map_values(|s: String| s@)
}

/// The view of an optional string.
pub open spec fn opt_string_view(o: Option<String>) -> Option<Seq<char>> {
    match o {
        Some(s) => Some(s@),
        None => None,
    }
}

impl View for IdentityData {
    type V = IdentityDataV;

    open spec fn view(&self) -> IdentityDataV {
        IdentityDataV {
            display_name: self.display_name@,
            user_id: self.user_id@,
            seed_phrase: self.seed_phrase@,
            public_key_hex: self.public_key_hex@,
        }
    }
}

impl View for Friend {
    type V = FriendV;

    open spec fn view(&self) -> FriendV {
        FriendV { user_id: self.user_id@, display_name: self.display_name@ }
    }
}

impl View for FriendRequest {
    type V = FriendRequestV;

    open spec fn view(&self) -> FriendRequestV {
        FriendRequestV {
            id: self.id@,
            sender_id: self.sender_id@,
            sender_name: self.sender_name@,
            target_id: self.target_id@,
        }
    }
}

impl View for Channel {
    type V = ChannelV;

    open spec fn view(&self) -> ChannelV {
        ChannelV { id: self.id@, name: self.name@, category: self.category@ }
    }
}

impl View for Group {
    type V = GroupV;

    open spec fn view(&self) -> GroupV {
        GroupV {
            id: self.id@,
            name: self.name@,
            owner_id: self.owner_id@,
            channels: self.channels@.map_values(|c: Channel| c@),
            members: strings_view(self.members@),
        }
    }
}

impl View for Message {
    type V = MessageV;

    open spec fn view(&self) -> MessageV {
        MessageV {
            id: self.id@,
            sender_id: self.sender_id@,
            sender_name: self.sender_name@,
            target_id: self.target_id@,
            channel_id: opt_string_view(self.channel_id),
            content: self.content@,
            timestamp: self.timestamp,
        }
    }
}

impl View for AppData {
    type V = AppDataV;

    open spec fn view(&self) -> AppDataV {
        AppDataV {
            identity: match self.identity {
                Some(i) => Some(i@),
                None => None,
            },
            friends: self.friends@.map_values(|f: Friend| f@),
            pending_requests: self.pending_requests@.map_values(|r: FriendRequest| r@),
            groups: self.groups@.map_values(|g: Group| g@),
            messages: self.messages@.map_values(|m: Message| m@),
            bootstrap_nodes: strings_view(self.bootstrap_nodes@),
        }
    }
}

/// The state of a fresh installation: no account and empty lists.
pub open spec fn empty_app_data() -> AppDataV {
    AppDataV {
        identity: None,
        friends: Seq::empty(),
        pending_requests: Seq::empty(),
        groups: Seq::empty(),
        messages: Seq::empty(),
        bootstrap_nodes: Seq::empty(),
    }
}

// ---------------------------------------------------------------------------
// Copies
// ---------------------------------------------------------------------------

impl Clone for IdentityData {
    fn clone(&self) -> (res: Self)
        ensures
            res == *self,
    {
        IdentityData {
            display_name: self.display_name.clone(),
            user_id: self.user_id.clone(),
            seed_phrase: self.seed_phrase.clone(),
            public_key_hex: self.public_key_hex.clone(),
        }
    }
}

impl Clone for Friend {
    fn clone(&self) -> (res: Self)
        ensures
            res == *self,
    {
        Friend { user_id: self.user_id.clone(), display_name: self.display_name.clone() }
    }
}

impl Clone for FriendRequest {
    fn clone(&self) -> (res: Self)
        ensures
            res == *self,
    {
        FriendRequest {
            id: self.id.clone(),
            sender_id: self.sender_id.clone(),
            sender_name: self.sender_name.clone(),
            target_id: self.target_id.clone(),
        }
    }
}

impl Clone for Channel {
    fn clone(&self) -> (res: Self)
        ensures
            res == *self,
    {
        Channel { id: self.id.clone(), name: self.name.clone(), category: self.category.clone() }
    }
}

impl Clone for Group {
    fn clone(&self) -> (res: Self)
        ensures
            res@ == self@,
    {
        let channels = self.channels.clone();
        let members = self.members.clone();
        assert(channels@ =~= self.channels@);
        assert(members@ =~= self.members@);
        Group {
            id: self.id.clone(),
            name: self.name.clone(),
            owner_id: self.owner_id.clone(),
            channels,
            members,
        }
    }
}

impl Clone for Message {
    fn clone(&self) -> (res: Self)
        ensures
            res == *self,
    {
        Message {
            id: self.id.clone(),
            sender_id: self.sender_id.clone(),
            sender_name: self.sender_name.clone(),
            target_id: self.target_id.clone(),
            channel_id: self.channel_id.clone(),
            content: self.content.clone(),
            timestamp: self.timestamp,
        }
    }
}

impl Clone for AppData {
    fn clone(&self) -> (res: Self)
        ensures
            res@ == self@,
    {
        let identity = match &self.identity {
            Some(i) => Some(i.clone()),
            None => None,
        };
        let friends = self.friends.clone();
        let pending_requests = self.pending_requests.clone();
        let groups = clone_groups(&self.groups);
        let messages = self.messages.clone();
        let bootstrap_nodes = self.bootstrap_nodes.clone();
        assert(friends@ =~= self.friends@);
        assert(pending_requests@ =~= self.pending_requests@);
        assert(messages@ =~= self.messages@);
        assert(bootstrap_nodes@ =~= self.bootstrap_nodes@);
        let res = AppData { identity, friends, pending_requests, groups, messages, bootstrap_nodes };
        assert(res@.groups =~= self@.groups);
        res
    }
}

/// A copy of a list of groups, element by element.
fn clone_groups(groups: &Vec<Group>) -> (res: Vec<Group>)
    ensures
        res@.map_values(|g: Group| g@) == groups@.map_values(|g: Group| g@),
{
    let mut res: Vec<Group> = Vec::new();
    let mut i: usize = 0;
    while i < groups.len()
        invariant
            i <= groups@.len(),
            res@.len() == i,
            forall|j: int| 0 <= j < i ==> (#[trigger] res@[j])@ == groups@[j]@,
        decreases groups@.len() - i,
    {
        res.push(groups[i].clone());
        i = i + 1;
    }
    assert(res@.map_values(|g: Group| g@) =~= groups@.map_values(|g: Group| g@));
    res
}

impl AppData {
    /// A fresh state: no account and empty lists.
    pub fn new() -> (res: AppData)
        ensures
            res@ == empty_app_data(),
    {
        let res = AppData {
            identity: None,
            friends: Vec::new(),
            pending_requests: Vec::new(),
            groups: Vec::new(),
            messages: Vec::new(),
            bootstrap_nodes: Vec::new(),
        };
        assert(res@.friends =~= Seq::<FriendV>::empty());
        assert(res@.pending_requests =~= Seq::<FriendRequestV>::empty());
        assert(res@.groups =~= Seq::<GroupV>::empty());
        assert(res@.messages =~= Seq::<MessageV>::empty());
        assert(res@.bootstrap_nodes =~= Seq::<Seq<char>>::empty());
        res
    }

    /// What loading the saved state yields: the parsed state when the file
    /// could be read and parsed, else a fresh state.
    pub fn from_loaded(parsed: Option<AppData>) -> (res: AppData)
        ensures
            match parsed {
                Some(d) => res@ == d@,
                None => res@ == empty_app_data(),
            },
    {
        match parsed {
            Some(d) => d,
            None => AppData::new(),
        }
    }
}

impl Default for AppData {
    fn default() -> (res: AppData)
        ensures
            res@ == empty_app_data(),
    {
        AppData::new()
    }
}

impl StorageManager {
    /// A manager for the state file at `file_path`.
    pub fn at_path(file_path: String) -> (res: StorageManager)
        ensures
            res.path()@ == file_path@,
    {
        StorageManager { file_path }
    }

    /// The path of the state file.
    pub closed spec fn path(&self) -> String {
        self.file_path
    }

    /// The path of the state file.
    pub fn file_path(&self) -> (res: &String)
        ensures
            res@ == self.path()@,
    {
        &self.file_path
    }
}

// ---------------------------------------------------------------------------
// Lookups
// ---------------------------------------------------------------------------

/// Some friend has account ID `id`.
pub open spec fn has_friend(friends: Seq<FriendV>, id: Seq<char>) -> bool {
    exists|i: int| 0 <= i < friends.len() && (#[trigger] friends[i]).user_id == id
}

/// Some pending request was sent by `sender`.
pub open spec fn has_request_from(requests: Seq<FriendRequestV>, sender: Seq<char>) -> bool {
    exists|i: int| 0 <= i < requests.len() && (#[trigger] requests[i]).sender_id == sender
}

/// Some group has ID `id`.
pub open spec fn has_group(groups: Seq<GroupV>, id: Seq<char>) -> bool {
    exists|i: int| 0 <= i < groups.len() && (#[trigger] groups[i]).id == id
}

/// Some message has ID `id`.
pub open spec fn has_message(messages: Seq<MessageV>, id: Seq<char>) -> bool {
    exists|i: int| 0 <= i < messages.len() && (#[trigger] messages[i]).id == id
}

/// `s` is one of `items`.
pub open spec fn has_text(items: Seq<Seq<char>>, s: Seq<char>) -> bool {
    exists|i: int| 0 <= i < items.len() && items[i] == s
}

/// Decides `has_friend`.
pub fn contains_friend(friends: &Vec<Friend>, id: &String) -> (b: bool)
    ensures
        b == has_friend(friends@.map_values(|f: Friend| f@), id@),
{
    let ghost v = friends@.map_values(|f: Friend| f@);
    let mut i: usize = 0;
    while i < friends.len()
        invariant
            i <= friends@.len(),
            v == friends@.map_values(|f: Friend| f@),
            forall|j: int| 0 <= j < i ==> v[j].user_id != id@,
        decreases friends@.len() - i,
    {
        if friends[i].user_id == *id {
            assert(v[i as int].user_id == id@);
            return true;
        }
        i = i + 1;
    }
    false
}

/// Decides `has_request_from`.
pub fn contains_request_from(requests: &Vec<FriendRequest>, sender: &String) -> (b: bool)
    ensures
        b == has_request_from(requests@.map_values(|r: FriendRequest| r@), sender@),
{
    let ghost v = requests@.map_values(|r: FriendRequest| r@);
    let mut i: usize = 0;
    while i < requests.len()
        invariant
            i <= requests@.len(),
            v == requests@.map_values(|r: FriendRequest| r@),
            forall|j: int| 0 <= j < i ==> v[j].sender_id != sender@,
        decreases requests@.len() - i,
    {
        if requests[i].sender_id == *sender {
            assert(v[i as int].sender_id == sender@);
            return true;
        }
        i = i + 1;
    }
    false
}

/// The index of the first group with ID `id`, if any.
pub fn find_group(groups: &Vec<Group>, id: &String) -> (res: Option<usize>)
    ensures
        match res {
            Some(i) => i < groups@.len() && groups@[i as int].id@ == id@ && forall|j: int|
                0 <= j < i ==> (#[trigger] groups@[j]).id@ != id@,
            None => !has_group(groups@.map_values(|g: Group| g@), id@),
        },
{
    let ghost v = groups@.map_values(|g: Group| g@);
    let mut i: usize = 0;
    while i < groups.len()
        invariant
            i <= groups@.len(),
            v == groups@.map_values(|g: Group| g@),
            forall|j: int| 0 <= j < i ==> (#[trigger] groups@[j]).id@ != id@,
        decreases groups@.len() - i,
    {
        if groups[i].id == *id {
            return Some(i);
        }
        i = i + 1;
    }
    assert forall|j: int| 0 <= j < v.len() implies (#[trigger] v[j]).id != id@ by {
        assert(v[j].id == groups@[j].id@);
    }
    None
}

/// Decides `has_message`.
pub fn contains_message(messages: &Vec<Message>, id: &String) -> (b: bool)
    ensures
        b == has_message(messages@.map_values(|m: Message| m@), id@),
{
    let ghost v = messages@.map_values(|m: Message| m@);
    let mut i: usize = 0;
    while i < messages.len()
        invariant
            i <= messages@.len(),
            v == messages@.map_values(|m: Message| m@),
            forall|j: int| 0 <= j < i ==> v[j].id != id@,
        decreases messages@.len() - i,
    {
        if messages[i].id == *id {
            assert(v[i as int].id == id@);
            return true;
        }
        i = i + 1;
    }
    false
}

/// Decides `has_text`.
pub fn contains_text(items: &Vec<String>, s: &String) -> (b: bool)
    ensures
        b == has_text(strings_view(items@), s@),
{
    let ghost v = strings_view(items@);
    let mut i: usize = 0;
    while i < items.len()
        invariant
            i <= items@.len(),
            v == strings_view(items@),
            forall|j: int| 0 <= j < i ==> v[j] != s@,
        decreases items@.len() - i,
    {
        if items[i] == *s {
            assert(v[i as int] == s@);
            return true;
        }
        i = i + 1;
    }
    false
}

} // verus!
