//! What passes between a session and its caller: requests, actions, events and replies.
use vstd::prelude::*;
use openmls::prelude::{ProtocolMessage, StagedCommit, Welcome};

verus! {

/// A request to the bridge.
pub enum Request {
    /// Create a group led by the first member, with the others joining it.
    Init { group_id: String, members: Vec<String> },
    /// Have `actor_device_id` add `new_device_id` to the group.
    AddMember { group_id: String, actor_device_id: String, new_device_id: String },
    /// Have `actor_device_id` remove `remove_device_id` from the group.
    RemoveMember { group_id: String, actor_device_id: String, remove_device_id: String },
    /// Encrypt an application message (given in base64) as `sender_device_id`.
    Encrypt { group_id: String, sender_device_id: String, plaintext_base64: String },
    /// Decrypt a message (given in base64) as `receiver_device_id`.
    Decrypt { group_id: String, receiver_device_id: String, wire_base64: String },
    /// Report the group's epoch and members, as seen by `device_id` or by some device.
    GroupInfo { group_id: String, device_id: Option<String> },
}

/// A successful answer.
pub enum Reply {
    /// The group's epoch and members.
    Group { epoch: u64, members: Vec<String> },
    /// An encrypted message, in base64, and the epoch it was sent in.
    Wire { epoch: u64, wire_base64: String },
    /// A decrypted application message, in base64, and the epoch.
    Plaintext { epoch: u64, plaintext_base64: String },
}

/// One member of a group: its leaf index and the identity of its credential.
pub struct Member {
    pub index: u32,
    pub identity: Vec<u8>,
}

/// What the library reads of a group: its epoch and its members, in the group's order.
pub struct GroupView {
    pub epoch: u64,
    pub members: Vec<Member>,
}

/// Which open device an action is about: the one that acts for the request, or another
/// one that follows along.
#[derive(Clone, Copy, PartialEq, Eq, Structural)]
pub enum Slot {
    Primary,
    Secondary,
}

/// What the caller is asked to do next.
pub enum Action {
    /// Open the device's store and load or create its identity, into `slot`.
    OpenDevice { slot: Slot, device: String },
    /// List the device directories.
    ListDevices,
    /// Tell whether the listed directory `index` holds an identity record.
    CheckEntry { index: usize },
    /// Open the store in the listed directory `index`, into the secondary slot.
    OpenEntry { index: usize },
    /// Load the group from the store in `slot`.
    LoadGroup { slot: Slot, group_id: String },
    /// Create the group with the primary device as its only member.
    CreateGroup { group_id: String },
    /// Build a key package for the secondary device and keep it for the next addition.
    BuildKeyPackage,
    /// Have the primary device add the kept key packages' owners.
    AddMembers,
    /// Have the primary device remove the member with this leaf index.
    RemoveMember { index: u32 },
    /// Merge the primary device's pending commit.
    MergePending,
    /// Stage this welcome for the secondary device.
    StageWelcome { welcome: Welcome },
    /// Turn the staged welcome into the secondary device's group.
    JoinStaged,
    /// Process this message in the group of `slot`.
    ProcessMessage { slot: Slot, message: ProtocolMessage },
    /// Merge this staged commit into the secondary device's group.
    MergeStaged { commit: StagedCommit },
    /// Encrypt this application message in the primary device's group.
    CreateMessage { plaintext: Vec<u8> },
    /// The request is over, with this answer.
    Finish(Result<Reply, String>),
}

/// What came of processing a message.
pub enum Content {
    /// An application message, with its bytes.
    Application(Vec<u8>),
    /// A commit, staged for merging; `debug` describes the content.
    Commit { commit: StagedCommit, debug: String },
    /// Anything else; `debug` describes the content.
    Other(String),
}

/// What the caller reports back.
pub enum Event {
    /// The requested step succeeded.
    Done,
    /// The requested step failed; the message of what failed.
    Failed(String),
    /// The group in the slot, if the store holds it.
    Group(Option<GroupView>),
    /// The primary device added members; the commit and the welcome, serialized.
    Added { commit: Result<Vec<u8>, String>, welcome: Result<Vec<u8>, String> },
    /// The primary device removed a member; the commit, serialized.
    Removed { commit: Result<Vec<u8>, String> },
    /// A message was processed; what it held, and the group's epoch afterwards.
    Processed { content: Content, epoch: u64 },
    /// A message was encrypted; its serialization, and the group's epoch.
    Created { wire: Result<Vec<u8>, String>, epoch: u64 },
    /// The device directories, if there is a devices directory; for each, `None`, or the
    /// message of why it could not be read.
    Listed(Option<Vec<Option<String>>>),
    /// Whether the listed directory holds an identity record.
    Present(bool),
}

/// The model of a [`Request`].
pub enum RequestModel {
    Init { group_id: Seq<char>, members: Seq<Seq<char>> },
    AddMember { group_id: Seq<char>, actor: Seq<char>, newcomer: Seq<char> },
    RemoveMember { group_id: Seq<char>, actor: Seq<char>, target: Seq<char> },
    Encrypt { group_id: Seq<char>, sender: Seq<char>, plaintext_base64: Seq<char> },
    Decrypt { group_id: Seq<char>, receiver: Seq<char>, wire_base64: Seq<char> },
    GroupInfo { group_id: Seq<char>, device: Option<Seq<char>> },
}

/// The model of a [`Reply`].
pub enum ReplyModel {
    Group { epoch: u64, members: Seq<Seq<char>> },
    Wire { epoch: u64, wire_base64: Seq<char> },
    Plaintext { epoch: u64, plaintext_base64: Seq<char> },
}

/// The model of a [`Member`].
pub struct MemberModel {
    pub index: u32,
    pub identity: Seq<u8>,
}

/// The model of a [`GroupView`].
pub struct GroupModel {
    pub epoch: u64,
    pub members: Seq<MemberModel>,
}

/// The model of an [`Action`]; the MLS values it hands on are left out.
pub enum ActionModel {
    OpenDevice { slot: Slot, device: Seq<char> },
    ListDevices,
    CheckEntry { index: usize },
    OpenEntry { index: usize },
    LoadGroup { slot: Slot, group_id: Seq<char> },
    CreateGroup { group_id: Seq<char> },
    BuildKeyPackage,
    AddMembers,
    RemoveMember { index: u32 },
    MergePending,
    StageWelcome,
    JoinStaged,
    ProcessMessage { slot: Slot },
    MergeStaged,
    CreateMessage { plaintext: Seq<u8> },
    Finish(Result<ReplyModel, Seq<char>>),
}

/// The model of a [`Content`].
pub enum ContentModel {
    Application(Seq<u8>),
    Commit { debug: Seq<char> },
    Other(Seq<char>),
}

/// The model of an [`Event`].
pub enum EventModel {
    Done,
    Failed(Seq<char>),
    Group(Option<GroupModel>),
    Added { commit: Result<Seq<u8>, Seq<char>>, welcome: Result<Seq<u8>, Seq<char>> },
    Removed { commit: Result<Seq<u8>, Seq<char>> },
    Processed { content: ContentModel, epoch: u64 },
    Created { wire: Result<Seq<u8>, Seq<char>>, epoch: u64 },
    Listed(Option<Seq<Option<Seq<char>>>>),
    Present(bool),
}

/// The model of serialized bytes or the message of why serializing failed.
pub open spec fn bytes_outcome(r: Result<Vec<u8>, String>) -> Result<Seq<u8>, Seq<char>> {
    match r {
        Ok(bytes) => Ok(bytes@),
        Err(e) => Err(e@),
    }
}

/// The model of a list of strings.
pub open spec fn texts(v: Seq<String>) -> Seq<Seq<char>> {
    v.map_values(|s: String| s@)
}

/// The model of a directory listing.
pub open spec fn listing(v: Seq<Option<String>>) -> Seq<Option<Seq<char>>> {
    v.map_values(|e: Option<String>| match e {
        Some(m) => Some(m@),
        None => None,
    })
}

impl View for Request {
    type V = RequestModel;

    open spec fn view(&self) -> RequestModel {
        match self {
            Request::Init { group_id, members } => RequestModel::Init { group_id: group_id@, members: texts(members@) },
            Request::AddMember { group_id, actor_device_id, new_device_id } => RequestModel::AddMember {
                group_id: group_id@,
                actor: actor_device_id@,
                newcomer: new_device_id@,
            },
            Request::RemoveMember { group_id, actor_device_id, remove_device_id } => RequestModel::RemoveMember {
                group_id: group_id@,
                actor: actor_device_id@,
                target: remove_device_id@,
            },
            Request::Encrypt { group_id, sender_device_id, plaintext_base64 } => RequestModel::Encrypt {
                group_id: group_id@,
                sender: sender_device_id@,
                plaintext_base64: plaintext_base64@,
            },
            Request::Decrypt { group_id, receiver_device_id, wire_base64 } => RequestModel::Decrypt {
                group_id: group_id@,
                receiver: receiver_device_id@,
                wire_base64: wire_base64@,
            },
            Request::GroupInfo { group_id, device_id } => RequestModel::GroupInfo {
                group_id: group_id@,
                device: match device_id {
                    Some(d) => Some(d@),
                    None => None,
                },
            },
        }
    }
}

impl View for Reply {
    type V = ReplyModel;

    open spec fn view(&self) -> ReplyModel {
        match self {
            Reply::Group { epoch, members } => ReplyModel::Group { epoch: *epoch, members: texts(members@) },
            Reply::Wire { epoch, wire_base64 } => ReplyModel::Wire { epoch: *epoch, wire_base64: wire_base64@ },
            Reply::Plaintext { epoch, plaintext_base64 } => ReplyModel::Plaintext {
                epoch: *epoch,
                plaintext_base64: plaintext_base64@,
            },
        }
    }
}

impl View for Member {
    type V = MemberModel;

    open spec fn view(&self) -> MemberModel {
        MemberModel { index: self.index, identity: self.identity@ }
    }
}

impl View for GroupView {
    type V = GroupModel;

    open spec fn view(&self) -> GroupModel {
        GroupModel { epoch: self.epoch, members: self.members@.map_values(|m: Member| m@) }
    }
}

/// The model of an answer.
pub open spec fn outcome_model(r: Result<Reply, String>) -> Result<ReplyModel, Seq<char>> {
    match r {
        Ok(reply) => Ok(reply@),
        Err(e) => Err(e@),
    }
}

impl View for Action {
    type V = ActionModel;

    open spec fn view(&self) -> ActionModel {
        match self {
            Action::OpenDevice { slot, device } => ActionModel::OpenDevice { slot: *slot, device: device@ },
            Action::ListDevices => ActionModel::ListDevices,
            Action::CheckEntry { index } => ActionModel::CheckEntry { index: *index },
            Action::OpenEntry { index } => ActionModel::OpenEntry { index: *index },
            Action::LoadGroup { slot, group_id } => ActionModel::LoadGroup { slot: *slot, group_id: group_id@ },
            Action::CreateGroup { group_id } => ActionModel::CreateGroup { group_id: group_id@ },
            Action::BuildKeyPackage => ActionModel::BuildKeyPackage,
            Action::AddMembers => ActionModel::AddMembers,
            Action::RemoveMember { index } => ActionModel::RemoveMember { index: *index },
            Action::MergePending => ActionModel::MergePending,
            Action::StageWelcome { .. } => ActionModel::StageWelcome,
            Action::JoinStaged => ActionModel::JoinStaged,
            Action::ProcessMessage { slot, .. } => ActionModel::ProcessMessage { slot: *slot },
            Action::MergeStaged { .. } => ActionModel::MergeStaged,
            Action::CreateMessage { plaintext } => ActionModel::CreateMessage { plaintext: plaintext@ },
            Action::Finish(r) => ActionModel::Finish(outcome_model(*r)),
        }
    }
}

impl View for Content {
    type V = ContentModel;

    open spec fn view(&self) -> ContentModel {
        match self {
            Content::Application(bytes) => ContentModel::Application(bytes@),
            Content::Commit { debug, .. } => ContentModel::Commit { debug: debug@ },
            Content::Other(debug) => ContentModel::Other(debug@),
        }
    }
}

impl View for Event {
    type V = EventModel;

    open spec fn view(&self) -> EventModel {
        match self {
            Event::Done => EventModel::Done,
            Event::Failed(e) => EventModel::Failed(e@),
            Event::Group(g) => EventModel::Group(match g {
                Some(view) => Some(view@),
                None => None,
            }),
            Event::Added { commit, welcome } => EventModel::Added {
                commit: bytes_outcome(*commit),
                welcome: bytes_outcome(*welcome),
            },
            Event::Removed { commit } => EventModel::Removed { commit: bytes_outcome(*commit) },
            Event::Processed { content, epoch } => EventModel::Processed { content: content@, epoch: *epoch },
            Event::Created { wire, epoch } => EventModel::Created { wire: bytes_outcome(*wire), epoch: *epoch },
            Event::Listed(entries) => EventModel::Listed(match entries {
                Some(v) => Some(listing(v@)),
                None => None,
            }),
            Event::Present(b) => EventModel::Present(*b),
        }
    }
}

} // verus!
