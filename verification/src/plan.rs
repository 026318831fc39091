//! The model of a request session: its states and how each event moves it on.
use vstd::prelude::*;
use vstd::utf8::encode_utf8;
use crate::codec::{base64_decoding, base64_text, lossy_text};
use crate::exchange::{ActionModel, ContentModel, EventModel, GroupModel, MemberModel, ReplyModel, RequestModel, Slot};
use crate::wire::{protocol_decoding, welcome_decoding, ProtocolFaultModel};

verus! {

/// What the request asks for, beyond the group and the acting device.
pub enum OpModel {
    Init { members: Seq<Seq<char>> },
    Add { newcomer: Seq<char> },
    Remove { target: Seq<char> },
    Encrypt { plaintext_base64: Seq<char> },
    Decrypt { wire_base64: Seq<char> },
    Info,
}

/// The state of passing a commit on to the other members.
pub struct FanoutModel {
    /// The devices that process the commit, in order.
    pub recipients: Seq<Seq<char>>,
    /// The position of the device being handled.
    pub next: usize,
    /// The serialized commit.
    pub commit: Seq<u8>,
    /// The acting device's group after the commit.
    pub view: GroupModel,
    /// For an addition, the serialized welcome for the new member.
    pub welcome: Option<Result<Seq<u8>, Seq<char>>>,
}

/// Where a session stands: which action it waits on.
pub enum StageModel {
    OpeningPrimary,
    LoadingPrimary,
    LoadingExisting,
    CreatingGroup,
    OpeningKeyHolder { next: usize },
    BuildingKeyPackage { next: usize },
    AddingInitial,
    MergingInitial { welcome: Result<Seq<u8>, Seq<char>> },
    OpeningJoiner { next: usize, welcome: Seq<u8>, view: GroupModel },
    StagingJoiner { next: usize, welcome: Seq<u8>, view: GroupModel },
    JoiningJoiner { next: usize, welcome: Seq<u8>, view: GroupModel },
    OpeningNewcomer { existing: Seq<Seq<char>> },
    BuildingNewcomerPackage { existing: Seq<Seq<char>> },
    AddingNewcomer { existing: Seq<Seq<char>> },
    MergingAdd { existing: Seq<Seq<char>>, commit: Seq<u8>, welcome: Result<Seq<u8>, Seq<char>> },
    RemovingTarget { existing: Seq<Seq<char>> },
    MergingRemove { existing: Seq<Seq<char>>, commit: Seq<u8> },
    OpeningRecipient { fan: FanoutModel },
    LoadingRecipient { fan: FanoutModel },
    ProcessingRecipient { fan: FanoutModel },
    MergingRecipient { fan: FanoutModel },
    OpeningNewcomerToJoin { welcome: Result<Seq<u8>, Seq<char>>, view: GroupModel },
    StagingNewcomer { view: GroupModel },
    JoiningNewcomer { view: GroupModel },
    CreatingMessage,
    ProcessingMessage,
    Listing,
    CheckingEntry { entries: Seq<Option<Seq<char>>>, next: usize },
    OpeningEntry { entries: Seq<Option<Seq<char>>>, next: usize },
    ProbingEntry { entries: Seq<Option<Seq<char>>>, next: usize },
    Finished,
}

/// The model of a session.
pub struct SessionModel {
    pub group_id: Seq<char>,
    /// The device that acts for the request.
    pub primary: Seq<char>,
    pub op: OpModel,
    pub stage: StageModel,
}

/// The identifiers of a group's members, in order, as the lossy UTF-8 text of their
/// credentials.
pub open spec fn ids_of(view: GroupModel) -> Seq<Seq<char>> {
    view.members.map_values(|m: MemberModel| lossy_text(m.identity))
}

/// The reply describing a group.
pub open spec fn reply_of(view: GroupModel) -> ReplyModel {
    ReplyModel::Group { epoch: view.epoch, members: ids_of(view) }
}

/// The identifiers other than `actor`, in order.
pub open spec fn others(ids: Seq<Seq<char>>, actor: Seq<char>) -> Seq<Seq<char>>
    decreases ids.len(),
{
    if ids.len() == 0 {
        Seq::empty()
    } else if ids.last() == actor {
        others(ids.drop_last(), actor)
    } else {
        others(ids.drop_last(), actor).push(ids.last())
    }
}

/// The leaf index of the first member whose credential identity is `identity`.
pub open spec fn first_member_index(members: Seq<MemberModel>, identity: Seq<u8>) -> Option<u32>
    decreases members.len(),
{
    if members.len() == 0 {
        None
    } else if members[0].identity == identity {
        Some(members[0].index)
    } else {
        first_member_index(members.drop_first(), identity)
    }
}

/// The message for a device whose store does not hold the group.
pub open spec fn not_found_for(group_id: Seq<char>, device: Seq<char>) -> Seq<char> {
    "group "@ + group_id + " not found for device "@ + device
}

/// The message for a group that no device holds.
pub open spec fn not_found(group_id: Seq<char>) -> Seq<char> {
    "group "@ + group_id + " not found"@
}

/// The device being added, for an addition.
pub open spec fn op_newcomer(op: OpModel) -> Seq<char> {
    match op {
        OpModel::Add { newcomer } => newcomer,
        _ => Seq::empty(),
    }
}

/// The members named in an `Init` request.
pub open spec fn op_members(op: OpModel) -> Seq<Seq<char>> {
    match op {
        OpModel::Init { members } => members,
        _ => Seq::empty(),
    }
}

/// The session moved to `stage`, asking for `action`.
pub open spec fn go(s: SessionModel, stage: StageModel, action: ActionModel) -> (SessionModel, ActionModel) {
    (SessionModel { group_id: s.group_id, primary: s.primary, op: s.op, stage }, action)
}

/// The session ended with `outcome`.
pub open spec fn finish(s: SessionModel, outcome: Result<ReplyModel, Seq<char>>) -> (SessionModel, ActionModel) {
    go(s, StageModel::Finished, ActionModel::Finish(outcome))
}

/// The session ended with the message `message`.
pub open spec fn fail(s: SessionModel, message: Seq<char>) -> (SessionModel, ActionModel) {
    finish(s, Err(message))
}

/// How a session begins.
pub open spec fn session_start(request: RequestModel) -> (SessionModel, ActionModel) {
    let open_primary = |group_id: Seq<char>, device: Seq<char>, op: OpModel| (
        SessionModel { group_id, primary: device, op, stage: StageModel::OpeningPrimary },
        ActionModel::OpenDevice { slot: Slot::Primary, device },
    );
    match request {
        RequestModel::Init { group_id, members } => if members.len() == 0 {
            (
                SessionModel { group_id, primary: Seq::empty(), op: OpModel::Init { members }, stage: StageModel::Finished },
                ActionModel::Finish(Err("at least one member required"@)),
            )
        } else {
            open_primary(group_id, members[0], OpModel::Init { members })
        },
        RequestModel::AddMember { group_id, actor, newcomer } => open_primary(group_id, actor, OpModel::Add { newcomer }),
        RequestModel::RemoveMember { group_id, actor, target } => open_primary(group_id, actor, OpModel::Remove { target }),
        RequestModel::Encrypt { group_id, sender, plaintext_base64 } =>
            open_primary(group_id, sender, OpModel::Encrypt { plaintext_base64 }),
        RequestModel::Decrypt { group_id, receiver, wire_base64 } =>
            open_primary(group_id, receiver, OpModel::Decrypt { wire_base64 }),
        RequestModel::GroupInfo { group_id, device } => match device {
            Some(d) => open_primary(group_id, d, OpModel::Info),
            None => (
                SessionModel { group_id, primary: Seq::empty(), op: OpModel::Info, stage: StageModel::Listing },
                ActionModel::ListDevices,
            ),
        },
    }
}

/// The decision on the plaintext of an `Encrypt` request, given what base64 decoding made
/// of it.
pub open spec fn plaintext_decision(s: SessionModel, decoded: Result<Seq<u8>, Seq<char>>) -> (SessionModel, ActionModel) {
    match decoded {
        Err(e) => fail(s, e),
        Ok(plaintext) => go(s, StageModel::CreatingMessage, ActionModel::CreateMessage { plaintext }),
    }
}

/// The decision on the message of a `Decrypt` request, given what reading its bytes as a
/// protocol message gave.
pub open spec fn message_decision(s: SessionModel, decoded: Result<(), ProtocolFaultModel>) -> (SessionModel, ActionModel) {
    match decoded {
        Err(ProtocolFaultModel::Malformed(e)) => fail(s, "deserialize message: "@ + e),
        Err(ProtocolFaultModel::NotProtocol(e)) => fail(s, "protocol message: "@ + e),
        Ok(()) => go(s, StageModel::ProcessingMessage, ActionModel::ProcessMessage { slot: Slot::Primary }),
    }
}

/// The decision on the wire text of a `Decrypt` request, given what base64 decoding made
/// of it: the bytes are then read as a protocol message.
pub open spec fn wire_decision(s: SessionModel, decoded: Result<Seq<u8>, Seq<char>>) -> (SessionModel, ActionModel) {
    match decoded {
        Err(e) => fail(s, e),
        Ok(wire) => message_decision(s, protocol_decoding(wire)),
    }
}

/// What follows once the acting device's group is loaded.
pub open spec fn after_primary_loaded(s: SessionModel, view: GroupModel) -> (SessionModel, ActionModel) {
    let ids = ids_of(view);
    match s.op {
        OpModel::Add { newcomer } => if ids.contains(newcomer) {
            fail(s, "member already exists"@)
        } else {
            go(s, StageModel::OpeningNewcomer { existing: ids }, ActionModel::OpenDevice { slot: Slot::Secondary, device: newcomer })
        },
        OpModel::Remove { target } => if s.primary == target {
            fail(s, "actor cannot remove itself through this bridge operation"@)
        } else {
            match first_member_index(view.members, encode_utf8(target)) {
                None => fail(s, "member not found"@),
                Some(index) => go(s, StageModel::RemovingTarget { existing: ids }, ActionModel::RemoveMember { index }),
            }
        },
        OpModel::Encrypt { plaintext_base64 } => plaintext_decision(s, base64_decoding(plaintext_base64)),
        OpModel::Decrypt { wire_base64 } => wire_decision(s, base64_decoding(wire_base64)),
        _ => finish(s, Ok(reply_of(view))),
    }
}

/// Passing the commit on: to the next recipient, or, once all have it, to what follows.
pub open spec fn fan_continue(s: SessionModel, fan: FanoutModel) -> (SessionModel, ActionModel) {
    if fan.next < fan.recipients.len() {
        go(s, StageModel::OpeningRecipient { fan }, ActionModel::OpenDevice { slot: Slot::Secondary, device: fan.recipients[fan.next as int] })
    } else {
        match fan.welcome {
            Some(welcome) => go(
                s,
                StageModel::OpeningNewcomerToJoin { welcome, view: fan.view },
                ActionModel::OpenDevice { slot: Slot::Secondary, device: op_newcomer(s.op) },
            ),
            None => finish(s, Ok(reply_of(fan.view))),
        }
    }
}

/// The fan-out that starts once the acting device has merged its commit.
pub open spec fn fanout_of(existing: Seq<Seq<char>>, actor: Seq<char>, commit: Seq<u8>, view: GroupModel, welcome: Option<Result<Seq<u8>, Seq<char>>>) -> FanoutModel {
    FanoutModel { recipients: others(existing, actor), next: 0, commit, view, welcome }
}

/// The fan-out moved on to the next recipient.
pub open spec fn fan_advanced(fan: FanoutModel) -> FanoutModel {
    FanoutModel { next: (fan.next + 1) as usize, ..fan }
}

/// Looking through the device directories, from position `next` on.
pub open spec fn scan(s: SessionModel, entries: Seq<Option<Seq<char>>>, next: usize) -> (SessionModel, ActionModel) {
    if next < entries.len() {
        match entries[next as int] {
            Some(e) => fail(s, e),
            None => go(s, StageModel::CheckingEntry { entries, next }, ActionModel::CheckEntry { index: next }),
        }
    } else {
        fail(s, not_found(s.group_id))
    }
}

/// The decision on the welcome for a device joining at creation time, given what reading it
/// gave.
pub open spec fn joiner_decision(
    s: SessionModel,
    next: usize,
    welcome: Seq<u8>,
    view: GroupModel,
    decoded: Result<bool, Seq<char>>,
) -> (SessionModel, ActionModel) {
    match decoded {
        Err(e) => fail(s, "welcome decode: "@ + e),
        Ok(false) => fail(s, "expected welcome"@),
        Ok(true) => go(s, StageModel::StagingJoiner { next, welcome, view }, ActionModel::StageWelcome),
    }
}

/// The decision on a serialized welcome for a device joining at creation time.
pub open spec fn joiner_welcome(s: SessionModel, next: usize, welcome: Seq<u8>, view: GroupModel) -> (SessionModel, ActionModel) {
    joiner_decision(s, next, welcome, view, welcome_decoding(welcome))
}

/// The decision on the welcome for a device added later, given what reading it gave.
pub open spec fn newcomer_decision(s: SessionModel, view: GroupModel, decoded: Result<bool, Seq<char>>) -> (SessionModel, ActionModel) {
    match decoded {
        Err(e) => fail(s, "deserialize message: "@ + e),
        Ok(false) => fail(s, "expected Welcome"@),
        Ok(true) => go(s, StageModel::StagingNewcomer { view }, ActionModel::StageWelcome),
    }
}

/// The decision on the serialized welcome for a device added later.
pub open spec fn newcomer_welcome(s: SessionModel, welcome: Result<Seq<u8>, Seq<char>>, view: GroupModel) -> (SessionModel, ActionModel) {
    match welcome {
        Err(e) => fail(s, "serialize message: "@ + e),
        Ok(bytes) => newcomer_decision(s, view, welcome_decoding(bytes)),
    }
}

/// The decision on the commit passed to a recipient, given what reading it as a protocol
/// message gave.
pub open spec fn commit_decision(s: SessionModel, fan: FanoutModel, decoded: Result<(), ProtocolFaultModel>) -> (SessionModel, ActionModel) {
    match decoded {
        Err(ProtocolFaultModel::Malformed(e)) => fail(s, "deserialize commit: "@ + e),
        Err(ProtocolFaultModel::NotProtocol(e)) => fail(s, "protocol commit: "@ + e),
        Ok(()) => go(s, StageModel::ProcessingRecipient { fan }, ActionModel::ProcessMessage { slot: Slot::Secondary }),
    }
}

/// The decision on a commit that a recipient's group was loaded for.
pub open spec fn recipient_commit(s: SessionModel, fan: FanoutModel) -> (SessionModel, ActionModel) {
    commit_decision(s, fan, protocol_decoding(fan.commit))
}

/// Steps of creating a group.
pub open spec fn step_init(s: SessionModel, event: EventModel) -> (SessionModel, ActionModel) {
    let members = op_members(s.op);
    match (s.stage, event) {
        (StageModel::LoadingExisting, EventModel::Group(Some(view))) => finish(s, Ok(reply_of(view))),
        (StageModel::LoadingExisting, EventModel::Group(None)) =>
            go(s, StageModel::CreatingGroup, ActionModel::CreateGroup { group_id: s.group_id }),
        (StageModel::LoadingExisting, EventModel::Failed(e)) => fail(s, "load existing: "@ + e),
        (StageModel::CreatingGroup, EventModel::Group(Some(view))) => if members.len() > 1 {
            go(s, StageModel::OpeningKeyHolder { next: 1 }, ActionModel::OpenDevice { slot: Slot::Secondary, device: members[1] })
        } else {
            finish(s, Ok(reply_of(view)))
        },
        (StageModel::CreatingGroup, EventModel::Failed(e)) => fail(s, "create group: "@ + e),
        (StageModel::OpeningKeyHolder { next }, EventModel::Done) =>
            go(s, StageModel::BuildingKeyPackage { next }, ActionModel::BuildKeyPackage),
        (StageModel::BuildingKeyPackage { next }, EventModel::Done) => if next + 1 < members.len() {
            go(
                s,
                StageModel::OpeningKeyHolder { next: (next + 1) as usize },
                ActionModel::OpenDevice { slot: Slot::Secondary, device: members[next + 1] },
            )
        } else {
            go(s, StageModel::AddingInitial, ActionModel::AddMembers)
        },
        (StageModel::BuildingKeyPackage { .. }, EventModel::Failed(e)) => fail(s, "key package: "@ + e),
        (StageModel::AddingInitial, EventModel::Added { welcome, .. }) =>
            go(s, StageModel::MergingInitial { welcome }, ActionModel::MergePending),
        (StageModel::AddingInitial, EventModel::Failed(e)) => fail(s, "add initial members: "@ + e),
        (StageModel::MergingInitial { welcome }, EventModel::Group(Some(view))) => match welcome {
            Err(e) => fail(s, "serialize welcome: "@ + e),
            Ok(bytes) => go(
                s,
                StageModel::OpeningJoiner { next: 1, welcome: bytes, view },
                ActionModel::OpenDevice { slot: Slot::Secondary, device: members[1] },
            ),
        },
        (StageModel::MergingInitial { .. }, EventModel::Failed(e)) => fail(s, "merge initial add: "@ + e),
        (StageModel::OpeningJoiner { next, welcome, view }, EventModel::Done) => joiner_welcome(s, next, welcome, view),
        (StageModel::StagingJoiner { next, welcome, view }, EventModel::Done) =>
            go(s, StageModel::JoiningJoiner { next, welcome, view }, ActionModel::JoinStaged),
        (StageModel::StagingJoiner { next, .. }, EventModel::Failed(e)) =>
            fail(s, "stage welcome "@ + members[next as int] + ": "@ + e),
        (StageModel::JoiningJoiner { next, welcome, view }, EventModel::Done) => if next + 1 < members.len() {
            go(
                s,
                StageModel::OpeningJoiner { next: (next + 1) as usize, welcome, view },
                ActionModel::OpenDevice { slot: Slot::Secondary, device: members[next + 1] },
            )
        } else {
            finish(s, Ok(reply_of(view)))
        },
        (StageModel::JoiningJoiner { next, .. }, EventModel::Failed(e)) =>
            fail(s, "join "@ + members[next as int] + ": "@ + e),
        (_, EventModel::Failed(e)) => fail(s, e),
        _ => (s, ActionModel::Finish(Err(Seq::empty()))),
    }
}

/// Steps of adding or removing a member, and of passing the commit on.
pub open spec fn step_change(s: SessionModel, event: EventModel) -> (SessionModel, ActionModel) {
    match (s.stage, event) {
        (StageModel::OpeningNewcomer { existing }, EventModel::Done) =>
            go(s, StageModel::BuildingNewcomerPackage { existing }, ActionModel::BuildKeyPackage),
        (StageModel::BuildingNewcomerPackage { existing }, EventModel::Done) =>
            go(s, StageModel::AddingNewcomer { existing }, ActionModel::AddMembers),
        (StageModel::BuildingNewcomerPackage { .. }, EventModel::Failed(e)) => fail(s, "key package: "@ + e),
        (StageModel::AddingNewcomer { existing }, EventModel::Added { commit, welcome }) => match commit {
            Err(e) => fail(s, "commit bytes: "@ + e),
            Ok(bytes) => go(s, StageModel::MergingAdd { existing, commit: bytes, welcome }, ActionModel::MergePending),
        },
        (StageModel::AddingNewcomer { .. }, EventModel::Failed(e)) => fail(s, "add member: "@ + e),
        (StageModel::MergingAdd { existing, commit, welcome }, EventModel::Group(Some(view))) =>
            fan_continue(s, fanout_of(existing, s.primary, commit, view, Some(welcome))),
        (StageModel::MergingAdd { .. }, EventModel::Failed(e)) => fail(s, "merge add: "@ + e),
        (StageModel::RemovingTarget { existing }, EventModel::Removed { commit }) => match commit {
            Err(e) => fail(s, "remove commit bytes: "@ + e),
            Ok(bytes) => go(s, StageModel::MergingRemove { existing, commit: bytes }, ActionModel::MergePending),
        },
        (StageModel::RemovingTarget { .. }, EventModel::Failed(e)) => fail(s, "remove member: "@ + e),
        (StageModel::MergingRemove { existing, commit }, EventModel::Group(Some(view))) =>
            fan_continue(s, fanout_of(existing, s.primary, commit, view, None)),
        (StageModel::MergingRemove { .. }, EventModel::Failed(e)) => fail(s, "merge remove: "@ + e),
        (StageModel::OpeningRecipient { fan }, EventModel::Done) =>
            go(s, StageModel::LoadingRecipient { fan }, ActionModel::LoadGroup { slot: Slot::Secondary, group_id: s.group_id }),
        (StageModel::LoadingRecipient { fan }, EventModel::Group(None)) =>
            fail(s, not_found_for(s.group_id, fan.recipients[fan.next as int])),
        (StageModel::LoadingRecipient { fan }, EventModel::Group(Some(_))) => recipient_commit(s, fan),
        (StageModel::LoadingRecipient { .. }, EventModel::Failed(e)) => fail(s, "load group: "@ + e),
        (StageModel::ProcessingRecipient { fan }, EventModel::Processed { content, .. }) => match content {
            ContentModel::Commit { .. } => go(s, StageModel::MergingRecipient { fan }, ActionModel::MergeStaged),
            _ => fail(s, "expected staged commit"@),
        },
        (StageModel::ProcessingRecipient { fan }, EventModel::Failed(e)) =>
            fail(s, "process commit for "@ + fan.recipients[fan.next as int] + ": "@ + e),
        (StageModel::MergingRecipient { fan }, EventModel::Done) => fan_continue(s, fan_advanced(fan)),
        (StageModel::MergingRecipient { fan }, EventModel::Failed(e)) =>
            fail(s, "merge commit for "@ + fan.recipients[fan.next as int] + ": "@ + e),
        (StageModel::OpeningNewcomerToJoin { welcome, view }, EventModel::Done) => newcomer_welcome(s, welcome, view),
        (StageModel::StagingNewcomer { view }, EventModel::Done) =>
            go(s, StageModel::JoiningNewcomer { view }, ActionModel::JoinStaged),
        (StageModel::StagingNewcomer { .. }, EventModel::Failed(e)) => fail(s, "stage new welcome: "@ + e),
        (StageModel::JoiningNewcomer { view }, EventModel::Done) => finish(s, Ok(reply_of(view))),
        (StageModel::JoiningNewcomer { .. }, EventModel::Failed(e)) => fail(s, "join new member: "@ + e),
        (_, EventModel::Failed(e)) => fail(s, e),
        _ => (s, ActionModel::Finish(Err(Seq::empty()))),
    }
}

/// Steps of the other requests.
pub open spec fn step_other(s: SessionModel, event: EventModel) -> (SessionModel, ActionModel) {
    match (s.stage, event) {
        (StageModel::OpeningPrimary, EventModel::Done) => match s.op {
            OpModel::Init { .. } =>
                go(s, StageModel::LoadingExisting, ActionModel::LoadGroup { slot: Slot::Primary, group_id: s.group_id }),
            _ => go(s, StageModel::LoadingPrimary, ActionModel::LoadGroup { slot: Slot::Primary, group_id: s.group_id }),
        },
        (StageModel::LoadingPrimary, EventModel::Group(None)) => fail(s, not_found_for(s.group_id, s.primary)),
        (StageModel::LoadingPrimary, EventModel::Group(Some(view))) => after_primary_loaded(s, view),
        (StageModel::LoadingPrimary, EventModel::Failed(e)) => fail(s, "load group: "@ + e),
        (StageModel::CreatingMessage, EventModel::Created { wire, epoch }) => match wire {
            Err(e) => fail(s, "serialize message: "@ + e),
            Ok(bytes) => finish(s, Ok(ReplyModel::Wire { epoch, wire_base64: base64_text(bytes) })),
        },
        (StageModel::CreatingMessage, EventModel::Failed(e)) => fail(s, "create message: "@ + e),
        (StageModel::ProcessingMessage, EventModel::Processed { content, epoch }) => match content {
            ContentModel::Application(bytes) =>
                finish(s, Ok(ReplyModel::Plaintext { epoch, plaintext_base64: base64_text(bytes) })),
            ContentModel::Commit { debug } => fail(s, "expected application message, got "@ + debug),
            ContentModel::Other(debug) => fail(s, "expected application message, got "@ + debug),
        },
        (StageModel::ProcessingMessage, EventModel::Failed(e)) => fail(s, "process message: "@ + e),
        (StageModel::Listing, EventModel::Listed(None)) => fail(s, not_found(s.group_id)),
        (StageModel::Listing, EventModel::Listed(Some(entries))) => scan(s, entries, 0),
        (StageModel::CheckingEntry { entries, next }, EventModel::Present(present)) => if present {
            go(s, StageModel::OpeningEntry { entries, next }, ActionModel::OpenEntry { index: next })
        } else {
            scan(s, entries, (next + 1) as usize)
        },
        (StageModel::OpeningEntry { entries, next }, EventModel::Done) =>
            go(s, StageModel::ProbingEntry { entries, next }, ActionModel::LoadGroup { slot: Slot::Secondary, group_id: s.group_id }),
        (StageModel::ProbingEntry { entries, next }, EventModel::Group(found)) => match found {
            Some(view) => if ids_of(view).len() > 0 {
                let chosen = ids_of(view)[0];
                (
                    SessionModel { group_id: s.group_id, primary: chosen, op: s.op, stage: StageModel::OpeningPrimary },
                    ActionModel::OpenDevice { slot: Slot::Primary, device: chosen },
                )
            } else {
                scan(s, entries, (next + 1) as usize)
            },
            None => scan(s, entries, (next + 1) as usize),
        },
        (StageModel::ProbingEntry { .. }, EventModel::Failed(e)) => fail(s, "probe group: "@ + e),
        (_, EventModel::Failed(e)) => fail(s, e),
        _ => (s, ActionModel::Finish(Err(Seq::empty()))),
    }
}

/// Which requests' steps a stage belongs to.
pub open spec fn stage_group(stage: StageModel) -> int {
    match stage {
        StageModel::LoadingExisting | StageModel::CreatingGroup | StageModel::OpeningKeyHolder { .. }
        | StageModel::BuildingKeyPackage { .. } | StageModel::AddingInitial | StageModel::MergingInitial { .. }
        | StageModel::OpeningJoiner { .. } | StageModel::StagingJoiner { .. } | StageModel::JoiningJoiner { .. } => 0,
        StageModel::OpeningNewcomer { .. } | StageModel::BuildingNewcomerPackage { .. } | StageModel::AddingNewcomer { .. }
        | StageModel::MergingAdd { .. } | StageModel::RemovingTarget { .. } | StageModel::MergingRemove { .. }
        | StageModel::OpeningRecipient { .. } | StageModel::LoadingRecipient { .. } | StageModel::ProcessingRecipient { .. }
        | StageModel::MergingRecipient { .. } | StageModel::OpeningNewcomerToJoin { .. } | StageModel::StagingNewcomer { .. }
        | StageModel::JoiningNewcomer { .. } => 1,
        _ => 2,
    }
}

/// One step of a session.
pub open spec fn session_step(s: SessionModel, event: EventModel) -> (SessionModel, ActionModel) {
    if stage_group(s.stage) == 0 {
        step_init(s, event)
    } else if stage_group(s.stage) == 1 {
        step_change(s, event)
    } else {
        step_other(s, event)
    }
}

/// Payloads short enough to be written in base64.
pub open spec fn encodable(bytes: Seq<u8>) -> bool {
    bytes.len() <= usize::MAX / 4
}

/// Which events a session can take in its current stage.
pub open spec fn session_accepts(s: SessionModel, event: EventModel) -> bool {
    match (s.stage, event) {
        (StageModel::Finished, _) => false,
        (_, EventModel::Failed(_)) => true,
        (StageModel::LoadingPrimary, EventModel::Group(_)) => true,
        (StageModel::LoadingExisting, EventModel::Group(_)) => true,
        (StageModel::LoadingRecipient { .. }, EventModel::Group(_)) => true,
        (StageModel::ProbingEntry { .. }, EventModel::Group(_)) => true,
        (StageModel::CreatingGroup, EventModel::Group(Some(_))) => true,
        (StageModel::MergingInitial { .. }, EventModel::Group(Some(_))) => true,
        (StageModel::MergingAdd { .. }, EventModel::Group(Some(_))) => true,
        (StageModel::MergingRemove { .. }, EventModel::Group(Some(_))) => true,
        (StageModel::AddingInitial, EventModel::Added { .. }) => true,
        (StageModel::AddingNewcomer { .. }, EventModel::Added { .. }) => true,
        (StageModel::RemovingTarget { .. }, EventModel::Removed { .. }) => true,
        (StageModel::ProcessingRecipient { .. }, EventModel::Processed { .. }) => true,
        (StageModel::ProcessingMessage, EventModel::Processed { content, .. }) => match content {
            ContentModel::Application(bytes) => encodable(bytes),
            _ => true,
        },
        (StageModel::CreatingMessage, EventModel::Created { wire, .. }) => match wire {
            Ok(bytes) => encodable(bytes),
            Err(_) => true,
        },
        (StageModel::Listing, EventModel::Listed(_)) => true,
        (StageModel::CheckingEntry { .. }, EventModel::Present(_)) => true,
        (StageModel::OpeningPrimary, EventModel::Done) => true,
        (StageModel::OpeningKeyHolder { .. }, EventModel::Done) => true,
        (StageModel::BuildingKeyPackage { .. }, EventModel::Done) => true,
        (StageModel::OpeningJoiner { .. }, EventModel::Done) => true,
        (StageModel::StagingJoiner { .. }, EventModel::Done) => true,
        (StageModel::JoiningJoiner { .. }, EventModel::Done) => true,
        (StageModel::OpeningNewcomer { .. }, EventModel::Done) => true,
        (StageModel::BuildingNewcomerPackage { .. }, EventModel::Done) => true,
        (StageModel::OpeningRecipient { .. }, EventModel::Done) => true,
        (StageModel::MergingRecipient { .. }, EventModel::Done) => true,
        (StageModel::OpeningNewcomerToJoin { .. }, EventModel::Done) => true,
        (StageModel::StagingNewcomer { .. }, EventModel::Done) => true,
        (StageModel::JoiningNewcomer { .. }, EventModel::Done) => true,
        (StageModel::OpeningEntry { .. }, EventModel::Done) => true,
        _ => false,
    }
}

/// The session after a sequence of events, with the actions it handed out on the way.
pub open spec fn session_run(s: SessionModel, events: Seq<EventModel>) -> (SessionModel, Seq<ActionModel>)
    decreases events.len(),
{
    if events.len() == 0 {
        (s, Seq::empty())
    } else {
        let (next, action) = session_step(s, events[0]);
        let (last, rest) = session_run(next, events.drop_first());
        (last, seq![action] + rest)
    }
}

/// Whether the positions a session keeps are in range.
pub open spec fn session_wf(s: SessionModel) -> bool {
    let members = op_members(s.op);
    let init = s.op is Init;
    let add = s.op is Add;
    match s.stage {
        StageModel::OpeningPrimary => !init || members.len() > 0,
        StageModel::LoadingExisting | StageModel::CreatingGroup => init && members.len() > 0,
        StageModel::AddingInitial | StageModel::MergingInitial { .. } => init && members.len() > 1,
        StageModel::OpeningKeyHolder { next } | StageModel::BuildingKeyPackage { next }
        | StageModel::OpeningJoiner { next, .. } | StageModel::StagingJoiner { next, .. }
        | StageModel::JoiningJoiner { next, .. } => init && 1 <= next < members.len(),
        StageModel::OpeningNewcomer { .. } | StageModel::BuildingNewcomerPackage { .. } | StageModel::AddingNewcomer { .. }
        | StageModel::MergingAdd { .. } => add,
        StageModel::OpeningRecipient { fan } | StageModel::LoadingRecipient { fan } | StageModel::ProcessingRecipient { fan }
        | StageModel::MergingRecipient { fan } => fan.next < fan.recipients.len() && (fan.welcome is Some ==> add),
        StageModel::OpeningNewcomerToJoin { .. } => add,
        StageModel::CheckingEntry { entries, next } | StageModel::OpeningEntry { entries, next }
        | StageModel::ProbingEntry { entries, next } => next < entries.len() && s.op is Info,
        StageModel::Listing => s.op is Info,
        _ => true,
    }
}

} // verus!
