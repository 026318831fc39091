//! A request session: the bridge's decisions, one event at a time.
//!
//! [`Session::start`] takes a request and hands out the first [`Action`]. The caller
//! performs each action with the MLS library and the disk, reports an [`Event`] to
//! [`Session::advance`], and gets the next action, until the session hands out
//! [`Action::Finish`] with the answer.
use vstd::prelude::*;
use vstd::utf8::encode_utf8;
use crate::codec::{base64_decoding, base64_text, decode_base64, encode_base64, is_base64_text, lemma_base64_text_injective, utf8_lossy};
use crate::exchange::{
    bytes_outcome, EventModel, listing, outcome_model, texts, Action, ActionModel, Content, Event, GroupView, Member, Reply, Request, Slot,
};
use crate::plan::{
    after_primary_loaded, commit_decision, encodable, fan_continue, first_member_index, ids_of, joiner_decision,
    message_decision, newcomer_decision, op_members, op_newcomer, others, plaintext_decision, reply_of, scan,
    session_accepts, session_start, session_step, session_wf, stage_group, step_change, step_init, step_other,
    wire_decision, FanoutModel, OpModel, SessionModel, StageModel,
};
use crate::laws::lemma_first_member_index_is_first_exact_match;
use crate::text::{join, join3, join4};
use crate::wire::{decode_protocol, decode_welcome, protocol_decoding, protocol_outcome, welcome_outcome, ProtocolFault};
use openmls::prelude::{ProtocolMessage, Welcome};

verus! {

enum Op {
    Init { members: Vec<String> },
    Add { newcomer: String },
    Remove { target: String },
    Encrypt { plaintext_base64: String },
    Decrypt { wire_base64: String },
    Info,
}

struct Fanout {
    recipients: Vec<String>,
    next: usize,
    commit: Vec<u8>,
    view: GroupView,
    welcome: Option<Result<Vec<u8>, String>>,
}

enum Stage {
    OpeningPrimary,
    LoadingPrimary,
    LoadingExisting,
    CreatingGroup,
    OpeningKeyHolder { next: usize },
    BuildingKeyPackage { next: usize },
    AddingInitial,
    MergingInitial { welcome: Result<Vec<u8>, String> },
    OpeningJoiner { next: usize, welcome: Vec<u8>, view: GroupView },
    StagingJoiner { next: usize, welcome: Vec<u8>, view: GroupView },
    JoiningJoiner { next: usize, welcome: Vec<u8>, view: GroupView },
    OpeningNewcomer { existing: Vec<String> },
    BuildingNewcomerPackage { existing: Vec<String> },
    AddingNewcomer { existing: Vec<String> },
    MergingAdd { existing: Vec<String>, commit: Vec<u8>, welcome: Result<Vec<u8>, String> },
    RemovingTarget { existing: Vec<String> },
    MergingRemove { existing: Vec<String>, commit: Vec<u8> },
    OpeningRecipient { fan: Fanout },
    LoadingRecipient { fan: Fanout },
    ProcessingRecipient { fan: Fanout },
    MergingRecipient { fan: Fanout },
    OpeningNewcomerToJoin { welcome: Result<Vec<u8>, String>, view: GroupView },
    StagingNewcomer { view: GroupView },
    JoiningNewcomer { view: GroupView },
    CreatingMessage,
    ProcessingMessage,
    Listing,
    CheckingEntry { entries: Vec<Option<String>>, next: usize },
    OpeningEntry { entries: Vec<Option<String>>, next: usize },
    ProbingEntry { entries: Vec<Option<String>>, next: usize },
    Finished,
}

/// The state of one request.
pub struct Session {
    group_id: String,
    primary: String,
    op: Op,
    stage: Stage,
}

impl View for Op {
    type V = OpModel;

    closed spec fn view(&self) -> OpModel {
        match self {
            Op::Init { members } => OpModel::Init { members: texts(members@) },
            Op::Add { newcomer } => OpModel::Add { newcomer: newcomer@ },
            Op::Remove { target } => OpModel::Remove { target: target@ },
            Op::Encrypt { plaintext_base64 } => OpModel::Encrypt { plaintext_base64: plaintext_base64@ },
            Op::Decrypt { wire_base64 } => OpModel::Decrypt { wire_base64: wire_base64@ },
            Op::Info => OpModel::Info,
        }
    }
}

spec fn welcome_model(w: Option<Result<Vec<u8>, String>>) -> Option<Result<Seq<u8>, Seq<char>>> {
    match w {
        Some(r) => Some(bytes_outcome(r)),
        None => None,
    }
}

impl View for Fanout {
    type V = FanoutModel;

    closed spec fn view(&self) -> FanoutModel {
        FanoutModel {
            recipients: texts(self.recipients@),
            next: self.next,
            commit: self.commit@,
            view: self.view@,
            welcome: welcome_model(self.welcome),
        }
    }
}

impl View for Stage {
    type V = StageModel;

    closed spec fn view(&self) -> StageModel {
        match self {
            Stage::OpeningPrimary => StageModel::OpeningPrimary,
            Stage::LoadingPrimary => StageModel::LoadingPrimary,
            Stage::LoadingExisting => StageModel::LoadingExisting,
            Stage::CreatingGroup => StageModel::CreatingGroup,
            Stage::OpeningKeyHolder { next } => StageModel::OpeningKeyHolder { next: *next },
            Stage::BuildingKeyPackage { next } => StageModel::BuildingKeyPackage { next: *next },
            Stage::AddingInitial => StageModel::AddingInitial,
            Stage::MergingInitial { welcome } => StageModel::MergingInitial { welcome: bytes_outcome(*welcome) },
            Stage::OpeningJoiner { next, welcome, view } =>
                StageModel::OpeningJoiner { next: *next, welcome: welcome@, view: view@ },
            Stage::StagingJoiner { next, welcome, view } =>
                StageModel::StagingJoiner { next: *next, welcome: welcome@, view: view@ },
            Stage::JoiningJoiner { next, welcome, view } =>
                StageModel::JoiningJoiner { next: *next, welcome: welcome@, view: view@ },
            Stage::OpeningNewcomer { existing } => StageModel::OpeningNewcomer { existing: texts(existing@) },
            Stage::BuildingNewcomerPackage { existing } => StageModel::BuildingNewcomerPackage { existing: texts(existing@) },
            Stage::AddingNewcomer { existing } => StageModel::AddingNewcomer { existing: texts(existing@) },
            Stage::MergingAdd { existing, commit, welcome } => StageModel::MergingAdd {
                existing: texts(existing@),
                commit: commit@,
                welcome: bytes_outcome(*welcome),
            },
            Stage::RemovingTarget { existing } => StageModel::RemovingTarget { existing: texts(existing@) },
            Stage::MergingRemove { existing, commit } => StageModel::MergingRemove { existing: texts(existing@), commit: commit@ },
            Stage::OpeningRecipient { fan } => StageModel::OpeningRecipient { fan: fan@ },
            Stage::LoadingRecipient { fan } => StageModel::LoadingRecipient { fan: fan@ },
            Stage::ProcessingRecipient { fan } => StageModel::ProcessingRecipient { fan: fan@ },
            Stage::MergingRecipient { fan } => StageModel::MergingRecipient { fan: fan@ },
            Stage::OpeningNewcomerToJoin { welcome, view } =>
                StageModel::OpeningNewcomerToJoin { welcome: bytes_outcome(*welcome), view: view@ },
            Stage::StagingNewcomer { view } => StageModel::StagingNewcomer { view: view@ },
            Stage::JoiningNewcomer { view } => StageModel::JoiningNewcomer { view: view@ },
            Stage::CreatingMessage => StageModel::CreatingMessage,
            Stage::ProcessingMessage => StageModel::ProcessingMessage,
            Stage::Listing => StageModel::Listing,
            Stage::CheckingEntry { entries, next } => StageModel::CheckingEntry { entries: listing(entries@), next: *next },
            Stage::OpeningEntry { entries, next } => StageModel::OpeningEntry { entries: listing(entries@), next: *next },
            Stage::ProbingEntry { entries, next } => StageModel::ProbingEntry { entries: listing(entries@), next: *next },
            Stage::Finished => StageModel::Finished,
        }
    }
}

impl View for Session {
    type V = SessionModel;

    closed spec fn view(&self) -> SessionModel {
        SessionModel { group_id: self.group_id@, primary: self.primary@, op: self.op@, stage: self.stage@ }
    }
}

/// The identifiers of the group's members, in order.
pub fn member_ids(view: &GroupView) -> (r: Vec<String>)
    ensures
        texts(r@) == ids_of(view@),
{
    let mut r: Vec<String> = Vec::new();
    let mut i: usize = 0;
    while i < view.members.len()
        invariant
            i <= view.members@.len(),
            texts(r@) =~= ids_of(view@).subrange(0, i as int),
        decreases view.members@.len() - i,
    {
        let id = utf8_lossy(view.members[i].identity.as_slice());
        proof {
            assert(view@.members[i as int] == view.members@[i as int]@);
            assert(ids_of(view@)[i as int] == id@);
        }
        let ghost before = r@;
        r.push(id);
        proof {
            assert(r@ == before.push(id));
            assert(texts(r@) =~= texts(before).push(id@));
            assert(texts(r@) =~= ids_of(view@).subrange(0, i + 1));
        }
        i = i + 1;
    }
    proof {
        assert(ids_of(view@).subrange(0, i as int) =~= ids_of(view@));
    }
    r
}

/// The reply describing the group.
pub fn group_reply(view: &GroupView) -> (r: Reply)
    ensures
        r@ == reply_of(view@),
{
    Reply::Group { epoch: view.epoch, members: member_ids(view) }
}

/// Whether `id` is among `ids`.
pub fn contains_id(ids: &Vec<String>, id: &String) -> (r: bool)
    ensures
        r == texts(ids@).contains(id@),
{
    let mut i: usize = 0;
    while i < ids.len()
        invariant
            i <= ids@.len(),
            forall|j: int| 0 <= j < i ==> texts(ids@)[j] != id@,
        decreases ids@.len() - i,
    {
        if ids[i] == *id {
            proof {
                assert(texts(ids@)[i as int] == id@);
            }
            return true;
        }
        i = i + 1;
    }
    false
}

proof fn lemma_others_push(ids: Seq<Seq<char>>, x: Seq<char>, actor: Seq<char>)
    ensures
        others(ids.push(x), actor) == if x == actor { others(ids, actor) } else { others(ids, actor).push(x) },
{
    assert(ids.push(x).drop_last() =~= ids);
}

/// The identifiers other than `actor`, in order.
pub fn others_of(ids: &Vec<String>, actor: &String) -> (r: Vec<String>)
    ensures
        texts(r@) == others(texts(ids@), actor@),
{
    let mut r: Vec<String> = Vec::new();
    let mut i: usize = 0;
    while i < ids.len()
        invariant
            i <= ids@.len(),
            texts(r@) == others(texts(ids@).subrange(0, i as int), actor@),
        decreases ids@.len() - i,
    {
        proof {
            assert(texts(ids@).subrange(0, i + 1) =~= texts(ids@).subrange(0, i as int).push(texts(ids@)[i as int]));
            lemma_others_push(texts(ids@).subrange(0, i as int), texts(ids@)[i as int], actor@);
        }
        if ids[i] != *actor {
            let ghost before = r@;
            r.push(ids[i].clone());
            proof {
                assert(r@ == before.push(ids@[i as int]));
                assert(texts(r@) =~= texts(before).push(ids@[i as int]@));
            }
        }
        i = i + 1;
    }
    proof {
        assert(texts(ids@).subrange(0, i as int) =~= texts(ids@));
    }
    r
}

/// Whether two byte sequences are equal.
pub fn same_bytes(a: &[u8], b: &[u8]) -> (r: bool)
    ensures
        r == (a@ == b@),
{
    if a.len() != b.len() {
        return false;
    }
    let mut i: usize = 0;
    while i < a.len()
        invariant
            i <= a@.len(),
            a@.len() == b@.len(),
            forall|j: int| 0 <= j < i ==> a@[j] == b@[j],
        decreases a@.len() - i,
    {
        if a[i] != b[i] {
            return false;
        }
        i = i + 1;
    }
    proof {
        assert(a@ =~= b@);
    }
    true
}

/// The leaf index of the first member whose credential identity is exactly `identity`, or
/// none when no member has that identity.
pub fn find_member(members: &Vec<Member>, identity: &[u8]) -> (r: Option<u32>)
    ensures
        r == first_member_index(members@.map_values(|m: Member| m@), identity@),
        (forall|k: int| 0 <= k < members@.len() ==> #[trigger] members@[k].identity@ != identity@) ==> r is None,
        forall|k: int|
            0 <= k < members@.len() && #[trigger] members@[k].identity@ == identity@
                && (forall|j: int| 0 <= j < k ==> members@[j].identity@ != identity@)
                ==> r == Some(members@[k].index),
{
    let r = first_match(members, identity);
    proof {
        let all = members@.map_values(|m: Member| m@);
        lemma_first_member_index_is_first_exact_match(all, identity@);
        assert forall|k: int| 0 <= k < members@.len() implies #[trigger] all[k] == members@[k]@ by {}
        if forall|k: int| 0 <= k < members@.len() ==> #[trigger] members@[k].identity@ != identity@ {
            assert forall|k: int| 0 <= k < all.len() implies #[trigger] all[k].identity != identity@ by {
                assert(all[k] == members@[k]@);
            }
        }
        assert forall|k: int|
            0 <= k < members@.len() && #[trigger] members@[k].identity@ == identity@
                && (forall|j: int| 0 <= j < k ==> members@[j].identity@ != identity@)
            implies r == Some(members@[k].index) by {
            assert(all[k] == members@[k]@);
            assert forall|j: int| 0 <= j < k implies all[j].identity != identity@ by {
                assert(all[j] == members@[j]@);
            }
            assert(all[k].identity == identity@);
        }
    }
    r
}

fn first_match(members: &Vec<Member>, identity: &[u8]) -> (r: Option<u32>)
    ensures
        r == first_member_index(members@.map_values(|m: Member| m@), identity@),
{
    let ghost all = members@.map_values(|m: Member| m@);
    proof {
        assert(all.subrange(0, all.len() as int) =~= all);
    }
    let mut i: usize = 0;
    while i < members.len()
        invariant
            i <= members@.len(),
            all == members@.map_values(|m: Member| m@),
            first_member_index(all, identity@) == first_member_index(all.subrange(i as int, all.len() as int), identity@),
        decreases members@.len() - i,
    {
        let ghost rest = all.subrange(i as int, all.len() as int);
        proof {
            assert(rest[0] == members@[i as int]@);
            assert(rest.drop_first() =~= all.subrange(i + 1, all.len() as int));
        }
        if same_bytes(members[i].identity.as_slice(), identity) {
            return Some(members[i].index);
        }
        i = i + 1;
    }
    None
}


/// A staged commit that a recipient reports is the very one handed back to be merged.
pub open spec fn hands_on_commit(event: Event, action: Action) -> bool {
    event matches Event::Processed { content: Content::Commit { commit, .. }, .. }
        ==> (action matches Action::MergeStaged { commit: merged } && merged == commit)
}

/// Standard base64 text decodes to the bytes it was made of.
spec fn decodes_back(text: Seq<char>) -> bool {
    forall|bytes: Seq<u8>| #![trigger base64_text(bytes)]
        base64_text(bytes) == text ==> base64_decoding(text) == Ok::<Seq<u8>, Seq<char>>(bytes)
}

spec fn model_of(group_id: String, primary: String, op: Op, stage: Stage) -> SessionModel {
    SessionModel { group_id: group_id@, primary: primary@, op: op@, stage: stage@ }
}

fn members_len(op: &Op) -> (r: usize)
    ensures
        r == op_members(op@).len(),
{
    match op {
        Op::Init { members } => members.len(),
        _ => 0,
    }
}

fn member_at(op: &Op, i: usize) -> (r: String)
    requires
        i < op_members(op@).len(),
    ensures
        r@ == op_members(op@)[i as int],
{
    match op {
        Op::Init { members } => members[i].clone(),
        _ => String::new(),
    }
}

fn newcomer_of(op: &Op) -> (r: String)
    ensures
        r@ == op_newcomer(op@),
{
    match op {
        Op::Add { newcomer } => newcomer.clone(),
        _ => String::new(),
    }
}

fn not_found_for_device(group_id: &String, device: &String) -> (r: String)
    ensures
        r@ == crate::plan::not_found_for(group_id@, device@),
{
    join4("group ", group_id.as_str(), " not found for device ", device.as_str())
}

fn not_found_anywhere(group_id: &String) -> (r: String)
    ensures
        r@ == crate::plan::not_found(group_id@),
{
    join3("group ", group_id.as_str(), " not found")
}

impl Session {
    #[verifier::type_invariant]
    spec fn well_formed(self) -> bool {
        session_wf(self@)
    }

    fn go(group_id: String, primary: String, op: Op, stage: Stage, action: Action) -> (r: (Session, Action))
        requires
            session_wf(model_of(group_id, primary, op, stage)),
        ensures
            r.0@ == model_of(group_id, primary, op, stage),
            r.1 == action,
    {
        (Session { group_id, primary, op, stage }, action)
    }

    fn finish(group_id: String, primary: String, op: Op, outcome: Result<Reply, String>) -> (r: (Session, Action))
        ensures
            r.0@ == model_of(group_id, primary, op, Stage::Finished),
            r.1@ == ActionModel::Finish(outcome_model(outcome)),
    {
        (Session { group_id, primary, op, stage: Stage::Finished }, Action::Finish(outcome))
    }

    fn fail(group_id: String, primary: String, op: Op, message: String) -> (r: (Session, Action))
        ensures
            r.0@ == model_of(group_id, primary, op, Stage::Finished),
            r.1@ == ActionModel::Finish(Err(message@)),
    {
        Self::finish(group_id, primary, op, Err(message))
    }

    /// Begins handling `request`.
    pub fn start(request: Request) -> (r: (Session, Action))
        ensures
            (r.0@, r.1@) == session_start(request@),
    {
        match request {
            Request::Init { group_id, members } => {
                if members.len() == 0 {
                    let op = Op::Init { members };
                    Self::fail(group_id, String::new(), op, String::from_str("at least one member required"))
                } else {
                    let primary = members[0].clone();
                    let device = members[0].clone();
                    let op = Op::Init { members };
                    Self::go(group_id, primary, op, Stage::OpeningPrimary, Action::OpenDevice { slot: Slot::Primary, device })
                }
            },
            Request::AddMember { group_id, actor_device_id, new_device_id } => {
                let device = actor_device_id.clone();
                Self::go(
                    group_id,
                    actor_device_id,
                    Op::Add { newcomer: new_device_id },
                    Stage::OpeningPrimary,
                    Action::OpenDevice { slot: Slot::Primary, device },
                )
            },
            Request::RemoveMember { group_id, actor_device_id, remove_device_id } => {
                let device = actor_device_id.clone();
                Self::go(
                    group_id,
                    actor_device_id,
                    Op::Remove { target: remove_device_id },
                    Stage::OpeningPrimary,
                    Action::OpenDevice { slot: Slot::Primary, device },
                )
            },
            Request::Encrypt { group_id, sender_device_id, plaintext_base64 } => {
                let device = sender_device_id.clone();
                Self::go(
                    group_id,
                    sender_device_id,
                    Op::Encrypt { plaintext_base64 },
                    Stage::OpeningPrimary,
                    Action::OpenDevice { slot: Slot::Primary, device },
                )
            },
            Request::Decrypt { group_id, receiver_device_id, wire_base64 } => {
                let device = receiver_device_id.clone();
                Self::go(
                    group_id,
                    receiver_device_id,
                    Op::Decrypt { wire_base64 },
                    Stage::OpeningPrimary,
                    Action::OpenDevice { slot: Slot::Primary, device },
                )
            },
            Request::GroupInfo { group_id, device_id } => match device_id {
                Some(d) => {
                    let device = d.clone();
                    Self::go(group_id, d, Op::Info, Stage::OpeningPrimary, Action::OpenDevice { slot: Slot::Primary, device })
                },
                None => Self::go(group_id, String::new(), Op::Info, Stage::Listing, Action::ListDevices),
            },
        }
    }
}

impl Session {
    fn step_init_exec(group_id: String, primary: String, op: Op, stage: Stage, event: Event) -> (r: (Session, Action))
        requires
            session_wf(model_of(group_id, primary, op, stage)),
            session_accepts(model_of(group_id, primary, op, stage), event@),
            stage_group(stage@) == 0,
        ensures
            (r.0@, r.1@) == step_init(model_of(group_id, primary, op, stage), event@),
    {
        let ghost s = model_of(group_id, primary, op, stage);
        let ghost ev = event@;
        match (stage, event) {
            (Stage::LoadingExisting, Event::Group(Some(view))) => {
                let reply = group_reply(&view);
                Self::finish(group_id, primary, op, Ok(reply))
            },
            (Stage::LoadingExisting, Event::Group(None)) => {
                let action = Action::CreateGroup { group_id: group_id.clone() };
                Self::go(group_id, primary, op, Stage::CreatingGroup, action)
            },
            (Stage::LoadingExisting, Event::Failed(e)) => Self::fail(group_id, primary, op, join("load existing: ", e.as_str())),
            (Stage::CreatingGroup, Event::Group(Some(view))) => {
                if members_len(&op) > 1 {
                    let device = member_at(&op, 1);
                    Self::go(group_id, primary, op, Stage::OpeningKeyHolder { next: 1 }, Action::OpenDevice { slot: Slot::Secondary, device })
                } else {
                    let reply = group_reply(&view);
                    Self::finish(group_id, primary, op, Ok(reply))
                }
            },
            (Stage::CreatingGroup, Event::Failed(e)) => Self::fail(group_id, primary, op, join("create group: ", e.as_str())),
            (Stage::OpeningKeyHolder { next }, Event::Done) => {
                Self::go(group_id, primary, op, Stage::BuildingKeyPackage { next }, Action::BuildKeyPackage)
            },
            (Stage::BuildingKeyPackage { next }, Event::Done) => {
                let n: usize = members_len(&op);
                if next + 1 < n {
                    let device = member_at(&op, next + 1);
                    Self::go(
                        group_id,
                        primary,
                        op,
                        Stage::OpeningKeyHolder { next: next + 1 },
                        Action::OpenDevice { slot: Slot::Secondary, device },
                    )
                } else {
                    Self::go(group_id, primary, op, Stage::AddingInitial, Action::AddMembers)
                }
            },
            (Stage::BuildingKeyPackage { .. }, Event::Failed(e)) => Self::fail(group_id, primary, op, join("key package: ", e.as_str())),
            (Stage::AddingInitial, Event::Added { welcome, .. }) => {
                Self::go(group_id, primary, op, Stage::MergingInitial { welcome }, Action::MergePending)
            },
            (Stage::AddingInitial, Event::Failed(e)) => Self::fail(group_id, primary, op, join("add initial members: ", e.as_str())),
            (Stage::MergingInitial { welcome }, Event::Group(Some(view))) => match welcome {
                Err(e) => Self::fail(group_id, primary, op, join("serialize welcome: ", e.as_str())),
                Ok(bytes) => {
                    let device = member_at(&op, 1);
                    Self::go(
                        group_id,
                        primary,
                        op,
                        Stage::OpeningJoiner { next: 1, welcome: bytes, view },
                        Action::OpenDevice { slot: Slot::Secondary, device },
                    )
                },
            },
            (Stage::MergingInitial { .. }, Event::Failed(e)) => Self::fail(group_id, primary, op, join("merge initial add: ", e.as_str())),
            (Stage::OpeningJoiner { next, welcome, view }, Event::Done) => {
                let decoded = decode_welcome(welcome.as_slice());
                let session = Session { group_id, primary, op, stage: Stage::OpeningJoiner { next, welcome, view } };
                session.joiner_welcome_read(decoded)
            },
            (Stage::StagingJoiner { next, welcome, view }, Event::Done) => {
                Self::go(group_id, primary, op, Stage::JoiningJoiner { next, welcome, view }, Action::JoinStaged)
            },
            (Stage::StagingJoiner { next, .. }, Event::Failed(e)) => {
                let device = member_at(&op, next);
                Self::fail(group_id, primary, op, join4("stage welcome ", device.as_str(), ": ", e.as_str()))
            },
            (Stage::JoiningJoiner { next, welcome, view }, Event::Done) => {
                let n: usize = members_len(&op);
                if next + 1 < n {
                    let device = member_at(&op, next + 1);
                    Self::go(
                        group_id,
                        primary,
                        op,
                        Stage::OpeningJoiner { next: next + 1, welcome, view },
                        Action::OpenDevice { slot: Slot::Secondary, device },
                    )
                } else {
                    let reply = group_reply(&view);
                    Self::finish(group_id, primary, op, Ok(reply))
                }
            },
            (Stage::JoiningJoiner { next, .. }, Event::Failed(e)) => {
                let device = member_at(&op, next);
                Self::fail(group_id, primary, op, join4("join ", device.as_str(), ": ", e.as_str()))
            },
            (_, Event::Failed(e)) => Self::fail(group_id, primary, op, e),
            (_, _) => {
                proof {
                    assert(false);
                }
                Self::fail(group_id, primary, op, String::new())
            },
        }
    }
}

impl Session {
    fn fan_continue_exec(group_id: String, primary: String, op: Op, fan: Fanout) -> (r: (Session, Action))
        requires
            fan.next <= fan.recipients@.len(),
            fan.welcome is Some ==> op is Add,
        ensures
            (r.0@, r.1@) == fan_continue(model_of(group_id, primary, op, Stage::Finished), fan@),
    {
        if fan.next < fan.recipients.len() {
            let device = fan.recipients[fan.next].clone();
            Self::go(group_id, primary, op, Stage::OpeningRecipient { fan }, Action::OpenDevice { slot: Slot::Secondary, device })
        } else {
            let Fanout { recipients, next, commit, view, welcome } = fan;
            match welcome {
                Some(w) => {
                    let device = newcomer_of(&op);
                    Self::go(
                        group_id,
                        primary,
                        op,
                        Stage::OpeningNewcomerToJoin { welcome: w, view },
                        Action::OpenDevice { slot: Slot::Secondary, device },
                    )
                },
                None => {
                    let reply = group_reply(&view);
                    Self::finish(group_id, primary, op, Ok(reply))
                },
            }
        }
    }

    fn step_change_exec(group_id: String, primary: String, op: Op, stage: Stage, event: Event) -> (r: (Session, Action))
        requires
            session_wf(model_of(group_id, primary, op, stage)),
            session_accepts(model_of(group_id, primary, op, stage), event@),
            stage_group(stage@) == 1,
        ensures
            (r.0@, r.1@) == step_change(model_of(group_id, primary, op, stage), event@),
            stage is ProcessingRecipient ==> hands_on_commit(event, r.1),
    {
        let ghost s = model_of(group_id, primary, op, stage);
        let ghost ev = event@;
        match (stage, event) {
            (Stage::OpeningNewcomer { existing }, Event::Done) => {
                Self::go(group_id, primary, op, Stage::BuildingNewcomerPackage { existing }, Action::BuildKeyPackage)
            },
            (Stage::BuildingNewcomerPackage { existing }, Event::Done) => {
                Self::go(group_id, primary, op, Stage::AddingNewcomer { existing }, Action::AddMembers)
            },
            (Stage::BuildingNewcomerPackage { .. }, Event::Failed(e)) => Self::fail(group_id, primary, op, join("key package: ", e.as_str())),
            (Stage::AddingNewcomer { existing }, Event::Added { commit, welcome }) => match commit {
                Err(e) => Self::fail(group_id, primary, op, join("commit bytes: ", e.as_str())),
                Ok(bytes) => Self::go(
                    group_id,
                    primary,
                    op,
                    Stage::MergingAdd { existing, commit: bytes, welcome },
                    Action::MergePending,
                ),
            },
            (Stage::AddingNewcomer { .. }, Event::Failed(e)) => Self::fail(group_id, primary, op, join("add member: ", e.as_str())),
            (Stage::MergingAdd { existing, commit, welcome }, Event::Group(Some(view))) => {
                let recipients = others_of(&existing, &primary);
                let fan = Fanout { recipients, next: 0, commit, view, welcome: Some(welcome) };
                Self::fan_continue_exec(group_id, primary, op, fan)
            },
            (Stage::MergingAdd { .. }, Event::Failed(e)) => Self::fail(group_id, primary, op, join("merge add: ", e.as_str())),
            (Stage::RemovingTarget { existing }, Event::Removed { commit }) => match commit {
                Err(e) => Self::fail(group_id, primary, op, join("remove commit bytes: ", e.as_str())),
                Ok(bytes) => Self::go(
                    group_id,
                    primary,
                    op,
                    Stage::MergingRemove { existing, commit: bytes },
                    Action::MergePending,
                ),
            },
            (Stage::RemovingTarget { .. }, Event::Failed(e)) => Self::fail(group_id, primary, op, join("remove member: ", e.as_str())),
            (Stage::MergingRemove { existing, commit }, Event::Group(Some(view))) => {
                let recipients = others_of(&existing, &primary);
                let fan = Fanout { recipients, next: 0, commit, view, welcome: None };
                Self::fan_continue_exec(group_id, primary, op, fan)
            },
            (Stage::MergingRemove { .. }, Event::Failed(e)) => Self::fail(group_id, primary, op, join("merge remove: ", e.as_str())),
            (Stage::OpeningRecipient { fan }, Event::Done) => {
                let action = Action::LoadGroup { slot: Slot::Secondary, group_id: group_id.clone() };
                Self::go(group_id, primary, op, Stage::LoadingRecipient { fan }, action)
            },
            (Stage::LoadingRecipient { fan }, Event::Group(None)) => {
                let message = not_found_for_device(&group_id, &fan.recipients[fan.next]);
                Self::fail(group_id, primary, op, message)
            },
            (Stage::LoadingRecipient { fan }, Event::Group(Some(_))) => {
                let decoded = decode_protocol(fan.commit.as_slice());
                let session = Session { group_id, primary, op, stage: Stage::LoadingRecipient { fan } };
                session.commit_read(decoded)
            },
            (Stage::LoadingRecipient { .. }, Event::Failed(e)) => Self::fail(group_id, primary, op, join("load group: ", e.as_str())),
            (Stage::ProcessingRecipient { fan }, Event::Processed { content, .. }) => match content {
                Content::Commit { commit, .. } => {
                    Self::go(group_id, primary, op, Stage::MergingRecipient { fan }, Action::MergeStaged { commit })
                },
                _ => Self::fail(group_id, primary, op, String::from_str("expected staged commit")),
            },
            (Stage::ProcessingRecipient { fan }, Event::Failed(e)) => {
                let message = join4("process commit for ", fan.recipients[fan.next].as_str(), ": ", e.as_str());
                Self::fail(group_id, primary, op, message)
            },
            (Stage::MergingRecipient { fan }, Event::Done) => {
                let Fanout { recipients, next, commit, view, welcome } = fan;
                let count: usize = recipients.len();
                assert(next < count);
                let moved = Fanout { recipients, next: next + 1, commit, view, welcome };
                Self::fan_continue_exec(group_id, primary, op, moved)
            },
            (Stage::MergingRecipient { fan }, Event::Failed(e)) => {
                let message = join4("merge commit for ", fan.recipients[fan.next].as_str(), ": ", e.as_str());
                Self::fail(group_id, primary, op, message)
            },
            (Stage::OpeningNewcomerToJoin { welcome, view }, Event::Done) => match welcome {
                Err(e) => Self::fail(group_id, primary, op, join("serialize message: ", e.as_str())),
                Ok(bytes) => {
                    let decoded = decode_welcome(bytes.as_slice());
                    let session = Session { group_id, primary, op, stage: Stage::OpeningNewcomerToJoin { welcome: Ok(bytes), view } };
                    session.newcomer_welcome_read(decoded)
                },
            },
            (Stage::StagingNewcomer { view }, Event::Done) => {
                Self::go(group_id, primary, op, Stage::JoiningNewcomer { view }, Action::JoinStaged)
            },
            (Stage::StagingNewcomer { .. }, Event::Failed(e)) => Self::fail(group_id, primary, op, join("stage new welcome: ", e.as_str())),
            (Stage::JoiningNewcomer { view }, Event::Done) => {
                let reply = group_reply(&view);
                Self::finish(group_id, primary, op, Ok(reply))
            },
            (Stage::JoiningNewcomer { .. }, Event::Failed(e)) => Self::fail(group_id, primary, op, join("join new member: ", e.as_str())),
            (_, Event::Failed(e)) => Self::fail(group_id, primary, op, e),
            (_, _) => {
                proof {
                    assert(false);
                }
                Self::fail(group_id, primary, op, String::new())
            },
        }
    }
}

impl Session {
    proof fn lemma_decodes_back(text: Seq<char>, decoded: Result<Vec<u8>, String>)
        requires
            match decoded {
                Ok(bytes) => {
                    &&& base64_decoding(text) == Ok::<Seq<u8>, Seq<char>>(bytes@)
                    &&& is_base64_text(text) ==> base64_text(bytes@) == text
                },
                Err(e) => {
                    &&& base64_decoding(text) == Err::<Seq<u8>, Seq<char>>(e@)
                    &&& !is_base64_text(text)
                },
            },
        ensures
            decodes_back(text),
    {
        assert forall|bytes: Seq<u8>| #[trigger] base64_text(bytes) == text implies
            base64_decoding(text) == Ok::<Seq<u8>, Seq<char>>(bytes) by {
            assert(is_base64_text(text));
            lemma_base64_text_injective(decoded->Ok_0@, bytes);
        }
    }

    fn after_primary_loaded_exec(group_id: String, primary: String, op: Op, view: GroupView) -> (r: (Session, Action))
        ensures
            (r.0@, r.1@) == after_primary_loaded(model_of(group_id, primary, op, Stage::Finished), view@),
            op@ matches OpModel::Encrypt { plaintext_base64 } ==> decodes_back(plaintext_base64),
            op@ matches OpModel::Decrypt { wire_base64 } ==> decodes_back(wire_base64),
    {
        let ids = member_ids(&view);
        match &op {
            Op::Add { newcomer } => {
                if contains_id(&ids, newcomer) {
                    Self::fail(group_id, primary, op, String::from_str("member already exists"))
                } else {
                    let device = newcomer.clone();
                    Self::go(
                        group_id,
                        primary,
                        op,
                        Stage::OpeningNewcomer { existing: ids },
                        Action::OpenDevice { slot: Slot::Secondary, device },
                    )
                }
            },
            Op::Remove { target } => {
                if primary == *target {
                    Self::fail(group_id, primary, op, String::from_str("actor cannot remove itself through this bridge operation"))
                } else {
                    match find_member(&view.members, target.as_str().as_bytes()) {
                        None => Self::fail(group_id, primary, op, String::from_str("member not found")),
                        Some(index) => Self::go(
                            group_id,
                            primary,
                            op,
                            Stage::RemovingTarget { existing: ids },
                            Action::RemoveMember { index },
                        ),
                    }
                }
            },
            Op::Encrypt { plaintext_base64 } => {
                let decoded = decode_base64(plaintext_base64.as_str());
                proof {
                    Self::lemma_decodes_back(plaintext_base64@, decoded);
                }
                let session = Session { group_id, primary, op, stage: Stage::LoadingPrimary };
                session.plaintext_read(decoded)
            },
            Op::Decrypt { wire_base64 } => {
                let decoded = decode_base64(wire_base64.as_str());
                proof {
                    Self::lemma_decodes_back(wire_base64@, decoded);
                }
                let session = Session { group_id, primary, op, stage: Stage::LoadingPrimary };
                session.wire_read(decoded)
            },
            _ => {
                let reply = group_reply(&view);
                Self::finish(group_id, primary, op, Ok(reply))
            },
        }
    }

    fn scan_exec(group_id: String, primary: String, op: Op, entries: Vec<Option<String>>, next: usize) -> (r: (Session, Action))
        requires
            op is Info,
        ensures
            (r.0@, r.1@) == scan(model_of(group_id, primary, op, Stage::Finished), listing(entries@), next),
    {
        if next < entries.len() {
            let unreadable: Option<String> = match &entries[next] {
                Some(e) => Some(e.clone()),
                None => None,
            };
            match unreadable {
                Some(e) => Self::fail(group_id, primary, op, e),
                None => Self::go(group_id, primary, op, Stage::CheckingEntry { entries, next }, Action::CheckEntry { index: next }),
            }
        } else {
            let message = not_found_anywhere(&group_id);
            Self::fail(group_id, primary, op, message)
        }
    }

    fn step_other_exec(group_id: String, primary: String, op: Op, stage: Stage, event: Event) -> (r: (Session, Action))
        requires
            session_wf(model_of(group_id, primary, op, stage)),
            session_accepts(model_of(group_id, primary, op, stage), event@),
            stage_group(stage@) == 2,
        ensures
            (r.0@, r.1@) == step_other(model_of(group_id, primary, op, stage), event@),
            (stage@ == StageModel::LoadingPrimary && event@ matches EventModel::Group(Some(_))) ==> {
                &&& op@ matches OpModel::Encrypt { plaintext_base64 } ==> decodes_back(plaintext_base64)
                &&& op@ matches OpModel::Decrypt { wire_base64 } ==> decodes_back(wire_base64)
            },
    {
        let ghost s = model_of(group_id, primary, op, stage);
        let ghost ev = event@;
        match (stage, event) {
            (Stage::OpeningPrimary, Event::Done) => {
                let action = Action::LoadGroup { slot: Slot::Primary, group_id: group_id.clone() };
                let is_init: bool = match &op {
                    Op::Init { .. } => true,
                    _ => false,
                };
                if is_init {
                    Self::go(group_id, primary, op, Stage::LoadingExisting, action)
                } else {
                    Self::go(group_id, primary, op, Stage::LoadingPrimary, action)
                }
            },
            (Stage::LoadingPrimary, Event::Group(None)) => {
                let message = not_found_for_device(&group_id, &primary);
                Self::fail(group_id, primary, op, message)
            },
            (Stage::LoadingPrimary, Event::Group(Some(view))) => Self::after_primary_loaded_exec(group_id, primary, op, view),
            (Stage::LoadingPrimary, Event::Failed(e)) => Self::fail(group_id, primary, op, join("load group: ", e.as_str())),
            (Stage::CreatingMessage, Event::Created { wire, epoch }) => match wire {
                Err(e) => Self::fail(group_id, primary, op, join("serialize message: ", e.as_str())),
                Ok(bytes) => {
                    let wire_base64 = encode_base64(bytes.as_slice());
                    Self::finish(group_id, primary, op, Ok(Reply::Wire { epoch, wire_base64 }))
                },
            },
            (Stage::CreatingMessage, Event::Failed(e)) => Self::fail(group_id, primary, op, join("create message: ", e.as_str())),
            (Stage::ProcessingMessage, Event::Processed { content, epoch }) => match content {
                Content::Application(bytes) => {
                    let plaintext_base64 = encode_base64(bytes.as_slice());
                    Self::finish(group_id, primary, op, Ok(Reply::Plaintext { epoch, plaintext_base64 }))
                },
                Content::Commit { debug, .. } => {
                    Self::fail(group_id, primary, op, join("expected application message, got ", debug.as_str()))
                },
                Content::Other(debug) => {
                    Self::fail(group_id, primary, op, join("expected application message, got ", debug.as_str()))
                },
            },
            (Stage::ProcessingMessage, Event::Failed(e)) => Self::fail(group_id, primary, op, join("process message: ", e.as_str())),
            (Stage::Listing, Event::Listed(None)) => {
                let message = not_found_anywhere(&group_id);
                Self::fail(group_id, primary, op, message)
            },
            (Stage::Listing, Event::Listed(Some(entries))) => Self::scan_exec(group_id, primary, op, entries, 0),
            (Stage::CheckingEntry { entries, next }, Event::Present(present)) => {
                let count: usize = entries.len();
                assert(next < count);
                if present {
                    Self::go(group_id, primary, op, Stage::OpeningEntry { entries, next }, Action::OpenEntry { index: next })
                } else {
                    Self::scan_exec(group_id, primary, op, entries, next + 1)
                }
            },
            (Stage::OpeningEntry { entries, next }, Event::Done) => {
                let action = Action::LoadGroup { slot: Slot::Secondary, group_id: group_id.clone() };
                Self::go(group_id, primary, op, Stage::ProbingEntry { entries, next }, action)
            },
            (Stage::ProbingEntry { entries, next }, Event::Group(found)) => {
                let count: usize = entries.len();
                assert(next < count);
                match found {
                Some(view) => {
                    let ids = member_ids(&view);
                    if ids.len() > 0 {
                        let chosen = ids[0].clone();
                        let device = ids[0].clone();
                        Self::go(group_id, chosen, op, Stage::OpeningPrimary, Action::OpenDevice { slot: Slot::Primary, device })
                    } else {
                        Self::scan_exec(group_id, primary, op, entries, next + 1)
                    }
                },
                None => Self::scan_exec(group_id, primary, op, entries, next + 1),
                }
            },
            (Stage::ProbingEntry { .. }, Event::Failed(e)) => Self::fail(group_id, primary, op, join("probe group: ", e.as_str())),
            (_, Event::Failed(e)) => Self::fail(group_id, primary, op, e),
            (_, _) => {
                proof {
                    assert(false);
                }
                Self::fail(group_id, primary, op, String::new())
            },
        }
    }
}

fn group_of(stage: &Stage) -> (r: u8)
    ensures
        r as int == stage_group(stage@),
{
    match stage {
        Stage::LoadingExisting | Stage::CreatingGroup | Stage::OpeningKeyHolder { .. } | Stage::BuildingKeyPackage { .. }
        | Stage::AddingInitial | Stage::MergingInitial { .. } | Stage::OpeningJoiner { .. } | Stage::StagingJoiner { .. }
        | Stage::JoiningJoiner { .. } => 0,
        Stage::OpeningNewcomer { .. } | Stage::BuildingNewcomerPackage { .. } | Stage::AddingNewcomer { .. }
        | Stage::MergingAdd { .. } | Stage::RemovingTarget { .. } | Stage::MergingRemove { .. }
        | Stage::OpeningRecipient { .. } | Stage::LoadingRecipient { .. } | Stage::ProcessingRecipient { .. }
        | Stage::MergingRecipient { .. } | Stage::OpeningNewcomerToJoin { .. } | Stage::StagingNewcomer { .. }
        | Stage::JoiningNewcomer { .. } => 1,
        _ => 2,
    }
}

impl Session {
    /// Whether the session can take `event` now: it has not finished, and the event
    /// answers the action it handed out last.
    pub fn accepts(&self, event: &Event) -> (r: bool)
        ensures
            r == session_accepts(self@, event@),
    {
        match (&self.stage, event) {
            (Stage::Finished, _) => false,
            (_, Event::Failed(_)) => true,
            (Stage::LoadingPrimary, Event::Group(_)) => true,
            (Stage::LoadingExisting, Event::Group(_)) => true,
            (Stage::LoadingRecipient { .. }, Event::Group(_)) => true,
            (Stage::ProbingEntry { .. }, Event::Group(_)) => true,
            (Stage::CreatingGroup, Event::Group(Some(_))) => true,
            (Stage::MergingInitial { .. }, Event::Group(Some(_))) => true,
            (Stage::MergingAdd { .. }, Event::Group(Some(_))) => true,
            (Stage::MergingRemove { .. }, Event::Group(Some(_))) => true,
            (Stage::AddingInitial, Event::Added { .. }) => true,
            (Stage::AddingNewcomer { .. }, Event::Added { .. }) => true,
            (Stage::RemovingTarget { .. }, Event::Removed { .. }) => true,
            (Stage::ProcessingRecipient { .. }, Event::Processed { .. }) => true,
            (Stage::ProcessingMessage, Event::Processed { content, .. }) => match content {
                Content::Application(bytes) => bytes.len() <= usize::MAX / 4,
                _ => true,
            },
            (Stage::CreatingMessage, Event::Created { wire, .. }) => match wire {
                Ok(bytes) => bytes.len() <= usize::MAX / 4,
                Err(_) => true,
            },
            (Stage::Listing, Event::Listed(_)) => true,
            (Stage::CheckingEntry { .. }, Event::Present(_)) => true,
            (Stage::OpeningPrimary, Event::Done) => true,
            (Stage::OpeningKeyHolder { .. }, Event::Done) => true,
            (Stage::BuildingKeyPackage { .. }, Event::Done) => true,
            (Stage::OpeningJoiner { .. }, Event::Done) => true,
            (Stage::StagingJoiner { .. }, Event::Done) => true,
            (Stage::JoiningJoiner { .. }, Event::Done) => true,
            (Stage::OpeningNewcomer { .. }, Event::Done) => true,
            (Stage::BuildingNewcomerPackage { .. }, Event::Done) => true,
            (Stage::OpeningRecipient { .. }, Event::Done) => true,
            (Stage::MergingRecipient { .. }, Event::Done) => true,
            (Stage::OpeningNewcomerToJoin { .. }, Event::Done) => true,
            (Stage::StagingNewcomer { .. }, Event::Done) => true,
            (Stage::JoiningNewcomer { .. }, Event::Done) => true,
            (Stage::OpeningEntry { .. }, Event::Done) => true,
            _ => false,
        }
    }

    /// Takes the caller's report on the last action and decides the next one.
    pub fn advance(self, event: Event) -> (r: (Session, Action))
        requires
            session_accepts(self@, event@),
        ensures
            (r.0@, r.1@) == session_step(self@, event@),
            self@.stage is ProcessingRecipient ==> hands_on_commit(event, r.1),
            forall|wire: Seq<u8>|
                #![trigger base64_text(wire)]
                (self@.stage == StageModel::LoadingPrimary && (event@ matches EventModel::Group(Some(_)))
                    && self@.op == (OpModel::Decrypt { wire_base64: base64_text(wire) }))
                    ==> (r.0@, r.1@) == message_decision(self@, protocol_decoding(wire)),
            forall|plaintext: Seq<u8>|
                #![trigger base64_text(plaintext)]
                (self@.stage == StageModel::LoadingPrimary && (event@ matches EventModel::Group(Some(_)))
                    && self@.op == (OpModel::Encrypt { plaintext_base64: base64_text(plaintext) }))
                    ==> r.1@ == (ActionModel::CreateMessage { plaintext }),
    {
        proof {
            use_type_invariant(&self);
        }
        let Session { group_id, primary, op, stage } = self;
        let which: u8 = group_of(&stage);
        if which == 0 {
            Self::step_init_exec(group_id, primary, op, stage, event)
        } else if which == 1 {
            Self::step_change_exec(group_id, primary, op, stage, event)
        } else {
            Self::step_other_exec(group_id, primary, op, stage, event)
        }
    }
}

impl Session {
    /// Decides on the plaintext of an `Encrypt` request, once the acting device's group is
    /// loaded, given what base64 decoding made of the request's text.
    pub fn plaintext_read(self, decoded: Result<Vec<u8>, String>) -> (r: (Session, Action))
        requires
            self@.stage is LoadingPrimary,
            self@.op is Encrypt,
        ensures
            (r.0@, r.1@) == plaintext_decision(self@, bytes_outcome(decoded)),
    {
        let Session { group_id, primary, op, .. } = self;
        match decoded {
            Err(e) => Self::fail(group_id, primary, op, e),
            Ok(plaintext) => Self::go(group_id, primary, op, Stage::CreatingMessage, Action::CreateMessage { plaintext }),
        }
    }

    /// Decides on the wire text of a `Decrypt` request, once the acting device's group is
    /// loaded, given what base64 decoding made of it; decoded bytes are then read as a
    /// protocol message.
    pub fn wire_read(self, decoded: Result<Vec<u8>, String>) -> (r: (Session, Action))
        requires
            self@.stage is LoadingPrimary,
            self@.op is Decrypt,
        ensures
            (r.0@, r.1@) == wire_decision(self@, bytes_outcome(decoded)),
    {
        match decoded {
            Err(e) => {
                let Session { group_id, primary, op, .. } = self;
                Self::fail(group_id, primary, op, e)
            },
            Ok(wire) => {
                let message = decode_protocol(wire.as_slice());
                self.message_read(message)
            },
        }
    }

    /// Decides on the message of a `Decrypt` request, given what reading its bytes as a
    /// protocol message gave; a message read is handed out, as it is, to be processed.
    pub fn message_read(self, decoded: Result<ProtocolMessage, ProtocolFault>) -> (r: (Session, Action))
        requires
            self@.stage is LoadingPrimary,
            self@.op is Decrypt,
        ensures
            (r.0@, r.1@) == message_decision(self@, protocol_outcome(decoded)),
            decoded matches Ok(m) ==> (r.1 matches Action::ProcessMessage { message, .. } && message == m),
    {
        let Session { group_id, primary, op, .. } = self;
        match decoded {
            Err(ProtocolFault::Malformed(e)) => Self::fail(group_id, primary, op, join("deserialize message: ", e.as_str())),
            Err(ProtocolFault::NotProtocol(e)) => Self::fail(group_id, primary, op, join("protocol message: ", e.as_str())),
            Ok(message) => Self::go(
                group_id,
                primary,
                op,
                Stage::ProcessingMessage,
                Action::ProcessMessage { slot: Slot::Primary, message },
            ),
        }
    }

    /// Decides on the commit passed to the recipient whose group was just loaded, given what
    /// reading it as a protocol message gave; a message read is handed out, as it is, to be
    /// processed.
    pub fn commit_read(self, decoded: Result<ProtocolMessage, ProtocolFault>) -> (r: (Session, Action))
        requires
            self@.stage is LoadingRecipient,
        ensures
            (r.0@, r.1@) == commit_decision(self@, self@.stage->LoadingRecipient_fan, protocol_outcome(decoded)),
            decoded matches Ok(m) ==> (r.1 matches Action::ProcessMessage { message, .. } && message == m),
    {
        proof {
            use_type_invariant(&self);
        }
        let Session { group_id, primary, op, stage } = self;
        match stage {
            Stage::LoadingRecipient { fan } => match decoded {
                Err(ProtocolFault::Malformed(e)) => Self::fail(group_id, primary, op, join("deserialize commit: ", e.as_str())),
                Err(ProtocolFault::NotProtocol(e)) => Self::fail(group_id, primary, op, join("protocol commit: ", e.as_str())),
                Ok(message) => Self::go(
                    group_id,
                    primary,
                    op,
                    Stage::ProcessingRecipient { fan },
                    Action::ProcessMessage { slot: Slot::Secondary, message },
                ),
            },
            _ => {
                proof {
                    assert(false);
                }
                Self::fail(group_id, primary, op, String::new())
            },
        }
    }

    /// Decides on the welcome for the member joining next at creation time, given what
    /// reading it gave; a welcome read is handed out, as it is, to be staged.
    pub fn joiner_welcome_read(self, decoded: Result<Option<Welcome>, String>) -> (r: (Session, Action))
        requires
            self@.stage is OpeningJoiner,
        ensures
            (r.0@, r.1@) == joiner_decision(
                self@,
                self@.stage->OpeningJoiner_next,
                self@.stage->OpeningJoiner_welcome,
                self@.stage->OpeningJoiner_view,
                welcome_outcome(decoded),
            ),
            decoded matches Ok(Some(w)) ==> (r.1 matches Action::StageWelcome { welcome } && welcome == w),
    {
        proof {
            use_type_invariant(&self);
        }
        let Session { group_id, primary, op, stage } = self;
        match stage {
            Stage::OpeningJoiner { next, welcome, view } => match decoded {
                Err(e) => Self::fail(group_id, primary, op, join("welcome decode: ", e.as_str())),
                Ok(None) => Self::fail(group_id, primary, op, String::from_str("expected welcome")),
                Ok(Some(message)) => Self::go(
                    group_id,
                    primary,
                    op,
                    Stage::StagingJoiner { next, welcome, view },
                    Action::StageWelcome { welcome: message },
                ),
            },
            _ => {
                proof {
                    assert(false);
                }
                Self::fail(group_id, primary, op, String::new())
            },
        }
    }

    /// Decides on the welcome for the member being added, once every other member has the
    /// commit, given what reading it gave; a welcome read is handed out, as it is, to be
    /// staged.
    pub fn newcomer_welcome_read(self, decoded: Result<Option<Welcome>, String>) -> (r: (Session, Action))
        requires
            self@.stage is OpeningNewcomerToJoin,
            self@.stage->OpeningNewcomerToJoin_welcome is Ok,
        ensures
            (r.0@, r.1@) == newcomer_decision(self@, self@.stage->OpeningNewcomerToJoin_view, welcome_outcome(decoded)),
            decoded matches Ok(Some(w)) ==> (r.1 matches Action::StageWelcome { welcome } && welcome == w),
    {
        let Session { group_id, primary, op, stage } = self;
        match stage {
            Stage::OpeningNewcomerToJoin { view, .. } => match decoded {
                Err(e) => Self::fail(group_id, primary, op, join("deserialize message: ", e.as_str())),
                Ok(None) => Self::fail(group_id, primary, op, String::from_str("expected Welcome")),
                Ok(Some(message)) => Self::go(
                    group_id,
                    primary,
                    op,
                    Stage::StagingNewcomer { view },
                    Action::StageWelcome { welcome: message },
                ),
            },
            _ => {
                proof {
                    assert(false);
                }
                Self::fail(group_id, primary, op, String::new())
            },
        }
    }
}

} // verus!
