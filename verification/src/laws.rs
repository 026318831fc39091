//! What holds of every session, whatever the caller reports.
use vstd::prelude::*;
use vstd::utf8::encode_utf8;
use crate::codec::lossy_text;
use crate::exchange::{ActionModel, ContentModel, EventModel, GroupModel, MemberModel, ReplyModel, RequestModel, Slot};
use crate::plan::{
    fan_advanced, fan_continue, fail, first_member_index, go, ids_of, op_members, others, reply_of, session_accepts,
    session_run, session_start, session_step, FanoutModel, OpModel, SessionModel, StageModel,
};
use crate::wire::{protocol_decoding, welcome_decoding};

verus! {

/// Running a session over two sequences of events one after the other is running it over
/// the first, then over the second from where the first left it.
pub proof fn lemma_run_append(s: SessionModel, first: Seq<EventModel>, second: Seq<EventModel>)
    ensures
        session_run(s, first + second).0 == session_run(session_run(s, first).0, second).0,
        session_run(s, first + second).1 == session_run(s, first).1 + session_run(session_run(s, first).0, second).1,
    decreases first.len(),
{
    if first.len() == 0 {
        assert(first + second =~= second);
        assert(session_run(s, first).1 + session_run(s, second).1 =~= session_run(s, second).1);
    } else {
        let (next, action) = session_step(s, first[0]);
        assert((first + second)[0] == first[0]);
        assert((first + second).drop_first() =~= first.drop_first() + second);
        lemma_run_append(next, first.drop_first(), second);
        assert(session_run(s, first + second).1 =~= seq![action] + session_run(next, first.drop_first() + second).1);
        assert(session_run(s, first).1 =~= seq![action] + session_run(next, first.drop_first()).1);
    }
}

/// Every failure the caller reports ends the request with an error.
pub proof fn lemma_failure_ends_request(s: SessionModel, message: Seq<char>)
    requires
        session_accepts(s, EventModel::Failed(message)),
    ensures
        session_step(s, EventModel::Failed(message)).0.stage == StageModel::Finished,
        session_step(s, EventModel::Failed(message)).1 matches ActionModel::Finish(Err(_)),
{
}

/// A finished session takes no further event.
pub proof fn lemma_finished_is_final(s: SessionModel, event: EventModel)
    requires
        s.stage == StageModel::Finished,
    ensures
        !session_accepts(s, event),
{
}

/// A session hands out its answer exactly when it finishes.
pub proof fn lemma_answer_iff_finished(s: SessionModel, event: EventModel)
    requires
        session_accepts(s, event),
    ensures
        (session_step(s, event).1 is Finish) <==> (session_step(s, event).0.stage == StageModel::Finished),
{
}

/// A request to create a group without members is refused before anything is opened.
pub proof fn lemma_init_needs_a_member(group_id: Seq<char>)
    ensures
        session_start(RequestModel::Init { group_id, members: Seq::empty() }).0.stage == StageModel::Finished,
        session_start(RequestModel::Init { group_id, members: Seq::empty() }).1
            == ActionModel::Finish(Err("at least one member required"@)),
{
}

/// Creating a group that the leader's store already holds changes nothing: the answer
/// describes the group as it is.
pub proof fn lemma_init_keeps_existing_group(s: SessionModel, view: GroupModel)
    requires
        s.stage == StageModel::LoadingExisting,
    ensures
        session_step(s, EventModel::Group(Some(view))).1 == ActionModel::Finish(Ok(reply_of(view))),
{
}

/// Adding a device that is already a member is refused before any key package is built
/// or any commit is made.
pub proof fn lemma_add_refuses_a_member(s: SessionModel, view: GroupModel)
    requires
        s.stage == StageModel::LoadingPrimary,
        s.op matches OpModel::Add { newcomer } && ids_of(view).contains(newcomer),
    ensures
        session_step(s, EventModel::Group(Some(view))) == fail(s, "member already exists"@),
{
}

/// A device cannot remove itself; the request is refused before any commit is made.
pub proof fn lemma_remove_refuses_self(s: SessionModel, view: GroupModel)
    requires
        s.stage == StageModel::LoadingPrimary,
        s.op == (OpModel::Remove { target: s.primary }),
    ensures
        session_step(s, EventModel::Group(Some(view))) == fail(s, "actor cannot remove itself through this bridge operation"@),
{
}

/// Removing a device whose identity no member has is refused before any commit is made;
/// otherwise the member removed is the first one with that identity.
pub proof fn lemma_remove_targets_first_match(s: SessionModel, view: GroupModel)
    requires
        s.stage == StageModel::LoadingPrimary,
        s.op matches OpModel::Remove { target } && target != s.primary,
    ensures
        ({
            let target = s.op->target;
            match first_member_index(view.members, encode_utf8(target)) {
                None => session_step(s, EventModel::Group(Some(view))) == fail(s, "member not found"@),
                Some(index) => session_step(s, EventModel::Group(Some(view))).1 == (ActionModel::RemoveMember { index }),
            }
        }),
{
}

/// The devices that a commit is passed on to are the group's members before the change,
/// in the group's order, without the acting device: none is left out, none is added, and
/// the acting device is never among them.
pub proof fn lemma_recipients_are_the_others(ids: Seq<Seq<char>>, actor: Seq<char>)
    ensures
        !others(ids, actor).contains(actor),
        forall|id: Seq<char>| ids.contains(id) && id != actor ==> #[trigger] others(ids, actor).contains(id),
        forall|id: Seq<char>| #[trigger] others(ids, actor).contains(id) ==> ids.contains(id),
        others(ids, actor).len() <= ids.len(),
    decreases ids.len(),
{
    if ids.len() > 0 {
        let rest = ids.drop_last();
        lemma_recipients_are_the_others(rest, actor);
        assert forall|id: Seq<char>| ids.contains(id) && id != actor implies #[trigger] others(ids, actor).contains(id) by {
            let k = choose|k: int| 0 <= k < ids.len() && ids[k] == id;
            if k < ids.len() - 1 {
                assert(rest[k] == id);
                assert(rest.contains(id));
                assert(others(rest, actor).contains(id));
                if ids.last() == actor {
                    assert(others(ids, actor) == others(rest, actor));
                } else {
                    let j = choose|j: int| 0 <= j < others(rest, actor).len() && others(rest, actor)[j] == id;
                    assert(others(ids, actor)[j] == id);
                }
            } else {
                assert(others(ids, actor).last() == id);
            }
        }
        assert forall|id: Seq<char>| #[trigger] others(ids, actor).contains(id) implies ids.contains(id) by {
            let k = choose|k: int| 0 <= k < others(ids, actor).len() && others(ids, actor)[k] == id;
            if k < others(rest, actor).len() {
                assert(others(rest, actor)[k] == id);
                assert(others(rest, actor).contains(id));
                let j = choose|j: int| 0 <= j < rest.len() && rest[j] == id;
                assert(ids[j] == id);
            } else {
                assert(ids[ids.len() - 1] == id);
            }
        }
    }
}

/// The actions a session hands out while the commit goes round the remaining recipients,
/// when every step succeeds: each recipient's group is loaded, the commit is processed and
/// merged there, and then the next recipient is opened (or, after the last one, what
/// follows the round).
pub open spec fn fanout_actions(s: SessionModel, fan: FanoutModel) -> Seq<ActionModel>
    decreases fan.recipients.len() - fan.next,
{
    if fan.next < fan.recipients.len() && fan.recipients.len() <= usize::MAX {
        seq![
            ActionModel::LoadGroup { slot: Slot::Secondary, group_id: s.group_id },
            ActionModel::ProcessMessage { slot: Slot::Secondary },
            ActionModel::MergeStaged,
            fan_continue(s, fan_advanced(fan)).1,
        ] + fanout_actions(s, fan_advanced(fan))
    } else {
        Seq::empty()
    }
}

proof fn lemma_fanout_actions_ignore_stage(s: SessionModel, t: SessionModel, fan: FanoutModel)
    requires
        s.group_id == t.group_id,
        s.primary == t.primary,
        s.op == t.op,
    ensures
        fanout_actions(s, fan) == fanout_actions(t, fan),
    decreases fan.recipients.len() - fan.next,
{
    if fan.next < fan.recipients.len() && fan.recipients.len() <= usize::MAX {
        lemma_fanout_actions_ignore_stage(s, t, fan_advanced(fan));
    }
}

/// The events that report one recipient handling a commit successfully.
pub open spec fn successful_round(events: Seq<EventModel>) -> bool {
    &&& events.len() == 4
    &&& events[0] == EventModel::Done
    &&& events[1] matches EventModel::Group(Some(_))
    &&& events[2] matches EventModel::Processed { content: ContentModel::Commit { .. }, .. }
    &&& events[3] == EventModel::Done
}

/// A sequence of events made of `rounds` successful rounds.
pub open spec fn successful_rounds(events: Seq<EventModel>, rounds: int) -> bool {
    &&& events.len() == 4 * rounds
    &&& forall|r: int| 0 <= r < rounds ==> #[trigger] successful_round(events.subrange(4 * r, 4 * r + 4))
}

/// The fan-out once every recipient has the commit.
pub open spec fn fan_done(fan: FanoutModel) -> FanoutModel {
    FanoutModel { next: fan.recipients.len() as usize, ..fan }
}

/// When the commit reads as a protocol message and every recipient handles it, the commit
/// goes to each remaining recipient exactly once, in order, and the session then moves on
/// exactly as it does once all recipients are done.
pub proof fn lemma_commit_reaches_each_recipient_in_order(s: SessionModel, fan: FanoutModel, events: Seq<EventModel>)
    requires
        s.stage == (StageModel::OpeningRecipient { fan }),
        fan.next < fan.recipients.len(),
        fan.recipients.len() <= usize::MAX,
        protocol_decoding(fan.commit) is Ok,
        successful_rounds(events, fan.recipients.len() - fan.next),
    ensures
        session_run(s, events).0 == fan_continue(s, fan_done(fan)).0,
        session_run(s, events).1 == fanout_actions(s, fan),
    decreases fan.recipients.len() - fan.next,
{
    let round = events.subrange(0, 4);
    let rest = events.subrange(4, events.len() as int);
    assert(successful_round(events.subrange(4 * 0int, 4 * 0int + 4)));
    assert(round == events.subrange(4 * 0int, 4 * 0int + 4));
    let s1 = go(s, StageModel::LoadingRecipient { fan }, ActionModel::LoadGroup { slot: Slot::Secondary, group_id: s.group_id }).0;
    let s2 = go(s1, StageModel::ProcessingRecipient { fan }, ActionModel::ProcessMessage { slot: Slot::Secondary }).0;
    let s3 = go(s2, StageModel::MergingRecipient { fan }, ActionModel::MergeStaged).0;
    assert(session_step(s, round[0]) == go(s, StageModel::LoadingRecipient { fan }, ActionModel::LoadGroup { slot: Slot::Secondary, group_id: s.group_id }));
    assert(session_step(s1, round[1]) == go(s1, StageModel::ProcessingRecipient { fan }, ActionModel::ProcessMessage { slot: Slot::Secondary }));
    assert(session_step(s2, round[2]) == go(s2, StageModel::MergingRecipient { fan }, ActionModel::MergeStaged));
    assert(session_step(s3, round[3]) == fan_continue(s3, fan_advanced(fan)));
    assert(fan_continue(s3, fan_advanced(fan)) == fan_continue(s, fan_advanced(fan)));
    reveal_with_fuel(session_run, 5);
    assert(round.drop_first() =~= round.subrange(1, 4));
    assert(round.subrange(1, 4).drop_first() =~= round.subrange(2, 4));
    assert(round.subrange(2, 4).drop_first() =~= round.subrange(3, 4));
    assert(round.subrange(3, 4).drop_first() =~= Seq::<EventModel>::empty());
    let after = fan_continue(s, fan_advanced(fan)).0;
    assert(session_run(s, round).0 == after);
    assert(session_run(s, round).1 =~= seq![
        ActionModel::LoadGroup { slot: Slot::Secondary, group_id: s.group_id },
        ActionModel::ProcessMessage { slot: Slot::Secondary },
        ActionModel::MergeStaged,
        fan_continue(s, fan_advanced(fan)).1,
    ]);
    assert(events =~= round + rest);
    lemma_run_append(s, round, rest);
    let moved = fan_advanced(fan);
    if moved.next < moved.recipients.len() {
        assert forall|r: int| 0 <= r < moved.recipients.len() - moved.next implies #[trigger] successful_round(rest.subrange(4 * r, 4 * r + 4)) by {
            assert(successful_round(events.subrange(4 * (r + 1), 4 * (r + 1) + 4)));
            assert(rest.subrange(4 * r, 4 * r + 4) =~= events.subrange(4 * (r + 1), 4 * (r + 1) + 4));
        }
        assert(after.stage == (StageModel::OpeningRecipient { fan: moved }));
        assert(after.group_id == s.group_id && after.primary == s.primary && after.op == s.op);
        lemma_commit_reaches_each_recipient_in_order(after, moved, rest);
        assert(fan_done(moved) == fan_done(fan));
        assert(fan_continue(after, fan_done(fan)) == fan_continue(s, fan_done(fan)));
        lemma_fanout_actions_ignore_stage(after, s, moved);
        assert(fanout_actions(s, fan) =~= session_run(s, round).1 + fanout_actions(s, moved));
    } else {
        assert(rest.len() == 0);
        assert(rest =~= Seq::<EventModel>::empty());
        assert(fan_done(fan) == moved);
        assert(fanout_actions(s, moved) =~= Seq::<ActionModel>::empty());
        assert(fanout_actions(s, fan) =~= session_run(s, round).1);
        assert(session_run(s, round).1 + session_run(after, rest).1 =~= session_run(s, round).1);
    }
}

/// A removal, once every recipient has the commit, is answered with the acting device's
/// group as it stood after its own merge.
pub proof fn lemma_removal_answers_with_actor_group(s: SessionModel, fan: FanoutModel)
    requires
        fan.welcome is None,
        fan.recipients.len() <= usize::MAX,
    ensures
        fan_continue(s, fan_done(fan)).1 == ActionModel::Finish(Ok(reply_of(fan.view))),
{
}

/// An addition, once every recipient has the commit, opens the new member's device to
/// join through the welcome, keeping the acting device's group as it stood after its merge.
pub proof fn lemma_addition_then_welcomes_newcomer(s: SessionModel, fan: FanoutModel, newcomer: Seq<char>)
    requires
        fan.welcome is Some,
        fan.recipients.len() <= usize::MAX,
        s.op == (OpModel::Add { newcomer }),
    ensures
        fan_continue(s, fan_done(fan)).1 == (ActionModel::OpenDevice { slot: Slot::Secondary, device: newcomer }),
        fan_continue(s, fan_done(fan)).0.stage == (StageModel::OpeningNewcomerToJoin { welcome: fan.welcome->0, view: fan.view }),
{
}

/// An addition whose welcome reads as one ends, once the new member has staged it and
/// joined, with the acting device's group as it stood after its merge.
pub proof fn lemma_addition_answers_with_actor_group(s: SessionModel, bytes: Seq<u8>, view: GroupModel)
    requires
        s.stage == (StageModel::OpeningNewcomerToJoin { welcome: Ok(bytes), view }),
        s.op is Add,
        welcome_decoding(bytes) == Ok::<bool, Seq<char>>(true),
    ensures
        session_run(s, seq![EventModel::Done, EventModel::Done, EventModel::Done]).0.stage == StageModel::Finished,
        session_run(s, seq![EventModel::Done, EventModel::Done, EventModel::Done]).1
            == seq![ActionModel::StageWelcome, ActionModel::JoinStaged, ActionModel::Finish(Ok(reply_of(view)))],
{
    let events = seq![EventModel::Done, EventModel::Done, EventModel::Done];
    reveal_with_fuel(session_run, 4);
    assert(events.drop_first() =~= seq![EventModel::Done, EventModel::Done]);
    assert(events.drop_first().drop_first() =~= seq![EventModel::Done]);
    assert(events.drop_first().drop_first().drop_first() =~= Seq::<EventModel>::empty());
    let (s1, a1) = session_step(s, EventModel::Done);
    assert(s1.stage == (StageModel::StagingNewcomer { view }));
    let (s2, a2) = session_step(s1, EventModel::Done);
    assert(s2.stage == (StageModel::JoiningNewcomer { view }));
    let (s3, a3) = session_step(s2, EventModel::Done);
    assert(session_run(s, events).1 =~= seq![a1, a2, a3]);
}

/// Encrypting answers with the base64 text of the serialized message; decrypting answers
/// with the base64 text of the application message.
pub proof fn lemma_messages_are_answered_in_base64(s: SessionModel, wire: Seq<u8>, plaintext: Seq<u8>, epoch: u64)
    ensures
        s.stage == StageModel::CreatingMessage ==> session_step(s, EventModel::Created { wire: Ok(wire), epoch }).1
            == ActionModel::Finish(Ok(ReplyModel::Wire { epoch, wire_base64: crate::codec::base64_text(wire) })),
        s.stage == StageModel::ProcessingMessage ==> session_step(
            s,
            EventModel::Processed { content: ContentModel::Application(plaintext), epoch },
        ).1 == ActionModel::Finish(Ok(ReplyModel::Plaintext { epoch, plaintext_base64: crate::codec::base64_text(plaintext) })),
{
}

/// Reporting on a group without naming a device asks the first device, in listing order,
/// whose store holds the group, and then acts as its group's first member.
pub proof fn lemma_info_picks_first_member(s: SessionModel, entries: Seq<Option<Seq<char>>>, next: usize, view: GroupModel)
    requires
        s.stage == (StageModel::ProbingEntry { entries, next }),
        ids_of(view).len() > 0,
    ensures
        session_step(s, EventModel::Group(Some(view))).0.primary == ids_of(view)[0],
        session_step(s, EventModel::Group(Some(view))).1 == (ActionModel::OpenDevice { slot: Slot::Primary, device: ids_of(view)[0] }),
{
}

/// Reporting on a group without naming a device gives the same answer as naming any member,
/// when the copies agree: once the probe has found a copy of the group with members, its
/// first member is asked, and if that member's group is the same as the named member's, the
/// actions and the answer are the same: load the group, then answer with it.
pub proof fn lemma_info_same_from_any_member(
    probe: SessionModel,
    found: GroupModel,
    member: Seq<char>,
    view: GroupModel,
)
    requires
        probe.stage matches StageModel::ProbingEntry { .. },
        probe.op is Info,
        ids_of(found).len() > 0,
    ensures
        ({
            let named = session_start(RequestModel::GroupInfo { group_id: probe.group_id, device: Some(member) }).0;
            let chosen = session_step(probe, EventModel::Group(Some(found))).0;
            let events = seq![EventModel::Done, EventModel::Group(Some(view))];
            &&& session_run(chosen, events).1 == session_run(named, events).1
            &&& session_run(named, events).1 == seq![
                ActionModel::LoadGroup { slot: Slot::Primary, group_id: probe.group_id },
                ActionModel::Finish(Ok(reply_of(view))),
            ]
        }),
{
    let named = session_start(RequestModel::GroupInfo { group_id: probe.group_id, device: Some(member) }).0;
    let chosen = session_step(probe, EventModel::Group(Some(found))).0;
    let events = seq![EventModel::Done, EventModel::Group(Some(view))];
    reveal_with_fuel(session_run, 3);
    assert(events.drop_first() =~= seq![EventModel::Group(Some(view))]);
    assert(events.drop_first().drop_first() =~= Seq::<EventModel>::empty());
    assert(named.stage == StageModel::OpeningPrimary && named.op is Info);
    assert(chosen.stage == StageModel::OpeningPrimary && chosen.op is Info && chosen.group_id == probe.group_id);
    let n1 = session_step(named, EventModel::Done).0;
    let c1 = session_step(chosen, EventModel::Done).0;
    assert(n1.stage == StageModel::LoadingPrimary);
    assert(c1.stage == StageModel::LoadingPrimary);
    assert(session_run(named, events).1 =~= seq![
        ActionModel::LoadGroup { slot: Slot::Primary, group_id: probe.group_id },
        ActionModel::Finish(Ok(reply_of(view))),
    ]);
    assert(session_run(chosen, events).1 =~= seq![
        ActionModel::LoadGroup { slot: Slot::Primary, group_id: probe.group_id },
        ActionModel::Finish(Ok(reply_of(view))),
    ]);
}

/// Events that all report plain success.
pub open spec fn all_done(events: Seq<EventModel>) -> bool {
    forall|i: int| 0 <= i < events.len() ==> #[trigger] events[i] == EventModel::Done
}

/// The actions handed out while the members after the leader, from position `next` on,
/// each build a key package: build it, then open the next member's device, or, after the
/// last member, add them all.
pub open spec fn key_package_actions(members: Seq<Seq<char>>, next: int) -> Seq<ActionModel>
    decreases members.len() - next,
{
    if 1 <= next < members.len() {
        seq![
            ActionModel::BuildKeyPackage,
            if next + 1 < members.len() {
                ActionModel::OpenDevice { slot: Slot::Secondary, device: members[next + 1] }
            } else {
                ActionModel::AddMembers
            },
        ] + key_package_actions(members, next + 1)
    } else {
        Seq::empty()
    }
}

/// When a group is created, every member after the leader builds a key package, each once
/// and in the order the request names them, before all of them are added in one commit.
pub proof fn lemma_key_packages_in_member_order(s: SessionModel, next: usize, events: Seq<EventModel>)
    requires
        s.stage == (StageModel::OpeningKeyHolder { next }),
        s.op is Init,
        1 <= next < op_members(s.op).len() <= usize::MAX,
        events.len() == 2 * (op_members(s.op).len() - next),
        all_done(events),
    ensures
        session_run(s, events).0.stage == StageModel::AddingInitial,
        session_run(s, events).1 == key_package_actions(op_members(s.op), next as int),
    decreases op_members(s.op).len() - next,
{
    let members = op_members(s.op);
    let first = events.subrange(0, 2);
    let rest = events.subrange(2, events.len() as int);
    assert(events[0] == EventModel::Done);
    assert(events[1] == EventModel::Done);
    let (s1, a1) = session_step(s, EventModel::Done);
    assert(s1.stage == (StageModel::BuildingKeyPackage { next }));
    assert(a1 == ActionModel::BuildKeyPackage);
    let (s2, a2) = session_step(s1, EventModel::Done);
    reveal_with_fuel(session_run, 3);
    assert(first[0] == EventModel::Done);
    assert(first[1] == EventModel::Done);
    assert(first.drop_first() =~= first.subrange(1, 2));
    assert(first.subrange(1, 2).drop_first() =~= Seq::<EventModel>::empty());
    assert(session_run(s, first).0 == s2);
    assert(session_run(s, first).1 =~= seq![a1, a2]);
    assert(events =~= first + rest);
    lemma_run_append(s, first, rest);
    if next + 1 < members.len() {
        assert(s2.stage == (StageModel::OpeningKeyHolder { next: (next + 1) as usize }));
        assert(s2.op == s.op);
        assert forall|i: int| 0 <= i < rest.len() implies #[trigger] rest[i] == EventModel::Done by {
            assert(rest[i] == events[i + 2]);
        }
        lemma_key_packages_in_member_order(s2, (next + 1) as usize, rest);
        assert(key_package_actions(members, next as int) =~= seq![a1, a2] + key_package_actions(members, next + 1));
    } else {
        assert(rest =~= Seq::<EventModel>::empty());
        assert(key_package_actions(members, next + 1) =~= Seq::<ActionModel>::empty());
        assert(key_package_actions(members, next as int) =~= seq![a1, a2]);
        assert(session_run(s, first).1 + session_run(s2, rest).1 =~= seq![a1, a2]);
    }
}

/// The actions handed out while the members after the leader, from position `next` on,
/// join through the welcome: stage it, join, then open the next member's device, or, after
/// the last member, answer with the leader's group.
pub open spec fn join_actions(members: Seq<Seq<char>>, next: int, view: GroupModel) -> Seq<ActionModel>
    decreases members.len() - next,
{
    if 1 <= next < members.len() {
        seq![
            ActionModel::StageWelcome,
            ActionModel::JoinStaged,
            if next + 1 < members.len() {
                ActionModel::OpenDevice { slot: Slot::Secondary, device: members[next + 1] }
            } else {
                ActionModel::Finish(Ok(reply_of(view)))
            },
        ] + join_actions(members, next + 1, view)
    } else {
        Seq::empty()
    }
}

/// When a group is created and its welcome reads as one, every member after the leader
/// joins through it, each once and in the order the request names them, and the request is
/// then answered with the leader's group as it stood after its merge.
pub proof fn lemma_members_join_in_order(
    s: SessionModel,
    next: usize,
    welcome: Seq<u8>,
    view: GroupModel,
    events: Seq<EventModel>,
)
    requires
        s.stage == (StageModel::OpeningJoiner { next, welcome, view }),
        s.op is Init,
        1 <= next < op_members(s.op).len() <= usize::MAX,
        welcome_decoding(welcome) == Ok::<bool, Seq<char>>(true),
        events.len() == 3 * (op_members(s.op).len() - next),
        all_done(events),
    ensures
        session_run(s, events).0.stage == StageModel::Finished,
        session_run(s, events).1 == join_actions(op_members(s.op), next as int, view),
    decreases op_members(s.op).len() - next,
{
    let members = op_members(s.op);
    let first = events.subrange(0, 3);
    let rest = events.subrange(3, events.len() as int);
    assert(events[0] == EventModel::Done);
    assert(events[1] == EventModel::Done);
    assert(events[2] == EventModel::Done);
    let (s1, a1) = session_step(s, EventModel::Done);
    assert(s1.stage == (StageModel::StagingJoiner { next, welcome, view }));
    assert(a1 == ActionModel::StageWelcome);
    let (s2, a2) = session_step(s1, EventModel::Done);
    assert(s2.stage == (StageModel::JoiningJoiner { next, welcome, view }));
    assert(a2 == ActionModel::JoinStaged);
    let (s3, a3) = session_step(s2, EventModel::Done);
    reveal_with_fuel(session_run, 4);
    assert(first[0] == EventModel::Done);
    assert(first[1] == EventModel::Done);
    assert(first[2] == EventModel::Done);
    assert(first.drop_first() =~= first.subrange(1, 3));
    assert(first.subrange(1, 3).drop_first() =~= first.subrange(2, 3));
    assert(first.subrange(2, 3).drop_first() =~= Seq::<EventModel>::empty());
    assert(session_run(s, first).0 == s3);
    assert(session_run(s, first).1 =~= seq![a1, a2, a3]);
    assert(events =~= first + rest);
    lemma_run_append(s, first, rest);
    if next + 1 < members.len() {
        assert(s3.stage == (StageModel::OpeningJoiner { next: (next + 1) as usize, welcome, view }));
        assert(s3.op == s.op);
        assert forall|i: int| 0 <= i < rest.len() implies #[trigger] rest[i] == EventModel::Done by {
            assert(rest[i] == events[i + 3]);
        }
        lemma_members_join_in_order(s3, (next + 1) as usize, welcome, view, rest);
        assert(join_actions(members, next as int, view) =~= seq![a1, a2, a3] + join_actions(members, next + 1, view));
    } else {
        assert(s3.stage == StageModel::Finished);
        assert(rest =~= Seq::<EventModel>::empty());
        assert(join_actions(members, next + 1, view) =~= Seq::<ActionModel>::empty());
        assert(join_actions(members, next as int, view) =~= seq![a1, a2, a3]);
        assert(session_run(s, first).1 + session_run(s3, rest).1 =~= seq![a1, a2, a3]);
    }
}

/// Actions that only open, list or load: opening a device, listing or checking device
/// directories, loading a group, and answering. None of them changes any group.
pub open spec fn only_reads(action: ActionModel) -> bool {
    match action {
        ActionModel::OpenDevice { .. } | ActionModel::ListDevices | ActionModel::CheckEntry { .. }
        | ActionModel::OpenEntry { .. } | ActionModel::LoadGroup { .. } | ActionModel::Finish(_) => true,
        _ => false,
    }
}

/// The stages a group report passes through.
pub open spec fn report_stage(stage: StageModel) -> bool {
    match stage {
        StageModel::OpeningPrimary | StageModel::LoadingPrimary | StageModel::Listing
        | StageModel::CheckingEntry { .. } | StageModel::OpeningEntry { .. } | StageModel::ProbingEntry { .. }
        | StageModel::Finished => true,
        _ => false,
    }
}

/// One step of a group report, whatever the event, stays a group report and asks only to
/// open, list or load.
pub proof fn lemma_report_step_only_reads(s: SessionModel, event: EventModel)
    requires
        s.op is Info,
        report_stage(s.stage),
    ensures
        session_step(s, event).0.op is Info,
        report_stage(session_step(s, event).0.stage),
        only_reads(session_step(s, event).1),
{
}

/// Every action a group report hands out, whatever the events, only opens, lists or loads.
pub proof fn lemma_report_run_only_reads(s: SessionModel, events: Seq<EventModel>)
    requires
        s.op is Info,
        report_stage(s.stage),
    ensures
        forall|i: int| 0 <= i < session_run(s, events).1.len() ==> only_reads(#[trigger] session_run(s, events).1[i]),
    decreases events.len(),
{
    if events.len() > 0 {
        lemma_report_step_only_reads(s, events[0]);
        let (next, action) = session_step(s, events[0]);
        let rest = session_run(next, events.drop_first()).1;
        lemma_report_run_only_reads(next, events.drop_first());
        let all = session_run(s, events).1;
        assert(all =~= seq![action] + rest);
        assert forall|i: int| 0 <= i < all.len() implies only_reads(#[trigger] all[i]) by {
            if i > 0 {
                assert(all[i] == rest[i - 1]);
            }
        }
    }
}

/// A request to report a group never asks for anything that changes a group: from its first
/// action on, whatever the caller reports, it only opens devices, lists and checks device
/// directories, loads the group, and answers.
pub proof fn lemma_group_info_only_reads(group_id: Seq<char>, device: Option<Seq<char>>, events: Seq<EventModel>)
    ensures
        only_reads(session_start(RequestModel::GroupInfo { group_id, device }).1),
        forall|i: int|
            0 <= i < session_run(session_start(RequestModel::GroupInfo { group_id, device }).0, events).1.len()
                ==> only_reads(
                #[trigger] session_run(session_start(RequestModel::GroupInfo { group_id, device }).0, events).1[i],
            ),
{
    lemma_report_run_only_reads(session_start(RequestModel::GroupInfo { group_id, device }).0, events);
}

/// The first member whose credential identity is exactly `identity` is the one found, and
/// no member is found when none has exactly that identity.
pub proof fn lemma_first_member_index_is_first_exact_match(members: Seq<MemberModel>, identity: Seq<u8>)
    ensures
        (forall|k: int| 0 <= k < members.len() ==> #[trigger] members[k].identity != identity)
            ==> first_member_index(members, identity) is None,
        forall|k: int|
            0 <= k < members.len() && #[trigger] members[k].identity == identity
                && (forall|j: int| 0 <= j < k ==> members[j].identity != identity)
                ==> first_member_index(members, identity) == Some(members[k].index),
    decreases members.len(),
{
    if members.len() > 0 {
        let rest = members.drop_first();
        lemma_first_member_index_is_first_exact_match(rest, identity);
        if members[0].identity != identity {
            assert forall|k: int| 0 <= k < members.len() && #[trigger] members[k].identity == identity
                && (forall|j: int| 0 <= j < k ==> members[j].identity != identity)
                implies first_member_index(members, identity) == Some(members[k].index) by {
                assert(k > 0);
                assert(rest[k - 1] == members[k]);
                assert forall|j: int| 0 <= j < k - 1 implies rest[j].identity != identity by {
                    assert(rest[j] == members[j + 1]);
                }
            }
            if forall|k: int| 0 <= k < members.len() ==> #[trigger] members[k].identity != identity {
                assert forall|k: int| 0 <= k < rest.len() implies #[trigger] rest[k].identity != identity by {
                    assert(rest[k] == members[k + 1]);
                }
            }
        }
    }
}

/// Removing a member removes the first member, in the group's order, whose credential
/// identity is exactly the target's UTF-8 bytes; when no member has exactly that identity
/// the request is refused with "member not found".
pub proof fn lemma_remove_takes_exact_identity(s: SessionModel, view: GroupModel)
    requires
        s.stage == StageModel::LoadingPrimary,
        s.op matches OpModel::Remove { target } && target != s.primary,
    ensures
        ({
            let wanted = encode_utf8(s.op->target);
            let step = session_step(s, EventModel::Group(Some(view)));
            &&& (forall|k: int| 0 <= k < view.members.len() ==> #[trigger] view.members[k].identity != wanted)
                ==> step.1 == ActionModel::Finish(Err("member not found"@))
            &&& forall|k: int|
                0 <= k < view.members.len() && #[trigger] view.members[k].identity == wanted
                    && (forall|j: int| 0 <= j < k ==> view.members[j].identity != wanted)
                    ==> step.1 == (ActionModel::RemoveMember { index: view.members[k].index })
        }),
{
    lemma_first_member_index_is_first_exact_match(view.members, encode_utf8(s.op->target));
}

/// An addition goes ahead, by opening the new device in the secondary slot, exactly when no
/// member's identifier is the new device's; when one is, it is refused with "member already
/// exists".
pub proof fn lemma_add_refused_only_for_a_member(s: SessionModel, view: GroupModel)
    requires
        s.stage == StageModel::LoadingPrimary,
        s.op is Add,
    ensures
        ({
            let newcomer = s.op->newcomer;
            let step = session_step(s, EventModel::Group(Some(view)));
            &&& (forall|k: int| 0 <= k < view.members.len() ==> #[trigger] lossy_text(view.members[k].identity) != newcomer)
                ==> step.1 == (ActionModel::OpenDevice { slot: Slot::Secondary, device: newcomer })
            &&& (exists|k: int| 0 <= k < view.members.len() && #[trigger] lossy_text(view.members[k].identity) == newcomer)
                ==> step.1 == ActionModel::Finish(Err("member already exists"@))
        }),
{
    let newcomer = s.op->newcomer;
    let ids = ids_of(view);
    if forall|k: int| 0 <= k < view.members.len() ==> #[trigger] lossy_text(view.members[k].identity) != newcomer {
        if ids.contains(newcomer) {
            let k = choose|k: int| 0 <= k < ids.len() && ids[k] == newcomer;
            assert(ids[k] == lossy_text(view.members[k].identity));
        }
    }
    if exists|k: int| 0 <= k < view.members.len() && #[trigger] lossy_text(view.members[k].identity) == newcomer {
        let k = choose|k: int| 0 <= k < view.members.len() && #[trigger] lossy_text(view.members[k].identity) == newcomer;
        assert(ids[k] == newcomer);
    }
}

/// Whether `event` reports the success of `action`, in the shape such an action is answered
/// with: a plain success, the group loaded, the commit made, the message processed or
/// created, the directories listed or checked.
pub open spec fn answers(action: ActionModel, event: EventModel) -> bool {
    match (action, event) {
        (ActionModel::OpenDevice { .. }, EventModel::Done) => true,
        (ActionModel::ListDevices, EventModel::Listed(_)) => true,
        (ActionModel::CheckEntry { .. }, EventModel::Present(_)) => true,
        (ActionModel::OpenEntry { .. }, EventModel::Done) => true,
        (ActionModel::LoadGroup { .. }, EventModel::Group(_)) => true,
        (ActionModel::CreateGroup { .. }, EventModel::Group(Some(_))) => true,
        (ActionModel::BuildKeyPackage, EventModel::Done) => true,
        (ActionModel::AddMembers, EventModel::Added { .. }) => true,
        (ActionModel::RemoveMember { .. }, EventModel::Removed { .. }) => true,
        (ActionModel::MergePending, EventModel::Group(Some(_))) => true,
        (ActionModel::StageWelcome, EventModel::Done) => true,
        (ActionModel::JoinStaged, EventModel::Done) => true,
        (ActionModel::ProcessMessage { .. }, EventModel::Processed { .. }) => true,
        (ActionModel::MergeStaged, EventModel::Done) => true,
        (ActionModel::CreateMessage { .. }, EventModel::Created { .. }) => true,
        _ => false,
    }
}

/// Events whose payload, if any, is small enough for its base64 text to be built.
pub open spec fn within_limits(event: EventModel) -> bool {
    match event {
        EventModel::Created { wire: Ok(bytes), .. } => bytes.len() <= usize::MAX / 4,
        EventModel::Processed { content: ContentModel::Application(bytes), .. } => bytes.len() <= usize::MAX / 4,
        _ => true,
    }
}

/// A request's first action can be answered: the new session accepts a failure, and every
/// success event of the action's shape, whatever its payload up to the machine limit.
pub proof fn lemma_first_answer_is_accepted(request: RequestModel, event: EventModel)
    requires
        !(session_start(request).1 is Finish),
        answers(session_start(request).1, event) || event is Failed,
        within_limits(event),
    ensures
        session_accepts(session_start(request).0, event),
{
}

/// Whatever action a session hands out next can be answered: after any step it takes, it
/// accepts a failure, and every success event of that action's shape, whatever its payload
/// up to the machine limit (a message of any length that fits is accepted).
#[verifier::rlimit(50)]
pub proof fn lemma_every_answer_is_accepted(s: SessionModel, event: EventModel, reply: EventModel)
    requires
        session_accepts(s, event),
        !(session_step(s, event).1 is Finish),
        answers(session_step(s, event).1, reply) || reply is Failed,
        within_limits(reply),
    ensures
        session_accepts(session_step(s, event).0, reply),
{
}

/// A step keeps the request a session serves.
pub proof fn lemma_run_keeps_request(s: SessionModel, events: Seq<EventModel>)
    ensures
        session_run(s, events).0.op == s.op,
        session_run(s, events).0.group_id == s.group_id,
    decreases events.len(),
{
    if events.len() > 0 {
        let next = session_step(s, events[0]).0;
        lemma_run_keeps_request(next, events.drop_first());
    }
}

proof fn lemma_join_actions_end(members: Seq<Seq<char>>, next: int, view: GroupModel)
    requires
        1 <= next < members.len(),
    ensures
        join_actions(members, next, view).len() == 3 * (members.len() - next),
        join_actions(members, next, view).last() == ActionModel::Finish(Ok(reply_of(view))),
    decreases members.len() - next,
{
    if next + 1 < members.len() {
        lemma_join_actions_end(members, next + 1, view);
    } else {
        assert(join_actions(members, next + 1, view) =~= Seq::<ActionModel>::empty());
    }
}

/// Creating a new group with any number `n > 1` of members, when every step succeeds and the
/// welcome reads as one: each member after the leader is opened and builds a key package, in
/// the request's order, all of them are added in one commit that the leader merges, each of
/// them then joins through the welcome, in the same order, and the answer is the leader's
/// group after the merge.
pub proof fn lemma_init_brings_in_every_member(
    s: SessionModel,
    created: GroupModel,
    keys: Seq<EventModel>,
    commit: Result<Seq<u8>, Seq<char>>,
    welcome: Seq<u8>,
    merged: GroupModel,
    joins: Seq<EventModel>,
)
    requires
        s.stage == StageModel::CreatingGroup,
        s.op is Init,
        1 < op_members(s.op).len() <= usize::MAX,
        keys.len() == 2 * (op_members(s.op).len() - 1),
        all_done(keys),
        welcome_decoding(welcome) == Ok::<bool, Seq<char>>(true),
        joins.len() == 3 * (op_members(s.op).len() - 1),
        all_done(joins),
    ensures
        ({
            let members = op_members(s.op);
            let mid = seq![EventModel::Added { commit, welcome: Ok(welcome) }, EventModel::Group(Some(merged))];
            let events = seq![EventModel::Group(Some(created))] + (keys + (mid + joins));
            let actions = session_run(s, events).1;
            &&& session_run(s, events).0.stage == StageModel::Finished
            &&& actions == seq![ActionModel::OpenDevice { slot: Slot::Secondary, device: members[1] }]
                + (key_package_actions(members, 1) + (seq![
                    ActionModel::MergePending,
                    ActionModel::OpenDevice { slot: Slot::Secondary, device: members[1] },
                ] + join_actions(members, 1, merged)))
            &&& actions.last() == ActionModel::Finish(Ok(reply_of(merged)))
        }),
{
    let members = op_members(s.op);
    let pre = seq![EventModel::Group(Some(created))];
    let mid = seq![EventModel::Added { commit, welcome: Ok(welcome) }, EventModel::Group(Some(merged))];
    reveal_with_fuel(session_run, 3);
    assert(pre.drop_first() =~= Seq::<EventModel>::empty());
    assert(mid.drop_first() =~= seq![EventModel::Group(Some(merged))]);
    assert(mid.drop_first().drop_first() =~= Seq::<EventModel>::empty());

    let (s1, a1) = session_step(s, EventModel::Group(Some(created)));
    assert(s1.stage == (StageModel::OpeningKeyHolder { next: 1 }));
    assert(s1.op == s.op);
    assert(session_run(s, pre).0 == s1);
    assert(session_run(s, pre).1 =~= seq![a1]);

    lemma_key_packages_in_member_order(s1, 1, keys);
    lemma_run_keeps_request(s1, keys);
    let s2 = session_run(s1, keys).0;

    let (s3, a3) = session_step(s2, EventModel::Added { commit, welcome: Ok(welcome) });
    assert(s3.stage == (StageModel::MergingInitial { welcome: Ok(welcome) }));
    let (s4, a4) = session_step(s3, EventModel::Group(Some(merged)));
    assert(s4.stage == (StageModel::OpeningJoiner { next: 1, welcome, view: merged }));
    assert(s4.op == s.op);
    assert(session_run(s2, mid).0 == s4);
    assert(session_run(s2, mid).1 =~= seq![a3, a4]);

    lemma_members_join_in_order(s4, 1, welcome, merged, joins);
    lemma_join_actions_end(members, 1, merged);

    lemma_run_append(s2, mid, joins);
    lemma_run_append(s1, keys, mid + joins);
    lemma_run_append(s, pre, keys + (mid + joins));
    let actions = session_run(s, pre + (keys + (mid + joins))).1;
    let tail = key_package_actions(members, 1) + (seq![a3, a4] + join_actions(members, 1, merged));
    assert(actions =~= seq![a1] + tail);
    assert(actions.last() == join_actions(members, 1, merged).last());
}

} // verus!
