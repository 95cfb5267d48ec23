//! Whole runs of the synchronisation flow, and what holds of every one.

use crate::client::{is_service_error, outcome_of, SyncOutcomeView, SyncReplyView};
use crate::reconcile::reconciled;
use crate::sync::{
    transition, Delivery, Ending, Notice, OperatorNoteView, SyncActionView, SyncEventView,
    SyncRequest, SyncStateView,
};
use vstd::prelude::*;

verus! {

/// How far a run has come.
pub open spec fn progress(state: SyncStateView) -> nat {
    match state {
        SyncStateView::Idle => 0,
        SyncStateView::Acknowledged { .. } => 1,
        SyncStateView::Fetching { .. } => 2,
        SyncStateView::Reconciling { .. } => 3,
        SyncStateView::Applying => 4,
        SyncStateView::Completed { follow_up, .. } => if follow_up == Delivery::Pending {
            5
        } else {
            6
        },
    }
}

/// The place of an action in the order of a run.
pub open spec fn milestone(action: SyncActionView) -> nat {
    match action {
        SyncActionView::Nothing => 0,
        SyncActionView::Acknowledge { .. } => 1,
        SyncActionView::Fetch { .. } => 2,
        SyncActionView::ResolveMember { .. } => 3,
        SyncActionView::GrantRoles { .. } => 4,
        SyncActionView::FollowUp { .. } => 5,
        SyncActionView::Finish { .. } => 6,
    }
}

/// A step either changes nothing and asks for nothing, or asks for
/// something that lies ahead of the state it left and not ahead of the
/// state it reached. So no step goes back, and none asks twice.
pub proof fn lemma_step_advances(state: SyncStateView, event: SyncEventView)
    ensures
        transition(state, event).1 is Nothing ==> transition(state, event).0 == state,
        !(transition(state, event).1 is Nothing) ==> progress(state) < milestone(
            transition(state, event).1,
        ) <= progress(transition(state, event).0),
{
}

/// The state that a run reaches from `state` on `events`, and the actions
/// that it asks for on the way, one for each event.
pub open spec fn run(state: SyncStateView, events: Seq<SyncEventView>) -> (
    SyncStateView,
    Seq<SyncActionView>,
)
    decreases events.len(),
{
    if events.len() == 0 {
        (state, Seq::empty())
    } else {
        let (reached, asked) = run(state, events.drop_last());
        let (next, action) = transition(reached, events.last());
        (next, asked.push(action))
    }
}

/// The actions of a run come in the order of the flow, each kind at most
/// once: the acknowledgment before the fetch, the fetch before the member is
/// resolved, that before the grant, the grant before the follow-up, and the
/// report last.
pub proof fn lemma_run_in_order(state: SyncStateView, events: Seq<SyncEventView>)
    ensures
        run(state, events).1.len() == events.len(),
        progress(state) <= progress(run(state, events).0),
        forall|i: int|
            0 <= i < events.len() && !(#[trigger] run(state, events).1[i] is Nothing) ==> progress(
                state,
            ) < milestone(run(state, events).1[i]) <= progress(run(state, events).0),
        forall|i: int, j: int|
            0 <= i < j < events.len() && !(#[trigger] run(state, events).1[i] is Nothing) && !(
            #[trigger] run(state, events).1[j] is Nothing) ==> milestone(run(state, events).1[i])
                < milestone(run(state, events).1[j]),
    decreases events.len(),
{
    if events.len() > 0 {
        let (reached, asked) = run(state, events.drop_last());
        lemma_run_in_order(state, events.drop_last());
        lemma_step_advances(reached, events.last());
    }
}

/// In a run from `Idle`, whatever is asked for comes after the
/// acknowledgment was asked for.
pub proof fn lemma_acknowledged_first(events: Seq<SyncEventView>)
    ensures
        !(run(SyncStateView::Idle, events).0 is Idle) ==> exists|j: int|
            0 <= j < events.len() && #[trigger] run(SyncStateView::Idle, events).1[j] is Acknowledge,
        forall|i: int|
            0 <= i < events.len() && !(#[trigger] run(SyncStateView::Idle, events).1[i] is Nothing)
                && !(run(SyncStateView::Idle, events).1[i] is Acknowledge) ==> exists|j: int|
                0 <= j < i && #[trigger] run(SyncStateView::Idle, events).1[j] is Acknowledge,
    decreases events.len(),
{
    if events.len() > 0 {
        let idle = SyncStateView::Idle;
        let (reached, asked) = run(idle, events.drop_last());
        let (end, all) = run(idle, events);
        lemma_acknowledged_first(events.drop_last());
        lemma_run_in_order(idle, events.drop_last());
        let n = events.len() - 1;
        if reached is Idle {
            assert(end is Idle || all[n] is Acknowledge);
        } else {
            let j = choose|j: int| 0 <= j < n && #[trigger] asked[j] is Acknowledge;
            assert(all[j] is Acknowledge);
        }
        assert forall|i: int|
            0 <= i < events.len() && !(#[trigger] all[i] is Nothing) && !(all[i] is Acknowledge)
            implies exists|j: int| 0 <= j < i && #[trigger] all[j] is Acknowledge by {
            let j = if i < n {
                assert(asked[i] == all[i]);
                choose|j: int| 0 <= j < i && #[trigger] asked[j] is Acknowledge
            } else {
                assert(!(reached is Idle));
                choose|j: int| 0 <= j < n && #[trigger] asked[j] is Acknowledge
            };
            assert(all[j] is Acknowledge);
        }
    }
}

/// Whether one of the first `before` events is an answer of the identity
/// service that asserts roles of which `roles` are the reconciled ones.
pub open spec fn vouched(events: Seq<SyncEventView>, before: int, roles: Seq<u64>) -> bool {
    exists|j: int|
        0 <= j < before && j < events.len() && (#[trigger] events[j] matches SyncEventView::Fetched {
            reply,
            known,
        } && outcome_of(reply) matches Ok(SyncOutcomeView::Success { role_ids }) && roles
            == reconciled(role_ids, known))
}

/// In a run from `Idle`, roles are granted only on the word of the identity
/// service: a grant names the reconciled roles of an answer that came
/// before it and that reported success.
pub proof fn lemma_grant_is_vouched(events: Seq<SyncEventView>)
    ensures
        run(SyncStateView::Idle, events).0 matches SyncStateView::Reconciling { roles, .. }
            ==> vouched(events, events.len() as int, roles),
        forall|i: int|
            0 <= i < events.len() ==> (#[trigger] run(SyncStateView::Idle, events).1[i]
                matches SyncActionView::GrantRoles { roles, .. } ==> vouched(events, i, roles)),
    decreases events.len(),
{
    if events.len() > 0 {
        let idle = SyncStateView::Idle;
        let front = events.drop_last();
        let (reached, asked) = run(idle, front);
        let (end, all) = run(idle, events);
        lemma_grant_is_vouched(front);
        lemma_run_in_order(idle, front);
        let n = events.len() - 1;
        assert forall|before: int, roles: Seq<u64>| vouched(front, before, roles) implies vouched(
            events,
            before,
            roles,
        ) by {
            let j = choose|j: int|
                0 <= j < before && j < front.len() && (#[trigger] front[j] matches SyncEventView::Fetched {
                    reply,
                    known,
                } && outcome_of(reply) matches Ok(SyncOutcomeView::Success { role_ids }) && roles
                    == reconciled(role_ids, known));
            assert(events[j] == front[j]);
        }
        if let SyncStateView::Reconciling { roles, .. } = end {
            if reached is Reconciling {
                assert(vouched(front, n, roles));
            } else {
                assert(events[n] is Fetched);
            }
            assert(vouched(events, events.len() as int, roles));
        }
        assert forall|i: int| 0 <= i < events.len() implies (#[trigger] all[i]
            matches SyncActionView::GrantRoles { roles, .. } ==> vouched(events, i, roles)) by {
            if i < n {
                assert(all[i] == asked[i]);
            } else if let SyncActionView::GrantRoles { roles, .. } = all[i] {
                assert(reached is Reconciling);
                assert(vouched(front, n, roles));
            }
        }
    }
}

/// The roles that a member holds once the platform has done what `asked`
/// asks of it, having held `held` before. A grant adds its roles; nothing
/// else touches the member.
pub open spec fn roles_after(held: Set<u64>, asked: Seq<SyncActionView>) -> Set<u64>
    decreases asked.len(),
{
    if asked.len() == 0 {
        held
    } else {
        let before = roles_after(held, asked.drop_last());
        match asked.last() {
            SyncActionView::GrantRoles { roles, .. } => before.union(roles.to_set()),
            _ => before,
        }
    }
}

/// All the roles that `asked` grants.
pub open spec fn granted(asked: Seq<SyncActionView>) -> Set<u64>
    decreases asked.len(),
{
    if asked.len() == 0 {
        Set::empty()
    } else {
        match asked.last() {
            SyncActionView::GrantRoles { roles, .. } => granted(asked.drop_last()).union(
                roles.to_set(),
            ),
            _ => granted(asked.drop_last()),
        }
    }
}

/// A member ends up with the roles held before and the roles granted, and
/// with no others.
pub proof fn lemma_roles_after_adds(held: Set<u64>, asked: Seq<SyncActionView>)
    ensures
        roles_after(held, asked) == held.union(granted(asked)),
    decreases asked.len(),
{
    if asked.len() > 0 {
        lemma_roles_after_adds(held, asked.drop_last());
    }
    assert(roles_after(held, asked) =~= held.union(granted(asked)));
}

/// What a run asks for never costs a member a role, and asking for it a
/// second time changes nothing.
pub proof fn lemma_roles_after(held: Set<u64>, asked: Seq<SyncActionView>)
    ensures
        held.subset_of(roles_after(held, asked)),
        roles_after(roles_after(held, asked), asked) == roles_after(held, asked),
{
    let once = roles_after(held, asked);
    lemma_roles_after_adds(held, asked);
    lemma_roles_after_adds(once, asked);
    assert(once.union(granted(asked)) =~= once);
}

/// Syncing twice is syncing once. A second run on the events of the first
/// asks for what the first asked for, so it grants the same roles; a member
/// who went through both holds what the first alone would have left, and
/// has lost nothing held before.
pub proof fn lemma_second_sync_changes_nothing(
    first: Seq<SyncEventView>,
    second: Seq<SyncEventView>,
    held: Set<u64>,
)
    requires
        second == first,
    ensures
        run(SyncStateView::Idle, second).1 == run(SyncStateView::Idle, first).1,
        granted(run(SyncStateView::Idle, second).1) == granted(run(SyncStateView::Idle, first).1),
        held.subset_of(roles_after(held, run(SyncStateView::Idle, first).1)),
        roles_after(
            roles_after(held, run(SyncStateView::Idle, first).1),
            run(SyncStateView::Idle, second).1,
        ) == roles_after(held, run(SyncStateView::Idle, first).1),
{
    lemma_roles_after(held, run(SyncStateView::Idle, first).1);
}

/// A run that goes on by one event goes on by one step.
proof fn lemma_run_push(state: SyncStateView, events: Seq<SyncEventView>, event: SyncEventView)
    ensures
        run(state, events.push(event)) == (
            transition(run(state, events).0, event).0,
            run(state, events).1.push(transition(run(state, events).0, event).1),
        ),
{
    assert(events.push(event).drop_last() =~= events);
}

/// The run in which the identity service asserts roles and nothing fails:
/// the member is acknowledged, the roles are fetched, reconciled and
/// granted, and the member is told so.
pub proof fn lemma_flow_grants(user_id: u64, guild_id: u64, reply: SyncReplyView, known: Set<u64>)
    requires
        outcome_of(reply) is Ok,
        outcome_of(reply)->Ok_0 is Success,
    ensures
        run(
            SyncStateView::Idle,
            seq![
                SyncEventView::Triggered { request: SyncRequest { user_id, guild_id: Some(guild_id) } },
                SyncEventView::AckDelivered,
                SyncEventView::Fetched { reply, known },
                SyncEventView::MemberResolved,
                SyncEventView::RolesGranted,
                SyncEventView::FollowUpDelivered,
            ],
        ) == (
            SyncStateView::Completed { ending: Ending::UpToDate, follow_up: Delivery::Delivered },
            seq![
                SyncActionView::Acknowledge { notice: Notice::Fetching },
                SyncActionView::Fetch { user_id, guild_id },
                SyncActionView::ResolveMember { guild_id, user_id },
                SyncActionView::GrantRoles {
                    guild_id,
                    user_id,
                    roles: reconciled(outcome_of(reply)->Ok_0->role_ids, known),
                },
                SyncActionView::FollowUp { notice: Notice::UpToDate, note: OperatorNoteView::Quiet },
                SyncActionView::Finish { report: Ok(()) },
            ],
        ),
{
    let idle = SyncStateView::Idle;
    let e0 = SyncEventView::Triggered { request: SyncRequest { user_id, guild_id: Some(guild_id) } };
    let e1 = SyncEventView::AckDelivered;
    let e2 = SyncEventView::Fetched { reply, known };
    let e3 = SyncEventView::MemberResolved;
    let e4 = SyncEventView::RolesGranted;
    let e5 = SyncEventView::FollowUpDelivered;
    let none = Seq::<SyncEventView>::empty();
    lemma_run_push(idle, none, e0);
    lemma_run_push(idle, none.push(e0), e1);
    lemma_run_push(idle, none.push(e0).push(e1), e2);
    lemma_run_push(idle, none.push(e0).push(e1).push(e2), e3);
    lemma_run_push(idle, none.push(e0).push(e1).push(e2).push(e3), e4);
    lemma_run_push(idle, none.push(e0).push(e1).push(e2).push(e3).push(e4), e5);
    assert(seq![e0, e1, e2, e3, e4, e5] =~= none.push(e0).push(e1).push(e2).push(e3).push(e4).push(e5));
    let asked = run(idle, seq![e0, e1, e2, e3, e4, e5]).1;
    assert(asked =~= seq![
        SyncActionView::Acknowledge { notice: Notice::Fetching },
        SyncActionView::Fetch { user_id, guild_id },
        SyncActionView::ResolveMember { guild_id, user_id },
        SyncActionView::GrantRoles {
            guild_id,
            user_id,
            roles: reconciled(outcome_of(reply)->Ok_0->role_ids, known),
        },
        SyncActionView::FollowUp { notice: Notice::UpToDate, note: OperatorNoteView::Quiet },
        SyncActionView::Finish { report: Ok(()) },
    ]);
}

/// The run in which the identity service fails inside: the member is told
/// to try later, the status goes to the log, and no role is granted.
pub proof fn lemma_flow_service_error(
    user_id: u64,
    guild_id: u64,
    reply: SyncReplyView,
    known: Set<u64>,
)
    requires
        is_service_error(reply.status),
    ensures
        run(
            SyncStateView::Idle,
            seq![
                SyncEventView::Triggered { request: SyncRequest { user_id, guild_id: Some(guild_id) } },
                SyncEventView::AckDelivered,
                SyncEventView::Fetched { reply, known },
                SyncEventView::FollowUpDelivered,
            ],
        ) == (
            SyncStateView::Completed { ending: Ending::ServiceError, follow_up: Delivery::Delivered },
            seq![
                SyncActionView::Acknowledge { notice: Notice::Fetching },
                SyncActionView::Fetch { user_id, guild_id },
                SyncActionView::FollowUp {
                    notice: Notice::TryLater,
                    note: OperatorNoteView::ServiceFailed { status: reply.status },
                },
                SyncActionView::Finish { report: Ok(()) },
            ],
        ),
{
    let idle = SyncStateView::Idle;
    let e0 = SyncEventView::Triggered { request: SyncRequest { user_id, guild_id: Some(guild_id) } };
    let e1 = SyncEventView::AckDelivered;
    let e2 = SyncEventView::Fetched { reply, known };
    let e3 = SyncEventView::FollowUpDelivered;
    let none = Seq::<SyncEventView>::empty();
    lemma_run_push(idle, none, e0);
    lemma_run_push(idle, none.push(e0), e1);
    lemma_run_push(idle, none.push(e0).push(e1), e2);
    lemma_run_push(idle, none.push(e0).push(e1).push(e2), e3);
    assert(seq![e0, e1, e2, e3] =~= none.push(e0).push(e1).push(e2).push(e3));
    let asked = run(idle, seq![e0, e1, e2, e3]).1;
    assert(asked =~= seq![
        SyncActionView::Acknowledge { notice: Notice::Fetching },
        SyncActionView::Fetch { user_id, guild_id },
        SyncActionView::FollowUp {
            notice: Notice::TryLater,
            note: OperatorNoteView::ServiceFailed { status: reply.status },
        },
        SyncActionView::Finish { report: Ok(()) },
    ]);
}

/// The run in which the identity service refuses, or answers success with
/// a body that holds no roles: the member is sent to the admins in words
/// that do not depend on the reason, the reason goes to the log, and no
/// role is granted.
pub proof fn lemma_flow_refusal(user_id: u64, guild_id: u64, reply: SyncReplyView, known: Set<u64>)
    requires
        outcome_of(reply) is Ok,
        outcome_of(reply)->Ok_0 is OtherError,
    ensures
        run(
            SyncStateView::Idle,
            seq![
                SyncEventView::Triggered { request: SyncRequest { user_id, guild_id: Some(guild_id) } },
                SyncEventView::AckDelivered,
                SyncEventView::Fetched { reply, known },
                SyncEventView::FollowUpDelivered,
            ],
        ) == (
            SyncStateView::Completed { ending: Ending::OtherError, follow_up: Delivery::Delivered },
            seq![
                SyncActionView::Acknowledge { notice: Notice::Fetching },
                SyncActionView::Fetch { user_id, guild_id },
                SyncActionView::FollowUp {
                    notice: Notice::ContactAdmins,
                    note: OperatorNoteView::Refused {
                        status: reply.status,
                        message: outcome_of(reply)->Ok_0->message,
                    },
                },
                SyncActionView::Finish { report: Ok(()) },
            ],
        ),
{
    let idle = SyncStateView::Idle;
    let e0 = SyncEventView::Triggered { request: SyncRequest { user_id, guild_id: Some(guild_id) } };
    let e1 = SyncEventView::AckDelivered;
    let e2 = SyncEventView::Fetched { reply, known };
    let e3 = SyncEventView::FollowUpDelivered;
    let none = Seq::<SyncEventView>::empty();
    lemma_run_push(idle, none, e0);
    lemma_run_push(idle, none.push(e0), e1);
    lemma_run_push(idle, none.push(e0).push(e1), e2);
    lemma_run_push(idle, none.push(e0).push(e1).push(e2), e3);
    assert(seq![e0, e1, e2, e3] =~= none.push(e0).push(e1).push(e2).push(e3));
    let asked = run(idle, seq![e0, e1, e2, e3]).1;
    assert(asked =~= seq![
        SyncActionView::Acknowledge { notice: Notice::Fetching },
        SyncActionView::Fetch { user_id, guild_id },
        SyncActionView::FollowUp {
            notice: Notice::ContactAdmins,
            note: OperatorNoteView::Refused {
                status: reply.status,
                message: outcome_of(reply)->Ok_0->message,
            },
        },
        SyncActionView::Finish { report: Ok(()) },
    ]);
}

} // verus!
