//! The synchronisation flow, as a state machine.
//!
//! A run begins when a member asks for a sync and ends when the caller has
//! been told how it went. The machine decides; it performs nothing. Each
//! [`SyncState::step`] takes what happened last and names what to do next.
//! The caller does that, over the network or on the platform, and comes back
//! with the result.
//!
//! ```text
//! Idle -> Acknowledged -> Fetching -> Reconciling -> Applying -> Completed
//! ```
//!
//! Any state but `Idle` may also leave for `Completed` directly, with a
//! failure. Nothing is tried twice.

use crate::client::{interpret_reply, outcome_of, SyncOutcome, SyncOutcomeView, SyncReply, SyncReplyView};
use crate::reconcile::{catalog_ids, reconcile_roles, reconciled, ReconciledRoleSet, RoleCatalogEntry};
use vstd::prelude::*;

verus! {

/// Who asked for a sync, and where.
#[derive(Clone, Copy, Debug, PartialEq, Eq, Structural)]
pub struct SyncRequest {
    /// The member who pressed the button.
    pub user_id: u64,
    /// The guild in which it was pressed, if it was pressed in one.
    pub guild_id: Option<u64>,
}

/// A message to the member. Each is shown to that member alone.
#[derive(Clone, Copy, Debug, PartialEq, Eq, Structural)]
pub enum Notice {
    /// The immediate acknowledgment.
    Fetching,
    /// The roles were granted.
    UpToDate,
    /// The identity service failed inside.
    TryLater,
    /// Anything else went wrong.
    ContactAdmins,
}

/// The words of a notice.
pub open spec fn notice_text(notice: Notice) -> Seq<char> {
    match notice {
        Notice::Fetching => "Fetching up-to-date roles..."@,
        Notice::UpToDate => "Fetched roles. You are now up to date."@,
        Notice::TryLater => "Something went wrong... Try again later!"@,
        Notice::ContactAdmins => "An error has occurred, contact server admins for help."@,
    }
}

impl Notice {
    /// Whether this notice is to be sent ephemeral, for the eyes of the
    /// member alone. Every notice is.
    pub fn is_ephemeral(self) -> (ephemeral: bool)
        ensures
            ephemeral,
    {
        true
    }

    /// The words of this notice.
    pub fn text(self) -> (text: &'static str)
        ensures
            text@ == notice_text(self),
    {
        match self {
            Notice::Fetching => "Fetching up-to-date roles...",
            Notice::UpToDate => "Fetched roles. You are now up to date.",
            Notice::TryLater => "Something went wrong... Try again later!",
            Notice::ContactAdmins => "An error has occurred, contact server admins for help.",
        }
    }
}

/// Why a run is reported to the caller as failed.
#[derive(Clone, Copy, Debug, PartialEq, Eq, Structural)]
pub enum SyncFault {
    /// The acknowledgment could not be delivered.
    AckFailed,
    /// The button was pressed outside any guild.
    MissingGuild,
    /// The identity service or the guild's catalog could not be reached.
    FetchFailed,
    /// The identity service refused and its reason could not be read.
    UnreadableRejection,
    /// The member's record could not be resolved.
    MemberUnavailable,
    /// The platform refused to grant the roles.
    GrantFailed,
    /// The follow-up could not be delivered.
    FollowUpFailed,
}

/// What to put in the operator's log beside a follow-up. None of it is shown
/// to the member.
#[derive(Debug, PartialEq, Eq)]
pub enum OperatorNote {
    Quiet,
    ServiceFailed { status: u16 },
    Refused { status: u16, message: String },
}

/// What an [`OperatorNote`] holds.
pub enum OperatorNoteView {
    Quiet,
    ServiceFailed { status: u16 },
    Refused { status: u16, message: Seq<char> },
}

impl View for OperatorNote {
    type V = OperatorNoteView;

    open spec fn view(&self) -> OperatorNoteView {
        match self {
            OperatorNote::Quiet => OperatorNoteView::Quiet,
            OperatorNote::ServiceFailed { status } => OperatorNoteView::ServiceFailed {
                status: *status,
            },
            OperatorNote::Refused { status, message } => OperatorNoteView::Refused {
                status: *status,
                message: message@,
            },
        }
    }
}

/// How a run ended.
#[derive(Clone, Copy, Debug, PartialEq, Eq, Structural)]
pub enum Ending {
    /// The roles were granted.
    UpToDate,
    /// The identity service failed inside; the member was told to try later.
    ServiceError,
    /// The identity service refused; the member was sent to the admins.
    OtherError,
    /// The run was cut short.
    Fatal(SyncFault),
}

/// What became of the follow-up.
#[derive(Clone, Copy, Debug, PartialEq, Eq, Structural)]
pub enum Delivery {
    /// None was attempted.
    Skipped,
    /// It has been handed over and its fate is not known yet.
    Pending,
    Delivered,
    Failed,
}

/// What the caller is told of a run that ended with `ending` and whose
/// follow-up fared as `follow_up`.
///
/// A run that was cut short reports why. Any other run reports success,
/// unless its follow-up was lost: the member then was not told, though a
/// grant that was made stays made.
pub open spec fn report_of(ending: Ending, follow_up: Delivery) -> Result<(), SyncFault> {
    match ending {
        Ending::Fatal(fault) => Err(fault),
        _ => if follow_up == Delivery::Failed {
            Err(SyncFault::FollowUpFailed)
        } else {
            Ok(())
        },
    }
}

/// Where a run stands.
#[derive(Debug, PartialEq, Eq)]
pub enum SyncState {
    /// Nothing has been asked for.
    Idle,
    /// The acknowledgment is on its way.
    Acknowledged { request: SyncRequest },
    /// The identity service and the guild's catalog are being asked.
    Fetching { user_id: u64, guild_id: u64 },
    /// The roles to grant are known; the member's record is being resolved.
    Reconciling { user_id: u64, guild_id: u64, roles: ReconciledRoleSet },
    /// The platform is granting the roles.
    Applying,
    /// The run is over.
    Completed { ending: Ending, follow_up: Delivery },
}

/// What a [`SyncState`] holds.
pub enum SyncStateView {
    Idle,
    Acknowledged { request: SyncRequest },
    Fetching { user_id: u64, guild_id: u64 },
    Reconciling { user_id: u64, guild_id: u64, roles: Seq<u64> },
    Applying,
    Completed { ending: Ending, follow_up: Delivery },
}

impl View for SyncState {
    type V = SyncStateView;

    open spec fn view(&self) -> SyncStateView {
        match self {
            SyncState::Idle => SyncStateView::Idle,
            SyncState::Acknowledged { request } => SyncStateView::Acknowledged { request: *request },
            SyncState::Fetching { user_id, guild_id } => SyncStateView::Fetching {
                user_id: *user_id,
                guild_id: *guild_id,
            },
            SyncState::Reconciling { user_id, guild_id, roles } => SyncStateView::Reconciling {
                user_id: *user_id,
                guild_id: *guild_id,
                roles: roles@,
            },
            SyncState::Applying => SyncStateView::Applying,
            SyncState::Completed { ending, follow_up } => SyncStateView::Completed {
                ending: *ending,
                follow_up: *follow_up,
            },
        }
    }
}

/// What the caller reports back to the machine.
#[derive(Debug, PartialEq, Eq)]
pub enum SyncEvent {
    /// A member pressed the sync button.
    Triggered { request: SyncRequest },
    AckDelivered,
    AckFailed,
    /// The identity service answered and the guild's catalog was read.
    Fetched { reply: SyncReply, catalog: Vec<RoleCatalogEntry> },
    /// One of the two could not be had.
    FetchFailed,
    MemberResolved,
    MemberUnavailable,
    RolesGranted,
    GrantFailed,
    FollowUpDelivered,
    FollowUpFailed,
}

/// What a [`SyncEvent`] holds. Of a catalog, only the identifiers count.
pub enum SyncEventView {
    Triggered { request: SyncRequest },
    AckDelivered,
    AckFailed,
    Fetched { reply: SyncReplyView, known: Set<u64> },
    FetchFailed,
    MemberResolved,
    MemberUnavailable,
    RolesGranted,
    GrantFailed,
    FollowUpDelivered,
    FollowUpFailed,
}

impl View for SyncEvent {
    type V = SyncEventView;

    open spec fn view(&self) -> SyncEventView {
        match self {
            SyncEvent::Triggered { request } => SyncEventView::Triggered { request: *request },
            SyncEvent::AckDelivered => SyncEventView::AckDelivered,
            SyncEvent::AckFailed => SyncEventView::AckFailed,
            SyncEvent::Fetched { reply, catalog } => SyncEventView::Fetched {
                reply: reply@,
                known: catalog_ids(catalog@),
            },
            SyncEvent::FetchFailed => SyncEventView::FetchFailed,
            SyncEvent::MemberResolved => SyncEventView::MemberResolved,
            SyncEvent::MemberUnavailable => SyncEventView::MemberUnavailable,
            SyncEvent::RolesGranted => SyncEventView::RolesGranted,
            SyncEvent::GrantFailed => SyncEventView::GrantFailed,
            SyncEvent::FollowUpDelivered => SyncEventView::FollowUpDelivered,
            SyncEvent::FollowUpFailed => SyncEventView::FollowUpFailed,
        }
    }
}

/// What the machine asks the caller to do.
#[derive(Debug, PartialEq, Eq)]
pub enum SyncAction {
    /// Nothing: the event had no bearing on the run.
    Nothing,
    /// Answer the interaction at once.
    Acknowledge { notice: Notice },
    /// Ask the identity service about the user, and read the guild's roles.
    Fetch { user_id: u64, guild_id: u64 },
    /// Resolve the member's record in the guild.
    ResolveMember { guild_id: u64, user_id: u64 },
    /// Add these roles to the member. Roles that the member holds already
    /// stay; none is taken away.
    GrantRoles { guild_id: u64, user_id: u64, roles: ReconciledRoleSet },
    /// Send the follow-up, and log the note.
    FollowUp { notice: Notice, note: OperatorNote },
    /// Stop, and tell the caller how the run went.
    Finish { report: Result<(), SyncFault> },
}

/// What a [`SyncAction`] holds.
pub enum SyncActionView {
    Nothing,
    Acknowledge { notice: Notice },
    Fetch { user_id: u64, guild_id: u64 },
    ResolveMember { guild_id: u64, user_id: u64 },
    GrantRoles { guild_id: u64, user_id: u64, roles: Seq<u64> },
    FollowUp { notice: Notice, note: OperatorNoteView },
    Finish { report: Result<(), SyncFault> },
}

impl View for SyncAction {
    type V = SyncActionView;

    open spec fn view(&self) -> SyncActionView {
        match self {
            SyncAction::Nothing => SyncActionView::Nothing,
            SyncAction::Acknowledge { notice } => SyncActionView::Acknowledge { notice: *notice },
            SyncAction::Fetch { user_id, guild_id } => SyncActionView::Fetch {
                user_id: *user_id,
                guild_id: *guild_id,
            },
            SyncAction::ResolveMember { guild_id, user_id } => SyncActionView::ResolveMember {
                guild_id: *guild_id,
                user_id: *user_id,
            },
            SyncAction::GrantRoles { guild_id, user_id, roles } => SyncActionView::GrantRoles {
                guild_id: *guild_id,
                user_id: *user_id,
                roles: roles@,
            },
            SyncAction::FollowUp { notice, note } => SyncActionView::FollowUp {
                notice: *notice,
                note: note@,
            },
            SyncAction::Finish { report } => SyncActionView::Finish { report: *report },
        }
    }
}

/// A run that ends here and now, cut short by `fault`, with no follow-up.
pub open spec fn cut_short(fault: SyncFault) -> (SyncStateView, SyncActionView) {
    (
        SyncStateView::Completed { ending: Ending::Fatal(fault), follow_up: Delivery::Skipped },
        SyncActionView::Finish { report: Err(fault) },
    )
}

/// A run that ends with a follow-up to the member.
pub open spec fn wrap_up(ending: Ending, notice: Notice, note: OperatorNoteView) -> (
    SyncStateView,
    SyncActionView,
) {
    (
        SyncStateView::Completed { ending, follow_up: Delivery::Pending },
        SyncActionView::FollowUp { notice, note },
    )
}

/// What the machine does from `Fetching` once the answers are in.
pub open spec fn after_fetch(user_id: u64, guild_id: u64, reply: SyncReplyView, known: Set<u64>) -> (
    SyncStateView,
    SyncActionView,
) {
    match outcome_of(reply) {
        Ok(SyncOutcomeView::Success { role_ids }) => (
            SyncStateView::Reconciling { user_id, guild_id, roles: reconciled(role_ids, known) },
            SyncActionView::ResolveMember { guild_id, user_id },
        ),
        Ok(SyncOutcomeView::ServiceError) => wrap_up(
            Ending::ServiceError,
            Notice::TryLater,
            OperatorNoteView::ServiceFailed { status: reply.status },
        ),
        Ok(SyncOutcomeView::OtherError { message }) => wrap_up(
            Ending::OtherError,
            Notice::ContactAdmins,
            OperatorNoteView::Refused { status: reply.status, message },
        ),
        Err(_) => cut_short(SyncFault::UnreadableRejection),
    }
}

/// The machine: the state that follows `state` on `event`, and what the
/// caller is to do next. An event that the state does not wait for changes
/// nothing.
pub open spec fn transition(state: SyncStateView, event: SyncEventView) -> (
    SyncStateView,
    SyncActionView,
) {
    match state {
        SyncStateView::Idle => match event {
            SyncEventView::Triggered { request } => (
                SyncStateView::Acknowledged { request },
                SyncActionView::Acknowledge { notice: Notice::Fetching },
            ),
            _ => (state, SyncActionView::Nothing),
        },
        SyncStateView::Acknowledged { request } => match event {
            SyncEventView::AckDelivered => match request.guild_id {
                Some(guild_id) => (
                    SyncStateView::Fetching { user_id: request.user_id, guild_id },
                    SyncActionView::Fetch { user_id: request.user_id, guild_id },
                ),
                None => wrap_up(
                    Ending::Fatal(SyncFault::MissingGuild),
                    Notice::ContactAdmins,
                    OperatorNoteView::Quiet,
                ),
            },
            SyncEventView::AckFailed => cut_short(SyncFault::AckFailed),
            _ => (state, SyncActionView::Nothing),
        },
        SyncStateView::Fetching { user_id, guild_id } => match event {
            SyncEventView::Fetched { reply, known } => after_fetch(user_id, guild_id, reply, known),
            SyncEventView::FetchFailed => cut_short(SyncFault::FetchFailed),
            _ => (state, SyncActionView::Nothing),
        },
        SyncStateView::Reconciling { user_id, guild_id, roles } => match event {
            SyncEventView::MemberResolved => (
                SyncStateView::Applying,
                SyncActionView::GrantRoles { guild_id, user_id, roles },
            ),
            SyncEventView::MemberUnavailable => cut_short(SyncFault::MemberUnavailable),
            _ => (state, SyncActionView::Nothing),
        },
        SyncStateView::Applying => match event {
            SyncEventView::RolesGranted => wrap_up(
                Ending::UpToDate,
                Notice::UpToDate,
                OperatorNoteView::Quiet,
            ),
            SyncEventView::GrantFailed => cut_short(SyncFault::GrantFailed),
            _ => (state, SyncActionView::Nothing),
        },
        SyncStateView::Completed { ending, follow_up } => if follow_up == Delivery::Pending {
            match event {
                SyncEventView::FollowUpDelivered => (
                    SyncStateView::Completed { ending, follow_up: Delivery::Delivered },
                    SyncActionView::Finish { report: report_of(ending, Delivery::Delivered) },
                ),
                SyncEventView::FollowUpFailed => (
                    SyncStateView::Completed { ending, follow_up: Delivery::Failed },
                    SyncActionView::Finish { report: report_of(ending, Delivery::Failed) },
                ),
                _ => (state, SyncActionView::Nothing),
            }
        } else {
            (state, SyncActionView::Nothing)
        },
    }
}

/// The caller's report for a run that ended with `ending` and whose
/// follow-up fared as `follow_up`.
pub fn report(ending: Ending, follow_up: Delivery) -> (report: Result<(), SyncFault>)
    ensures
        report == report_of(ending, follow_up),
{
    match ending {
        Ending::Fatal(fault) => Err(fault),
        _ => match follow_up {
            Delivery::Failed => Err(SyncFault::FollowUpFailed),
            _ => Ok(()),
        },
    }
}

fn cut(fault: SyncFault) -> (next: (SyncState, SyncAction))
    ensures
        (next.0@, next.1@) == cut_short(fault),
{
    (
        SyncState::Completed { ending: Ending::Fatal(fault), follow_up: Delivery::Skipped },
        SyncAction::Finish { report: Err(fault) },
    )
}

fn wrap(ending: Ending, notice: Notice, note: OperatorNote) -> (next: (SyncState, SyncAction))
    ensures
        (next.0@, next.1@) == wrap_up(ending, notice, note@),
{
    (
        SyncState::Completed { ending, follow_up: Delivery::Pending },
        SyncAction::FollowUp { notice, note },
    )
}

fn fetched(user_id: u64, guild_id: u64, reply: SyncReply, catalog: Vec<RoleCatalogEntry>) -> (next: (
    SyncState,
    SyncAction,
))
    ensures
        (next.0@, next.1@) == after_fetch(user_id, guild_id, reply@, catalog_ids(catalog@)),
{
    let status = reply.status;
    match interpret_reply(reply) {
        Ok(SyncOutcome::Success { role_ids }) => {
            let roles = reconcile_roles(&role_ids, &catalog);
            (
                SyncState::Reconciling { user_id, guild_id, roles },
                SyncAction::ResolveMember { guild_id, user_id },
            )
        },
        Ok(SyncOutcome::ServiceError) => wrap(
            Ending::ServiceError,
            Notice::TryLater,
            OperatorNote::ServiceFailed { status },
        ),
        Ok(SyncOutcome::OtherError { message }) => wrap(
            Ending::OtherError,
            Notice::ContactAdmins,
            OperatorNote::Refused { status, message },
        ),
        Err(_) => cut(SyncFault::UnreadableRejection),
    }
}

impl SyncState {
    /// The state before anything is asked for.
    pub fn new() -> (state: SyncState)
        ensures
            state@ == SyncStateView::Idle,
    {
        SyncState::Idle
    }

    /// Whether the run is over and the caller has its report.
    pub fn is_finished(&self) -> (finished: bool)
        ensures
            finished == (self@ matches SyncStateView::Completed { follow_up, .. } && follow_up
                != Delivery::Pending),
    {
        match self {
            SyncState::Completed { follow_up, .. } => match follow_up {
                Delivery::Pending => false,
                _ => true,
            },
            _ => false,
        }
    }

    /// Takes one step: consumes what happened and names what to do next.
    pub fn step(self, event: SyncEvent) -> (next: (SyncState, SyncAction))
        ensures
            (next.0@, next.1@) == transition(self@, event@),
    {
        match self {
            SyncState::Idle => match event {
                SyncEvent::Triggered { request } => (
                    SyncState::Acknowledged { request },
                    SyncAction::Acknowledge { notice: Notice::Fetching },
                ),
                _ => (self, SyncAction::Nothing),
            },
            SyncState::Acknowledged { request } => match event {
                SyncEvent::AckDelivered => match request.guild_id {
                    Some(guild_id) => (
                        SyncState::Fetching { user_id: request.user_id, guild_id },
                        SyncAction::Fetch { user_id: request.user_id, guild_id },
                    ),
                    None => wrap(
                        Ending::Fatal(SyncFault::MissingGuild),
                        Notice::ContactAdmins,
                        OperatorNote::Quiet,
                    ),
                },
                SyncEvent::AckFailed => cut(SyncFault::AckFailed),
                _ => (self, SyncAction::Nothing),
            },
            SyncState::Fetching { user_id, guild_id } => match event {
                SyncEvent::Fetched { reply, catalog } => fetched(user_id, guild_id, reply, catalog),
                SyncEvent::FetchFailed => cut(SyncFault::FetchFailed),
                _ => (self, SyncAction::Nothing),
            },
            SyncState::Reconciling { user_id, guild_id, roles } => match event {
                SyncEvent::MemberResolved => (
                    SyncState::Applying,
                    SyncAction::GrantRoles { guild_id, user_id, roles },
                ),
                SyncEvent::MemberUnavailable => cut(SyncFault::MemberUnavailable),
                _ => (SyncState::Reconciling { user_id, guild_id, roles }, SyncAction::Nothing),
            },
            SyncState::Applying => match event {
                SyncEvent::RolesGranted => wrap(Ending::UpToDate, Notice::UpToDate, OperatorNote::Quiet),
                SyncEvent::GrantFailed => cut(SyncFault::GrantFailed),
                _ => (self, SyncAction::Nothing),
            },
            SyncState::Completed { ending, follow_up } => match (follow_up, event) {
                (Delivery::Pending, SyncEvent::FollowUpDelivered) => (
                    SyncState::Completed { ending, follow_up: Delivery::Delivered },
                    SyncAction::Finish { report: report(ending, Delivery::Delivered) },
                ),
                (Delivery::Pending, SyncEvent::FollowUpFailed) => (
                    SyncState::Completed { ending, follow_up: Delivery::Failed },
                    SyncAction::Finish { report: report(ending, Delivery::Failed) },
                ),
                _ => (SyncState::Completed { ending, follow_up }, SyncAction::Nothing),
            },
        }
    }
}

} // verus!
