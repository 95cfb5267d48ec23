//! The image forward watcher: which of the messages that arrive hold an
//! image to print, and what to ask of the print service.
//!
//! Like the synchronisation flow it is a machine that decides and leaves the
//! doing to its caller. One machine handles one message. Whatever goes wrong
//! ends in a note for the log; nothing here is reported as a failure.

use crate::client::{is_success, status_is_success, Method, OutboundRequest};
use crate::text::has_prefix;
use vstd::prelude::*;

verus! {

/// A file attached to a message.
#[derive(Debug, Clone, PartialEq, Eq)]
pub struct Attachment {
    pub url: String,
    /// Its media type, where the platform knows one.
    pub content_type: Option<String>,
    /// Its height in pixels, where it can be shown as a picture.
    pub height: Option<u32>,
}

/// What an [`Attachment`] holds.
pub struct AttachmentView {
    pub url: Seq<char>,
    pub content_type: Option<Seq<char>>,
    pub height: Option<u32>,
}

impl View for Attachment {
    type V = AttachmentView;

    open spec fn view(&self) -> AttachmentView {
        AttachmentView {
            url: self.url@,
            content_type: match self.content_type {
                Some(media) => Some(media@),
                None => None,
            },
            height: self.height,
        }
    }
}

impl DeepView for Attachment {
    type V = AttachmentView;

    open spec fn deep_view(&self) -> AttachmentView {
        self@
    }
}

/// An image to print.
#[derive(Debug, PartialEq, Eq)]
pub struct Image {
    pub url: String,
}

/// The body of a request to the print service.
#[derive(Debug, PartialEq, Eq)]
pub struct PrintImageRequest {
    pub image_url: String,
}

/// Where a print service at `base` takes images.
pub open spec fn print_url_of(base: Seq<char>) -> Seq<char> {
    base + "/print-image"@
}

/// The request that carries a [`PrintImageRequest`] to a print service at
/// `base`: a `POST` without credentials.
pub fn print_request(base: &str) -> (request: OutboundRequest)
    ensures
        request.method == Method::Post,
        request.url@ == print_url_of(base@),
        request.authorization is None,
{
    let mut url = String::from_str(base);
    url.append("/print-image");
    OutboundRequest { method: Method::Post, url, authorization: None }
}

/// Whether an attachment is an image: its media type begins with `image/`
/// and it has a height.
pub open spec fn is_image(attachment: AttachmentView) -> bool {
    &&& attachment.content_type matches Some(media) && "image/"@.is_prefix_of(media)
    &&& attachment.height is Some
}

/// The address of the first image among `attachments` from the place
/// `from` on.
pub open spec fn first_image_from(attachments: Seq<AttachmentView>, from: int) -> Option<Seq<char>>
    decreases attachments.len() - from,
{
    if from >= attachments.len() {
        None
    } else if is_image(attachments[from]) {
        Some(attachments[from].url)
    } else {
        first_image_from(attachments, from + 1)
    }
}

/// The address of the first image among `attachments`.
pub open spec fn first_image(attachments: Seq<AttachmentView>) -> Option<Seq<char>> {
    first_image_from(attachments, 0)
}

/// The first image is an image that no image stands before, and there is
/// one wherever there is an image at all.
pub proof fn lemma_first_image(attachments: Seq<AttachmentView>)
    ensures
        first_image(attachments) is None <==> forall|i: int|
            0 <= i < attachments.len() ==> !is_image(#[trigger] attachments[i]),
        first_image(attachments) matches Some(url) ==> exists|i: int|
            0 <= i < attachments.len() && is_image(#[trigger] attachments[i]) && attachments[i].url
                == url && forall|j: int| 0 <= j < i ==> !is_image(#[trigger] attachments[j]),
{
    lemma_first_image_from(attachments, 0);
}

proof fn lemma_first_image_from(attachments: Seq<AttachmentView>, from: int)
    requires
        0 <= from,
    ensures
        first_image_from(attachments, from) is None <==> forall|i: int|
            from <= i < attachments.len() ==> !is_image(#[trigger] attachments[i]),
        first_image_from(attachments, from) matches Some(url) ==> exists|i: int|
            from <= i < attachments.len() && is_image(#[trigger] attachments[i])
                && attachments[i].url == url && forall|j: int|
                from <= j < i ==> !is_image(#[trigger] attachments[j]),
    decreases attachments.len() - from,
{
    if from < attachments.len() {
        if is_image(attachments[from]) {
        } else {
            lemma_first_image_from(attachments, from + 1);
            if let Some(url) = first_image_from(attachments, from) {
                let i = choose|i: int|
                    from + 1 <= i < attachments.len() && is_image(#[trigger] attachments[i])
                        && attachments[i].url == url && forall|j: int|
                        from + 1 <= j < i ==> !is_image(#[trigger] attachments[j]);
                assert forall|j: int| from <= j < i implies !is_image(#[trigger] attachments[j]) by {}
            }
        }
    }
}

/// Whether an attachment is an image.
pub fn is_image_attachment(attachment: &Attachment) -> (image: bool)
    ensures
        image == is_image(attachment@),
{
    match &attachment.content_type {
        Some(media) => has_prefix(media.as_str(), "image/") && attachment.height.is_some(),
        None => false,
    }
}

/// Finds the first image among the attachments of a message.
pub fn find_first_image(attachments: &Vec<Attachment>) -> (image: Option<Image>)
    ensures
        match image {
            Some(found) => first_image(attachments.deep_view()) == Some(found.url@),
            None => first_image(attachments.deep_view()) is None,
        },
{
    let ghost views = attachments.deep_view();
    let mut i: usize = 0;
    while i < attachments.len()
        invariant
            i <= attachments.len(),
            views == attachments.deep_view(),
            first_image(views) == first_image_from(views, i as int),
        decreases attachments.len() - i,
    {
        assert(views[i as int] == attachments@[i as int]@);
        if is_image_attachment(&attachments[i]) {
            return Some(Image { url: attachments[i].url.clone() });
        }
        i += 1;
    }
    None
}

/// What a watcher notes in the log when it is done with a message.
#[derive(Clone, Copy, Debug, PartialEq, Eq, Structural)]
pub enum WatchNote {
    /// The message held no image.
    NoImage,
    /// The message could not be fetched again.
    FetchFailed,
    /// The print service took the image.
    Printed,
    /// The print service answered with a status that is no success.
    Rejected { status: u16 },
    /// The print service could not be reached.
    PrintFailed,
}

/// Where the handling of one message stands.
#[derive(Clone, Copy, Debug, PartialEq, Eq, Structural)]
pub enum WatchState {
    /// No message of the forward channel has arrived.
    Watching,
    /// The message is being fetched again, for its full list of attachments.
    Refetching,
    /// The print service is being asked.
    Printing,
    /// The message is dealt with.
    Done,
}

/// What the caller reports back to the watcher.
#[derive(Debug, PartialEq, Eq)]
pub enum WatchEvent {
    /// A message arrived in `channel_id`, while the settings named
    /// `forward_channel` as the channel to forward from.
    MessageArrived { channel_id: u64, message_id: u64, forward_channel: Option<u64> },
    MessageFetched { attachments: Vec<Attachment> },
    FetchFailed,
    /// The print service answered.
    PrintAnswered { status: u16 },
    /// The print service gave no answer.
    PrintFailed,
}

/// What a [`WatchEvent`] holds.
pub enum WatchEventView {
    MessageArrived { channel_id: u64, message_id: u64, forward_channel: Option<u64> },
    MessageFetched { attachments: Seq<AttachmentView> },
    FetchFailed,
    PrintAnswered { status: u16 },
    PrintFailed,
}

impl View for WatchEvent {
    type V = WatchEventView;

    open spec fn view(&self) -> WatchEventView {
        match self {
            WatchEvent::MessageArrived {
                channel_id,
                message_id,
                forward_channel,
            } => WatchEventView::MessageArrived {
                channel_id: *channel_id,
                message_id: *message_id,
                forward_channel: *forward_channel,
            },
            WatchEvent::MessageFetched { attachments } => WatchEventView::MessageFetched {
                attachments: attachments.deep_view(),
            },
            WatchEvent::FetchFailed => WatchEventView::FetchFailed,
            WatchEvent::PrintAnswered { status } => WatchEventView::PrintAnswered { status: *status },
            WatchEvent::PrintFailed => WatchEventView::PrintFailed,
        }
    }
}

/// What the watcher asks the caller to do.
#[derive(Debug, PartialEq, Eq)]
pub enum WatchAction {
    /// Nothing: the event had no bearing on the watcher.
    Nothing,
    /// Fetch the message again by its identifier.
    FetchMessage { channel_id: u64, message_id: u64 },
    /// Post this body to the print service.
    Print { request: PrintImageRequest },
    /// Stop, and log the note.
    Finish { note: WatchNote },
}

/// What a [`WatchAction`] holds.
pub enum WatchActionView {
    Nothing,
    FetchMessage { channel_id: u64, message_id: u64 },
    Print { image_url: Seq<char> },
    Finish { note: WatchNote },
}

impl View for WatchAction {
    type V = WatchActionView;

    open spec fn view(&self) -> WatchActionView {
        match self {
            WatchAction::Nothing => WatchActionView::Nothing,
            WatchAction::FetchMessage { channel_id, message_id } => WatchActionView::FetchMessage {
                channel_id: *channel_id,
                message_id: *message_id,
            },
            WatchAction::Print { request } => WatchActionView::Print { image_url: request.image_url@ },
            WatchAction::Finish { note } => WatchActionView::Finish { note: *note },
        }
    }
}

/// The watcher: the state that follows `state` on `event`, and what the
/// caller is to do next.
///
/// A message that arrives elsewhere than in the forward channel, or while
/// none is set, is let pass. An event that the state does not wait for
/// changes nothing.
pub open spec fn watch_transition(state: WatchState, event: WatchEventView) -> (
    WatchState,
    WatchActionView,
) {
    match state {
        WatchState::Watching => match event {
            WatchEventView::MessageArrived { channel_id, message_id, forward_channel } => {
                if forward_channel == Some(channel_id) {
                    (WatchState::Refetching, WatchActionView::FetchMessage { channel_id, message_id })
                } else {
                    (state, WatchActionView::Nothing)
                }
            },
            _ => (state, WatchActionView::Nothing),
        },
        WatchState::Refetching => match event {
            WatchEventView::MessageFetched { attachments } => match first_image(attachments) {
                Some(image_url) => (WatchState::Printing, WatchActionView::Print { image_url }),
                None => (WatchState::Done, WatchActionView::Finish { note: WatchNote::NoImage }),
            },
            WatchEventView::FetchFailed => (
                WatchState::Done,
                WatchActionView::Finish { note: WatchNote::FetchFailed },
            ),
            _ => (state, WatchActionView::Nothing),
        },
        WatchState::Printing => match event {
            WatchEventView::PrintAnswered { status } => (
                WatchState::Done,
                WatchActionView::Finish {
                    note: if is_success(status) {
                        WatchNote::Printed
                    } else {
                        WatchNote::Rejected { status }
                    },
                },
            ),
            WatchEventView::PrintFailed => (
                WatchState::Done,
                WatchActionView::Finish { note: WatchNote::PrintFailed },
            ),
            _ => (state, WatchActionView::Nothing),
        },
        WatchState::Done => (state, WatchActionView::Nothing),
    }
}

impl WatchState {
    /// The state before any message has arrived.
    pub fn new() -> (state: WatchState)
        ensures
            state == WatchState::Watching,
    {
        WatchState::Watching
    }

    /// Takes one step: consumes what happened and names what to do next.
    pub fn step(self, event: WatchEvent) -> (next: (WatchState, WatchAction))
        ensures
            (next.0, next.1@) == watch_transition(self, event@),
    {
        match self {
            WatchState::Watching => match event {
                WatchEvent::MessageArrived { channel_id, message_id, forward_channel } => {
                    match forward_channel {
                        Some(chosen) => if chosen == channel_id {
                            (
                                WatchState::Refetching,
                                WatchAction::FetchMessage { channel_id, message_id },
                            )
                        } else {
                            (self, WatchAction::Nothing)
                        },
                        None => (self, WatchAction::Nothing),
                    }
                },
                _ => (self, WatchAction::Nothing),
            },
            WatchState::Refetching => match event {
                WatchEvent::MessageFetched { attachments } => match find_first_image(&attachments) {
                    Some(image) => (
                        WatchState::Printing,
                        WatchAction::Print { request: PrintImageRequest { image_url: image.url } },
                    ),
                    None => (WatchState::Done, WatchAction::Finish { note: WatchNote::NoImage }),
                },
                WatchEvent::FetchFailed => (
                    WatchState::Done,
                    WatchAction::Finish { note: WatchNote::FetchFailed },
                ),
                _ => (self, WatchAction::Nothing),
            },
            WatchState::Printing => match event {
                WatchEvent::PrintAnswered { status } => {
                    let note = if status_is_success(status) {
                        WatchNote::Printed
                    } else {
                        WatchNote::Rejected { status }
                    };
                    (WatchState::Done, WatchAction::Finish { note })
                },
                WatchEvent::PrintFailed => (
                    WatchState::Done,
                    WatchAction::Finish { note: WatchNote::PrintFailed },
                ),
                _ => (self, WatchAction::Nothing),
            },
            WatchState::Done => (self, WatchAction::Nothing),
        }
    }
}

/// How far the handling of a message has come.
pub open spec fn watch_progress(state: WatchState) -> nat {
    match state {
        WatchState::Watching => 0,
        WatchState::Refetching => 1,
        WatchState::Printing => 2,
        WatchState::Done => 3,
    }
}

/// The place of an action in the handling of a message.
pub open spec fn watch_milestone(action: WatchActionView) -> nat {
    match action {
        WatchActionView::Nothing => 0,
        WatchActionView::FetchMessage { .. } => 1,
        WatchActionView::Print { .. } => 2,
        WatchActionView::Finish { .. } => 3,
    }
}

/// A step either changes nothing and asks for nothing, or asks for
/// something that lies ahead of the state it left and not ahead of the
/// state it reached.
pub proof fn lemma_watch_step_advances(state: WatchState, event: WatchEventView)
    ensures
        watch_transition(state, event).1 is Nothing ==> watch_transition(state, event).0 == state,
        !(watch_transition(state, event).1 is Nothing) ==> watch_progress(state) < watch_milestone(
            watch_transition(state, event).1,
        ) <= watch_progress(watch_transition(state, event).0),
{
}

/// A message is fetched again only if it arrived in the channel that the
/// settings name, and the print service is only ever sent the first image
/// of the message that was fetched.
pub proof fn lemma_watch_step_is_called_for(state: WatchState, event: WatchEventView)
    ensures
        watch_transition(state, event).1 matches WatchActionView::FetchMessage {
            channel_id,
            message_id,
        } ==> event == (WatchEventView::MessageArrived {
            channel_id,
            message_id,
            forward_channel: Some(channel_id),
        }),
        watch_transition(state, event).1 matches WatchActionView::Print { image_url } ==> (
        event matches WatchEventView::MessageFetched { attachments } && first_image(attachments)
            == Some(image_url)),
{
}

/// The state that the watcher reaches from `state` on `events`, and the
/// actions that it asks for on the way, one for each event.
pub open spec fn watch_run(state: WatchState, events: Seq<WatchEventView>) -> (
    WatchState,
    Seq<WatchActionView>,
)
    decreases events.len(),
{
    if events.len() == 0 {
        (state, Seq::empty())
    } else {
        let (reached, asked) = watch_run(state, events.drop_last());
        let (next, action) = watch_transition(reached, events.last());
        (next, asked.push(action))
    }
}

/// The actions of a watcher come in order, each kind at most once: one
/// fetch, then at most one request to the print service, then the note.
pub proof fn lemma_watch_run_in_order(state: WatchState, events: Seq<WatchEventView>)
    ensures
        watch_run(state, events).1.len() == events.len(),
        watch_progress(state) <= watch_progress(watch_run(state, events).0),
        forall|i: int|
            0 <= i < events.len() && !(#[trigger] watch_run(state, events).1[i] is Nothing)
                ==> watch_progress(state) < watch_milestone(watch_run(state, events).1[i])
                <= watch_progress(watch_run(state, events).0),
        forall|i: int, j: int|
            0 <= i < j < events.len() && !(#[trigger] watch_run(state, events).1[i] is Nothing)
                && !(#[trigger] watch_run(state, events).1[j] is Nothing) ==> watch_milestone(
                watch_run(state, events).1[i],
            ) < watch_milestone(watch_run(state, events).1[j]),
    decreases events.len(),
{
    if events.len() > 0 {
        let (reached, asked) = watch_run(state, events.drop_last());
        lemma_watch_run_in_order(state, events.drop_last());
        lemma_watch_step_advances(reached, events.last());
    }
}

/// Whether an event is the arrival of a message in the channel that the
/// settings name.
pub open spec fn arrives_in_forward_channel(event: WatchEventView) -> bool {
    event matches WatchEventView::MessageArrived { channel_id, forward_channel, .. }
        && forward_channel == Some(channel_id)
}

/// A watcher that sees no message arrive in the forward channel asks for
/// nothing: it fetches nothing and sends the print service nothing.
pub proof fn lemma_other_channels_pass(events: Seq<WatchEventView>)
    requires
        forall|i: int| 0 <= i < events.len() ==> !arrives_in_forward_channel(#[trigger] events[i]),
    ensures
        watch_run(WatchState::Watching, events).0 == WatchState::Watching,
        forall|i: int|
            0 <= i < events.len() ==> #[trigger] watch_run(WatchState::Watching, events).1[i]
                is Nothing,
    decreases events.len(),
{
    if events.len() > 0 {
        let front = events.drop_last();
        assert forall|i: int| 0 <= i < front.len() implies !arrives_in_forward_channel(
            #[trigger] front[i],
        ) by {
            assert(front[i] == events[i]);
        }
        lemma_other_channels_pass(front);
        lemma_watch_run_in_order(WatchState::Watching, front);
        let asked = watch_run(WatchState::Watching, front).1;
        let all = watch_run(WatchState::Watching, events).1;
        assert(!arrives_in_forward_channel(events.last()));
        assert forall|i: int| 0 <= i < events.len() implies #[trigger] all[i] is Nothing by {
            if i < front.len() {
                assert(all[i] == asked[i]);
            }
        }
    }
}

/// A watcher that goes on by one event goes on by one step.
proof fn lemma_watch_run_push(state: WatchState, events: Seq<WatchEventView>, event: WatchEventView)
    ensures
        watch_run(state, events.push(event)) == (
            watch_transition(watch_run(state, events).0, event).0,
            watch_run(state, events).1.push(watch_transition(watch_run(state, events).0, event).1),
        ),
{
    assert(events.push(event).drop_last() =~= events);
}

/// A message with an image that arrives in the forward channel is fetched
/// once, and the print service is asked once, for the first image of the
/// message.
pub proof fn lemma_flow_prints(
    channel_id: u64,
    message_id: u64,
    attachments: Seq<AttachmentView>,
    status: u16,
)
    requires
        first_image(attachments) is Some,
    ensures
        watch_run(
            WatchState::Watching,
            seq![
                WatchEventView::MessageArrived {
                    channel_id,
                    message_id,
                    forward_channel: Some(channel_id),
                },
                WatchEventView::MessageFetched { attachments },
                WatchEventView::PrintAnswered { status },
            ],
        ) == (
            WatchState::Done,
            seq![
                WatchActionView::FetchMessage { channel_id, message_id },
                WatchActionView::Print { image_url: first_image(attachments)->Some_0 },
                WatchActionView::Finish {
                    note: if is_success(status) {
                        WatchNote::Printed
                    } else {
                        WatchNote::Rejected { status }
                    },
                },
            ],
        ),
{
    let e0 = WatchEventView::MessageArrived { channel_id, message_id, forward_channel: Some(channel_id) };
    let e1 = WatchEventView::MessageFetched { attachments };
    let e2 = WatchEventView::PrintAnswered { status };
    let none = Seq::<WatchEventView>::empty();
    lemma_watch_run_push(WatchState::Watching, none, e0);
    lemma_watch_run_push(WatchState::Watching, none.push(e0), e1);
    lemma_watch_run_push(WatchState::Watching, none.push(e0).push(e1), e2);
    assert(seq![e0, e1, e2] =~= none.push(e0).push(e1).push(e2));
    let asked = watch_run(WatchState::Watching, seq![e0, e1, e2]).1;
    assert(asked =~= seq![
        WatchActionView::FetchMessage { channel_id, message_id },
        WatchActionView::Print { image_url: first_image(attachments)->Some_0 },
        WatchActionView::Finish {
            note: if is_success(status) {
                WatchNote::Printed
            } else {
                WatchNote::Rejected { status }
            },
        },
    ]);
}

} // verus!
