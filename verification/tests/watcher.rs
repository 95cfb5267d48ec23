use swampbot::client::Method;
use swampbot::config::BotConfig;
use swampbot::watcher::{
    find_first_image, is_image_attachment, print_request, Attachment, Image, PrintImageRequest, WatchAction,
    WatchEvent, WatchNote, WatchState,
};

fn attachment(url: &str, content_type: Option<&str>, height: Option<u32>) -> Attachment {
    Attachment {
        url: url.to_string(),
        content_type: content_type.map(|media| media.to_string()),
        height,
    }
}

/// A platform and a print service that answer as scripted and keep a
/// record of what they were asked.
struct Fake {
    message: Option<Vec<Attachment>>,
    print: Option<u16>,
    fetched: Vec<(u64, u64)>,
    posted: Vec<String>,
}

impl Fake {
    fn handle(&mut self, config: &BotConfig, channel_id: u64, message_id: u64) -> Option<WatchNote> {
        let mut state = WatchState::new();
        let mut event = WatchEvent::MessageArrived {
            channel_id,
            message_id,
            forward_channel: config.image_forward_channel(),
        };
        for _ in 0..8 {
            let (next, action) = state.step(event);
            state = next;
            event = match action {
                WatchAction::Nothing => {
                    assert_eq!(state, WatchState::Watching);
                    return None;
                }
                WatchAction::FetchMessage { channel_id, message_id } => {
                    self.fetched.push((channel_id, message_id));
                    match self.message.take() {
                        Some(attachments) => WatchEvent::MessageFetched { attachments },
                        None => WatchEvent::FetchFailed,
                    }
                }
                WatchAction::Print { request } => {
                    self.posted.push(request.image_url);
                    match self.print {
                        Some(status) => WatchEvent::PrintAnswered { status },
                        None => WatchEvent::PrintFailed,
                    }
                }
                WatchAction::Finish { note } => {
                    assert_eq!(state, WatchState::Done);
                    return Some(note);
                }
            };
        }
        panic!("the watcher did not end");
    }
}

fn forwarding_from(channel: u64) -> BotConfig {
    let mut config = BotConfig::new();
    config.set_image_forward_channel(channel);
    config
}

#[test]
fn the_print_service_takes_images_under_its_base() {
    let request = print_request("http://0.0.0.0:8080");
    assert_eq!(request.method, Method::Post);
    assert_eq!(request.url, "http://0.0.0.0:8080/print-image");
    assert_eq!(request.authorization, None);
    assert_eq!(print_request("").url, "/print-image");
}

#[test]
fn an_image_needs_an_image_type_and_a_height() {
    assert!(is_image_attachment(&attachment("u", Some("image/png"), Some(480))));
    assert!(is_image_attachment(&attachment("u", Some("image/"), Some(0))));
    assert!(is_image_attachment(&attachment("u", Some("image/svg+xml; charset=utf-8"), Some(1))));
    assert!(!is_image_attachment(&attachment("u", Some("image/png"), None)));
    assert!(!is_image_attachment(&attachment("u", Some("video/mp4"), Some(480))));
    assert!(!is_image_attachment(&attachment("u", Some("IMAGE/PNG"), Some(480))));
    assert!(!is_image_attachment(&attachment("u", Some("image"), Some(480))));
    assert!(!is_image_attachment(&attachment("u", Some("application/image/png"), Some(480))));
    assert!(!is_image_attachment(&attachment("u", Some(""), Some(480))));
    assert!(!is_image_attachment(&attachment("u", None, Some(480))));
    assert!(!is_image_attachment(&attachment("u", None, None)));
}

#[test]
fn the_first_image_is_found() {
    let attachments = vec![
        attachment("https://cdn/a.txt", Some("text/plain"), None),
        attachment("https://cdn/b.png", Some("image/png"), Some(10)),
        attachment("https://cdn/c.jpg", Some("image/jpeg"), Some(20)),
    ];
    assert_eq!(find_first_image(&attachments), Some(Image { url: "https://cdn/b.png".to_string() }));
}

#[test]
fn an_image_type_without_a_height_is_passed_over() {
    let attachments = vec![
        attachment("https://cdn/a.png", Some("image/png"), None),
        attachment("https://cdn/b.gif", Some("image/gif"), Some(20)),
    ];
    assert_eq!(find_first_image(&attachments), Some(Image { url: "https://cdn/b.gif".to_string() }));
}

#[test]
fn no_image_is_found_where_there_is_none() {
    assert_eq!(find_first_image(&Vec::new()), None);
    let attachments = vec![
        attachment("https://cdn/a.mp4", Some("video/mp4"), Some(720)),
        attachment("https://cdn/b.png", Some("image/png"), None),
        attachment("https://cdn/c.bin", None, None),
    ];
    assert_eq!(find_first_image(&attachments), None);
}

#[test]
fn a_message_in_another_channel_is_not_printed() {
    let mut fake = Fake {
        message: Some(vec![attachment("https://cdn/a.png", Some("image/png"), Some(10))]),
        print: Some(200),
        fetched: Vec::new(),
        posted: Vec::new(),
    };
    assert_eq!(fake.handle(&forwarding_from(1), 2, 77), None);
    assert!(fake.fetched.is_empty());
    assert!(fake.posted.is_empty());
}

#[test]
fn a_message_is_not_printed_while_no_channel_is_set() {
    let mut fake = Fake {
        message: Some(vec![attachment("https://cdn/a.png", Some("image/png"), Some(10))]),
        print: Some(200),
        fetched: Vec::new(),
        posted: Vec::new(),
    };
    assert_eq!(fake.handle(&BotConfig::new(), 2, 77), None);
    assert!(fake.fetched.is_empty());
    assert!(fake.posted.is_empty());
}

#[test]
fn an_image_in_the_forward_channel_is_printed_once() {
    let mut fake = Fake {
        message: Some(vec![attachment("https://cdn/a.png", Some("image/png"), Some(10))]),
        print: Some(200),
        fetched: Vec::new(),
        posted: Vec::new(),
    };
    assert_eq!(fake.handle(&forwarding_from(2), 2, 77), Some(WatchNote::Printed));
    assert_eq!(fake.fetched, vec![(2, 77)]);
    assert_eq!(fake.posted, vec!["https://cdn/a.png"]);
}

#[test]
fn of_several_images_only_the_first_is_printed() {
    let mut fake = Fake {
        message: Some(vec![
            attachment("https://cdn/a.pdf", Some("application/pdf"), None),
            attachment("https://cdn/b.png", Some("image/png"), Some(10)),
            attachment("https://cdn/c.png", Some("image/png"), Some(10)),
        ]),
        print: Some(204),
        fetched: Vec::new(),
        posted: Vec::new(),
    };
    assert_eq!(fake.handle(&forwarding_from(2), 2, 78), Some(WatchNote::Printed));
    assert_eq!(fake.posted, vec!["https://cdn/b.png"]);
}

#[test]
fn a_message_without_an_image_is_not_printed() {
    let mut fake = Fake {
        message: Some(vec![attachment("https://cdn/a.pdf", Some("application/pdf"), None)]),
        print: Some(200),
        fetched: Vec::new(),
        posted: Vec::new(),
    };
    assert_eq!(fake.handle(&forwarding_from(2), 2, 79), Some(WatchNote::NoImage));
    assert_eq!(fake.fetched, vec![(2, 79)]);
    assert!(fake.posted.is_empty());
}

#[test]
fn a_message_that_cannot_be_fetched_is_noted() {
    let mut fake = Fake { message: None, print: Some(200), fetched: Vec::new(), posted: Vec::new() };
    assert_eq!(fake.handle(&forwarding_from(2), 2, 80), Some(WatchNote::FetchFailed));
    assert!(fake.posted.is_empty());
}

#[test]
fn a_print_service_that_refuses_is_noted() {
    let mut fake = Fake {
        message: Some(vec![attachment("https://cdn/a.png", Some("image/png"), Some(10))]),
        print: Some(500),
        fetched: Vec::new(),
        posted: Vec::new(),
    };
    assert_eq!(fake.handle(&forwarding_from(2), 2, 81), Some(WatchNote::Rejected { status: 500 }));
    assert_eq!(fake.posted.len(), 1);
}

#[test]
fn a_print_service_out_of_reach_is_noted() {
    let mut fake = Fake {
        message: Some(vec![attachment("https://cdn/a.png", Some("image/png"), Some(10))]),
        print: None,
        fetched: Vec::new(),
        posted: Vec::new(),
    };
    assert_eq!(fake.handle(&forwarding_from(2), 2, 82), Some(WatchNote::PrintFailed));
    assert_eq!(fake.posted.len(), 1);
}

#[test]
fn the_watcher_steps_through_its_states() {
    let (state, action) = WatchState::new().step(WatchEvent::MessageArrived {
        channel_id: 2,
        message_id: 77,
        forward_channel: Some(2),
    });
    assert_eq!(state, WatchState::Refetching);
    assert_eq!(action, WatchAction::FetchMessage { channel_id: 2, message_id: 77 });
    let (state, action) = state.step(WatchEvent::PrintAnswered { status: 200 });
    assert_eq!(state, WatchState::Refetching);
    assert_eq!(action, WatchAction::Nothing);
    let (state, action) = state.step(WatchEvent::MessageFetched {
        attachments: vec![attachment("https://cdn/a.png", Some("image/png"), Some(10))],
    });
    assert_eq!(state, WatchState::Printing);
    assert_eq!(
        action,
        WatchAction::Print { request: PrintImageRequest { image_url: "https://cdn/a.png".to_string() } }
    );
    let (state, action) = state.step(WatchEvent::FetchFailed);
    assert_eq!(state, WatchState::Printing);
    assert_eq!(action, WatchAction::Nothing);
    let (state, action) = state.step(WatchEvent::PrintAnswered { status: 299 });
    assert_eq!(state, WatchState::Done);
    assert_eq!(action, WatchAction::Finish { note: WatchNote::Printed });
    let (state, action) = state.step(WatchEvent::MessageArrived {
        channel_id: 2,
        message_id: 78,
        forward_channel: Some(2),
    });
    assert_eq!(state, WatchState::Done);
    assert_eq!(action, WatchAction::Nothing);
}

#[test]
fn a_status_just_outside_success_is_a_refusal() {
    for status in [199u16, 300, 404] {
        let (state, _) = WatchState::new().step(WatchEvent::MessageArrived {
            channel_id: 1,
            message_id: 1,
            forward_channel: Some(1),
        });
        let (state, _) = state.step(WatchEvent::MessageFetched {
            attachments: vec![attachment("u", Some("image/png"), Some(1))],
        });
        let (_, action) = state.step(WatchEvent::PrintAnswered { status });
        assert_eq!(action, WatchAction::Finish { note: WatchNote::Rejected { status } });
    }
}
