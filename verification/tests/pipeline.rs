//! The event pipeline: dispatch, role assignment, the publish transition
//! and the release command.

use appstore_bot::bot::{dc_event_handler, handle_chat_modified, handle_dc_message,
    handle_dc_webxdc_update, BotConfig, BotEvent, State};
use appstore_bot::db::DB;
use appstore_bot::request_handlers::review::ReviewChat;
use appstore_bot::request_handlers::submit::SubmitChat;
use appstore_bot::request_handlers::{Action, AppInfo, BotError, ChatType,
    GeneralFrontendResponse, MsgInfo};

fn fresh_state() -> State {
    State {
        db: DB::new(),
        config: BotConfig {
            genesis_qr: "genesis-invite-code".to_string(),
            invite_qr: "one-to-one-invite-code".to_string(),
            tester_group: 100,
            reviewee_group: 101,
            genesis_group: 102,
        },
    }
}

fn text_msg(sender: u64, text: &str) -> MsgInfo {
    MsgInfo { sender, text: Some(text.to_string()), webxdc_bytes: None, file_path: None }
}

fn complete_app(id: u64, originator: u64) -> AppInfo {
    AppInfo {
        id,
        app_id: "com.example.app".to_string(),
        version: 2,
        name: "Example".to_string(),
        submitter_uri: None,
        source_code_url: None,
        image: "aWNvbg==".to_string(),
        description: "An example app".to_string(),
        xdc_blob_path: "bundles/example.xdc".to_string(),
        originator,
        active: false,
    }
}

fn submit_setup(state: &mut State, chat: u64, app: &AppInfo) {
    state.db.set_chat_type(chat, ChatType::Submit);
    assert!(state.db.create_app_info(app, app.id));
    assert!(state.db.create_submit(&SubmitChat {
        creator_chat: chat,
        creator_webxdc: 11,
        app_info: app.id,
    }));
}

#[test]
fn unknown_chat_first_event_assigns_shop_role() {
    let mut state = fresh_state();
    let acts = handle_dc_message(&mut state, 5, &text_msg(50, "hello"), 0).unwrap();
    assert_eq!(state.db.get_chat_type(5), Some(ChatType::Shop));
    assert_eq!(acts.len(), 2);
    match &acts[0] {
        Action::SendText { chat, text } => {
            assert_eq!(*chat, 5);
            assert_eq!(text, "Welcome to the xdcstore!");
        }
        other => panic!("expected SendText, got {:?}", other),
    }
    assert_eq!(acts[1], Action::SendAppstoreXdc { chat: 5 });
}

#[test]
fn shop_assignment_happens_only_once() {
    let mut state = fresh_state();
    handle_dc_message(&mut state, 5, &text_msg(50, "hello"), 0).unwrap();
    let acts = handle_dc_message(&mut state, 5, &text_msg(50, "hello again"), 0).unwrap();
    assert_eq!(state.db.get_chat_type(5), Some(ChatType::Shop));
    assert_eq!(acts, vec![Action::DelegateShopMessage { chat: 5 }]);
}

#[test]
fn membership_event_on_unknown_chat_also_defaults_to_shop() {
    let mut state = fresh_state();
    let acts = handle_chat_modified(&mut state, 6, &vec![10, 11]).unwrap();
    assert_eq!(state.db.get_chat_type(6), Some(ChatType::Shop));
    assert_eq!(acts.len(), 2);
}

#[test]
fn publish_with_too_few_testers_only_notifies() {
    let mut state = fresh_state();
    submit_setup(&mut state, 1, &complete_app(7, 1));
    state.db.set_publisher_contacts(&vec![301]);
    state.db.set_tester_contacts(&vec![201, 202]);
    let acts = handle_dc_message(&mut state, 1, &text_msg(50, "/publish"), 9).unwrap();
    assert_eq!(acts.len(), 2);
    match &acts[0] {
        Action::SendText { chat, text } => {
            assert_eq!(*chat, 102);
            assert_eq!(text, "Not enough testers in pool");
        }
        other => panic!("expected SendText, got {:?}", other),
    }
    match &acts[1] {
        Action::SendText { chat, text } => {
            assert_eq!(*chat, 1);
            assert_eq!(text, "Problem creating your review chat");
        }
        other => panic!("expected SendText, got {:?}", other),
    }
    // nothing moved: same role, same record, pools intact
    assert_eq!(state.db.get_chat_type(1), Some(ChatType::Submit));
    assert!(state.db.get_submit_chat(1).is_some());
    assert_eq!(state.db.get_testers(), vec![201, 202]);
}

#[test]
fn publish_without_publisher_reports_that_shortage() {
    let mut state = fresh_state();
    submit_setup(&mut state, 1, &complete_app(7, 1));
    state.db.set_tester_contacts(&vec![201, 202, 203]);
    let acts = handle_dc_message(&mut state, 1, &text_msg(50, "/publish"), 9).unwrap();
    assert_eq!(acts.len(), 2);
    match &acts[0] {
        Action::SendText { chat, text } => {
            assert_eq!(*chat, 102);
            assert_eq!(text, "Not enough reviewee in pool");
        }
        other => panic!("expected SendText, got {:?}", other),
    }
}

#[test]
fn unknown_command_in_submit_chat() {
    let mut state = fresh_state();
    submit_setup(&mut state, 1, &complete_app(7, 1));
    let acts = handle_dc_message(&mut state, 1, &text_msg(50, "/frobnicate"), 0).unwrap();
    match &acts[..] {
        [Action::SendText { chat, text }] => {
            assert_eq!(*chat, 1);
            assert_eq!(text, "Command not found");
        }
        other => panic!("expected one SendText, got {:?}", other),
    }
}

#[test]
fn plain_text_in_submit_chat_is_ignored() {
    let mut state = fresh_state();
    submit_setup(&mut state, 1, &complete_app(7, 1));
    let acts = handle_dc_message(&mut state, 1, &text_msg(50, "how is it going?"), 0).unwrap();
    assert!(acts.is_empty());
}

#[test]
fn publish_with_full_pools_creates_review_chat() {
    let mut state = fresh_state();
    let app = complete_app(7, 1);
    submit_setup(&mut state, 1, &app);
    state.db.set_publisher_contacts(&vec![301]);
    state.db.set_tester_contacts(&vec![201, 202, 203]);
    let acts = handle_dc_message(&mut state, 1, &text_msg(50, "/publish"), 4).unwrap();
    let plan = match &acts[..] {
        [Action::CreateReviewGroup { plan }] => plan,
        other => panic!("expected CreateReviewGroup, got {:?}", other),
    };
    assert_eq!(plan.publisher, 301);
    let mut testers = plan.testers.to_vec();
    testers.sort();
    assert_eq!(testers, vec![201, 202, 203]);
    assert_eq!(plan.group_name, "Testing: Example");
    assert!(plan.is_valid());

    // the review group members are exactly publisher + the three testers
    let mut members = plan.members();
    members.sort();
    assert_eq!(members, vec![201, 202, 203, 301]);

    // the event loop creates the group and completes the transition
    let names = vec!["alice".to_string(), "bob".to_string(), "carol".to_string()];
    let publisher_name = "paula".to_string();
    let (rc, acts) =
        ReviewChat::from_submit_chat(&mut state, plan, 900, 77, &names, &publisher_name).unwrap();
    assert_eq!(rc.review_chat, 900);
    assert_eq!(rc.submit_chat, 1);
    assert_eq!(rc.publisher, 301);
    assert_eq!(rc.app_info, 7);
    assert_eq!(rc.review_helper, 11);
    assert_eq!(rc.submit_helper, 77);
    assert_eq!(state.db.get_chat_type(900), Some(ChatType::Review));
    assert_eq!(state.db.get_review_chat(900), Some(rc));
    assert_eq!(state.db.get_submit_chat(1), None);
    assert_eq!(acts.len(), 3);
    match &acts[0] {
        Action::SendText { chat, text } => {
            assert_eq!(*chat, 900);
            assert_eq!(text, "Publisher: [paula] \nTesters: [alice,bob,carol]");
        }
        other => panic!("expected SendText, got {:?}", other),
    }
    match &acts[1] {
        Action::SendAppInfo { msg, app: sent } => {
            assert_eq!(*msg, 77);
            assert_eq!(sent, &app);
        }
        other => panic!("expected SendAppInfo, got {:?}", other),
    }
    match &acts[2] {
        Action::SendText { chat, text } => {
            assert_eq!(*chat, 1);
            assert_eq!(text, "I've submitted your app for review");
        }
        other => panic!("expected SendText, got {:?}", other),
    }
}

fn review_setup(state: &mut State, review_chat: u64, app: &AppInfo) {
    state.db.set_chat_type(review_chat, ChatType::Review);
    assert!(state.db.create_app_info(app, app.id));
    state.db.upgrade_to_review_chat(&ReviewChat {
        review_helper: 11,
        submit_helper: 77,
        review_chat,
        submit_chat: 1,
        publisher: 301,
        testers: [201, 202, 203],
        app_info: app.id,
    });
}

#[test]
fn release_with_empty_description_stays_unpublished() {
    let mut state = fresh_state();
    let mut app = complete_app(7, 1);
    app.description = String::new();
    review_setup(&mut state, 900, &app);
    let acts = handle_dc_message(&mut state, 900, &text_msg(50, "/release"), 0).unwrap();
    assert!(!state.db.get_app_info(7).unwrap().active);
    match &acts[..] {
        [Action::SendText { chat, text }] => {
            assert_eq!(*chat, 900);
            assert!(text.contains("description"), "reply must name description: {text}");
        }
        other => panic!("expected one SendText, got {:?}", other),
    }
}

#[test]
fn release_of_complete_app_publishes_it() {
    let mut state = fresh_state();
    review_setup(&mut state, 900, &complete_app(7, 1));
    let acts = handle_dc_message(&mut state, 900, &text_msg(50, "/release"), 0).unwrap();
    assert!(state.db.get_app_info(7).unwrap().active);
    match &acts[..] {
        [Action::SendText { chat, text }] => {
            assert_eq!(*chat, 900);
            assert_eq!(text, "App published");
        }
        other => panic!("expected one SendText, got {:?}", other),
    }
    // a second /release is a harmless no-op from the caller's view
    let acts = handle_dc_message(&mut state, 900, &text_msg(50, "/release"), 0).unwrap();
    assert!(state.db.get_app_info(7).unwrap().active);
    assert_eq!(acts.len(), 1);
}

#[test]
fn genesis_join_commands_add_to_the_named_group() {
    let mut state = fresh_state();
    state.db.set_chat_type(2, ChatType::Genesis);
    let acts = handle_dc_message(&mut state, 2, &text_msg(55, "/join tester"), 0).unwrap();
    assert_eq!(acts, vec![Action::AddContact { chat: 100, contact: 55 }]);
    let acts = handle_dc_message(&mut state, 2, &text_msg(55, "/join reviewee"), 0).unwrap();
    assert_eq!(acts, vec![Action::AddContact { chat: 101, contact: 55 }]);
    let acts = handle_dc_message(&mut state, 2, &text_msg(55, "/join genesis"), 0).unwrap();
    assert_eq!(acts, vec![Action::AddContact { chat: 102, contact: 55 }]);
    let acts = handle_dc_message(&mut state, 2, &text_msg(55, "/join nowhere"), 0).unwrap();
    assert!(acts.is_empty());
}

#[test]
fn membership_change_replaces_the_backing_pool() {
    let mut state = fresh_state();
    state.db.set_chat_type(100, ChatType::TesterPool);
    state.db.set_tester_contacts(&vec![999]);
    let acts = handle_chat_modified(&mut state, 100, &vec![1, 5, 10, 11, 10]).unwrap();
    assert!(acts.is_empty());
    // platform-special ids dropped, duplicates collapsed, old pool gone
    assert_eq!(state.db.get_testers(), vec![10, 11]);
}

#[test]
fn membership_change_updates_the_matching_pool_only() {
    let mut state = fresh_state();
    state.db.set_chat_type(101, ChatType::PublisherPool);
    state.db.set_chat_type(102, ChatType::Genesis);
    handle_chat_modified(&mut state, 101, &vec![31, 32]).unwrap();
    handle_chat_modified(&mut state, 102, &vec![41]).unwrap();
    assert_eq!(state.db.get_publisher(), Some(31));
    assert_eq!(state.db.get_testers(), Vec::<u64>::new());
}

#[test]
fn pool_chats_ignore_plain_messages() {
    let mut state = fresh_state();
    state.db.set_chat_type(100, ChatType::TesterPool);
    let acts = handle_dc_message(&mut state, 100, &text_msg(50, "hi"), 0).unwrap();
    assert!(acts.is_empty());
}

#[test]
fn status_update_merges_partial_app_edit() {
    let mut state = fresh_state();
    let mut app = complete_app(7, 1);
    app.description = String::new();
    submit_setup(&mut state, 1, &app);
    let payload = "{\"payload\":{\"description\":\"Fresh words\"}}".to_string();
    let acts = handle_dc_webxdc_update(&mut state, 1, &payload).unwrap();
    let stored = state.db.get_app_info(7).unwrap();
    assert_eq!(stored.description, "Fresh words");
    assert_eq!(stored.name, "Example");
    // the app is now complete, so the only reply is the typed response
    assert_eq!(
        acts,
        vec![Action::SendStatusUpdate { msg: 11, response: GeneralFrontendResponse::UpdateSent }]
    );
}

#[test]
fn status_update_reports_missing_fields_while_incomplete() {
    let mut state = fresh_state();
    let mut app = complete_app(7, 1);
    app.description = String::new();
    app.image = String::new();
    submit_setup(&mut state, 1, &app);
    let payload = "{\"payload\":{\"description\":\"Now described\"}}".to_string();
    let acts = handle_dc_webxdc_update(&mut state, 1, &payload).unwrap();
    assert_eq!(acts.len(), 2);
    match &acts[0] {
        Action::SendText { chat, text } => {
            assert_eq!(*chat, 1);
            assert_eq!(text, "You still are still missing some required fields: image");
        }
        other => panic!("expected SendText, got {:?}", other),
    }
}

#[test]
fn unparseable_status_update_is_ignored() {
    let mut state = fresh_state();
    submit_setup(&mut state, 1, &complete_app(7, 1));
    let acts = handle_dc_webxdc_update(&mut state, 1, &"not json at all".to_string()).unwrap();
    assert!(acts.is_empty());
}

#[test]
fn status_update_for_unknown_chat_is_an_error() {
    let mut state = fresh_state();
    let payload = "{\"payload\":{\"description\":\"x\"}}".to_string();
    assert_eq!(handle_dc_webxdc_update(&mut state, 9, &payload), Err(BotError::NotFound));
}

#[test]
fn event_handler_routes_all_three_event_kinds() {
    let mut state = fresh_state();
    state.db.set_chat_type(100, ChatType::TesterPool);
    let acts = dc_event_handler(
        &mut state,
        &BotEvent::ChatModified { chat_id: 100, members: vec![10, 11, 12] },
        0,
    )
    .unwrap();
    assert!(acts.is_empty());
    assert_eq!(state.db.get_testers(), vec![10, 11, 12]);

    let acts = dc_event_handler(
        &mut state,
        &BotEvent::IncomingMsg { chat_id: 5, msg: text_msg(50, "hello") },
        0,
    )
    .unwrap();
    assert_eq!(acts.len(), 2);
    assert_eq!(state.db.get_chat_type(5), Some(ChatType::Shop));

    let acts = dc_event_handler(
        &mut state,
        &BotEvent::WebxdcStatusUpdate { chat_id: 5, payload: "{}".to_string() },
        0,
    )
    .unwrap();
    assert_eq!(acts, vec![Action::DelegateShopStatusUpdate { chat: 5 }]);
}

#[test]
fn state_lists_published_apps() {
    let mut state = fresh_state();
    state.db.create_app_info(&complete_app(7, 1), 7);
    state.db.publish_app(7);
    let apps = state.get_apps();
    assert_eq!(apps.len(), 1);
    assert_eq!(apps[0].id, 7);
}

#[test]
fn bootstrap_registers_the_three_groups() {
    let mut state = fresh_state();
    appstore_bot::bot::configure(&mut state.db, &state.config);
    assert_eq!(state.db.get_chat_type(102), Some(ChatType::Genesis));
    assert_eq!(state.db.get_chat_type(101), Some(ChatType::PublisherPool));
    assert_eq!(state.db.get_chat_type(100), Some(ChatType::TesterPool));
    let stored = state.db.get_config().expect("configuration stored");
    assert_eq!(stored.tester_group, 100);
    assert_eq!(stored.reviewee_group, 101);
    assert_eq!(stored.genesis_group, 102);
}
