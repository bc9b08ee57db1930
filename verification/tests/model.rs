//! The store model: registry, pools, app records and join records.

use appstore_bot::bot::BotConfig;
use appstore_bot::db::{ChatRecord, DB};
use appstore_bot::request_handlers::submit::SubmitChat;
use appstore_bot::request_handlers::review::ReviewChat;
use appstore_bot::request_handlers::{AppInfo, ChatType};

fn sample_app(id: u64) -> AppInfo {
    AppInfo {
        id,
        app_id: "com.example.app".to_string(),
        version: 2,
        name: "Example".to_string(),
        submitter_uri: None,
        source_code_url: Some("https://example.org/src".to_string()),
        image: "aWNvbg==".to_string(),
        description: "An example app".to_string(),
        xdc_blob_path: "bundles/example.xdc".to_string(),
        originator: 1,
        active: false,
    }
}

#[test]
fn role_registry_starts_empty() {
    let db = DB::new();
    assert_eq!(db.get_chat_type(1), None);
}

#[test]
fn role_registry_set_and_get() {
    let mut db = DB::new();
    db.set_chat_type(1, ChatType::Submit);
    db.set_chat_type(2, ChatType::Genesis);
    assert_eq!(db.get_chat_type(1), Some(ChatType::Submit));
    assert_eq!(db.get_chat_type(2), Some(ChatType::Genesis));
}

#[test]
fn role_registry_overwrites_silently() {
    let mut db = DB::new();
    db.set_chat_type(1, ChatType::Submit);
    db.set_chat_type(1, ChatType::Review);
    assert_eq!(db.get_chat_type(1), Some(ChatType::Review));
}

#[test]
fn replace_pool_returns_exactly_the_new_set() {
    let mut db = DB::new();
    db.set_tester_contacts(&vec![11, 12, 13]);
    assert_eq!(db.get_testers(), vec![11, 12, 13]);
    db.set_tester_contacts(&vec![21, 22]);
    assert_eq!(db.get_testers(), vec![21, 22]);
    db.set_tester_contacts(&vec![]);
    assert_eq!(db.get_testers(), Vec::<u64>::new());
    db.set_tester_contacts(&vec![7, 7, 8]);
    assert_eq!(db.get_testers(), vec![7, 8]);
}

#[test]
fn pool_add_is_idempotent() {
    let mut db = DB::new();
    db.create_tester(5);
    db.create_tester(5);
    db.create_tester(6);
    assert_eq!(db.get_testers(), vec![5, 6]);
}

#[test]
fn genesis_pool_independent_of_others() {
    let mut db = DB::new();
    db.add_contact_to_genesis(40);
    db.set_publisher_contacts(&vec![50]);
    db.set_tester_contacts(&vec![60]);
    assert_eq!(db.get_publisher(), Some(50));
    assert_eq!(db.get_testers(), vec![60]);
}

#[test]
fn app_info_round_trip_by_id() {
    let mut db = DB::new();
    let app = sample_app(7);
    assert!(db.create_app_info(&app, 7));
    let back = db.get_app_info(7).expect("stored record");
    assert_eq!(back, app);
    let mut edited = app.clone();
    edited.description = "Edited".to_string();
    db.update_app_info(&edited, 7);
    assert_eq!(db.get_app_info(7), Some(edited));
}

#[test]
fn create_app_info_refuses_existing_key() {
    let mut db = DB::new();
    assert!(db.create_app_info(&sample_app(7), 7));
    assert!(!db.create_app_info(&sample_app(7), 7));
}

#[test]
fn publish_app_is_one_way() {
    let mut db = DB::new();
    db.create_app_info(&sample_app(7), 7);
    assert!(db.publish_app(7));
    assert!(db.get_app_info(7).unwrap().active);
    assert!(db.publish_app(7));
    assert!(db.get_app_info(7).unwrap().active);
    assert!(!db.publish_app(8));
}

#[test]
fn active_app_infos_lists_published_only() {
    let mut db = DB::new();
    db.create_app_info(&sample_app(1), 1);
    db.create_app_info(&sample_app(2), 2);
    db.create_app_info(&sample_app(3), 3);
    db.publish_app(2);
    let active = db.get_active_app_infos();
    assert_eq!(active.len(), 1);
    assert_eq!(active[0].id, 2);
    assert!(active[0].active);
}

#[test]
fn submit_chat_record_round_trip() {
    let mut db = DB::new();
    db.create_app_info(&sample_app(7), 7);
    let sc = SubmitChat { creator_chat: 1, creator_webxdc: 11, app_info: 7 };
    assert!(db.create_submit(&sc));
    assert_eq!(db.get_submit_chat(1), Some(sc));
    assert!(!db.create_submit(&sc));
}

#[test]
fn upgrade_rewrites_the_same_record_in_place() {
    let mut db = DB::new();
    db.create_app_info(&sample_app(7), 7);
    let sc = SubmitChat { creator_chat: 1, creator_webxdc: 11, app_info: 7 };
    db.create_submit(&sc);
    let rc = ReviewChat {
        review_helper: 11,
        submit_helper: 77,
        review_chat: 900,
        submit_chat: 1,
        publisher: 301,
        testers: [201, 202, 203],
        app_info: 7,
    };
    db.upgrade_to_review_chat(&rc);
    assert_eq!(db.get_submit_chat(1), None);
    assert_eq!(db.get_review_chat(900), Some(rc));
}

#[test]
fn review_lookup_goes_by_review_group_id() {
    let mut db = DB::new();
    let rc = ReviewChat {
        review_helper: 11,
        submit_helper: 77,
        review_chat: 900,
        submit_chat: 1,
        publisher: 301,
        testers: [201, 202, 203],
        app_info: 7,
    };
    db.upgrade_to_review_chat(&rc);
    assert_eq!(db.get_review_chat(1), None);
    assert_eq!(db.get_review_chat(900), Some(rc));
}

#[test]
fn config_round_trip() {
    let mut db = DB::new();
    assert_eq!(db.get_config(), None);
    let config = BotConfig {
        genesis_qr: "genesis-invite-code".to_string(),
        invite_qr: "one-to-one-invite-code".to_string(),
        tester_group: 100,
        reviewee_group: 101,
        genesis_group: 102,
    };
    db.set_config(&config);
    assert_eq!(db.get_config(), Some(config));
}

#[test]
fn random_sampling_draws_from_the_pools() {
    let mut db = DB::new();
    db.set_publisher_contacts(&vec![31, 32, 33]);
    db.set_tester_contacts(&vec![41, 42, 43, 44, 45]);
    for rand in 0..20u64 {
        let p = db.get_random_publisher(rand).expect("pool not empty");
        assert!([31, 32, 33].contains(&p));
        let ts = db.get_random_testers(3, rand);
        assert_eq!(ts.len(), 3);
        for t in &ts {
            assert!([41, 42, 43, 44, 45].contains(t));
        }
        assert!(ts[0] != ts[1] && ts[0] != ts[2] && ts[1] != ts[2]);
    }
    assert_eq!(DB::new().get_random_publisher(3), None);
    assert_eq!(DB::new().get_random_testers(3, 5), Vec::<u64>::new());
}

#[test]
fn chat_record_enum_distinguishes_stages() {
    let sc = SubmitChat { creator_chat: 1, creator_webxdc: 11, app_info: 7 };
    let rec = ChatRecord::Submit(sc);
    assert_eq!(rec, ChatRecord::Submit(sc));
}

#[test]
fn dedup_keeps_first_occurrences_in_order() {
    let mut db = DB::new();
    db.set_tester_contacts(&vec![3, 1, 3, 2, 1]);
    assert_eq!(db.get_testers(), vec![3, 1, 2]);
}

#[test]
fn random_publisher_follows_the_sampling_point() {
    let mut db = DB::new();
    db.set_publisher_contacts(&vec![31, 32]);
    assert_eq!(db.get_random_publisher(0), Some(31));
    assert_eq!(db.get_random_publisher(1), Some(32));
    assert_eq!(db.get_random_publisher(2), Some(31));
}

#[test]
fn appstore_message_text() {
    assert_eq!(appstore_bot::messages::appstore_message(), "Welcome to the xdcstore!");
}

#[test]
fn review_group_init_message_text() {
    let testers = vec!["alice".to_string(), "bob".to_string()];
    let publisher = "paula".to_string();
    assert_eq!(
        appstore_bot::messages::creat_review_group_init_message(&testers, &publisher),
        "Publisher: [paula] \nTesters: [alice,bob]"
    );
    assert_eq!(
        appstore_bot::messages::creat_review_group_init_message(&Vec::new(), &publisher),
        "Publisher: [paula] \nTesters: []"
    );
}

#[test]
fn join_strings_handles_all_lengths() {
    assert_eq!(appstore_bot::messages::join_strings(&Vec::new(), ", "), "");
    assert_eq!(appstore_bot::messages::join_strings(&vec!["a".to_string()], ", "), "a");
    assert_eq!(
        appstore_bot::messages::join_strings(&vec!["a".to_string(), "b".to_string()], ", "),
        "a, b"
    );
}
