//! The bundle metadata extractor: archives, manifests, icons and
//! completeness.

use appstore_bot::bot::{handle_dc_message, BotConfig, State};
use appstore_bot::db::DB;
use appstore_bot::request_handlers::submit::SubmitChat;
use appstore_bot::request_handlers::{Action, AppInfo, BundleError, ChatType,
    GeneralFrontendResponse, MsgInfo};

fn crc32(data: &[u8]) -> u32 {
    let mut crc: u32 = 0xFFFF_FFFF;
    for &b in data {
        crc ^= b as u32;
        for _ in 0..8 {
            if crc & 1 != 0 {
                crc = (crc >> 1) ^ 0xEDB8_8320;
            } else {
                crc >>= 1;
            }
        }
    }
    !crc
}

/// A minimal ZIP archive with stored (uncompressed) entries.
fn build_zip(entries: &[(&str, &[u8])]) -> Vec<u8> {
    let mut out: Vec<u8> = Vec::new();
    let mut offsets: Vec<u32> = Vec::new();
    for (name, data) in entries {
        offsets.push(out.len() as u32);
        let crc = crc32(data);
        out.extend_from_slice(&[0x50, 0x4b, 0x03, 0x04]);
        out.extend_from_slice(&20u16.to_le_bytes());
        out.extend_from_slice(&0u16.to_le_bytes());
        out.extend_from_slice(&0u16.to_le_bytes());
        out.extend_from_slice(&0u16.to_le_bytes());
        out.extend_from_slice(&0u16.to_le_bytes());
        out.extend_from_slice(&crc.to_le_bytes());
        out.extend_from_slice(&(data.len() as u32).to_le_bytes());
        out.extend_from_slice(&(data.len() as u32).to_le_bytes());
        out.extend_from_slice(&(name.len() as u16).to_le_bytes());
        out.extend_from_slice(&0u16.to_le_bytes());
        out.extend_from_slice(name.as_bytes());
        out.extend_from_slice(data);
    }
    let cd_offset = out.len() as u32;
    for (i, (name, data)) in entries.iter().enumerate() {
        let crc = crc32(data);
        out.extend_from_slice(&[0x50, 0x4b, 0x01, 0x02]);
        out.extend_from_slice(&20u16.to_le_bytes());
        out.extend_from_slice(&20u16.to_le_bytes());
        out.extend_from_slice(&0u16.to_le_bytes());
        out.extend_from_slice(&0u16.to_le_bytes());
        out.extend_from_slice(&0u16.to_le_bytes());
        out.extend_from_slice(&0u16.to_le_bytes());
        out.extend_from_slice(&crc.to_le_bytes());
        out.extend_from_slice(&(data.len() as u32).to_le_bytes());
        out.extend_from_slice(&(data.len() as u32).to_le_bytes());
        out.extend_from_slice(&(name.len() as u16).to_le_bytes());
        out.extend_from_slice(&0u16.to_le_bytes());
        out.extend_from_slice(&0u16.to_le_bytes());
        out.extend_from_slice(&0u16.to_le_bytes());
        out.extend_from_slice(&0u16.to_le_bytes());
        out.extend_from_slice(&0u32.to_le_bytes());
        out.extend_from_slice(&offsets[i].to_le_bytes());
        out.extend_from_slice(name.as_bytes());
    }
    let cd_size = out.len() as u32 - cd_offset;
    out.extend_from_slice(&[0x50, 0x4b, 0x05, 0x06]);
    out.extend_from_slice(&0u16.to_le_bytes());
    out.extend_from_slice(&0u16.to_le_bytes());
    out.extend_from_slice(&(entries.len() as u16).to_le_bytes());
    out.extend_from_slice(&(entries.len() as u16).to_le_bytes());
    out.extend_from_slice(&cd_size.to_le_bytes());
    out.extend_from_slice(&cd_offset.to_le_bytes());
    out.extend_from_slice(&0u16.to_le_bytes());
    out
}

const MANIFEST: &str = "{\"app_id\":\"com.example.app\",\"version\":3,\"name\":\"Example\",\
    \"description\":\"An example app\",\"source_code_url\":\"https://example.org/src\"}";

fn example_bundle() -> Vec<u8> {
    build_zip(&[
        ("webxdc.json", MANIFEST.as_bytes()),
        ("index.html", b"<html></html>"),
        ("icon.png", b"icon"),
    ])
}

#[test]
fn extracts_manifest_fields_and_icon() {
    let app = AppInfo::from_xdc(&example_bundle()).expect("well-formed bundle");
    assert_eq!(app.app_id, "com.example.app");
    assert_eq!(app.version, 3);
    assert_eq!(app.name, "Example");
    assert_eq!(app.description, "An example app");
    assert_eq!(app.source_code_url, Some("https://example.org/src".to_string()));
    assert_eq!(app.submitter_uri, None);
    // base64 of b"icon"
    assert_eq!(app.image, "aWNvbg==");
    assert!(!app.active);
}

#[test]
fn extraction_is_deterministic_on_the_same_bytes() {
    let bytes = example_bundle();
    let a = AppInfo::from_xdc(&bytes).unwrap();
    let b = AppInfo::from_xdc(&bytes).unwrap();
    assert_eq!(a, b);
}

#[test]
fn missing_icon_is_not_an_error() {
    let bytes = build_zip(&[("webxdc.json", MANIFEST.as_bytes())]);
    let app = AppInfo::from_xdc(&bytes).expect("icon is optional");
    assert_eq!(app.image, "");
    assert!(!app.is_complete());
}

#[test]
fn update_reports_version_change() {
    let mut app = AppInfo::from_xdc(&example_bundle()).unwrap();
    let same = app.update_from_xdc(&example_bundle()).unwrap();
    assert!(!same, "same version is no upgrade");
    let v4 = MANIFEST.replace("\"version\":3", "\"version\":4");
    let newer = build_zip(&[("webxdc.json", v4.as_bytes())]);
    let upgraded = app.update_from_xdc(&newer).unwrap();
    assert!(upgraded);
    assert_eq!(app.version, 4);
    // the icon from the earlier bundle is kept
    assert_eq!(app.image, "aWNvbg==");
}

#[test]
fn garbage_bytes_are_a_bad_bundle() {
    let r = AppInfo::from_xdc(&b"this is no archive".to_vec());
    assert_eq!(r, Err(BundleError::BadBundle));
}

#[test]
fn missing_manifest_entry_is_a_bad_bundle() {
    let bytes = build_zip(&[("index.html", b"<html></html>")]);
    assert_eq!(AppInfo::from_xdc(&bytes), Err(BundleError::BadBundle));
}

#[test]
fn manifest_that_is_not_json_is_a_bad_bundle() {
    let bytes = build_zip(&[("webxdc.json", b"version = 3")]);
    assert_eq!(AppInfo::from_xdc(&bytes), Err(BundleError::BadBundle));
}

#[test]
fn manifest_missing_required_field_is_a_bad_bundle() {
    let no_name = "{\"app_id\":\"com.example.app\",\"version\":3,\"description\":\"d\"}";
    let bytes = build_zip(&[("webxdc.json", no_name.as_bytes())]);
    assert_eq!(AppInfo::from_xdc(&bytes), Err(BundleError::BadBundle));
}

#[test]
fn manifest_with_wrongly_typed_version_is_a_bad_bundle() {
    let stringly = MANIFEST.replace("\"version\":3", "\"version\":\"3\"");
    let bytes = build_zip(&[("webxdc.json", stringly.as_bytes())]);
    assert_eq!(AppInfo::from_xdc(&bytes), Err(BundleError::BadBundle));
    let huge = MANIFEST.replace("\"version\":3", "\"version\":1099511627776");
    let bytes = build_zip(&[("webxdc.json", huge.as_bytes())]);
    assert_eq!(AppInfo::from_xdc(&bytes), Err(BundleError::BadBundle));
}

#[test]
fn failed_update_changes_nothing() {
    let mut app = AppInfo::from_xdc(&example_bundle()).unwrap();
    let before = app.clone();
    let r = app.update_from_xdc(&b"broken".to_vec());
    assert_eq!(r, Err(BundleError::BadBundle));
    assert_eq!(app, before);
}

fn blank_app() -> AppInfo {
    AppInfo {
        id: 0,
        app_id: String::new(),
        version: 0,
        name: String::new(),
        submitter_uri: None,
        source_code_url: None,
        image: String::new(),
        description: String::new(),
        xdc_blob_path: String::new(),
        originator: 0,
        active: false,
    }
}

#[test]
fn completeness_requires_every_field() {
    let mut app = blank_app();
    assert!(!app.is_complete());
    app.app_id = "com.example.app".to_string();
    app.name = "Example".to_string();
    app.description = "words".to_string();
    app.image = "aWNvbg==".to_string();
    assert!(!app.is_complete(), "version 0 is not publishable");
    app.version = 1;
    assert!(app.is_complete());
    app.description = String::new();
    assert!(!app.is_complete());
}

#[test]
fn missing_fields_come_in_fixed_order() {
    let app = blank_app();
    assert_eq!(
        app.generate_missing_list(),
        vec!["app_id", "name", "description", "image", "version"]
    );
    let mut app = blank_app();
    app.name = "Example".to_string();
    app.version = 2;
    assert_eq!(app.generate_missing_list(), vec!["app_id", "description", "image"]);
}

#[test]
fn complete_app_misses_nothing() {
    let mut app = blank_app();
    app.app_id = "a".to_string();
    app.name = "n".to_string();
    app.description = "d".to_string();
    app.image = "i".to_string();
    app.version = 1;
    assert!(app.generate_missing_list().is_empty());
}

#[test]
fn webxdc_upload_updates_the_stored_record() {

    let mut state = State {
        db: DB::new(),
        config: BotConfig {
            genesis_qr: String::new(),
            invite_qr: String::new(),
            tester_group: 100,
            reviewee_group: 101,
            genesis_group: 102,
        },
    };
    state.db.set_chat_type(1, ChatType::Submit);
    let mut blank = blank_app();
    blank.id = 7;
    assert!(state.db.create_app_info(&blank, 7));
    assert!(state.db.create_submit(&SubmitChat {
        creator_chat: 1,
        creator_webxdc: 11,
        app_info: 7,
    }));

    let msg = MsgInfo {
        sender: 50,
        text: None,
        webxdc_bytes: Some(example_bundle()),
        file_path: Some("bundles/example.xdc".to_string()),
    };
    let acts = handle_dc_message(&mut state, 1, &msg, 0).unwrap();

    let stored = state.db.get_app_info(7).unwrap();
    assert_eq!(stored.app_id, "com.example.app");
    assert_eq!(stored.version, 3);
    assert_eq!(stored.image, "aWNvbg==");
    assert_eq!(stored.xdc_blob_path, "bundles/example.xdc");
    assert!(stored.is_complete());

    // complete, version moved from 0 to 3: the only reply is the critical
    // outdated notice to the helper webxdc
    assert_eq!(
        acts,
        vec![Action::SendStatusUpdate {
            msg: 11,
            response: GeneralFrontendResponse::Outdated { critical: true, version: 3 },
        }]
    );
}

#[test]
fn broken_upload_is_reported_to_the_submitter() {

    let mut state = State {
        db: DB::new(),
        config: BotConfig {
            genesis_qr: String::new(),
            invite_qr: String::new(),
            tester_group: 100,
            reviewee_group: 101,
            genesis_group: 102,
        },
    };
    state.db.set_chat_type(1, ChatType::Submit);
    let mut blank = blank_app();
    blank.id = 7;
    state.db.create_app_info(&blank, 7);
    state.db.create_submit(&SubmitChat { creator_chat: 1, creator_webxdc: 11, app_info: 7 });

    let msg = MsgInfo {
        sender: 50,
        text: None,
        webxdc_bytes: Some(b"broken".to_vec()),
        file_path: Some("bundles/broken.xdc".to_string()),
    };
    let acts = handle_dc_message(&mut state, 1, &msg, 0).unwrap();
    assert_eq!(
        acts,
        vec![Action::SendText { chat: 1, text: "Invalid webxdc bundle".to_string() }]
    );
    // nothing was persisted from the broken bundle
    assert_eq!(state.db.get_app_info(7).unwrap(), blank);
}
