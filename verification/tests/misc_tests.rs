use std::hash::{Hash, Hasher};

use studio::menu::{menu_command, MenuActionPayload, MenuCommand};
use studio::models::{GetDrawingResponse, IsAvailableResponse, SetDrawingArgs, SetToolArgs};
use studio::session::{project_store_uuid, uuid_bytes_from_hash, UUID_MIX};
use studio::updater::{
    check_result_status, checking_status, download_start_status, error_status,
    install_result_status, UpdateCheck, UpdateStatus, UPDATE_CHECK_DELAY_SECS,
    UPDATE_CHECK_INTERVAL_SECS,
};
use studio::webview::response_policy;

fn navigate(tab: &str) -> MenuCommand {
    MenuCommand::Emit(MenuActionPayload { action: "navigate".to_string(), tab: Some(tab.to_string()) })
}

#[test]
fn menu_navigation_items() {
    assert_eq!(menu_command("settings"), navigate("settings"));
    assert_eq!(menu_command("go_files"), navigate("files"));
    assert_eq!(menu_command("go_progress"), navigate("progress"));
    assert_eq!(menu_command("go_studio"), navigate("studio"));
    assert_eq!(menu_command("go_timeline"), navigate("timeline"));
    assert_eq!(
        menu_command("search"),
        MenuCommand::Emit(MenuActionPayload { action: "search".to_string(), tab: None })
    );
}

#[test]
fn menu_window_and_view_items() {
    assert_eq!(menu_command("new_window"), MenuCommand::OpenNewWindow);
    let reload = MenuCommand::EvalInMainWindow("window.location.reload()".to_string());
    assert_eq!(menu_command("reload"), reload);
    assert_eq!(menu_command("force_reload"), reload);
    assert_eq!(
        menu_command("actual_size"),
        MenuCommand::EvalInMainWindow("document.body.style.zoom = '1'".to_string())
    );
    match menu_command("zoom_in") {
        MenuCommand::EvalInMainWindow(s) => assert!(s.contains("+ 0.1")),
        other => panic!("unexpected {:?}", other),
    }
    match menu_command("zoom_out") {
        MenuCommand::EvalInMainWindow(s) => assert!(s.contains("Math.max(0.5")),
        other => panic!("unexpected {:?}", other),
    }
    assert_eq!(menu_command("quit"), MenuCommand::Ignore);
    assert_eq!(menu_command(""), MenuCommand::Ignore);
}

#[test]
fn uuid_bytes_layout() {
    assert_eq!(
        uuid_bytes_from_hash(0),
        [0, 0, 0, 0, 0, 0, 0x40, 0, 0x80, 0, 0, 0, 0, 0, 0, 0]
    );
    let h: u64 = 0x0123_4567_89ab_cdef;
    let h2 = h.wrapping_mul(UUID_MIX).to_le_bytes();
    let b = uuid_bytes_from_hash(h);
    assert_eq!(&b[..6], &[0xef, 0xcd, 0xab, 0x89, 0x67, 0x45]);
    assert_eq!(b[6], 0x43);
    assert_eq!(b[7], 0x01);
    assert_eq!(b[8], (h2[0] & 0x3f) | 0x80);
    assert_eq!(&b[9..], &h2[1..]);
}

#[test]
fn every_store_id_is_a_version_4_uuid() {
    for h in [0u64, 1, u64::MAX, 0xdead_beef, 0x8000_0000_0000_0000] {
        let b = uuid_bytes_from_hash(h);
        assert_eq!(b[6] >> 4, 4);
        assert_eq!(b[8] >> 6, 2);
    }
}

#[test]
fn project_store_uuid_hashes_the_project_id() {
    let mut hasher = std::collections::hash_map::DefaultHasher::new();
    "project-42".hash(&mut hasher);
    assert_eq!(project_store_uuid("project-42"), uuid_bytes_from_hash(hasher.finish()));
    assert_eq!(project_store_uuid("project-42"), project_store_uuid("project-42"));
    assert_ne!(project_store_uuid("project-42"), project_store_uuid("project-43"));
}

fn status(s: &str, v: Option<&str>, m: Option<&str>) -> UpdateStatus {
    UpdateStatus {
        status: s.to_string(),
        version: v.map(|x| x.to_string()),
        message: m.map(|x| x.to_string()),
    }
}

#[test]
fn update_statuses() {
    assert_eq!(checking_status(), status("checking", None, None));
    assert_eq!(error_status("boom".to_string()), status("error", None, Some("boom")));
    assert_eq!(
        check_result_status(UpdateCheck::Available("1.2.3".to_string())),
        status("available", Some("1.2.3"), None)
    );
    assert_eq!(check_result_status(UpdateCheck::UpToDate), status("up-to-date", None, None));
    assert_eq!(
        check_result_status(UpdateCheck::Failed("offline".to_string())),
        status("error", None, Some("offline"))
    );
    assert_eq!(
        download_start_status(UpdateCheck::Available("2.0.0".to_string())),
        status("downloading", Some("2.0.0"), None)
    );
    assert_eq!(download_start_status(UpdateCheck::UpToDate), status("up-to-date", None, None));
    assert_eq!(
        download_start_status(UpdateCheck::Failed("x".to_string())),
        status("error", None, Some("x"))
    );
    assert_eq!(
        install_result_status("2.0.0".to_string(), Ok(())),
        status("ready", Some("2.0.0"), None)
    );
    assert_eq!(
        install_result_status("2.0.0".to_string(), Err("disk full".to_string())),
        status("error", None, Some("disk full"))
    );
    assert_eq!(UPDATE_CHECK_DELAY_SECS, 10);
    assert_eq!(UPDATE_CHECK_INTERVAL_SECS, 14400);
}

#[test]
fn navigation_response_policy() {
    assert_eq!(response_policy(true), 1);
    assert_eq!(response_policy(false), 2);
}

#[test]
fn plugin_messages() {
    let a = IsAvailableResponse { available: true };
    assert!(a.available);
    let d = SetDrawingArgs { data: "abc".to_string() };
    assert_eq!(d.data, "abc");
    let t = SetToolArgs { tool: "pen".to_string() };
    assert_eq!(t.tool, "pen");
    let g = GetDrawingResponse { data: None };
    assert_eq!(g, GetDrawingResponse { data: None });
}
