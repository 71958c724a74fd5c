use studio::state::{
    active_webview, browser_get_page_info, browser_navigate, browser_window_label, close_tab,
    create_new_tab, did_commit_navigation, did_fail_navigation, did_finish_navigation,
    did_start_provisional_navigation, navigate_active_tab, open_browser_window, plan_new_tab,
    switch_tab, BrowserStateInner,
};
use studio::tab_bar::tab_button_title;
use studio::window::{BrowserWindow, TabUiUpdate, WindowHandles};

fn handles(base: u64) -> WindowHandles {
    WindowHandles {
        toolbar_view: base + 1,
        url_field: base + 2,
        favicon_view: base + 3,
        back_button: base + 4,
        forward_button: base + 5,
        content_area: base + 6,
        tab_bar_view: base + 7,
        data_store: base + 8,
    }
}

fn state_with_window() -> BrowserStateInner<&'static str> {
    let mut state = BrowserStateInner::new();
    open_browser_window(
        &mut state,
        "browser-1".to_string(),
        "project-a".to_string(),
        "https://first.example".to_string(),
        100,
        handles(10),
        "app",
    );
    state
}

fn window<'a>(state: &'a BrowserStateInner<&'static str>, label: &str) -> &'a BrowserWindow {
    &state.windows[state.find_window(label).unwrap()]
}

#[test]
fn new_state_is_empty() {
    let state: BrowserStateInner<u32> = BrowserStateInner::new();
    assert!(state.windows.is_empty());
    assert!(state.app_handle.is_none());
}

#[test]
fn opening_a_window_registers_one_loading_tab() {
    let state = state_with_window();
    assert_eq!(state.app_handle, Some("app"));
    let w = window(&state, "browser-1");
    assert_eq!(w.project_id, "project-a");
    assert_eq!(w.tabs.len(), 1);
    assert_eq!(w.active_tab, 0);
    assert_eq!(w.tabs[0].url, "https://first.example");
    assert_eq!(w.tabs[0].title, "");
    assert!(w.tabs[0].is_loading);
    assert_eq!(w.content_area, 16);
    assert_eq!(w.data_store, 18);
}

#[test]
fn first_app_handle_is_kept() {
    let mut state = state_with_window();
    open_browser_window(
        &mut state,
        "browser-2".to_string(),
        "project-b".to_string(),
        "https://second.example".to_string(),
        200,
        handles(20),
        "other",
    );
    assert_eq!(state.app_handle, Some("app"));
    assert_eq!(state.windows.len(), 2);
    assert_eq!(window(&state, "browser-1").tabs[0].webview, 100);
    assert_eq!(window(&state, "browser-2").tabs[0].webview, 200);
}

#[test]
fn reopening_a_label_replaces_the_window() {
    let mut state = state_with_window();
    open_browser_window(
        &mut state,
        "browser-1".to_string(),
        "project-c".to_string(),
        "https://again.example".to_string(),
        300,
        handles(30),
        "other",
    );
    assert_eq!(state.windows.len(), 1);
    assert_eq!(window(&state, "browser-1").project_id, "project-c");
}

#[test]
fn page_info_of_active_tab_and_errors() {
    let state = state_with_window();
    let info = browser_get_page_info(&state, "browser-1".to_string()).unwrap();
    assert_eq!(info.url, "https://first.example");
    assert_eq!(info.title, "");
    assert_eq!(info.favicon_url, None);
    assert_eq!(
        browser_get_page_info(&state, "nope".to_string()).unwrap_err(),
        "Browser window not found"
    );
}

#[test]
fn page_info_without_active_tab() {
    let mut state = state_with_window();
    state.windows[0].active_tab = 5;
    assert_eq!(
        browser_get_page_info(&state, "browser-1".to_string()).unwrap_err(),
        "No active tab"
    );
    assert_eq!(
        browser_navigate(&state, "browser-1".to_string(), "x.y".to_string()).unwrap_err(),
        "No active tab"
    );
}

#[test]
fn navigate_normalises_the_address() {
    let state = state_with_window();
    let req = browser_navigate(&state, "browser-1".to_string(), "example.org".to_string()).unwrap();
    assert_eq!(req.webview, 100);
    assert_eq!(req.url, "https://example.org");
    assert_eq!(
        browser_navigate(&state, "none".to_string(), "a.b".to_string()).unwrap_err(),
        "Browser window not found"
    );
    let req = navigate_active_tab(&state, "browser-1", "cats").unwrap();
    assert_eq!(req.url, "https://www.google.com/search?q=cats");
    assert!(navigate_active_tab(&state, "other", "cats").is_none());
    assert_eq!(active_webview(&state, "browser-1"), Some(100));
    assert_eq!(active_webview(&state, "other"), None);
}

#[test]
fn new_tab_plan_defaults_to_blank() {
    let state = state_with_window();
    let plan = plan_new_tab(&state, "browser-1", None).unwrap();
    assert_eq!(plan.initial_url, "about:blank");
    assert_eq!(plan.content_area, 16);
    assert_eq!(plan.data_store, 18);
    let plan = plan_new_tab(&state, "browser-1", Some("https://x.y")).unwrap();
    assert_eq!(plan.initial_url, "https://x.y");
    assert!(plan_new_tab(&state, "missing", None).is_none());
}

#[test]
fn creating_a_tab_appends_and_activates_it() {
    let mut state = state_with_window();
    let update = create_new_tab(&mut state, "browser-1", "about:blank", 101).unwrap();
    assert_eq!(
        update,
        TabUiUpdate { hide: Some(100), show: None, remove: None, url_text: "about:blank".to_string() }
    );
    let w = window(&state, "browser-1");
    assert_eq!(w.tabs.len(), 2);
    assert_eq!(w.active_tab, 1);
    assert_eq!(w.tabs[1].webview, 101);
    assert!(w.tabs[1].is_loading);
    assert!(create_new_tab(&mut state, "missing", "about:blank", 5).is_none());
}

#[test]
fn switching_tabs() {
    let mut state = state_with_window();
    create_new_tab(&mut state, "browser-1", "https://second.example", 101);
    let update = switch_tab(&mut state, "browser-1", 0).unwrap();
    assert_eq!(
        update,
        TabUiUpdate {
            hide: Some(101),
            show: Some(100),
            remove: None,
            url_text: "https://first.example".to_string()
        }
    );
    assert_eq!(window(&state, "browser-1").active_tab, 0);
    assert!(switch_tab(&mut state, "browser-1", 0).is_none());
    assert!(switch_tab(&mut state, "browser-1", 2).is_none());
    assert!(switch_tab(&mut state, "missing", 1).is_none());
    assert_eq!(window(&state, "browser-1").active_tab, 0);
}

#[test]
fn closing_tabs_adjusts_the_active_tab() {
    let mut state = state_with_window();
    create_new_tab(&mut state, "browser-1", "https://b.example", 101);
    create_new_tab(&mut state, "browser-1", "https://c.example", 102);
    switch_tab(&mut state, "browser-1", 2);
    // Closing a tab before the active one keeps the same tab active.
    let update = close_tab(&mut state, "browser-1", 0).unwrap();
    assert_eq!(update.remove, Some(100));
    assert_eq!(update.show, Some(102));
    assert_eq!(update.url_text, "https://c.example");
    let w = window(&state, "browser-1");
    assert_eq!(w.active_tab, 1);
    assert_eq!(w.tabs[w.active_tab].webview, 102);
    // Closing the active last tab activates the one before it.
    let update = close_tab(&mut state, "browser-1", 1).unwrap();
    assert_eq!(update.show, Some(101));
    assert_eq!(window(&state, "browser-1").active_tab, 0);
    // The last tab is never closed.
    assert!(close_tab(&mut state, "browser-1", 0).is_none());
    assert!(close_tab(&mut state, "browser-1", 7).is_none());
    assert_eq!(window(&state, "browser-1").tabs.len(), 1);
}

#[test]
fn closing_the_active_middle_tab_activates_its_successor() {
    let mut state = state_with_window();
    create_new_tab(&mut state, "browser-1", "https://b.example", 101);
    create_new_tab(&mut state, "browser-1", "https://c.example", 102);
    switch_tab(&mut state, "browser-1", 1);
    let update = close_tab(&mut state, "browser-1", 1).unwrap();
    assert_eq!(update.show, Some(102));
    assert_eq!(window(&state, "browser-1").active_tab, 1);
}

#[test]
fn opening_then_closing_a_tab_restores_the_tabs() {
    let mut state = state_with_window();
    create_new_tab(&mut state, "browser-1", "https://b.example", 101);
    let before: Vec<u64> = window(&state, "browser-1").tabs.iter().map(|t| t.webview).collect();
    create_new_tab(&mut state, "browser-1", "https://c.example", 102);
    close_tab(&mut state, "browser-1", 2);
    let after: Vec<u64> = window(&state, "browser-1").tabs.iter().map(|t| t.webview).collect();
    assert_eq!(before, after);
}

#[test]
fn navigation_events_update_the_active_tab() {
    let mut state = state_with_window();
    create_new_tab(&mut state, "browser-1", "about:blank", 101);
    did_fail_navigation(&mut state, "browser-1");
    assert!(!window(&state, "browser-1").tabs[1].is_loading);
    did_start_provisional_navigation(&mut state, "browser-1");
    assert!(window(&state, "browser-1").tabs[1].is_loading);
    assert!(did_commit_navigation(&mut state, "browser-1", "https://news.example/"));
    assert!(did_finish_navigation(&mut state, "browser-1", "News"));
    let w = window(&state, "browser-1");
    assert_eq!(w.tabs[1].url, "https://news.example/");
    assert_eq!(w.tabs[1].title, "News");
    assert!(!w.tabs[1].is_loading);
    assert_eq!(w.tabs[0].url, "https://first.example");
    assert!(w.tabs[0].is_loading);
    assert!(!did_commit_navigation(&mut state, "missing", "x"));
    assert!(!did_finish_navigation(&mut state, "missing", "x"));
}

#[test]
fn active_tab_accessors() {
    let mut state = state_with_window();
    assert_eq!(state.windows[0].active_tab().unwrap().webview, 100);
    state.windows[0].active_tab_mut().unwrap().title = "T".to_string();
    assert_eq!(state.windows[0].tabs[0].title, "T");
    state.windows[0].active_tab = 3;
    assert!(state.windows[0].active_tab().is_none());
    assert!(state.windows[0].active_tab_mut().is_none());
}

#[test]
fn window_labels_are_decimal_millis() {
    assert_eq!(browser_window_label(1700000000123), "browser-1700000000123");
    assert_eq!(browser_window_label(0), "browser-0");
    assert_eq!(browser_window_label(u128::MAX), format!("browser-{}", u128::MAX));
}

#[test]
fn tab_button_titles() {
    assert_eq!(tab_button_title(""), "New Tab");
    assert_eq!(tab_button_title("Short"), "Short");
    assert_eq!(tab_button_title("abcdefghijklmnopqrst"), "abcdefghijklmnopqrst");
    assert_eq!(tab_button_title("abcdefghijklmnopqrstu"), "abcdefghijklmnopq...");
    assert_eq!(tab_button_title("aééééééééxyzw"), "aéééééééé...");
    assert_eq!(tab_button_title("é€"), "é€");
}
