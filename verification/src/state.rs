//! The browser state: the open browser windows, keyed by their labels, and
//! the commands that act on a window named by its label.

use vstd::prelude::*;
use crate::text::str_eq;
use crate::url::{ensure_url_scheme, url_with_scheme};
use crate::window::{
    active_webview_of, frame_unchanged, loading_failed, loading_started, navigation_committed,
    navigation_finished, opt_str_view, tab_closed, tab_opened, tab_switched, BrowserTab,
    BrowserWindow, TabUiUpdate, WindowHandles,
};

verus! {

/// All browser windows, and the application handle used for emitting events
/// (set once, by the first window that is opened).
pub struct BrowserStateInner<A> {
    pub windows: Vec<BrowserWindow>,
    pub app_handle: Option<A>,
}

/// Page information of the active tab of a window.
#[derive(Debug, PartialEq, Eq)]
pub struct PageInfo {
    pub url: String,
    pub title: String,
    pub favicon_url: Option<String>,
}

/// A web view to load, and the address to load in it.
#[derive(Debug, PartialEq, Eq)]
pub struct NavigationRequest {
    pub webview: u64,
    pub url: String,
}

/// What is needed to create the web view of a new tab: the address it opens
/// and the content area and data store of its window.
#[derive(Debug, PartialEq, Eq)]
pub struct NewTabPlan {
    pub initial_url: String,
    pub content_area: u64,
    pub data_store: u64,
}

impl<A> BrowserStateInner<A> {
    /// No two windows share a label.
    pub open spec fn wf(&self) -> bool {
        forall|i: int, j: int|
            0 <= i < self.windows@.len() && 0 <= j < self.windows@.len() && i != j
                ==> #[trigger] self.windows@[i].label@ != #[trigger] self.windows@[j].label@
    }

    /// Every window has a tab and an active tab.
    pub open spec fn all_windows_wf(&self) -> bool {
        forall|i: int| 0 <= i < self.windows@.len() ==> #[trigger] self.windows@[i].wf()
    }

    /// Whether a window has label `label`.
    pub open spec fn has_window(&self, label: Seq<char>) -> bool {
        exists|i: int| 0 <= i < self.windows@.len() && #[trigger] self.windows@[i].label@ == label
    }

    /// The position of the window labelled `label` (meaningful when `has_window`).
    pub open spec fn window_index(&self, label: Seq<char>) -> int {
        choose|i: int| 0 <= i < self.windows@.len() && #[trigger] self.windows@[i].label@ == label
    }

    /// The window labelled `label`, if there is one.
    pub open spec fn lookup(&self, label: Seq<char>) -> Option<BrowserWindow> {
        if self.has_window(label) {
            Some(self.windows@[self.window_index(label)])
        } else {
            None
        }
    }

    /// An empty state: no windows and no application handle.
    pub fn new() -> (s: Self)
        ensures
            s.wf(),
            s.windows@.len() == 0,
            s.app_handle is None,
    {
        BrowserStateInner { windows: Vec::new(), app_handle: None }
    }

    /// The position of the window labelled `window_label`, if there is one.
    pub fn find_window(&self, window_label: &str) -> (r: Option<usize>)
        requires
            self.wf(),
        ensures
            r matches Some(i) ==> self.has_window(window_label@) && i == self.window_index(
                window_label@,
            ) && i < self.windows@.len(),
            r is None ==> !self.has_window(window_label@),
    {
        let mut i: usize = 0;
        while i < self.windows.len()
            invariant
                self.wf(),
                i <= self.windows@.len(),
                forall|j: int| 0 <= j < i ==> #[trigger] self.windows@[j].label@ != window_label@,
            decreases self.windows@.len() - i,
        {
            if str_eq(self.windows[i].label.as_str(), window_label) {
                proof {
                    lemma_window_index_unique(*self, window_label@, i as int);
                }
                return Some(i);
            }
            i = i + 1;
        }
        None
    }
}

/// In a state where labels are distinct, the window labelled `label` is the one at `i`.
pub proof fn lemma_window_index_unique<A>(s: BrowserStateInner<A>, label: Seq<char>, i: int)
    requires
        s.wf(),
        0 <= i < s.windows@.len(),
        s.windows@[i].label@ == label,
    ensures
        s.has_window(label),
        s.window_index(label) == i,
        s.lookup(label) == Some(s.windows@[i]),
{
    assert(s.windows@[i].label@ == label);
    let k = s.window_index(label);
    assert(0 <= k < s.windows@.len() && s.windows@[k].label@ == label);
}

/// `new` is `old` with only the window at `i` replaced.
pub open spec fn only_window_changed<A>(
    old: BrowserStateInner<A>,
    new: BrowserStateInner<A>,
    i: int,
) -> bool {
    &&& new.app_handle == old.app_handle
    &&& new.windows@.len() == old.windows@.len()
    &&& forall|j: int|
        0 <= j < old.windows@.len() && j != i ==> #[trigger] new.windows@[j] == old.windows@[j]
}

/// Replacing one window by one with the same label keeps labels distinct and
/// every other window where it was.
proof fn lemma_replace_window<A>(old: BrowserStateInner<A>, new: BrowserStateInner<A>, i: int)
    requires
        old.wf(),
        0 <= i < old.windows@.len(),
        only_window_changed(old, new, i),
        new.windows@[i].label@ == old.windows@[i].label@,
    ensures
        new.wf(),
        forall|l: Seq<char>| #[trigger] new.has_window(l) == old.has_window(l),
        forall|l: Seq<char>|
            old.has_window(l) ==> #[trigger] new.window_index(l) == old.window_index(l),
{
    assert forall|a: int, b: int|
        0 <= a < new.windows@.len() && 0 <= b < new.windows@.len() && a != b implies #[trigger] new.windows@[a].label@
        != #[trigger] new.windows@[b].label@ by {
        assert(old.windows@[a].label@ != old.windows@[b].label@);
        if a != i {
            assert(new.windows@[a] == old.windows@[a]);
        }
        if b != i {
            assert(new.windows@[b] == old.windows@[b]);
        }
    }
    assert forall|l: Seq<char>| #[trigger] new.has_window(l) == old.has_window(l) by {
        if old.has_window(l) {
            let k = old.window_index(l);
            if k != i {
                assert(new.windows@[k] == old.windows@[k]);
            }
            lemma_window_index_unique(new, l, k);
        }
        if new.has_window(l) {
            let k = new.window_index(l);
            if k != i {
                assert(new.windows@[k] == old.windows@[k]);
            }
            assert(old.windows@[k].label@ == l);
        }
    }
    assert forall|l: Seq<char>| old.has_window(l) implies #[trigger] new.window_index(l)
        == old.window_index(l) by {
        let k = old.window_index(l);
        if k != i {
            assert(new.windows@[k] == old.windows@[k]);
        }
        lemma_window_index_unique(new, l, k);
    }
}

/// Replacing one window by a well-formed one keeps every window well formed.
proof fn lemma_replace_keeps_windows_wf<A>(
    old: BrowserStateInner<A>,
    new: BrowserStateInner<A>,
    i: int,
)
    requires
        0 <= i < old.windows@.len(),
        only_window_changed(old, new, i),
        old.windows@[i].wf() ==> new.windows@[i].wf(),
    ensures
        old.all_windows_wf() ==> new.all_windows_wf(),
{
    if old.all_windows_wf() {
        assert(old.windows@[i].wf());
        assert forall|j: int| 0 <= j < new.windows@.len() implies #[trigger] new.windows@[j].wf() by {
            if j != i {
                assert(new.windows@[j] == old.windows@[j]);
                assert(old.windows@[j].wf());
            }
        }
    }
}

/// In a state whose windows are all well formed, every window has an active
/// tab, so its page information and navigation target always exist.
pub proof fn lemma_open_window_has_active_tab<A>(state: BrowserStateInner<A>, label: Seq<char>)
    requires
        state.wf(),
        state.all_windows_wf(),
        state.has_window(label),
    ensures
        state.lookup(label) matches Some(w) && active_webview_of(w) is Some,
{
    assert(state.windows@[state.window_index(label)].wf());
}

/// Opens a browser window: the first window also records the application
/// handle; the window replaces any window with the same label.
pub fn open_browser_window<A>(
    state: &mut BrowserStateInner<A>,
    label: String,
    project_id: String,
    url: String,
    webview: u64,
    handles: WindowHandles,
    app_handle: A,
)
    requires
        old(state).wf(),
    ensures
        final(state).wf(),
        old(state).all_windows_wf() ==> final(state).all_windows_wf(),
        old(state).app_handle is None ==> final(state).app_handle == Some(app_handle),
        old(state).app_handle is Some ==> final(state).app_handle == old(state).app_handle,
        final(state).lookup(label@) matches Some(w) && w.wf() && w.label == label && w.project_id
            == project_id && w.tabs@.len() == 1 && w.tabs@[0].url == url
            && w.tabs@[0].title@ == Seq::<char>::empty() && w.tabs@[0].favicon_url is None
            && w.tabs@[0].webview == webview && w.tabs@[0].is_loading && w.active_tab == 0
            && w.toolbar_view == handles.toolbar_view && w.url_field == handles.url_field
            && w.favicon_view == handles.favicon_view && w.back_button == handles.back_button
            && w.forward_button == handles.forward_button && w.content_area
            == handles.content_area && w.tab_bar_view == handles.tab_bar_view && w.data_store
            == handles.data_store,
        forall|l: Seq<char>| l != label@ ==> #[trigger] final(state).lookup(l) == old(state).lookup(l),
        forall|l: Seq<char>| #[trigger] final(state).has_window(l) == (l == label@ || old(state).has_window(l)),
{
    let ghost l0 = label@;
    let w = BrowserWindow::new(label, project_id, url, webview, handles);
    if state.app_handle.is_none() {
        state.app_handle = Some(app_handle);
    }
    let ghost mid = *state;
    match state.find_window(w.label.as_str()) {
        Some(i) => {
            state.windows.set(i, w);
            proof {
                assert(only_window_changed(mid, *state, i as int));
                lemma_replace_window(mid, *state, i as int);
                lemma_window_index_unique(*state, l0, i as int);
                assert forall|l: Seq<char>| #[trigger] state.has_window(l) == (l == l0
                    || mid.has_window(l)) by {
                    assert(state.has_window(l) == mid.has_window(l));
                }
                assert forall|l: Seq<char>| l != l0 implies #[trigger] state.lookup(l) == mid.lookup(
                    l,
                ) by {
                    if mid.has_window(l) {
                        let k = mid.window_index(l);
                        assert(k != i);
                        assert(state.windows@[k] == mid.windows@[k]);
                    }
                }
            }
        },
        None => {
            state.windows.push(w);
            proof {
                let n = mid.windows@.len() as int;
                assert forall|a: int, b: int|
                    0 <= a < state.windows@.len() && 0 <= b < state.windows@.len() && a != b implies #[trigger] state.windows@[a].label@
                    != #[trigger] state.windows@[b].label@ by {
                    if a != n && b != n {
                        assert(state.windows@[a] == mid.windows@[a]);
                        assert(state.windows@[b] == mid.windows@[b]);
                    } else if a == n {
                        assert(state.windows@[b] == mid.windows@[b]);
                    } else {
                        assert(state.windows@[a] == mid.windows@[a]);
                    }
                }
                lemma_window_index_unique(*state, l0, n);
                assert forall|l: Seq<char>| l != l0 implies #[trigger] state.lookup(l) == mid.lookup(
                    l,
                ) by {
                    if mid.has_window(l) {
                        let k = mid.window_index(l);
                        assert(state.windows@[k] == mid.windows@[k]);
                        lemma_window_index_unique(*state, l, k);
                    }
                    if state.has_window(l) {
                        let k = state.window_index(l);
                        assert(k != n);
                        assert(state.windows@[k] == mid.windows@[k]);
                        assert(mid.windows@[k].label@ == l);
                    }
                }
                assert forall|l: Seq<char>| #[trigger] state.has_window(l) == (l == l0
                    || mid.has_window(l)) by {
                    if l != l0 {
                        assert(state.lookup(l) == mid.lookup(l));
                    }
                }
            }
        },
    }
}

/// `old` and `new` have windows with the same labels.
pub open spec fn same_labels<A>(old: BrowserStateInner<A>, new: BrowserStateInner<A>) -> bool {
    forall|l: Seq<char>| #[trigger] new.has_window(l) == old.has_window(l)
}

/// `new` is `old` with the window labelled `label` changed as `step` relates
/// its old and new value; without such a window, `new` is `old`.
pub open spec fn window_stepped<A>(
    old: BrowserStateInner<A>,
    new: BrowserStateInner<A>,
    label: Seq<char>,
    step: spec_fn(BrowserWindow, BrowserWindow) -> bool,
) -> bool {
    if old.has_window(label) {
        let i = old.window_index(label);
        only_window_changed(old, new, i) && step(old.windows@[i], new.windows@[i])
    } else {
        new == old
    }
}

/// What a new tab in the window labelled `window_label` opens and where its
/// web view goes: `url`, or `about:blank` without one. `None` without such a window.
pub fn plan_new_tab<A>(
    state: &BrowserStateInner<A>,
    window_label: &str,
    url: Option<&str>,
) -> (r: Option<NewTabPlan>)
    requires
        state.wf(),
    ensures
        !state.has_window(window_label@) ==> r is None,
        state.lookup(window_label@) matches Some(w) ==> (r matches Some(p) && p.content_area
            == w.content_area && p.data_store == w.data_store && p.initial_url@ == (match url {
            Some(u) => u@,
            None => "about:blank"@,
        })),
{
    match state.find_window(window_label) {
        None => None,
        Some(i) => {
            let initial_url = match url {
                Some(u) => u.to_string(),
                None => "about:blank".to_string(),
            };
            let w = &state.windows[i];
            Some(NewTabPlan { initial_url, content_area: w.content_area, data_store: w.data_store })
        },
    }
}

/// Creates a new tab for `initial_url`, shown in the new `webview`, in the
/// window labelled `window_label`, and makes it active.
pub fn create_new_tab<A>(
    state: &mut BrowserStateInner<A>,
    window_label: &str,
    initial_url: &str,
    webview: u64,
) -> (r: Option<TabUiUpdate>)
    requires
        old(state).wf(),
    ensures
        final(state).wf(),
        same_labels(*old(state), *final(state)),
        old(state).all_windows_wf() ==> final(state).all_windows_wf(),
        old(state).has_window(window_label@) ==> (r matches Some(u) && window_stepped(
            *old(state),
            *final(state),
            window_label@,
            |a: BrowserWindow, b: BrowserWindow| tab_opened(a, b, initial_url@, webview, u),
        )),
        !old(state).has_window(window_label@) ==> r is None && *final(state) == *old(state),
{
    match state.find_window(window_label) {
        None => None,
        Some(i) => {
            let ghost before = *state;
            let u = state.windows[i].open_tab(initial_url, webview);
            proof {
                lemma_replace_window(before, *state, i as int);
                lemma_replace_keeps_windows_wf(before, *state, i as int);
            }
            Some(u)
        },
    }
}

/// Makes tab `tab_index` of the window labelled `window_label` active.
pub fn switch_tab<A>(
    state: &mut BrowserStateInner<A>,
    window_label: &str,
    tab_index: usize,
) -> (r: Option<TabUiUpdate>)
    requires
        old(state).wf(),
    ensures
        final(state).wf(),
        same_labels(*old(state), *final(state)),
        old(state).all_windows_wf() ==> final(state).all_windows_wf(),
        window_stepped(
            *old(state),
            *final(state),
            window_label@,
            |a: BrowserWindow, b: BrowserWindow| tab_switched(a, b, tab_index as int, r),
        ),
        !old(state).has_window(window_label@) ==> r is None,
{
    match state.find_window(window_label) {
        None => None,
        Some(i) => {
            let ghost before = *state;
            let r = state.windows[i].switch_to(tab_index);
            proof {
                lemma_replace_window(before, *state, i as int);
                lemma_replace_keeps_windows_wf(before, *state, i as int);
            }
            r
        },
    }
}

/// Closes tab `tab_index` of the window labelled `window_label`; the last
/// tab of a window is never closed.
pub fn close_tab<A>(
    state: &mut BrowserStateInner<A>,
    window_label: &str,
    tab_index: usize,
) -> (r: Option<TabUiUpdate>)
    requires
        old(state).wf(),
    ensures
        final(state).wf(),
        same_labels(*old(state), *final(state)),
        old(state).all_windows_wf() ==> final(state).all_windows_wf(),
        window_stepped(
            *old(state),
            *final(state),
            window_label@,
            |a: BrowserWindow, b: BrowserWindow| tab_closed(a, b, tab_index as int, r),
        ),
        !old(state).has_window(window_label@) ==> r is None,
{
    match state.find_window(window_label) {
        None => None,
        Some(i) => {
            let ghost before = *state;
            let r = state.windows[i].close(tab_index);
            proof {
                lemma_replace_window(before, *state, i as int);
                lemma_replace_keeps_windows_wf(before, *state, i as int);
            }
            r
        },
    }
}

/// A navigation started in the window labelled `window_label`: its active tab is loading.
pub fn did_start_provisional_navigation<A>(state: &mut BrowserStateInner<A>, window_label: &str)
    requires
        old(state).wf(),
    ensures
        final(state).wf(),
        same_labels(*old(state), *final(state)),
        old(state).all_windows_wf() ==> final(state).all_windows_wf(),
        window_stepped(
            *old(state),
            *final(state),
            window_label@,
            |a: BrowserWindow, b: BrowserWindow| loading_started(a, b),
        ),
{
    if let Some(i) = state.find_window(window_label) {
        let ghost before = *state;
        state.windows[i].start_loading();
        proof {
            lemma_replace_window(before, *state, i as int);
            lemma_replace_keeps_windows_wf(before, *state, i as int);
        }
    }
}

/// A navigation to `url` was committed in the window labelled `window_label`:
/// its active tab records the address. Returns whether there is such a window.
pub fn did_commit_navigation<A>(
    state: &mut BrowserStateInner<A>,
    window_label: &str,
    url: &str,
) -> (found: bool)
    requires
        old(state).wf(),
    ensures
        final(state).wf(),
        same_labels(*old(state), *final(state)),
        old(state).all_windows_wf() ==> final(state).all_windows_wf(),
        found == old(state).has_window(window_label@),
        window_stepped(
            *old(state),
            *final(state),
            window_label@,
            |a: BrowserWindow, b: BrowserWindow| navigation_committed(a, b, url@),
        ),
{
    if let Some(i) = state.find_window(window_label) {
        let ghost before = *state;
        state.windows[i].commit_navigation(url);
        proof {
            lemma_replace_window(before, *state, i as int);
            lemma_replace_keeps_windows_wf(before, *state, i as int);
        }
        true
    } else {
        false
    }
}

/// A navigation finished in the window labelled `window_label` with page
/// title `title`: its active tab records the title and stops loading.
/// Returns whether there is such a window.
pub fn did_finish_navigation<A>(
    state: &mut BrowserStateInner<A>,
    window_label: &str,
    title: &str,
) -> (found: bool)
    requires
        old(state).wf(),
    ensures
        final(state).wf(),
        same_labels(*old(state), *final(state)),
        old(state).all_windows_wf() ==> final(state).all_windows_wf(),
        found == old(state).has_window(window_label@),
        window_stepped(
            *old(state),
            *final(state),
            window_label@,
            |a: BrowserWindow, b: BrowserWindow| navigation_finished(a, b, title@),
        ),
{
    if let Some(i) = state.find_window(window_label) {
        let ghost before = *state;
        state.windows[i].finish_navigation(title);
        proof {
            lemma_replace_window(before, *state, i as int);
            lemma_replace_keeps_windows_wf(before, *state, i as int);
        }
        true
    } else {
        false
    }
}

/// A navigation failed in the window labelled `window_label`: its active tab stops loading.
pub fn did_fail_navigation<A>(state: &mut BrowserStateInner<A>, window_label: &str)
    requires
        old(state).wf(),
    ensures
        final(state).wf(),
        same_labels(*old(state), *final(state)),
        old(state).all_windows_wf() ==> final(state).all_windows_wf(),
        window_stepped(
            *old(state),
            *final(state),
            window_label@,
            |a: BrowserWindow, b: BrowserWindow| loading_failed(a, b),
        ),
{
    if let Some(i) = state.find_window(window_label) {
        let ghost before = *state;
        state.windows[i].fail_navigation();
        proof {
            lemma_replace_window(before, *state, i as int);
            lemma_replace_keeps_windows_wf(before, *state, i as int);
        }
    }
}

/// The web view of the active tab of the window labelled `window_label`, if any.
pub fn active_webview<A>(state: &BrowserStateInner<A>, window_label: &str) -> (r: Option<u64>)
    requires
        state.wf(),
    ensures
        r == (match state.lookup(window_label@) {
            Some(w) => active_webview_of(w),
            None => None,
        }),
{
    match state.find_window(window_label) {
        None => None,
        Some(i) => {
            let w = &state.windows[i];
            if w.active_tab < w.tabs.len() {
                Some(w.tabs[w.active_tab].webview)
            } else {
                None
            }
        },
    }
}

/// Where to load `url` in the window labelled `window_label`: the web view of
/// its active tab and the address `ensure_url_scheme` makes of `url`.
pub fn navigate_active_tab<A>(
    state: &BrowserStateInner<A>,
    window_label: &str,
    url: &str,
) -> (r: Option<NavigationRequest>)
    requires
        state.wf(),
    ensures
        r is None <==> (match state.lookup(window_label@) {
            Some(w) => active_webview_of(w) is None,
            None => true,
        }),
        r matches Some(n) ==> Some(n.webview) == active_webview_of(
            state.lookup(window_label@)->0,
        ) && n.url@ == url_with_scheme(url@),
{
    match active_webview(state, window_label) {
        None => None,
        Some(webview) => Some(NavigationRequest { webview, url: ensure_url_scheme(url) }),
    }
}

/// Like `navigate_active_tab`, with an error message when the window or its
/// active tab is missing.
pub fn browser_navigate<A>(
    state: &BrowserStateInner<A>,
    window_label: String,
    url: String,
) -> (r: Result<NavigationRequest, String>)
    requires
        state.wf(),
    ensures
        !state.has_window(window_label@) ==> (r matches Err(e) && e@
            == "Browser window not found"@),
        state.lookup(window_label@) matches Some(w) ==> (active_webview_of(w) is None ==> (r matches Err(e)
            && e@ == "No active tab"@)),
        state.lookup(window_label@) matches Some(w) ==> (active_webview_of(w) matches Some(v) ==> (r matches Ok(n)
            && n.webview == v && n.url@ == url_with_scheme(url@))),
{
    match state.find_window(window_label.as_str()) {
        None => Err("Browser window not found".to_string()),
        Some(i) => {
            let w = &state.windows[i];
            if w.active_tab < w.tabs.len() {
                Ok(
                    NavigationRequest {
                        webview: w.tabs[w.active_tab].webview,
                        url: ensure_url_scheme(url.as_str()),
                    },
                )
            } else {
                Err("No active tab".to_string())
            }
        },
    }
}

/// The URL, title and favicon URL of the active tab of the window labelled `window_label`.
pub fn browser_get_page_info<A>(state: &BrowserStateInner<A>, window_label: String) -> (r: Result<
    PageInfo,
    String,
>)
    requires
        state.wf(),
    ensures
        !state.has_window(window_label@) ==> (r matches Err(e) && e@
            == "Browser window not found"@),
        state.lookup(window_label@) matches Some(w) ==> (active_webview_of(w) is None ==> (r matches Err(e)
            && e@ == "No active tab"@)),
        state.lookup(window_label@) matches Some(w) ==> (w.active_tab < w.tabs@.len() ==> (r matches Ok(p)
            && p.url@ == w.tabs@[w.active_tab as int].url@ && p.title@ == w.tabs@[w.active_tab as int].title@
            && opt_str_view(p.favicon_url) == opt_str_view(w.tabs@[w.active_tab as int].favicon_url))),
{
    match state.find_window(window_label.as_str()) {
        None => Err("Browser window not found".to_string()),
        Some(i) => {
            let w = &state.windows[i];
            if w.active_tab < w.tabs.len() {
                let tab: &BrowserTab = &w.tabs[w.active_tab];
                let favicon_url = match &tab.favicon_url {
                    Some(f) => Some(f.clone()),
                    None => None,
                };
                Ok(PageInfo { url: tab.url.clone(), title: tab.title.clone(), favicon_url })
            } else {
                Err("No active tab".to_string())
            }
        },
    }
}

/// The decimal digits of `n`, most significant first, without leading zeros.
pub open spec fn decimal_digits(n: nat) -> Seq<char>
    decreases n,
{
    if n < 10 {
        seq![(48 + n) as char]
    } else {
        decimal_digits(n / 10).push((48 + n % 10) as char)
    }
}

fn push_decimal(s: &mut String, n: u128)
    ensures
        final(s)@ == old(s)@ + decimal_digits(n as nat),
    decreases n,
{
    if n >= 10 {
        push_decimal(s, n / 10);
    }
    let d: u8 = (n % 10) as u8;
    crate::text::push_char(s, (48u8 + d) as char);
    assert(s@ =~= old(s)@ + decimal_digits(n as nat));
}

/// The label of a browser window opened `millis` milliseconds after the Unix
/// epoch: `browser-` followed by the number in decimal.
pub fn browser_window_label(millis: u128) -> (label: String)
    ensures
        label@ == "browser-"@ + decimal_digits(millis as nat),
{
    let mut label = "browser-".to_string();
    push_decimal(&mut label, millis);
    label
}

/// The number a string of decimal digits denotes.
pub open spec fn decimal_value(s: Seq<char>) -> int
    decreases s.len(),
{
    if s.len() == 0 {
        0
    } else {
        decimal_value(s.drop_last()) * 10 + (s.last() as int - 48)
    }
}

/// `decimal_digits(n)` is made of digits `0`-`9`, has no leading zero, and
/// denotes `n`.
pub proof fn lemma_decimal_digits_denote(n: nat)
    ensures
        decimal_value(decimal_digits(n)) == n,
        decimal_digits(n).len() >= 1,
        forall|i: int|
            0 <= i < decimal_digits(n).len() ==> '0' <= #[trigger] decimal_digits(n)[i] <= '9',
        n > 0 ==> decimal_digits(n)[0] != '0',
    decreases n,
{
    if n >= 10 {
        lemma_decimal_digits_denote(n / 10);
        let p = decimal_digits(n / 10);
        assert(decimal_digits(n).drop_last() =~= p);
        let c = (48 + n % 10) as char;
        assert(c as int == 48 + n % 10);
        assert(decimal_digits(n).last() == c);
        assert(decimal_value(decimal_digits(n)) == decimal_value(p) * 10 + n % 10);
        assert(n == (n / 10) * 10 + n % 10);
        assert forall|i: int| 0 <= i < decimal_digits(n).len() implies '0' <= #[trigger] decimal_digits(
            n,
        )[i] <= '9' by {
            if i < p.len() {
                assert(decimal_digits(n)[i] == p[i]);
            }
        }
        assert(decimal_digits(n)[0] == p[0]);
    } else {
        assert(decimal_digits(n).drop_last() =~= Seq::<char>::empty());
        assert(((48 + n) as char) as int == 48 + n);
        assert(decimal_value(Seq::<char>::empty()) == 0);
        assert(decimal_digits(n).last() == (48 + n) as char);
    }
}

} // verus!
