//! The tab model of one browser window.
//!
//! Native views (web views, buttons, text fields) are carried as opaque
//! `u64` handles; the application layer owns the views and performs the
//! updates that the operations here return.

use vstd::prelude::*;

verus! {

/// A single browser tab within a browser window.
#[derive(Debug, PartialEq, Eq)]
pub struct BrowserTab {
    pub url: String,
    pub title: String,
    pub favicon_url: Option<String>,
    /// Handle of the tab's web view.
    pub webview: u64,
    pub is_loading: bool,
}

/// A browser window: its tabs, which one is active, and the handles of its native views.
#[derive(Debug, PartialEq, Eq)]
pub struct BrowserWindow {
    pub label: String,
    pub project_id: String,
    pub tabs: Vec<BrowserTab>,
    pub active_tab: usize,
    pub toolbar_view: u64,
    pub url_field: u64,
    pub favicon_view: u64,
    pub back_button: u64,
    pub forward_button: u64,
    pub content_area: u64,
    pub tab_bar_view: u64,
    pub data_store: u64,
}

/// The native views of a new browser window, created by the application layer.
#[derive(Debug, PartialEq, Eq)]
pub struct WindowHandles {
    pub toolbar_view: u64,
    pub url_field: u64,
    pub favicon_view: u64,
    pub back_button: u64,
    pub forward_button: u64,
    pub content_area: u64,
    pub tab_bar_view: u64,
    pub data_store: u64,
}

/// What the views of a window must do after a tab operation: the web view to
/// hide, the one to show, the one to remove, and the new text of the URL field.
#[derive(Debug, PartialEq, Eq)]
pub struct TabUiUpdate {
    pub hide: Option<u64>,
    pub show: Option<u64>,
    pub remove: Option<u64>,
    pub url_text: String,
}

/// The characters of an optional string.
pub open spec fn opt_str_view(o: Option<String>) -> Option<Seq<char>> {
    match o {
        Some(s) => Some(s@),
        None => None,
    }
}

impl BrowserWindow {
    /// A window always has a tab, and its active index points at one.
    pub open spec fn wf(&self) -> bool {
        self.tabs@.len() >= 1 && self.active_tab < self.tabs@.len()
    }

    /// Returns the currently active tab, if any.
    pub fn active_tab(&self) -> (r: Option<&BrowserTab>)
        ensures
            self.active_tab < self.tabs@.len() ==> r == Some(&self.tabs@[self.active_tab as int]),
            self.active_tab >= self.tabs@.len() ==> r is None,
    {
        if self.active_tab < self.tabs.len() {
            Some(&self.tabs[self.active_tab])
        } else {
            None
        }
    }

    /// Returns the currently active tab for modification, if any.
    pub fn active_tab_mut(&mut self) -> (r: Option<&mut BrowserTab>)
        ensures
            old(self).active_tab < old(self).tabs@.len() ==> (r matches Some(t) && *t
                == old(self).tabs@[old(self).active_tab as int] && final(self).tabs@ == old(
                self,
            ).tabs@.update(old(self).active_tab as int, *final(t)) && final(self).active_tab == old(
                self,
            ).active_tab && frame_unchanged(*old(self), *final(self))),
            old(self).active_tab >= old(self).tabs@.len() ==> r is None && *final(self) == *old(
                self,
            ),
    {
        if self.active_tab < self.tabs.len() {
            let i = self.active_tab;
            Some(&mut self.tabs[i])
        } else {
            None
        }
    }
}

/// The web view of the active tab, if the active index points at a tab.
pub open spec fn active_webview_of(w: BrowserWindow) -> Option<u64> {
    if w.active_tab < w.tabs@.len() {
        Some(w.tabs@[w.active_tab as int].webview)
    } else {
        None
    }
}

/// Everything of a window but its tabs and active index is the same.
pub open spec fn frame_unchanged(a: BrowserWindow, b: BrowserWindow) -> bool {
    &&& a.label == b.label
    &&& a.project_id == b.project_id
    &&& a.toolbar_view == b.toolbar_view
    &&& a.url_field == b.url_field
    &&& a.favicon_view == b.favicon_view
    &&& a.back_button == b.back_button
    &&& a.forward_button == b.forward_button
    &&& a.content_area == b.content_area
    &&& a.tab_bar_view == b.tab_bar_view
    &&& a.data_store == b.data_store
}

/// Whether switching to tab `idx` does anything: it must exist and not be active already.
pub open spec fn switch_allowed(w: BrowserWindow, idx: int) -> bool {
    0 <= idx < w.tabs@.len() && idx != w.active_tab
}

/// Switching to tab `idx`: the tabs stay, `idx` becomes active, the old active
/// web view is hidden and the new one shown with its URL; otherwise nothing happens.
pub open spec fn tab_switched(
    old: BrowserWindow,
    new: BrowserWindow,
    idx: int,
    r: Option<TabUiUpdate>,
) -> bool {
    if switch_allowed(old, idx) {
        &&& frame_unchanged(old, new)
        &&& new.tabs@ == old.tabs@
        &&& new.active_tab == idx
        &&& r matches Some(u)
        &&& u.hide == active_webview_of(old)
        &&& u.show == Some(old.tabs@[idx].webview)
        &&& u.remove is None
        &&& u.url_text@ == old.tabs@[idx].url@
    } else {
        new == old && r is None
    }
}

/// Whether closing tab `idx` does anything: it must exist and not be the only tab.
pub open spec fn close_allowed(w: BrowserWindow, idx: int) -> bool {
    0 <= idx < w.tabs@.len() && w.tabs@.len() > 1
}

/// The active index after closing tab `closed`, when `remaining` tabs are left.
pub open spec fn active_after_close(active: int, closed: int, remaining: int) -> int {
    if active >= remaining {
        remaining - 1
    } else if active > closed {
        active - 1
    } else {
        active
    }
}

/// Closing tab `idx`: it leaves the list, the active index is adjusted, its
/// web view is removed and the (new) active one shown with its URL;
/// otherwise nothing happens.
pub open spec fn tab_closed(
    old: BrowserWindow,
    new: BrowserWindow,
    idx: int,
    r: Option<TabUiUpdate>,
) -> bool {
    if close_allowed(old, idx) {
        &&& frame_unchanged(old, new)
        &&& new.tabs@ == old.tabs@.remove(idx)
        &&& new.active_tab == active_after_close(
            old.active_tab as int,
            idx,
            old.tabs@.len() - 1,
        )
        &&& r matches Some(u)
        &&& u.hide is None
        &&& u.remove == Some(old.tabs@[idx].webview)
        &&& u.show == Some(new.tabs@[new.active_tab as int].webview)
        &&& u.url_text@ == new.tabs@[new.active_tab as int].url@
    } else {
        new == old && r is None
    }
}

/// Opening a tab: a loading, untitled tab for `url` with `webview` is
/// appended and made active; the old active web view is hidden.
pub open spec fn tab_opened(
    old: BrowserWindow,
    new: BrowserWindow,
    url: Seq<char>,
    webview: u64,
    r: TabUiUpdate,
) -> bool {
    let n = old.tabs@.len();
    &&& frame_unchanged(old, new)
    &&& new.tabs@.len() == n + 1
    &&& new.tabs@.subrange(0, n as int) == old.tabs@
    &&& new.tabs@[n as int].url@ == url
    &&& new.tabs@[n as int].title@ == Seq::<char>::empty()
    &&& new.tabs@[n as int].favicon_url is None
    &&& new.tabs@[n as int].webview == webview
    &&& new.tabs@[n as int].is_loading
    &&& new.active_tab == n
    &&& r.hide == active_webview_of(old)
    &&& r.show is None
    &&& r.remove is None
    &&& r.url_text@ == url
}

/// Only the active tab may differ between `old` and `new`.
pub open spec fn only_active_tab_changed(old: BrowserWindow, new: BrowserWindow) -> bool {
    &&& frame_unchanged(old, new)
    &&& new.active_tab == old.active_tab
    &&& new.tabs@.len() == old.tabs@.len()
    &&& forall|j: int|
        0 <= j < old.tabs@.len() && j != old.active_tab ==> #[trigger] new.tabs@[j]
            == old.tabs@[j]
}

/// A navigation of the active tab started: it is marked loading.
pub open spec fn loading_started(old: BrowserWindow, new: BrowserWindow) -> bool {
    if old.active_tab < old.tabs@.len() {
        let a = old.active_tab as int;
        &&& only_active_tab_changed(old, new)
        &&& new.tabs@[a] == (BrowserTab { is_loading: true, ..old.tabs@[a] })
    } else {
        new == old
    }
}

/// A navigation of the active tab was committed to `url`: the tab records the URL.
pub open spec fn navigation_committed(old: BrowserWindow, new: BrowserWindow, url: Seq<char>) -> bool {
    if old.active_tab < old.tabs@.len() {
        let a = old.active_tab as int;
        &&& only_active_tab_changed(old, new)
        &&& new.tabs@[a].url@ == url
        &&& new.tabs@[a].title == old.tabs@[a].title
        &&& new.tabs@[a].favicon_url == old.tabs@[a].favicon_url
        &&& new.tabs@[a].webview == old.tabs@[a].webview
        &&& new.tabs@[a].is_loading == old.tabs@[a].is_loading
    } else {
        new == old
    }
}

/// A navigation of the active tab finished with page title `title`: the tab
/// records the title and stops loading.
pub open spec fn navigation_finished(old: BrowserWindow, new: BrowserWindow, title: Seq<char>) -> bool {
    if old.active_tab < old.tabs@.len() {
        let a = old.active_tab as int;
        &&& only_active_tab_changed(old, new)
        &&& new.tabs@[a].title@ == title
        &&& new.tabs@[a].url == old.tabs@[a].url
        &&& new.tabs@[a].favicon_url == old.tabs@[a].favicon_url
        &&& new.tabs@[a].webview == old.tabs@[a].webview
        &&& !new.tabs@[a].is_loading
    } else {
        new == old
    }
}

/// A navigation of the active tab failed: the tab stops loading.
pub open spec fn loading_failed(old: BrowserWindow, new: BrowserWindow) -> bool {
    if old.active_tab < old.tabs@.len() {
        let a = old.active_tab as int;
        &&& only_active_tab_changed(old, new)
        &&& new.tabs@[a] == (BrowserTab { is_loading: false, ..old.tabs@[a] })
    } else {
        new == old
    }
}

impl BrowserWindow {
    /// A new window with one loading tab for `url`, which is active.
    pub fn new(
        label: String,
        project_id: String,
        url: String,
        webview: u64,
        handles: WindowHandles,
    ) -> (w: BrowserWindow)
        ensures
            w.wf(),
            w.label == label,
            w.project_id == project_id,
            w.tabs@.len() == 1,
            w.tabs@[0].url == url,
            w.tabs@[0].title@ == Seq::<char>::empty(),
            w.tabs@[0].favicon_url is None,
            w.tabs@[0].webview == webview,
            w.tabs@[0].is_loading,
            w.active_tab == 0,
            w.toolbar_view == handles.toolbar_view,
            w.url_field == handles.url_field,
            w.favicon_view == handles.favicon_view,
            w.back_button == handles.back_button,
            w.forward_button == handles.forward_button,
            w.content_area == handles.content_area,
            w.tab_bar_view == handles.tab_bar_view,
            w.data_store == handles.data_store,
    {
        let tab = BrowserTab {
            url,
            title: String::new(),
            favicon_url: None,
            webview,
            is_loading: true,
        };
        let mut tabs: Vec<BrowserTab> = Vec::new();
        tabs.push(tab);
        BrowserWindow {
            label,
            project_id,
            tabs,
            active_tab: 0,
            toolbar_view: handles.toolbar_view,
            url_field: handles.url_field,
            favicon_view: handles.favicon_view,
            back_button: handles.back_button,
            forward_button: handles.forward_button,
            content_area: handles.content_area,
            tab_bar_view: handles.tab_bar_view,
            data_store: handles.data_store,
        }
    }

    fn active_webview(&self) -> (r: Option<u64>)
        ensures
            r == active_webview_of(*self),
    {
        if self.active_tab < self.tabs.len() {
            Some(self.tabs[self.active_tab].webview)
        } else {
            None
        }
    }

    /// Appends a new tab for `initial_url` shown in `webview` and makes it active.
    pub fn open_tab(&mut self, initial_url: &str, webview: u64) -> (r: TabUiUpdate)
        ensures
            tab_opened(*old(self), *final(self), initial_url@, webview, r),
            old(self).wf() ==> final(self).wf(),
    {
        let hide = self.active_webview();
        let tab = BrowserTab {
            url: initial_url.to_string(),
            title: String::new(),
            favicon_url: None,
            webview,
            is_loading: true,
        };
        self.tabs.push(tab);
        self.active_tab = self.tabs.len() - 1;
        assert(self.tabs@.subrange(0, old(self).tabs@.len() as int) =~= old(self).tabs@);
        TabUiUpdate { hide, show: None, remove: None, url_text: initial_url.to_string() }
    }

    /// Makes tab `tab_index` active, unless it does not exist or is active already.
    pub fn switch_to(&mut self, tab_index: usize) -> (r: Option<TabUiUpdate>)
        ensures
            tab_switched(*old(self), *final(self), tab_index as int, r),
            old(self).wf() ==> final(self).wf(),
    {
        if tab_index >= self.tabs.len() || tab_index == self.active_tab {
            return None;
        }
        let hide = self.active_webview();
        let show = self.tabs[tab_index].webview;
        let url_text = self.tabs[tab_index].url.clone();
        self.active_tab = tab_index;
        Some(TabUiUpdate { hide, show: Some(show), remove: None, url_text })
    }

    /// Closes tab `tab_index`, unless it does not exist or is the only tab.
    pub fn close(&mut self, tab_index: usize) -> (r: Option<TabUiUpdate>)
        ensures
            tab_closed(*old(self), *final(self), tab_index as int, r),
            old(self).wf() ==> final(self).wf(),
    {
        if tab_index >= self.tabs.len() {
            return None;
        }
        if self.tabs.len() <= 1 {
            return None;
        }
        let closed = self.tabs.remove(tab_index);
        let remove = closed.webview;
        if self.active_tab >= self.tabs.len() {
            self.active_tab = self.tabs.len() - 1;
        } else if self.active_tab > tab_index {
            self.active_tab = self.active_tab - 1;
        }
        let show = self.tabs[self.active_tab].webview;
        let url_text = self.tabs[self.active_tab].url.clone();
        Some(TabUiUpdate { hide: None, show: Some(show), remove: Some(remove), url_text })
    }

    /// Marks the active tab as loading.
    pub fn start_loading(&mut self)
        ensures
            loading_started(*old(self), *final(self)),
            old(self).wf() ==> final(self).wf(),
    {
        if let Some(tab) = self.active_tab_mut() {
            tab.is_loading = true;
        }
    }

    /// Records `url` as the address of the active tab.
    pub fn commit_navigation(&mut self, url: &str)
        ensures
            navigation_committed(*old(self), *final(self), url@),
            old(self).wf() ==> final(self).wf(),
    {
        if let Some(tab) = self.active_tab_mut() {
            tab.url = url.to_string();
        }
    }

    /// Records `title` as the page title of the active tab and ends its loading.
    pub fn finish_navigation(&mut self, title: &str)
        ensures
            navigation_finished(*old(self), *final(self), title@),
            old(self).wf() ==> final(self).wf(),
    {
        if let Some(tab) = self.active_tab_mut() {
            tab.title = title.to_string();
            tab.is_loading = false;
        }
    }

    /// Ends the loading of the active tab.
    pub fn fail_navigation(&mut self)
        ensures
            loading_failed(*old(self), *final(self)),
            old(self).wf() ==> final(self).wf(),
    {
        if let Some(tab) = self.active_tab_mut() {
            tab.is_loading = false;
        }
    }
}


/// Closing a tab other than the active one keeps the same tab active.
pub proof fn lemma_close_keeps_active_tab(
    old: BrowserWindow,
    new: BrowserWindow,
    idx: int,
    r: Option<TabUiUpdate>,
)
    requires
        old.wf(),
        close_allowed(old, idx),
        idx != old.active_tab,
        tab_closed(old, new, idx, r),
    ensures
        new.wf(),
        new.tabs@[new.active_tab as int] == old.tabs@[old.active_tab as int],
{
}

/// Closing the active tab activates the tab that followed it, or, when it
/// was the last tab, the one that preceded it.
pub proof fn lemma_close_active_tab_activates_neighbour(
    old: BrowserWindow,
    new: BrowserWindow,
    r: Option<TabUiUpdate>,
)
    requires
        old.wf(),
        close_allowed(old, old.active_tab as int),
        tab_closed(old, new, old.active_tab as int, r),
    ensures
        new.wf(),
        old.active_tab + 1 < old.tabs@.len() ==> new.tabs@[new.active_tab as int] == old.tabs@[old.active_tab + 1],
        old.active_tab + 1 == old.tabs@.len() ==> new.tabs@[new.active_tab as int] == old.tabs@[old.active_tab - 1],
{
}

/// Closing a tab that was just opened gives back the tabs the window had before,
/// with the last of them active.
pub proof fn lemma_open_then_close_restores_tabs(
    w0: BrowserWindow,
    w1: BrowserWindow,
    w2: BrowserWindow,
    url: Seq<char>,
    webview: u64,
    r1: TabUiUpdate,
    r2: Option<TabUiUpdate>,
)
    requires
        w0.wf(),
        tab_opened(w0, w1, url, webview, r1),
        tab_closed(w1, w2, w0.tabs@.len() as int, r2),
    ensures
        close_allowed(w1, w0.tabs@.len() as int),
        frame_unchanged(w0, w2),
        w2.tabs@ == w0.tabs@,
        w2.active_tab == w0.tabs@.len() - 1,
        r2 matches Some(u) && u.remove == Some(webview),
{
    assert(w1.tabs@.remove(w0.tabs@.len() as int) =~= w0.tabs@);
}

/// Switching to another tab and back again restores the window as it was.
pub proof fn lemma_switch_and_back(
    w0: BrowserWindow,
    w1: BrowserWindow,
    w2: BrowserWindow,
    idx: int,
    r1: Option<TabUiUpdate>,
    r2: Option<TabUiUpdate>,
)
    requires
        w0.wf(),
        switch_allowed(w0, idx),
        tab_switched(w0, w1, idx, r1),
        tab_switched(w1, w2, w0.active_tab as int, r2),
    ensures
        frame_unchanged(w0, w2),
        w2.tabs@ == w0.tabs@,
        w2.active_tab == w0.active_tab,
        r2 matches Some(u) && u.show == active_webview_of(w0) && u.hide == Some(
            w0.tabs@[idx].webview,
        ),
{
}

/// After every tab operation the web view shown (or, when a tab is opened,
/// the new one) is that of the tab now active, and the web view hidden is
/// that of the tab active before.
pub proof fn lemma_view_follows_active_tab(
    old: BrowserWindow,
    switched: BrowserWindow,
    closed: BrowserWindow,
    opened: BrowserWindow,
    idx: int,
    url: Seq<char>,
    webview: u64,
    rs: Option<TabUiUpdate>,
    rc: Option<TabUiUpdate>,
    ro: TabUiUpdate,
)
    requires
        old.wf(),
        tab_switched(old, switched, idx, rs),
        tab_closed(old, closed, idx, rc),
        tab_opened(old, opened, url, webview, ro),
    ensures
        rs matches Some(u) ==> u.show == Some(switched.tabs@[switched.active_tab as int].webview)
            && u.hide == Some(old.tabs@[old.active_tab as int].webview) && u.url_text@
            == switched.tabs@[switched.active_tab as int].url@,
        rc matches Some(u) ==> u.show == Some(closed.tabs@[closed.active_tab as int].webview)
            && u.remove == Some(old.tabs@[idx].webview) && closed.tabs@.len() + 1 == old.tabs@.len(),
        opened.tabs@[opened.active_tab as int].webview == webview,
        opened.tabs@[opened.active_tab as int].url@ == url,
        ro.hide == Some(old.tabs@[old.active_tab as int].webview),
        ro.url_text@ == url,
{
}

} // verus!
