//! What each item of the application menu does.

use vstd::prelude::*;
use crate::text::str_eq;
use crate::window::opt_str_view;

verus! {

/// An event the menu sends to the web views: an action and, for
/// navigation, the tab to show.
#[derive(Debug, PartialEq, Eq)]
pub struct MenuActionPayload {
    pub action: String,
    pub tab: Option<String>,
}

/// What selecting a menu item does.
#[derive(Debug, PartialEq, Eq)]
pub enum MenuCommand {
    /// Emit a `menu-action` event to all windows.
    Emit(MenuActionPayload),
    /// Open a new application window.
    OpenNewWindow,
    /// Evaluate a script in the main window.
    EvalInMainWindow(String),
    /// Nothing (items handled by the platform).
    Ignore,
}

/// `MenuCommand` with its strings as character sequences.
pub enum MenuCommandView {
    Emit { action: Seq<char>, tab: Option<Seq<char>> },
    OpenNewWindow,
    EvalInMainWindow { script: Seq<char> },
    Ignore,
}

impl View for MenuCommand {
    type V = MenuCommandView;

    open spec fn view(&self) -> MenuCommandView {
        match self {
            MenuCommand::Emit(p) => MenuCommandView::Emit {
                action: p.action@,
                tab: opt_str_view(p.tab),
            },
            MenuCommand::OpenNewWindow => MenuCommandView::OpenNewWindow,
            MenuCommand::EvalInMainWindow(s) => MenuCommandView::EvalInMainWindow { script: s@ },
            MenuCommand::Ignore => MenuCommandView::Ignore,
        }
    }
}

/// The command of the menu item with id `id`: the navigation items and
/// Settings emit `navigate` with their tab, Search emits `search`, New Window
/// opens a window, and the View items reload or zoom the main window.
pub open spec fn menu_command_for(id: Seq<char>) -> MenuCommandView {
    if id == "settings"@ {
        MenuCommandView::Emit { action: "navigate"@, tab: Some("settings"@) }
    } else if id == "go_files"@ {
        MenuCommandView::Emit { action: "navigate"@, tab: Some("files"@) }
    } else if id == "go_progress"@ {
        MenuCommandView::Emit { action: "navigate"@, tab: Some("progress"@) }
    } else if id == "go_studio"@ {
        MenuCommandView::Emit { action: "navigate"@, tab: Some("studio"@) }
    } else if id == "go_timeline"@ {
        MenuCommandView::Emit { action: "navigate"@, tab: Some("timeline"@) }
    } else if id == "search"@ {
        MenuCommandView::Emit { action: "search"@, tab: None }
    } else if id == "new_window"@ {
        MenuCommandView::OpenNewWindow
    } else if id == "reload"@ || id == "force_reload"@ {
        MenuCommandView::EvalInMainWindow { script: "window.location.reload()"@ }
    } else if id == "actual_size"@ {
        MenuCommandView::EvalInMainWindow { script: "document.body.style.zoom = '1'"@ }
    } else if id == "zoom_in"@ {
        MenuCommandView::EvalInMainWindow {
            script: "document.body.style.zoom = (parseFloat(document.body.style.zoom || '1') + 0.1).toString()"@,
        }
    } else if id == "zoom_out"@ {
        MenuCommandView::EvalInMainWindow {
            script: "document.body.style.zoom = Math.max(0.5, parseFloat(document.body.style.zoom || '1') - 0.1).toString()"@,
        }
    } else {
        MenuCommandView::Ignore
    }
}

fn navigate_to(tab: &str) -> (c: MenuCommand)
    ensures
        c@ == (MenuCommandView::Emit { action: "navigate"@, tab: Some(tab@) }),
{
    MenuCommand::Emit(
        MenuActionPayload { action: "navigate".to_string(), tab: Some(tab.to_string()) },
    )
}

fn eval_in_main(script: &str) -> (c: MenuCommand)
    ensures
        c@ == (MenuCommandView::EvalInMainWindow { script: script@ }),
{
    MenuCommand::EvalInMainWindow(script.to_string())
}

/// The command of the menu item with id `id` (see `menu_command_for`).
pub fn menu_command(id: &str) -> (c: MenuCommand)
    ensures
        c@ == menu_command_for(id@),
{
    if str_eq(id, "settings") {
        navigate_to("settings")
    } else if str_eq(id, "go_files") {
        navigate_to("files")
    } else if str_eq(id, "go_progress") {
        navigate_to("progress")
    } else if str_eq(id, "go_studio") {
        navigate_to("studio")
    } else if str_eq(id, "go_timeline") {
        navigate_to("timeline")
    } else if str_eq(id, "search") {
        MenuCommand::Emit(MenuActionPayload { action: "search".to_string(), tab: None })
    } else if str_eq(id, "new_window") {
        MenuCommand::OpenNewWindow
    } else if str_eq(id, "reload") || str_eq(id, "force_reload") {
        eval_in_main("window.location.reload()")
    } else if str_eq(id, "actual_size") {
        eval_in_main("document.body.style.zoom = '1'")
    } else if str_eq(id, "zoom_in") {
        eval_in_main(
            "document.body.style.zoom = (parseFloat(document.body.style.zoom || '1') + 0.1).toString()",
        )
    } else if str_eq(id, "zoom_out") {
        eval_in_main(
            "document.body.style.zoom = Math.max(0.5, parseFloat(document.body.style.zoom || '1') - 0.1).toString()",
        )
    } else {
        MenuCommand::Ignore
    }
}

/// The command that evaluates `script` in the main window.
pub open spec fn evaluates(script: Seq<char>) -> MenuCommandView {
    MenuCommandView::EvalInMainWindow { script }
}

/// The command that emits `navigate` to `tab`.
pub open spec fn navigates_to(tab: Seq<char>) -> MenuCommandView {
    MenuCommandView::Emit { action: "navigate"@, tab: Some(tab) }
}

/// The View menu sets the page zoom: Actual Size to `'1'`, Zoom In to the
/// current zoom plus 0.1, and Zoom Out to the current zoom minus 0.1 but
/// never below 0.5; Reload and Force Reload both reload the page.
pub proof fn lemma_view_menu_scripts()
    ensures
        ({
            let set_zoom = "document.body.style.zoom = "@;
            let current = "parseFloat(document.body.style.zoom || '1')"@;
            let to_string = ".toString()"@;
            &&& menu_command_for("zoom_in"@) == evaluates(set_zoom + "("@ + current + " + 0.1)"@ + to_string)
            &&& menu_command_for("zoom_out"@) == evaluates(set_zoom + "Math.max(0.5, "@ + current + " - 0.1)"@ + to_string)
            &&& menu_command_for("actual_size"@) == evaluates(set_zoom + "'1'"@)
            &&& menu_command_for("reload"@) == menu_command_for("force_reload"@)
            &&& menu_command_for("reload"@) == evaluates("window.location.reload()"@)
        }),
{
    reveal_strlit("settings");
    reveal_strlit("go_files");
    reveal_strlit("go_progress");
    reveal_strlit("go_studio");
    reveal_strlit("go_timeline");
    reveal_strlit("search");
    reveal_strlit("new_window");
    reveal_strlit("reload");
    reveal_strlit("force_reload");
    reveal_strlit("actual_size");
    reveal_strlit("zoom_in");
    reveal_strlit("zoom_out");
    reveal_strlit("files");
    reveal_strlit("progress");
    reveal_strlit("studio");
    reveal_strlit("timeline");
    reveal_strlit("go_");
    reveal_strlit("navigate");
    assert("reload"@.len() != "settings"@.len());
    assert("reload"@ != "settings"@);
    assert("reload"@.len() != "go_files"@.len());
    assert("reload"@ != "go_files"@);
    assert("reload"@.len() != "go_progress"@.len());
    assert("reload"@ != "go_progress"@);
    assert("reload"@.len() != "go_studio"@.len());
    assert("reload"@ != "go_studio"@);
    assert("reload"@.len() != "go_timeline"@.len());
    assert("reload"@ != "go_timeline"@);
    assert("reload"@[0] != "search"@[0]);
    assert("reload"@ != "search"@);
    assert("reload"@.len() != "new_window"@.len());
    assert("reload"@ != "new_window"@);
    assert("force_reload"@.len() != "settings"@.len());
    assert("force_reload"@ != "settings"@);
    assert("force_reload"@.len() != "go_files"@.len());
    assert("force_reload"@ != "go_files"@);
    assert("force_reload"@.len() != "go_progress"@.len());
    assert("force_reload"@ != "go_progress"@);
    assert("force_reload"@.len() != "go_studio"@.len());
    assert("force_reload"@ != "go_studio"@);
    assert("force_reload"@.len() != "go_timeline"@.len());
    assert("force_reload"@ != "go_timeline"@);
    assert("force_reload"@.len() != "search"@.len());
    assert("force_reload"@ != "search"@);
    assert("force_reload"@.len() != "new_window"@.len());
    assert("force_reload"@ != "new_window"@);
    assert("actual_size"@.len() != "settings"@.len());
    assert("actual_size"@ != "settings"@);
    assert("actual_size"@.len() != "go_files"@.len());
    assert("actual_size"@ != "go_files"@);
    assert("actual_size"@[0] != "go_progress"@[0]);
    assert("actual_size"@ != "go_progress"@);
    assert("actual_size"@.len() != "go_studio"@.len());
    assert("actual_size"@ != "go_studio"@);
    assert("actual_size"@[0] != "go_timeline"@[0]);
    assert("actual_size"@ != "go_timeline"@);
    assert("actual_size"@.len() != "search"@.len());
    assert("actual_size"@ != "search"@);
    assert("actual_size"@.len() != "new_window"@.len());
    assert("actual_size"@ != "new_window"@);
    assert("actual_size"@.len() != "reload"@.len());
    assert("actual_size"@ != "reload"@);
    assert("actual_size"@.len() != "force_reload"@.len());
    assert("actual_size"@ != "force_reload"@);
    assert("zoom_in"@.len() != "settings"@.len());
    assert("zoom_in"@ != "settings"@);
    assert("zoom_in"@.len() != "go_files"@.len());
    assert("zoom_in"@ != "go_files"@);
    assert("zoom_in"@.len() != "go_progress"@.len());
    assert("zoom_in"@ != "go_progress"@);
    assert("zoom_in"@.len() != "go_studio"@.len());
    assert("zoom_in"@ != "go_studio"@);
    assert("zoom_in"@.len() != "go_timeline"@.len());
    assert("zoom_in"@ != "go_timeline"@);
    assert("zoom_in"@.len() != "search"@.len());
    assert("zoom_in"@ != "search"@);
    assert("zoom_in"@.len() != "new_window"@.len());
    assert("zoom_in"@ != "new_window"@);
    assert("zoom_in"@.len() != "reload"@.len());
    assert("zoom_in"@ != "reload"@);
    assert("zoom_in"@.len() != "force_reload"@.len());
    assert("zoom_in"@ != "force_reload"@);
    assert("zoom_in"@.len() != "actual_size"@.len());
    assert("zoom_in"@ != "actual_size"@);
    assert("zoom_out"@[0] != "settings"@[0]);
    assert("zoom_out"@ != "settings"@);
    assert("zoom_out"@[0] != "go_files"@[0]);
    assert("zoom_out"@ != "go_files"@);
    assert("zoom_out"@.len() != "go_progress"@.len());
    assert("zoom_out"@ != "go_progress"@);
    assert("zoom_out"@.len() != "go_studio"@.len());
    assert("zoom_out"@ != "go_studio"@);
    assert("zoom_out"@.len() != "go_timeline"@.len());
    assert("zoom_out"@ != "go_timeline"@);
    assert("zoom_out"@.len() != "search"@.len());
    assert("zoom_out"@ != "search"@);
    assert("zoom_out"@.len() != "new_window"@.len());
    assert("zoom_out"@ != "new_window"@);
    assert("zoom_out"@.len() != "reload"@.len());
    assert("zoom_out"@ != "reload"@);
    assert("zoom_out"@.len() != "force_reload"@.len());
    assert("zoom_out"@ != "force_reload"@);
    assert("zoom_out"@.len() != "actual_size"@.len());
    assert("zoom_out"@ != "actual_size"@);
    assert("zoom_out"@.len() != "zoom_in"@.len());
    assert("zoom_out"@ != "zoom_in"@);
    reveal_strlit("document.body.style.zoom = ");
    reveal_strlit("parseFloat(document.body.style.zoom || '1')");
    reveal_strlit(".toString()");
    reveal_strlit("(");
    reveal_strlit(" + 0.1)");
    reveal_strlit("Math.max(0.5, ");
    reveal_strlit(" - 0.1)");
    reveal_strlit("'1'");
    reveal_strlit("document.body.style.zoom = (parseFloat(document.body.style.zoom || '1') + 0.1).toString()");
    reveal_strlit("document.body.style.zoom = Math.max(0.5, parseFloat(document.body.style.zoom || '1') - 0.1).toString()");
    reveal_strlit("document.body.style.zoom = '1'");
    let set_zoom = "document.body.style.zoom = "@;
    let current = "parseFloat(document.body.style.zoom || '1')"@;
    let to_string = ".toString()"@;
    assert(set_zoom + "("@ + current + " + 0.1)"@ + to_string =~= "document.body.style.zoom = (parseFloat(document.body.style.zoom || '1') + 0.1).toString()"@);
    assert(set_zoom + "Math.max(0.5, "@ + current + " - 0.1)"@ + to_string =~= "document.body.style.zoom = Math.max(0.5, parseFloat(document.body.style.zoom || '1') - 0.1).toString()"@);
    assert(set_zoom + "'1'"@ =~= "document.body.style.zoom = '1'"@);
}

/// Each Go item `go_<tab>` emits `navigate` to `<tab>`, and Settings emits
/// `navigate` to `settings`.
pub proof fn lemma_go_menu_navigates()
    ensures
        forall|tab: Seq<char>|
            tab == "files"@ || tab == "progress"@ || tab == "studio"@ || tab == "timeline"@
                ==> #[trigger] menu_command_for("go_"@ + tab) == navigates_to(tab),
        menu_command_for("settings"@) == navigates_to("settings"@),
{
    reveal_strlit("settings");
    reveal_strlit("go_files");
    reveal_strlit("go_progress");
    reveal_strlit("go_studio");
    reveal_strlit("go_timeline");
    reveal_strlit("search");
    reveal_strlit("new_window");
    reveal_strlit("reload");
    reveal_strlit("force_reload");
    reveal_strlit("actual_size");
    reveal_strlit("zoom_in");
    reveal_strlit("zoom_out");
    reveal_strlit("files");
    reveal_strlit("progress");
    reveal_strlit("studio");
    reveal_strlit("timeline");
    reveal_strlit("go_");
    reveal_strlit("navigate");
    assert("go_files"@[0] != "settings"@[0]);
    assert("go_files"@ != "settings"@);
    assert("go_progress"@.len() != "settings"@.len());
    assert("go_progress"@ != "settings"@);
    assert("go_progress"@.len() != "go_files"@.len());
    assert("go_progress"@ != "go_files"@);
    assert("go_studio"@.len() != "settings"@.len());
    assert("go_studio"@ != "settings"@);
    assert("go_studio"@.len() != "go_files"@.len());
    assert("go_studio"@ != "go_files"@);
    assert("go_studio"@.len() != "go_progress"@.len());
    assert("go_studio"@ != "go_progress"@);
    assert("go_timeline"@.len() != "settings"@.len());
    assert("go_timeline"@ != "settings"@);
    assert("go_timeline"@.len() != "go_files"@.len());
    assert("go_timeline"@ != "go_files"@);
    assert("go_timeline"@[3] != "go_progress"@[3]);
    assert("go_timeline"@ != "go_progress"@);
    assert("go_timeline"@.len() != "go_studio"@.len());
    assert("go_timeline"@ != "go_studio"@);
    assert("go_"@ + "files"@ =~= "go_files"@);
    assert("go_"@ + "progress"@ =~= "go_progress"@);
    assert("go_"@ + "studio"@ =~= "go_studio"@);
    assert("go_"@ + "timeline"@ =~= "go_timeline"@);
}

/// Search emits `search` with no tab, New Window opens a window, and every
/// id that is not one of the menu's own items does nothing.
pub proof fn lemma_other_menu_items(id: Seq<char>)
    ensures
        menu_command_for("search"@) == (MenuCommandView::Emit { action: "search"@, tab: None }),
        menu_command_for("new_window"@) == MenuCommandView::OpenNewWindow,
        !(id == "settings"@ || id == "go_files"@ || id == "go_progress"@ || id == "go_studio"@
            || id == "go_timeline"@ || id == "search"@ || id == "new_window"@ || id == "reload"@
            || id == "force_reload"@ || id == "actual_size"@ || id == "zoom_in"@ || id
            == "zoom_out"@) ==> menu_command_for(id) == MenuCommandView::Ignore,
{
    reveal_strlit("settings");
    reveal_strlit("go_files");
    reveal_strlit("go_progress");
    reveal_strlit("go_studio");
    reveal_strlit("go_timeline");
    reveal_strlit("search");
    reveal_strlit("new_window");
    assert("search"@.len() != "settings"@.len());
    assert("search"@[0] != "go_files"@[0]);
    assert("search"@.len() != "go_progress"@.len());
    assert("search"@.len() != "go_studio"@.len());
    assert("search"@.len() != "go_timeline"@.len());
    assert("new_window"@.len() != "settings"@.len());
    assert("new_window"@[0] != "go_files"@[0]);
    assert("new_window"@.len() != "go_progress"@.len());
    assert("new_window"@.len() != "go_studio"@.len());
    assert("new_window"@.len() != "go_timeline"@.len());
    assert("new_window"@.len() != "search"@.len());
}

} // verus!
