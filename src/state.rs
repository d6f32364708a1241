//! In-memory state of the shell: the current theme and the main window's
//! title. Nothing is persisted.
use vstd::prelude::*;

verus! {

/// Name of the application, used as the main window's title.
pub const APP_NAME: &'static str = "声驭智核";

/// Version of the application.
pub const APP_VERSION: &'static str = "0.0.0";

/// One-line description of the application.
pub const APP_DESCRIPTION: &'static str = "智能语音助手，提供语音交互、桌面宠物、知识管理等功能";

/// Theme in effect before any is chosen.
pub const DEFAULT_THEME: &'static str = "dark";

/// Process-wide shell state, owned by the controller.
pub struct ShellState {
    theme: String,
    window_title: String,
}

impl ShellState {
    /// Current theme.
    pub closed spec fn theme_view(&self) -> Seq<char> {
        self.theme@
    }

    /// Title given to the main window.
    pub closed spec fn title_view(&self) -> Seq<char> {
        self.window_title@
    }

    /// State at startup: the default theme and the application's name as
    /// title.
    pub fn new() -> (r: ShellState)
        ensures
            r.theme_view() == DEFAULT_THEME@,
            r.title_view() == APP_NAME@,
    {
        ShellState { theme: String::from_str(DEFAULT_THEME), window_title: String::from_str(APP_NAME) }
    }

    /// Current theme.
    pub fn get_theme(&self) -> (r: String)
        ensures
            r@ == self.theme_view(),
    {
        self.theme.clone()
    }

    /// Makes `theme` the current theme. Any string is accepted.
    pub fn set_theme(&mut self, theme: &str) -> (r: Result<(), String>)
        ensures
            r is Ok,
            final(self).theme_view() == theme@,
            final(self).title_view() == old(self).title_view(),
    {
        self.theme = String::from_str(theme);
        Ok(())
    }

    /// Title given to the main window.
    pub fn window_title(&self) -> (r: String)
        ensures
            r@ == self.title_view(),
    {
        self.window_title.clone()
    }
}

} // verus!
