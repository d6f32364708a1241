//! Top-level coordinator: owns the shell state and the window registry and
//! tracks the companion window's readiness during startup.
use vstd::prelude::*;
use crate::state::ShellState;
use crate::window::{
    after_place, companion_ensured, error_message, has_window, is_fresh_companion, main_shown, title_set,
    WindowDescriptor, WindowError, WindowRegistry, COMPANION_WINDOW, MAIN_WINDOW,
    MAIN_WINDOW_MISSING,
};

verus! {

/// Readiness of the companion window created at startup.
#[derive(Clone, Copy, Debug, PartialEq, Eq, Structural)]
pub enum CompanionReadiness {
    Uninitialized,
    Creating,
    Ready,
    SkippedAlreadyExists,
    Failed,
}

/// The shell's controller.
pub struct ShellController {
    state: ShellState,
    windows: WindowRegistry,
    companion: CompanionReadiness,
}

impl ShellController {
    /// Controller invariant: the registry's names are unique.
    pub closed spec fn wf(&self) -> bool {
        self.windows.wf()
    }

    /// The shell state.
    pub closed spec fn spec_state(&self) -> ShellState {
        self.state
    }

    /// The registered windows.
    pub closed spec fn spec_windows(&self) -> Seq<WindowDescriptor> {
        self.windows@
    }

    /// Readiness of the companion window.
    pub closed spec fn spec_companion(&self) -> CompanionReadiness {
        self.companion
    }

    /// A controller over the windows the host registered at construction,
    /// with the startup shell state.
    pub fn new(windows: WindowRegistry) -> (r: ShellController)
        requires
            windows.wf(),
        ensures
            r.wf(),
            r.spec_windows() == windows@,
            r.spec_companion() == CompanionReadiness::Uninitialized,
            r.spec_state().theme_view() == crate::state::DEFAULT_THEME@,
            r.spec_state().title_view() == crate::state::APP_NAME@,
    {
        ShellController { state: ShellState::new(), windows, companion: CompanionReadiness::Uninitialized }
    }

    /// Registers a window the host created, unless one of the same name is
    /// registered already. Returns whether it was added.
    pub fn register_window(&mut self, d: WindowDescriptor) -> (r: bool)
        requires
            old(self).wf(),
        ensures
            final(self).wf(),
            final(self).spec_state() == old(self).spec_state(),
            final(self).spec_companion() == old(self).spec_companion(),
            r == !has_window(old(self).spec_windows(), d.name@),
            r ==> final(self).spec_windows() == old(self).spec_windows().push(d),
            !r ==> final(self).spec_windows() == old(self).spec_windows(),
    {
        self.windows.register(d)
    }

    /// The shell state.
    pub fn state(&self) -> (r: &ShellState)
        ensures
            *r == self.spec_state(),
    {
        &self.state
    }

    /// Sets the current theme.
    pub fn set_theme(&mut self, theme: &str) -> (r: Result<(), String>)
        ensures
            r is Ok,
            final(self).spec_state().theme_view() == theme@,
            final(self).spec_state().title_view() == old(self).spec_state().title_view(),
            final(self).spec_windows() == old(self).spec_windows(),
            final(self).spec_companion() == old(self).spec_companion(),
            final(self).wf() == old(self).wf(),
    {
        self.state.set_theme(theme)
    }

    /// The window registry.
    pub fn windows(&self) -> (r: &WindowRegistry)
        ensures
            r@ == self.spec_windows(),
            self.wf() ==> r.wf(),
    {
        &self.windows
    }

    /// Readiness of the companion window.
    pub fn companion_readiness(&self) -> (r: CompanionReadiness)
        ensures
            r == self.spec_companion(),
    {
        self.companion
    }

    /// Startup configuration of the main window: gives it the title held in
    /// the shell state. Fails when no main window is registered.
    pub fn setup(&mut self) -> (r: Result<(), WindowError>)
        requires
            old(self).wf(),
        ensures
            final(self).wf(),
            final(self).spec_state() == old(self).spec_state(),
            final(self).spec_companion() == old(self).spec_companion(),
            r is Ok <==> has_window(old(self).spec_windows(), MAIN_WINDOW@),
            r is Ok ==> title_set(
                old(self).spec_windows(),
                final(self).spec_windows(),
                MAIN_WINDOW@,
                old(self).spec_state().title_view(),
            ),
            r is Err ==> final(self).spec_windows() == old(self).spec_windows(),
            r matches Err(WindowError::NotFound(n)) ==> n@ == MAIN_WINDOW@,
            !(r matches Err(WindowError::Creation(_))),
            r matches Err(e) ==> error_message(e) == MAIN_WINDOW_MISSING@,
    {
        let title = self.state.window_title();
        self.windows.set_title(MAIN_WINDOW, title.as_str())
    }

    /// Shows and focuses the main window.
    pub fn show_main_window(&mut self) -> (r: Result<(), WindowError>)
        requires
            old(self).wf(),
        ensures
            final(self).wf(),
            final(self).spec_state() == old(self).spec_state(),
            final(self).spec_companion() == old(self).spec_companion(),
            r is Ok <==> has_window(old(self).spec_windows(), MAIN_WINDOW@),
            r is Ok ==> main_shown(old(self).spec_windows(), final(self).spec_windows()),
            r is Err ==> final(self).spec_windows() == old(self).spec_windows(),
            r matches Err(WindowError::NotFound(n)) ==> n@ == MAIN_WINDOW@,
            !(r matches Err(WindowError::Creation(_))),
            r matches Err(e) ==> error_message(e) == MAIN_WINDOW_MISSING@,
    {
        self.windows.show_main_window()
    }

    /// Starts creating the companion window. When a companion already
    /// exists nothing is to be built and the readiness becomes
    /// `SkippedAlreadyExists`; otherwise the descriptor to build is returned
    /// and the readiness becomes `Creating`. While a creation is in flight
    /// (`Creating`) nothing happens, so that no second companion is built.
    pub fn begin_companion(&mut self) -> (r: Option<WindowDescriptor>)
        ensures
            final(self).spec_windows() == old(self).spec_windows(),
            final(self).spec_state() == old(self).spec_state(),
            final(self).wf() == old(self).wf(),
            old(self).spec_companion() == CompanionReadiness::Creating ==> r is None
                && final(self).spec_companion() == old(self).spec_companion(),
            old(self).spec_companion() != CompanionReadiness::Creating ==> if has_window(
                old(self).spec_windows(),
                COMPANION_WINDOW@,
            ) {
                r is None && final(self).spec_companion() == CompanionReadiness::SkippedAlreadyExists
            } else {
                (r matches Some(d) && is_fresh_companion(d)) && final(self).spec_companion()
                    == CompanionReadiness::Creating
            },
    {
        match self.companion {
            CompanionReadiness::Creating => None,
            _ => {
                let r = self.windows.companion_request();
                if r.is_some() {
                    self.companion = CompanionReadiness::Creating;
                } else {
                    self.companion = CompanionReadiness::SkippedAlreadyExists;
                }
                r
            },
        }
    }

    /// Completes the creation started by `begin_companion` with the host's
    /// report on building the surface: `Ready` on success, `Failed` with the
    /// host's message otherwise. Outside `Creating` nothing happens.
    pub fn finish_companion(&mut self, built: Result<(), String>) -> (r: Result<(), WindowError>)
        requires
            old(self).wf(),
        ensures
            final(self).wf(),
            final(self).spec_state() == old(self).spec_state(),
            old(self).spec_companion() != CompanionReadiness::Creating ==> r is Ok
                && final(self).spec_windows() == old(self).spec_windows()
                && final(self).spec_companion() == old(self).spec_companion(),
            old(self).spec_companion() == CompanionReadiness::Creating ==> match built {
                Ok(()) => r is Ok && companion_ensured(
                    old(self).spec_windows(),
                    final(self).spec_windows(),
                ) && final(self).spec_companion() == CompanionReadiness::Ready,
                Err(msg) => (r matches Err(WindowError::Creation(m)) && m == msg)
                    && final(self).spec_windows() == old(self).spec_windows()
                    && final(self).spec_companion() == CompanionReadiness::Failed,
            },
    {
        match self.companion {
            CompanionReadiness::Creating => {
                let r = self.windows.finish_companion(built);
                if r.is_ok() {
                    self.companion = CompanionReadiness::Ready;
                } else {
                    self.companion = CompanionReadiness::Failed;
                }
                r
            },
            _ => Ok(()),
        }
    }

    /// Places the companion window on a display of the given size; with no
    /// display known nothing moves.
    pub fn place_companion(&mut self, screen: Option<(u32, u32)>)
        requires
            old(self).wf(),
        ensures
            final(self).wf(),
            final(self).spec_state() == old(self).spec_state(),
            final(self).spec_companion() == old(self).spec_companion(),
            final(self).spec_windows().len() == old(self).spec_windows().len(),
            forall|i: int|
                0 <= i < old(self).spec_windows().len() ==> #[trigger] final(self).spec_windows()[i]
                    == match screen {
                    Some((w, h)) => after_place(old(self).spec_windows()[i], w, h),
                    None => old(self).spec_windows()[i],
                },
    {
        self.windows.place_companion(screen)
    }
}

} // verus!
