//! Registry of the shell's named windows. Each window is keyed by a unique
//! name; the registry models the state the host keeps for it (geometry and
//! flags) so that the coordination rules can be checked without a display.
use vstd::prelude::*;
use crate::placement::{
    companion_position, placed_x, placed_y, COMPANION_HEIGHT, COMPANION_WIDTH,
};

verus! {

/// Key of the main application window.
pub const MAIN_WINDOW: &'static str = "main";

/// Key of the companion overlay window.
pub const COMPANION_WINDOW: &'static str = "companion";

/// Presentation flags of a window.
#[derive(Clone, Copy, Debug, PartialEq, Eq, Structural)]
pub struct WindowFlags {
    pub transparent: bool,
    pub always_on_top: bool,
    pub decorations: bool,
    pub resizable: bool,
    pub skip_taskbar: bool,
    pub focused: bool,
    pub visible: bool,
}

/// Size and position of a window. `placed` is false while the window sits
/// at the host's default position.
#[derive(Clone, Copy, Debug, PartialEq, Eq, Structural)]
pub struct Geometry {
    pub width: u32,
    pub height: u32,
    pub x: i64,
    pub y: i64,
    pub placed: bool,
}

/// A registered window.
#[derive(Debug)]
pub struct WindowDescriptor {
    pub name: String,
    pub title: String,
    pub geometry: Geometry,
    pub flags: WindowFlags,
}

/// Failure of a registry operation that is reported to the caller.
#[derive(Debug)]
pub enum WindowError {
    /// No window is registered under the name.
    NotFound(String),
    /// The host could not construct the window surface; holds its message.
    Creation(String),
}

/// Flags of the companion overlay.
pub open spec fn companion_flags() -> WindowFlags {
    WindowFlags {
        transparent: true,
        always_on_top: true,
        decorations: false,
        resizable: false,
        skip_taskbar: true,
        focused: false,
        visible: true,
    }
}

/// Whether `d` is the companion window as it is first created: fixed size,
/// overlay flags, empty title, not yet placed.
pub open spec fn is_fresh_companion(d: WindowDescriptor) -> bool {
    &&& d.name@ == COMPANION_WINDOW@
    &&& d.title@ == Seq::<char>::empty()
    &&& d.geometry.width == COMPANION_WIDTH
    &&& d.geometry.height == COMPANION_HEIGHT
    &&& !d.geometry.placed
    &&& d.flags == companion_flags()
}

/// Whether some window in `s` is named `name`.
pub open spec fn has_window(s: Seq<WindowDescriptor>, name: Seq<char>) -> bool {
    exists|i: int| 0 <= i < s.len() && #[trigger] s[i].name@ == name
}

/// Whether no two windows in `s` share a name.
pub open spec fn names_unique(s: Seq<WindowDescriptor>) -> bool {
    forall|i: int, j: int|
        0 <= i < s.len() && 0 <= j < s.len() && #[trigger] s[i].name@ == #[trigger] s[j].name@
            ==> i == j
}

/// Number of windows in `s` named `name`.
pub open spec fn count_named(s: Seq<WindowDescriptor>, name: Seq<char>) -> nat
    decreases s.len(),
{
    if s.len() == 0 {
        0
    } else {
        count_named(s.drop_last(), name) + if s.last().name@ == name {
            1nat
        } else {
            0nat
        }
    }
}

/// `new` is `old` after a successful companion creation: unchanged when a
/// companion already existed, otherwise with a fresh companion appended.
pub open spec fn companion_ensured(old: Seq<WindowDescriptor>, new: Seq<WindowDescriptor>) -> bool {
    if has_window(old, COMPANION_WINDOW@) {
        new == old
    } else {
        &&& new.len() == old.len() + 1
        &&& new.drop_last() == old
        &&& is_fresh_companion(new.last())
    }
}

/// `d` with its flags after the main window was shown: the main window
/// becomes visible and focused, every other window loses focus.
pub open spec fn after_show_main(d: WindowDescriptor) -> WindowDescriptor {
    if d.name@ == MAIN_WINDOW@ {
        WindowDescriptor { flags: WindowFlags { visible: true, focused: true, ..d.flags }, ..d }
    } else {
        WindowDescriptor { flags: WindowFlags { focused: false, ..d.flags }, ..d }
    }
}

/// `new` is `old` after the main window was shown.
pub open spec fn main_shown(old: Seq<WindowDescriptor>, new: Seq<WindowDescriptor>) -> bool {
    &&& new.len() == old.len()
    &&& forall|i: int| 0 <= i < old.len() ==> #[trigger] new[i] == after_show_main(old[i])
}

/// `new` is `old` with the title of the window named `name` set to `title`.
pub open spec fn title_set(
    old: Seq<WindowDescriptor>,
    new: Seq<WindowDescriptor>,
    name: Seq<char>,
    title: Seq<char>,
) -> bool {
    &&& new.len() == old.len()
    &&& forall|i: int|
        0 <= i < old.len() ==> if old[i].name@ == name {
            &&& (#[trigger] new[i]).title@ == title
            &&& new[i].name == old[i].name
            &&& new[i].geometry == old[i].geometry
            &&& new[i].flags == old[i].flags
        } else {
            new[i] == old[i]
        }
}

/// `d` once placed on a display of the given size, when it is the companion.
pub open spec fn after_place(d: WindowDescriptor, screen_width: u32, screen_height: u32) -> WindowDescriptor {
    if d.name@ == COMPANION_WINDOW@ {
        WindowDescriptor {
            geometry: Geometry {
                x: placed_x(screen_width as int) as i64,
                y: placed_y(screen_height as int) as i64,
                placed: true,
                ..d.geometry
            },
            ..d
        }
    } else {
        d
    }
}

/// The set of windows the shell knows about, in registration order.
pub struct WindowRegistry {
    windows: Vec<WindowDescriptor>,
}

impl View for WindowRegistry {
    type V = Seq<WindowDescriptor>;

    closed spec fn view(&self) -> Seq<WindowDescriptor> {
        self.windows@
    }
}

/// Message shown when the main window is missing.
pub const MAIN_WINDOW_MISSING: &'static str = "主窗口不存在";

/// Text shown to the user for `e`.
pub open spec fn error_message(e: WindowError) -> Seq<char> {
    match e {
        WindowError::NotFound(name) => if name@ == MAIN_WINDOW@ {
            MAIN_WINDOW_MISSING@
        } else {
            "window not found: "@ + name@
        },
        WindowError::Creation(msg) => msg@,
    }
}

impl WindowError {
    /// Text shown to the user for this failure.
    pub fn message(&self) -> (r: String)
        ensures
            r@ == error_message(*self),
    {
        match self {
            WindowError::NotFound(name) => {
                if *name == String::from_str(MAIN_WINDOW) {
                    String::from_str(MAIN_WINDOW_MISSING)
                } else {
                    String::from_str("window not found: ").concat(name.as_str())
                }
            },
            WindowError::Creation(msg) => msg.clone(),
        }
    }
}

/// The companion window as it is first created.
pub fn companion_descriptor() -> (r: WindowDescriptor)
    ensures
        is_fresh_companion(r),
{
    WindowDescriptor {
        name: String::from_str(COMPANION_WINDOW),
        title: String::new(),
        geometry: Geometry {
            width: COMPANION_WIDTH,
            height: COMPANION_HEIGHT,
            x: 0,
            y: 0,
            placed: false,
        },
        flags: WindowFlags {
            transparent: true,
            always_on_top: true,
            decorations: false,
            resizable: false,
            skip_taskbar: true,
            focused: false,
            visible: true,
        },
    }
}

impl WindowRegistry {
    /// Registry invariant: names are unique keys.
    pub open spec fn wf(&self) -> bool {
        names_unique(self@)
    }

    /// An empty registry.
    pub fn new() -> (r: WindowRegistry)
        ensures
            r.wf(),
            r@ == Seq::<WindowDescriptor>::empty(),
    {
        WindowRegistry { windows: Vec::new() }
    }

    /// Number of registered windows.
    pub fn len(&self) -> (r: usize)
        ensures
            r == self@.len(),
    {
        self.windows.len()
    }

    /// Index of the window named `name`, if any.
    fn position(&self, name: &str) -> (r: Option<usize>)
        ensures
            match r {
                Some(i) => i < self@.len() && self@[i as int].name@ == name@,
                None => !has_window(self@, name@),
            },
    {
        let key = String::from_str(name);
        let mut i: usize = 0;
        while i < self.windows.len()
            invariant
                i <= self@.len(),
                key@ == name@,
                self@ == self.windows@,
                forall|j: int| 0 <= j < i ==> self@[j].name@ != name@,
            decreases self@.len() - i,
        {
            if self.windows[i].name == key {
                return Some(i);
            }
            i = i + 1;
        }
        None
    }

    /// Whether a window named `name` is registered.
    pub fn contains(&self, name: &str) -> (r: bool)
        ensures
            r == has_window(self@, name@),
    {
        self.position(name).is_some()
    }

    /// The window named `name`, if registered.
    pub fn get(&self, name: &str) -> (r: Option<&WindowDescriptor>)
        ensures
            match r {
                Some(d) => exists|i: int| 0 <= i < self@.len() && self@[i] == *d && d.name@ == name@,
                None => !has_window(self@, name@),
            },
    {
        match self.position(name) {
            Some(i) => Some(&self.windows[i]),
            None => None,
        }
    }

    /// Registers `d` unless a window of the same name exists, in which case
    /// the registry is left as it is. Returns whether `d` was added.
    pub fn register(&mut self, d: WindowDescriptor) -> (r: bool)
        requires
            old(self).wf(),
        ensures
            final(self).wf(),
            r == !has_window(old(self)@, d.name@),
            r ==> final(self)@ == old(self)@.push(d),
            !r ==> final(self)@ == old(self)@,
    {
        if self.position(d.name.as_str()).is_some() {
            false
        } else {
            proof {
                let s = self@.push(d);
                assert forall|i: int, j: int|
                    0 <= i < s.len() && 0 <= j < s.len() && #[trigger] s[i].name@ == #[trigger] s[j].name@
                    implies i == j by {
                    if i < self@.len() && j == self@.len() {
                        assert(s[i] == self@[i]);
                        assert(self@[i].name@ == d.name@);
                    }
                    if j < self@.len() && i == self@.len() {
                        assert(s[j] == self@[j]);
                        assert(self@[j].name@ == d.name@);
                    }
                    if i < self@.len() && j < self@.len() {
                        assert(s[i] == self@[i] && s[j] == self@[j]);
                    }
                }
            }
            self.windows.push(d);
            true
        }
    }

    /// First half of creating the companion window: `None` when it already
    /// exists (nothing to build), otherwise the descriptor the host must build.
    pub fn companion_request(&self) -> (r: Option<WindowDescriptor>)
        ensures
            r is None <==> has_window(self@, COMPANION_WINDOW@),
            r matches Some(d) ==> is_fresh_companion(d),
    {
        if self.contains(COMPANION_WINDOW) {
            None
        } else {
            Some(companion_descriptor())
        }
    }

    /// Second half of creating the companion window, given what the host
    /// reported for building its surface. On success the companion is
    /// registered (once); on failure the registry is unchanged and the
    /// host's message is returned.
    pub fn finish_companion(&mut self, built: Result<(), String>) -> (r: Result<(), WindowError>)
        requires
            old(self).wf(),
        ensures
            final(self).wf(),
            match built {
                Ok(()) => r is Ok && companion_ensured(old(self)@, final(self)@),
                Err(msg) => final(self)@ == old(self)@ && (r matches Err(WindowError::Creation(m)) && m == msg),
            },
    {
        match built {
            Ok(()) => {
                let d = companion_descriptor();
                let added = self.register(d);
                proof {
                    if added {
                        assert(self@.drop_last() =~= old(self)@);
                    }
                }
                Ok(())
            },
            Err(msg) => Err(WindowError::Creation(msg)),
        }
    }

    /// Moves the companion window to the bottom-right corner of a display of
    /// the given size. With no display known the registry is unchanged.
    pub fn place_companion(&mut self, screen: Option<(u32, u32)>)
        requires
            old(self).wf(),
        ensures
            final(self).wf(),
            final(self)@.len() == old(self)@.len(),
            forall|i: int|
                0 <= i < old(self)@.len() ==> #[trigger] final(self)@[i] == match screen {
                    Some((w, h)) => after_place(old(self)@[i], w, h),
                    None => old(self)@[i],
                },
    {
        if let Some((w, h)) = screen {
            let (x, y) = companion_position(w, h);
            let key = String::from_str(COMPANION_WINDOW);
            let mut i: usize = 0;
            while i < self.windows.len()
                invariant
                    i <= self@.len(),
                    key@ == COMPANION_WINDOW@,
                    x == placed_x(w as int),
                    y == placed_y(h as int),
                    self@ == self.windows@,
                    self@.len() == old(self)@.len(),
                    forall|j: int| 0 <= j < i ==> #[trigger] self@[j] == after_place(old(self)@[j], w, h),
                    forall|j: int| i <= j < self@.len() ==> #[trigger] self@[j] == old(self)@[j],
                decreases self@.len() - i,
            {
                if self.windows[i].name == key {
                    self.windows[i].geometry.x = x;
                    self.windows[i].geometry.y = y;
                    self.windows[i].geometry.placed = true;
                }
                i = i + 1;
            }
            proof {
                assert forall|a: int, b: int|
                    0 <= a < self@.len() && 0 <= b < self@.len() && #[trigger] self@[a].name@ == #[trigger] self@[b].name@
                    implies a == b by {
                    assert(self@[a].name == old(self)@[a].name);
                    assert(self@[b].name == old(self)@[b].name);
                }
            }
        }
    }

    /// Makes the main window visible and gives it input focus, taking focus
    /// from every other window. Fails when no main window is registered.
    pub fn show_main_window(&mut self) -> (r: Result<(), WindowError>)
        requires
            old(self).wf(),
        ensures
            final(self).wf(),
            r is Ok <==> has_window(old(self)@, MAIN_WINDOW@),
            r is Ok ==> main_shown(old(self)@, final(self)@),
            r is Err ==> final(self)@ == old(self)@,
            r matches Err(WindowError::NotFound(n)) ==> n@ == MAIN_WINDOW@,
            !(r matches Err(WindowError::Creation(_))),
            r matches Err(e) ==> error_message(e) == MAIN_WINDOW_MISSING@,
    {
        if !self.contains(MAIN_WINDOW) {
            return Err(WindowError::NotFound(String::from_str(MAIN_WINDOW)));
        }
        let key = String::from_str(MAIN_WINDOW);
        let mut i: usize = 0;
        while i < self.windows.len()
            invariant
                i <= self@.len(),
                key@ == MAIN_WINDOW@,
                self@ == self.windows@,
                self@.len() == old(self)@.len(),
                forall|j: int| 0 <= j < i ==> #[trigger] self@[j] == after_show_main(old(self)@[j]),
                forall|j: int| i <= j < self@.len() ==> #[trigger] self@[j] == old(self)@[j],
            decreases self@.len() - i,
        {
            if self.windows[i].name == key {
                self.windows[i].flags.visible = true;
                self.windows[i].flags.focused = true;
            } else {
                self.windows[i].flags.focused = false;
            }
            i = i + 1;
        }
        proof {
            assert forall|a: int, b: int|
                0 <= a < self@.len() && 0 <= b < self@.len() && #[trigger] self@[a].name@ == #[trigger] self@[b].name@
                implies a == b by {
                assert(self@[a].name == old(self)@[a].name);
                assert(self@[b].name == old(self)@[b].name);
            }
        }
        Ok(())
    }

    /// Sets the title of the window named `name`. Fails when no such window
    /// is registered.
    pub fn set_title(&mut self, name: &str, title: &str) -> (r: Result<(), WindowError>)
        requires
            old(self).wf(),
        ensures
            final(self).wf(),
            r is Ok <==> has_window(old(self)@, name@),
            r is Ok ==> title_set(old(self)@, final(self)@, name@, title@),
            r is Err ==> final(self)@ == old(self)@,
            r matches Err(WindowError::NotFound(n)) ==> n@ == name@,
            !(r matches Err(WindowError::Creation(_))),
    {
        match self.position(name) {
            None => Err(WindowError::NotFound(String::from_str(name))),
            Some(k) => {
                self.windows[k].title = String::from_str(title);
                proof {
                    assert forall|i: int| 0 <= i < old(self)@.len() && i != k implies
                        old(self)@[i].name@ != name@ by {
                        assert(old(self)@[i].name@ != old(self)@[k as int].name@);
                    }
                    assert forall|a: int, b: int|
                        0 <= a < self@.len() && 0 <= b < self@.len() && #[trigger] self@[a].name@ == #[trigger] self@[b].name@
                        implies a == b by {
                        assert(self@[a].name == old(self)@[a].name);
                        assert(self@[b].name == old(self)@[b].name);
                    }
                }
                Ok(())
            },
        }
    }
}

/// A name that occurs nowhere is counted zero times.
pub proof fn lemma_count_absent(s: Seq<WindowDescriptor>, name: Seq<char>)
    requires
        !has_window(s, name),
    ensures
        count_named(s, name) == 0,
    decreases s.len(),
{
    if s.len() > 0 {
        let t = s.drop_last();
        assert forall|i: int| 0 <= i < t.len() implies #[trigger] t[i].name@ != name by {
            assert(t[i] == s[i]);
        }
        assert(s.last() == s[s.len() - 1]);
        lemma_count_absent(t, name);
    }
}

/// Under unique names, a registered name is counted exactly once.
pub proof fn lemma_count_unique(s: Seq<WindowDescriptor>, name: Seq<char>)
    requires
        names_unique(s),
        has_window(s, name),
    ensures
        count_named(s, name) == 1,
    decreases s.len(),
{
    let t = s.drop_last();
    let n = s.len() - 1;
    assert(s.last() == s[n]);
    assert(names_unique(t)) by {
        assert forall|i: int, j: int|
            0 <= i < t.len() && 0 <= j < t.len() && #[trigger] t[i].name@ == #[trigger] t[j].name@
            implies i == j by {
            assert(t[i] == s[i] && t[j] == s[j]);
        }
    }
    if s[n].name@ == name {
        assert forall|i: int| 0 <= i < t.len() implies #[trigger] t[i].name@ != name by {
            assert(t[i] == s[i]);
        }
        lemma_count_absent(t, name);
    } else {
        let k = choose|k: int| 0 <= k < s.len() && #[trigger] s[k].name@ == name;
        assert(t[k] == s[k]);
        assert(has_window(t, name));
        lemma_count_unique(t, name);
    }
}

/// Creating the companion window twice in a row leaves exactly one window
/// named "companion", and the second creation changes nothing.
pub proof fn lemma_companion_created_once(
    s0: Seq<WindowDescriptor>,
    s1: Seq<WindowDescriptor>,
    s2: Seq<WindowDescriptor>,
)
    requires
        names_unique(s0),
        companion_ensured(s0, s1),
        companion_ensured(s1, s2),
    ensures
        names_unique(s1),
        has_window(s1, COMPANION_WINDOW@),
        count_named(s1, COMPANION_WINDOW@) == 1,
        s2 == s1,
{
    if has_window(s0, COMPANION_WINDOW@) {
        assert(s1 == s0);
    } else {
        let n = s0.len() as int;
        assert(s1.last() == s1[n]);
        assert(has_window(s1, COMPANION_WINDOW@));
        assert forall|i: int, j: int|
            0 <= i < s1.len() && 0 <= j < s1.len() && #[trigger] s1[i].name@ == #[trigger] s1[j].name@
            implies i == j by {
            if i < n {
                assert(s1[i] == s1.drop_last()[i]);
            }
            if j < n {
                assert(s1[j] == s1.drop_last()[j]);
            }
            if i < n && j == n {
                assert(s0[i].name@ == COMPANION_WINDOW@);
            }
            if j < n && i == n {
                assert(s0[j].name@ == COMPANION_WINDOW@);
            }
        }
    }
    lemma_count_unique(s1, COMPANION_WINDOW@);
}

/// Showing the main window twice in a row ends in the same state as showing
/// it once, with the main window visible and focused; both calls succeed.
pub proof fn lemma_show_main_idempotent(
    s0: Seq<WindowDescriptor>,
    s1: Seq<WindowDescriptor>,
    s2: Seq<WindowDescriptor>,
)
    requires
        has_window(s0, MAIN_WINDOW@),
        main_shown(s0, s1),
        main_shown(s1, s2),
    ensures
        has_window(s1, MAIN_WINDOW@),
        s2 == s1,
        forall|i: int|
            0 <= i < s1.len() && #[trigger] s1[i].name@ == MAIN_WINDOW@ ==> s1[i].flags.visible
                && s1[i].flags.focused,
{
    let k = choose|k: int| 0 <= k < s0.len() && #[trigger] s0[k].name@ == MAIN_WINDOW@;
    assert(s1[k] == after_show_main(s0[k]));
    assert(s1[k].name@ == MAIN_WINDOW@);
    assert forall|i: int| 0 <= i < s1.len() implies s2[i] == s1[i] by {
        assert(s1[i] == after_show_main(s0[i]));
        assert(s2[i] == after_show_main(s1[i]));
    }
    assert(s2 =~= s1);
    assert forall|i: int|
        0 <= i < s1.len() && #[trigger] s1[i].name@ == MAIN_WINDOW@ implies s1[i].flags.visible
            && s1[i].flags.focused by {
        assert(s1[i] == after_show_main(s0[i]));
    }
}

} // verus!
