use vstd::prelude::*;

verus! {

/// Key combination that toggles the window on Apple platforms.
pub open spec fn apple_shortcut() -> Seq<char> {
    "cmd+shift+s"@
}

/// Key combination that toggles the window on other platforms.
pub open spec fn default_shortcut() -> Seq<char> {
    "ctrl+shift+s"@
}

/// The key combination that toggles the window: Cmd+Shift+S on Apple
/// platforms, Ctrl+Shift+S elsewhere.
pub fn toggle_shortcut(apple: bool) -> (r: &'static str)
    ensures
        r@ == if apple {
            apple_shortcut()
        } else {
            default_shortcut()
        },
{
    if apple {
        "cmd+shift+s"
    } else {
        "ctrl+shift+s"
    }
}

/// Whether the global shortcut has been registered in this run. Setup may
/// run more than once; the shortcut is registered on the first success only.
pub struct ShortcutRegistration {
    registered: bool,
}

impl View for ShortcutRegistration {
    type V = bool;

    closed spec fn view(&self) -> bool {
        self.registered
    }
}

impl ShortcutRegistration {
    /// Nothing registered yet.
    pub fn new() -> (r: Self)
        ensures
            !r@,
    {
        ShortcutRegistration { registered: false }
    }

    /// Whether a setup should register the shortcut: it has not been yet.
    pub fn needs_registration(&self) -> (r: bool)
        ensures
            r == !self@,
    {
        !self.registered
    }

    /// Records a successful registration; later setups skip it.
    pub fn mark_registered(&mut self)
        ensures
            final(self)@,
    {
        self.registered = true;
    }
}

} // verus!
