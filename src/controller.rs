use vstd::prelude::*;

use crate::clock::millis_since;

verus! {

/// Protection delay after a show, in milliseconds, during which a focus loss
/// does not hide the window.
pub const DEFAULT_BLUR_HIDE_DELAY_MS: u64 = 3000;

/// What a controller holds, as plain values.
pub ghost struct ControllerView {
    /// Time of the last show, in milliseconds on the controller's timeline.
    pub last_show_ms: u64,
    /// Last monitor resolution seen by the resize check.
    pub last_monitor_size: Option<(u32, u32)>,
    /// Last focus state reported by the host.
    pub focused: bool,
}

/// Milliseconds from `last_show_ms` to `now_ms`; zero where `now_ms` lies
/// before `last_show_ms`.
pub open spec fn elapsed_ms(last_show_ms: u64, now_ms: u64) -> int {
    if now_ms >= last_show_ms {
        now_ms - last_show_ms
    } else {
        0
    }
}

/// A focus loss at `now_ms` hides the window: the protection delay after the
/// last show has passed, strictly.
pub open spec fn blur_expired(last_show_ms: u64, now_ms: u64, delay_ms: u64) -> bool {
    elapsed_ms(last_show_ms, now_ms) > delay_ms
}

/// The time of the last show after a show at `now_ms`: the later of the two,
/// so that it never moves back.
pub open spec fn shown_at(last_show_ms: u64, now_ms: u64) -> u64 {
    if now_ms >= last_show_ms {
        now_ms
    } else {
        last_show_ms
    }
}

/// A monitor of resolution `size` calls for a resize: it differs from the
/// last one seen, or none was seen yet.
pub open spec fn resize_needed(last: Option<(u32, u32)>, size: (u32, u32)) -> bool {
    last != Some(size)
}

/// State of the window controller: when the window was last shown, the last
/// monitor resolution seen, and the last reported focus state.
///
/// Times are milliseconds since the controller was created, read from the
/// monotonic clock. The `_at` methods take the time as an argument.
pub struct WindowController {
    origin: std::time::Instant,
    last_show_ms: u64,
    last_monitor_size: Option<(u32, u32)>,
    focused: bool,
}

impl View for WindowController {
    type V = ControllerView;

    closed spec fn view(&self) -> ControllerView {
        ControllerView {
            last_show_ms: self.last_show_ms,
            last_monitor_size: self.last_monitor_size,
            focused: self.focused,
        }
    }
}

impl Clone for WindowController {
    fn clone(&self) -> (r: Self)
        ensures
            r@ == self@,
    {
        WindowController {
            origin: self.origin,
            last_show_ms: self.last_show_ms,
            last_monitor_size: self.last_monitor_size,
            focused: self.focused,
        }
    }
}

impl WindowController {
    /// A controller whose window counts as shown now, with no monitor
    /// resolution seen and no focus.
    pub fn new() -> (r: Self)
        ensures
            r@.last_show_ms == 0,
            r@.last_monitor_size == None::<(u32, u32)>,
            !r@.focused,
    {
        WindowController {
            origin: std::time::Instant::now(),
            last_show_ms: 0,
            last_monitor_size: None,
            focused: false,
        }
    }

    /// Milliseconds since the controller was created.
    pub fn now_ms(&self) -> u64 {
        millis_since(&self.origin)
    }

    /// Time of the last show, in milliseconds since the controller was
    /// created.
    pub fn last_show_time(&self) -> (r: u64)
        ensures
            r == self@.last_show_ms,
    {
        self.last_show_ms
    }

    /// Whether a focus loss at `now_ms` hides the window: more than
    /// `delay_ms` milliseconds have passed since the last show. Exactly
    /// `delay_ms` is still inside the protection window.
    pub fn should_hide_on_blur_at(&self, now_ms: u64, delay_ms: u64) -> (r: bool)
        ensures
            r == blur_expired(self@.last_show_ms, now_ms, delay_ms),
            now_ms >= self@.last_show_ms ==> (r <==> now_ms - self@.last_show_ms > delay_ms),
    {
        let elapsed: u64 = if now_ms >= self.last_show_ms {
            now_ms - self.last_show_ms
        } else {
            0
        };
        elapsed > delay_ms
    }

    /// Whether a focus loss now hides the window (see `should_hide_on_blur_at`).
    pub fn should_hide_on_blur(&self, delay_ms: u64) -> (r: bool)
        ensures
            exists|now_ms: u64| r == #[trigger] blur_expired(self@.last_show_ms, now_ms, delay_ms),
    {
        let now: u64 = self.now_ms();
        self.should_hide_on_blur_at(now, delay_ms)
    }

    /// Records a show at `now_ms`. The time of the last show never moves
    /// back: a reading before it leaves it as it is.
    pub fn mark_shown_at(&mut self, now_ms: u64)
        ensures
            final(self)@ == (ControllerView {
                last_show_ms: shown_at(old(self)@.last_show_ms, now_ms),
                ..old(self)@
            }),
    {
        if now_ms >= self.last_show_ms {
            self.last_show_ms = now_ms;
        }
    }

    /// Records a show now.
    pub fn mark_shown(&mut self)
        ensures
            exists|now_ms: u64| final(self)@ == (ControllerView {
                last_show_ms: #[trigger] shown_at(old(self)@.last_show_ms, now_ms),
                ..old(self)@
            }),
            final(self)@.last_show_ms >= old(self)@.last_show_ms,
    {
        let now: u64 = self.now_ms();
        self.mark_shown_at(now);
    }

    /// Change detection for the monitor resolution: true where `monitor_size`
    /// differs from the last one seen (or none was seen), which it then
    /// stores; false where it is the same.
    pub fn needs_resize(&mut self, monitor_size: (u32, u32)) -> (r: bool)
        ensures
            r == resize_needed(old(self)@.last_monitor_size, monitor_size),
            final(self)@ == (ControllerView {
                last_monitor_size: Some(monitor_size),
                ..old(self)@
            }),
    {
        let changed: bool = match self.last_monitor_size {
            Some(s) => s.0 != monitor_size.0 || s.1 != monitor_size.1,
            None => true,
        };
        if changed {
            self.last_monitor_size = Some(monitor_size);
        }
        changed
    }

    /// Records the focus state that the host reported last.
    pub fn set_focused(&mut self, focused: bool)
        ensures
            final(self)@ == (ControllerView { focused, ..old(self)@ }),
    {
        self.focused = focused;
    }

    /// The focus state that the host reported last.
    pub fn is_focused(&self) -> (r: bool)
        ensures
            r == self@.focused,
    {
        self.focused
    }

    /// Sets the time of the last show, in milliseconds since the controller
    /// was created, so that tests can place it on the timeline.
    pub fn set_last_show_time_for_test(&mut self, ms: u64)
        ensures
            final(self)@ == (ControllerView { last_show_ms: ms, ..old(self)@ }),
    {
        self.last_show_ms = ms;
    }
}

/// Right after a show, a focus loss does not hide the window, whatever the
/// protection delay: no time has passed since the show.
pub proof fn lemma_shown_window_is_protected(last_show_ms: u64, now_ms: u64, delay_ms: u64)
    ensures
        !blur_expired(shown_at(last_show_ms, now_ms), now_ms, delay_ms),
        shown_at(last_show_ms, now_ms) >= last_show_ms,
{
}

/// A resolution calls for a resize once. The first check of `size` on a
/// controller that has seen no monitor reports a change; once `size` is
/// stored, a second check of it reports none, and a check of any other
/// resolution reports a change again.
pub proof fn lemma_resize_once_per_resolution(size: (u32, u32), other: (u32, u32))
    requires
        other != size,
    ensures
        resize_needed(None, size),
        !resize_needed(Some(size), size),
        resize_needed(Some(size), other),
{
}

} // verus!
