//! The lifecycle of one browser window.
//!
//! A window goes from `Open` to `CloseRequested` when `close` is asked for,
//! and to `Closed` when the engine confirms that it is gone. Its backing
//! object is freed once, at the moment the window is closed and no handle to
//! it is left; until then every handle stays usable, and operations on a
//! window that is no longer open fail with a defined error.
use vstd::prelude::*;

verus! {

#[derive(Clone, Copy, PartialEq, Eq, Structural, Debug)]
pub enum WindowPhase {
    Open,
    CloseRequested,
    Closed,
}

/// Why an operation on a window cannot be carried out.
#[derive(Clone, Copy, PartialEq, Eq, Debug)]
pub enum WindowError {
    /// The window was closed, or its closing was requested.
    Closed,
    /// The window's backing object has been freed.
    Destroyed,
}

#[derive(Clone, Copy, Debug)]
pub struct WindowState {
    phase: WindowPhase,
    handles: u64,
}

impl WindowState {
    pub closed spec fn phase(&self) -> WindowPhase {
        self.phase
    }

    /// How many handles to the window are held.
    pub closed spec fn handles(&self) -> u64 {
        self.handles
    }

    /// The backing object is freed: the window is closed and unreferenced.
    pub open spec fn is_destroyed(&self) -> bool {
        self.phase() == WindowPhase::Closed && self.handles() == 0
    }

    /// What an operation on the window meets in this state.
    pub open spec fn access(&self) -> Result<(), WindowError> {
        if self.is_destroyed() {
            Err(WindowError::Destroyed)
        } else if self.phase() == WindowPhase::Open {
            Ok(())
        } else {
            Err(WindowError::Closed)
        }
    }

    /// `next` and `r` are what `acquire` leaves and returns on `self`.
    pub open spec fn acquired(&self, r: bool, next: Self) -> bool {
        &&& r <==> (!self.is_destroyed() && self.handles() < u64::MAX)
        &&& next.phase() == self.phase()
        &&& next.handles() == if r {
            self.handles() + 1
        } else {
            self.handles() as int
        }
    }

    /// `next` and `r` are what `release` leaves and returns on `self`.
    pub open spec fn released(&self, r: bool, next: Self) -> bool {
        &&& next.phase() == self.phase()
        &&& next.handles() == if self.handles() > 0 {
            self.handles() - 1
        } else {
            0
        }
        &&& r == (!self.is_destroyed() && next.is_destroyed())
    }

    /// A window that was just created, referred to by one handle.
    pub fn open() -> (r: Self)
        ensures
            r.phase() == WindowPhase::Open,
            r.handles() == 1,
    {
        WindowState { phase: WindowPhase::Open, handles: 1 }
    }

    pub fn phase_now(&self) -> (r: WindowPhase)
        ensures
            r == self.phase(),
    {
        self.phase
    }

    pub fn handle_count(&self) -> (r: u64)
        ensures
            r == self.handles(),
    {
        self.handles
    }

    /// Checks whether an operation may be carried out on the window.
    pub fn check_access(&self) -> (r: Result<(), WindowError>)
        ensures
            r == self.access(),
    {
        if self.phase == WindowPhase::Closed && self.handles == 0 {
            Err(WindowError::Destroyed)
        } else if self.phase == WindowPhase::Open {
            Ok(())
        } else {
            Err(WindowError::Closed)
        }
    }

    /// Registers one more handle. A destroyed window gets none, and neither
    /// does one whose count would overflow.
    pub fn acquire(&mut self) -> (r: bool)
        ensures
            old(self).acquired(r, *final(self)),
    {
        if (self.phase == WindowPhase::Closed && self.handles == 0) || self.handles == u64::MAX {
            false
        } else {
            self.handles = self.handles + 1;
            true
        }
    }

    /// Asks for the window to close; only an open window changes.
    pub fn request_close(&mut self)
        ensures
            final(self).handles() == old(self).handles(),
            final(self).phase() == if old(self).phase() == WindowPhase::Open {
                WindowPhase::CloseRequested
            } else {
                old(self).phase()
            },
    {
        if self.phase == WindowPhase::Open {
            self.phase = WindowPhase::CloseRequested;
        }
    }

    /// The engine reports the window gone. Returns whether the backing object
    /// must be freed now, which is when no handle is left.
    pub fn confirm_closed(&mut self) -> (free_now: bool)
        ensures
            final(self).phase() == WindowPhase::Closed,
            final(self).handles() == old(self).handles(),
            free_now == (!old(self).is_destroyed() && final(self).is_destroyed()),
    {
        let was_destroyed = self.phase == WindowPhase::Closed && self.handles == 0;
        self.phase = WindowPhase::Closed;
        !was_destroyed && self.handles == 0
    }

    /// One handle is dropped. Returns whether the backing object must be
    /// freed now, which is when the window is closed and this was the last
    /// handle. Without handles nothing changes.
    pub fn release(&mut self) -> (free_now: bool)
        ensures
            old(self).released(free_now, *final(self)),
    {
        if self.handles == 0 {
            return false;
        }
        self.handles = self.handles - 1;
        self.phase == WindowPhase::Closed && self.handles == 0
    }
}

/// While a handle is held the window is not destroyed: an operation meets
/// either success, on an open window, or the `Closed` error, never
/// `Destroyed`.
pub proof fn lemma_held_window_usable(s: WindowState)
    requires
        s.handles() > 0,
    ensures
        !s.is_destroyed(),
        s.access() is Ok <==> s.phase() == WindowPhase::Open,
        s.access() is Err ==> s.access() == Err::<(), WindowError>(WindowError::Closed),
{
}

/// A destroyed window stays destroyed: no handle can be acquired, and a
/// release neither changes it nor asks to free it again.
pub proof fn lemma_freed_once(
    s: WindowState,
    acquired: bool,
    s1: WindowState,
    released: bool,
    s2: WindowState,
)
    requires
        s.is_destroyed(),
        s.acquired(acquired, s1),
        s1.released(released, s2),
    ensures
        !acquired,
        !released,
        s2.is_destroyed(),
        s2.access() == Err::<(), WindowError>(WindowError::Destroyed),
{
}

} // verus!
