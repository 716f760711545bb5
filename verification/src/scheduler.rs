//! The interval scheduler: a state machine that rotates the wallpaper on a
//! timer and obeys commands sent to it between two rotations.
//!
//! Time is counted in milliseconds on a clock that never runs backwards.
//! The caller waits, reads the clock and applies the wallpaper; every
//! decision is taken here.

use core::ops::ControlFlow;
use vstd::prelude::*;
use vstd::arithmetic::div_mod::{lemma_add_mod_noop_right, lemma_small_mod};
use crate::text::{first_exact, lemma_first_where, Matcher};
use crate::wallpaper_queue::{shown_index, WallpaperQueue};

verus! {

/// The interval between two rotations until a command sets another: one hour.
pub const DEFAULT_INTERVAL: u64 = 3_600_000;

/// What the scheduler can be told between two rotations.
#[derive(Clone, Copy, Debug, PartialEq, Eq, Structural)]
pub enum Command {
    /// Use this interval, in milliseconds, from the next rotation on.
    Interval(u64),
    /// Show the wallpaper at this index now and count a full interval from now.
    Index(usize),
    /// Stop for good.
    Shutdown,
}

/// The scheduler's state as contracts see it.
pub struct SchedulerView {
    /// Milliseconds between two rotations.
    pub interval: u64,
    /// The time at which the wait under way ends by itself.
    pub timeout: u128,
    /// Whether a command has ended the wait under way early.
    pub wait_ended: bool,
    /// Whether the scheduler has stopped for good.
    pub stopped: bool,
}

/// State of the interval scheduler. The timeout is the sum of a time and
/// an interval of 64 bits each and is kept in full.
pub struct Scheduler {
    interval: u64,
    timeout: u128,
    wait_ended: bool,
    stopped: bool,
}

/// The position after one rotation of a playlist of `len` paths.
pub open spec fn next_position(len: nat, position: int) -> int {
    if len == 0 {
        position
    } else {
        (position + 1) % (len as int)
    }
}

/// The path that a rotation applies: the one at the position, the last
/// one when the position is out of range, none when the playlist is empty.
pub open spec fn rotation_path(paths: Seq<Seq<char>>, position: int) -> Option<Seq<char>> {
    if paths.len() == 0 {
        None
    } else {
        Some(paths[shown_index(paths.len(), position)])
    }
}

/// The scheduler after `command`. A stopped scheduler obeys nothing.
pub open spec fn after_command(s: SchedulerView, command: Command) -> SchedulerView {
    if s.stopped {
        s
    } else {
        match command {
            Command::Interval(interval) => SchedulerView { interval, ..s },
            Command::Index(_) => SchedulerView { wait_ended: true, ..s },
            Command::Shutdown => SchedulerView { stopped: true, ..s },
        }
    }
}

/// The position after `command`.
pub open spec fn position_after_command(s: SchedulerView, position: int, command: Command) -> int {
    match command {
        Command::Index(index) if !s.stopped => index as int,
        _ => position,
    }
}

/// Whether the scheduler goes on after `command`: it does unless it has
/// stopped or is told to.
pub open spec fn goes_on(s: SchedulerView, command: Command) -> bool {
    !s.stopped && command != Command::Shutdown
}

/// The scheduler after a wait that ended at `now`, by itself or early. A
/// stopped scheduler starts no new wait.
pub open spec fn after_wait(s: SchedulerView, now: u64) -> SchedulerView {
    if s.stopped {
        s
    } else {
        SchedulerView { timeout: (now + s.interval) as u128, wait_ended: false, ..s }
    }
}

/// The position after a rotation. A stopped scheduler does not rotate.
pub open spec fn position_after_rotation(s: SchedulerView, len: nat, position: int) -> int {
    if s.stopped {
        position
    } else {
        next_position(len, position)
    }
}

/// The path that a rotation hands out to be applied. A stopped scheduler
/// hands out none.
pub open spec fn applied_path(s: SchedulerView, paths: Seq<Seq<char>>, position: int) -> Option<
    Seq<char>,
> {
    if s.stopped {
        None
    } else {
        rotation_path(paths, position)
    }
}

impl Scheduler {
    /// The state as contracts see it.
    pub closed spec fn view(&self) -> SchedulerView {
        SchedulerView {
            interval: self.interval,
            timeout: self.timeout,
            wait_ended: self.wait_ended,
            stopped: self.stopped,
        }
    }

    /// A running scheduler whose first wait ends one default interval after `now`.
    pub fn start(now: u64) -> (r: Scheduler)
        ensures
            r@ == (SchedulerView {
                interval: DEFAULT_INTERVAL,
                timeout: (now + DEFAULT_INTERVAL) as u128,
                wait_ended: false,
                stopped: false,
            }),
    {
        Scheduler {
            interval: DEFAULT_INTERVAL,
            timeout: now as u128 + DEFAULT_INTERVAL as u128,
            wait_ended: false,
            stopped: false,
        }
    }

    /// Milliseconds between two rotations.
    pub fn interval(&self) -> (r: u64)
        ensures
            r == self@.interval,
    {
        self.interval
    }

    /// The time at which the wait under way ends by itself.
    pub fn timeout(&self) -> (r: u128)
        ensures
            r == self@.timeout,
    {
        self.timeout
    }

    /// Whether a command has ended the wait under way early.
    pub fn wait_ended(&self) -> (r: bool)
        ensures
            r == self@.wait_ended,
    {
        self.wait_ended
    }

    /// Whether the scheduler has stopped for good.
    pub fn is_stopped(&self) -> (r: bool)
        ensures
            r == self@.stopped,
    {
        self.stopped
    }

    /// Obeys one command and says whether the scheduler goes on.
    ///
    /// A new interval counts from the next rotation on and leaves the wait
    /// under way alone. A jump puts the position at the index and ends the
    /// wait under way. A shutdown stops the scheduler, which then stays
    /// stopped and obeys nothing more.
    pub fn handle_command(&mut self, command: Command, wq: &mut WallpaperQueue) -> (r: ControlFlow<
        (),
        (),
    >)
        ensures
            final(self)@ == after_command(old(self)@, command),
            final(wq).paths() == old(wq).paths(),
            final(wq).label() == old(wq).label(),
            final(wq).position() == position_after_command(
                old(self)@,
                old(wq).position(),
                command,
            ),
            r == if goes_on(old(self)@, command) {
                ControlFlow::<(), ()>::Continue(())
            } else {
                ControlFlow::<(), ()>::Break(())
            },
    {
        if self.stopped {
            return ControlFlow::Break(());
        }
        match command {
            Command::Interval(interval) => {
                self.interval = interval;
            },
            Command::Index(index) => {
                wq.set_current_index(index);
                self.wait_ended = true;
            },
            Command::Shutdown => {
                self.stopped = true;
                return ControlFlow::Break(());
            },
        }
        ControlFlow::Continue(())
    }

    /// One rotation: picks the wallpaper to apply and moves the position on
    /// by one, around the end of the playlist. An empty playlist gives no
    /// wallpaper and keeps the position. A stopped scheduler does not
    /// rotate: it gives no wallpaper and keeps the position.
    pub fn do_interval_task(&self, wq: &mut WallpaperQueue) -> (wallpaper: Option<String>)
        ensures
            final(wq).paths() == old(wq).paths(),
            final(wq).label() == old(wq).label(),
            final(wq).position() == position_after_rotation(
                self@,
                old(wq).paths().len(),
                old(wq).position(),
            ),
            !self@.stopped ==> final(wq).wf(),
            match wallpaper {
                Some(path) => applied_path(self@, old(wq).paths(), old(wq).position()) == Some(
                    path@,
                ),
                None => applied_path(self@, old(wq).paths(), old(wq).position()) is None,
            },
    {
        if self.stopped {
            return None;
        }
        let len = wq.len();
        if len == 0 {
            return None;
        }
        let index = wq.current_index();
        let shown: usize = if index < len {
            index
        } else {
            len - 1
        };
        let wallpaper: Option<String> = match wq.get_by_index(shown) {
            Some(path) => Some(path.clone()),
            None => None,
        };
        let reduced: usize = index % len;
        let next: usize = if reduced == len - 1 {
            0
        } else {
            reduced + 1
        };
        proof {
            lemma_add_mod_noop_right(1, index as int, len as int);
            if reduced == len - 1 {
                assert((1 + reduced) % (len as int) == 0) by (nonlinear_arith)
                    requires
                        1 + reduced == len,
                        len > 0,
                ;
            } else {
                lemma_small_mod((1 + reduced) as nat, len as nat);
            }
        }
        wq.set_current_index(next);
        wallpaper
    }

    /// Ends a wait at `now`, whether its time was up or a command ended it:
    /// does one rotation and starts a wait of one full interval from `now`.
    /// A stopped scheduler does neither and stays as it is.
    pub fn end_wait(&mut self, wq: &mut WallpaperQueue, now: u64) -> (wallpaper: Option<String>)
        ensures
            final(self)@ == after_wait(old(self)@, now),
            final(wq).paths() == old(wq).paths(),
            final(wq).label() == old(wq).label(),
            final(wq).position() == position_after_rotation(
                old(self)@,
                old(wq).paths().len(),
                old(wq).position(),
            ),
            !old(self)@.stopped ==> final(wq).wf(),
            match wallpaper {
                Some(path) => applied_path(old(self)@, old(wq).paths(), old(wq).position())
                    == Some(path@),
                None => applied_path(old(self)@, old(wq).paths(), old(wq).position()) is None,
            },
    {
        if self.stopped {
            return None;
        }
        let wallpaper = self.do_interval_task(wq);
        self.timeout = now as u128 + self.interval as u128;
        self.wait_ended = false;
        wallpaper
    }
}

/// Switching to a wallpaper that the playlist holds, while the scheduler
/// runs, puts the position at the first index of its path and ends the
/// wait under way; the rotation that follows at `now` applies that very
/// path and starts a wait that ends one full interval after `now`,
/// whatever the earlier timeout was.
pub proof fn switch_sets_position_and_restarts_timer(
    s: SchedulerView,
    paths: Seq<Seq<char>>,
    position: int,
    bg: Seq<char>,
    index: usize,
    now: u64,
)
    requires
        !s.stopped,
        first_exact(paths, bg) == Some(index as int),
    ensures
        position_after_command(s, position, Command::Index(index)) == index,
        after_command(s, Command::Index(index)).wait_ended,
        after_command(s, Command::Index(index)).interval == s.interval,
        applied_path(
            after_command(s, Command::Index(index)),
            paths,
            position_after_command(s, position, Command::Index(index)),
        ) == Some(bg),
        after_wait(after_command(s, Command::Index(index)), now).timeout == now + s.interval,
        !after_wait(after_command(s, Command::Index(index)), now).wait_ended,
{
    lemma_first_where(paths, Matcher::Exact(bg));
}

/// A shutdown is final: the scheduler is stopped after it, and a stopped
/// scheduler stays as it is whatever command or wait follows. It goes on
/// after no command, hands out no wallpaper and leaves the position alone.
pub proof fn shutdown_is_final(
    s: SchedulerView,
    command: Command,
    paths: Seq<Seq<char>>,
    position: int,
    now: u64,
)
    ensures
        after_command(s, Command::Shutdown).stopped,
        s.stopped ==> {
            &&& after_command(s, command) == s
            &&& after_wait(s, now) == s
            &&& !goes_on(s, command)
            &&& position_after_command(s, position, command) == position
            &&& position_after_rotation(s, paths.len(), position) == position
            &&& applied_path(s, paths, position) is None
        },
{
}

} // verus!
