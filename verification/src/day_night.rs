//! The day and night engine: two stored playlists, `DAY` and `NIGHT`, that
//! take turns as the live playlist.

use vstd::prelude::*;
use crate::queue::{daytime_of, is_variant_or_none, BackgroundIterable, Queue, SwapQueue};
use crate::row_types::DayNightEnabled;
use crate::text::paths_of;

verus! {

/// A new time of day, hour and minute, for one of the two switches.
#[derive(Clone, Copy, Debug, PartialEq, Eq, Structural)]
pub enum ScheduleChange {
    Day(u8, u8),
    Night(u8, u8),
}

/// Why the setting that switches the engine on could not be read.
#[derive(Debug)]
pub enum EnabledError<E> {
    /// The store failed.
    Store(E),
    /// The setting is stored without a value.
    Unset,
}

/// The answer to a request that the engine does not serve yet.
#[derive(Clone, Copy, Debug, PartialEq, Eq, Structural)]
pub struct NotSupported;

/// The live playlist and the two variants, as the laws of switching see them.
pub struct Playlists {
    /// The label of the live playlist.
    pub label: Option<Seq<char>>,
    /// The paths of the live playlist.
    pub live: Seq<Seq<char>>,
    /// The paths of the day variant.
    pub day: Seq<Seq<char>>,
    /// The paths of the night variant.
    pub night: Seq<Seq<char>>,
}

/// The playlists after a switch to the variant that `spec` names. The
/// variant's paths go live under its label; the paths that were live go
/// back into the variant whose label they bore, if they bore one.
pub open spec fn after_switch(p: Playlists, spec: Seq<char>) -> Playlists {
    Playlists {
        label: Some(spec),
        live: if spec == "DAY"@ {
            p.day
        } else {
            p.night
        },
        day: if daytime_of(p.label) == Some(true) {
            p.live
        } else {
            p.day
        },
        night: if daytime_of(p.label) == Some(false) {
            p.live
        } else {
            p.night
        },
    }
}

/// Whether the two variants bear their labels, `DAY` first and `NIGHT` second.
pub open spec fn labelled(queues: (SwapQueue, SwapQueue)) -> bool {
    queues.0.label() == Some("DAY"@) && queues.1.label() == Some("NIGHT"@)
}

/// The live playlist and the two variants as `Playlists`.
pub open spec fn playlists_of(active_queue: Queue, queues: (SwapQueue, SwapQueue)) -> Playlists {
    Playlists {
        label: active_queue.label(),
        live: active_queue.paths(),
        day: queues.0.paths(),
        night: queues.1.paths(),
    }
}

/// Whether the stored setting says that the engine is switched on: any
/// value but zero does.
pub fn check_enabled<E>(row: Result<DayNightEnabled, E>) -> (r: Result<bool, EnabledError<E>>)
    ensures
        match row {
            Ok(setting) => match setting.enabled {
                Some(n) => r matches Ok(b) && b == (n != 0),
                None => r matches Err(EnabledError::Unset),
            },
            Err(e) => r matches Err(EnabledError::Store(cause)) && cause == e,
        },
{
    match row {
        Ok(setting) => match setting.enabled {
            Some(n) => Ok(n != 0),
            None => Err(EnabledError::Unset),
        },
        Err(e) => Err(EnabledError::Store(e)),
    }
}

/// The two variants out of what the store gave for each: both labelled, or
/// the failure of each read that failed.
pub fn init_day_night_queue<E>(day: Result<Vec<String>, E>, night: Result<Vec<String>, E>) -> (r:
    Result<(SwapQueue, SwapQueue), (Option<E>, Option<E>)>)
    ensures
        match (day, night) {
            (Ok(day_paths), Ok(night_paths)) => r matches Ok(queues) && labelled(queues)
                && queues.0.paths() == paths_of(day_paths@) && queues.1.paths() == paths_of(
                night_paths@,
            ),
            (Ok(_), Err(e)) => r matches Err(failed) && failed == (None::<E>, Some(e)),
            (Err(e), Ok(_)) => r matches Err(failed) && failed == (Some(e), None::<E>),
            (Err(d), Err(n)) => r matches Err(failed) && failed == (Some(d), Some(n)),
        },
{
    match (day, night) {
        (Ok(day_paths), Ok(night_paths)) => Ok(
            (
                SwapQueue::new(Some("DAY".to_owned()), day_paths),
                SwapQueue::new(Some("NIGHT".to_owned()), night_paths),
            ),
        ),
        (Ok(_), Err(e)) => Err((None, Some(e))),
        (Err(e), Ok(_)) => Err((Some(e), None)),
        (Err(d), Err(n)) => Err((Some(d), Some(n))),
    }
}

/// Puts the variant that `spec` names, `DAY` or `NIGHT`, on show, and
/// puts what was on show back into its own variant. Answers with what is
/// to be written to storage: whether the playlist taken off show is the
/// day variant, and its paths; nothing when it bore no label.
pub fn switch_active_queue_to(
    spec: &str,
    dnqs: &mut (SwapQueue, SwapQueue),
    active_queue: &mut Queue,
) -> (r: Option<(bool, Vec<String>)>)
    requires
        spec@ == "DAY"@ || spec@ == "NIGHT"@,
        labelled(*old(dnqs)),
        is_variant_or_none(old(active_queue).label()),
    ensures
        labelled(*final(dnqs)),
        is_variant_or_none(final(active_queue).label()),
        playlists_of(*final(active_queue), *final(dnqs)) == after_switch(
            playlists_of(*old(active_queue), *old(dnqs)),
            spec@,
        ),
        match r {
            Some((daytime, rows)) => daytime_of(old(active_queue).label()) == Some(daytime)
                && paths_of(rows@) == old(active_queue).paths(),
            None => old(active_queue).label() is None,
        },
{
    proof {
        reveal_strlit("DAY");
        reveal_strlit("NIGHT");
        assert("DAY"@.len() != "NIGHT"@.len());
    }
    let prev = if crate::text::same_text(spec, "DAY") {
        active_queue.swap_with(&dnqs.0)
    } else {
        active_queue.swap_with(&dnqs.1)
    };
    prev.save_state(dnqs)
}

/// The engine's state as contracts see it.
pub struct DayNightView {
    /// Whether the engine is switched on.
    pub enabled: bool,
    /// Whether the job that switches at the scheduled times is running.
    pub cron: bool,
    /// The paths of the day variant.
    pub day: Seq<Seq<char>>,
    /// The paths of the night variant.
    pub night: Seq<Seq<char>>,
}

/// The day and night engine: the setting, the state of the job that
/// switches at the scheduled times, and the two variants.
pub struct DayNightQueue {
    enabled: bool,
    cron: bool,
    day_night_queue: (SwapQueue, SwapQueue),
}

impl DayNightQueue {
    /// The state as contracts see it.
    pub closed spec fn view(&self) -> DayNightView {
        DayNightView {
            enabled: self.enabled,
            cron: self.cron,
            day: self.day_night_queue.0.paths(),
            night: self.day_night_queue.1.paths(),
        }
    }

    /// Whether the two variants bear their labels, `DAY` and `NIGHT`.
    pub closed spec fn variants_labelled(&self) -> bool {
        labelled(self.day_night_queue)
    }

    /// The two variants bear their labels, and the job runs exactly when
    /// the engine is switched on. Every engine that `new` made is so, and
    /// every function of the engine keeps it so.
    pub open spec fn wf(&self) -> bool {
        self.variants_labelled() && self@.cron == self@.enabled
    }

    /// An engine over the two variants; the job runs from the start when
    /// the engine is switched on.
    pub fn new(enabled: bool, queues: (SwapQueue, SwapQueue)) -> (r: DayNightQueue)
        requires
            labelled(queues),
        ensures
            r@ == (DayNightView {
                enabled,
                cron: enabled,
                day: queues.0.paths(),
                night: queues.1.paths(),
            }),
            r.wf(),
    {
        DayNightQueue { enabled, cron: enabled, day_night_queue: queues }
    }

    /// Whether the engine is switched on.
    pub fn is_enabled(&self) -> (r: bool)
        ensures
            r == self@.enabled,
    {
        self.enabled
    }

    /// Whether the job that switches at the scheduled times is running.
    pub fn cron_running(&self) -> (r: bool)
        ensures
            r == self@.cron,
    {
        self.cron
    }

    /// A copy of the paths of the day variant.
    pub fn day_queue(&self) -> (r: Vec<String>)
        ensures
            paths_of(r@) == self@.day,
    {
        crate::text::clone_paths(self.day_night_queue.0.as_vec())
    }

    /// A copy of the paths of the night variant.
    pub fn night_queue(&self) -> (r: Vec<String>)
        ensures
            paths_of(r@) == self@.night,
    {
        crate::text::clone_paths(self.day_night_queue.1.as_vec())
    }

    /// Takes in the outcome of writing the setting `b` to storage, as the
    /// number of rows that the write changed or the store's failure, and
    /// answers whether the setting changed.
    ///
    /// A failed write, a write that changed no row and a setting that is
    /// `b` already leave the engine as it is. Otherwise the engine is
    /// switched to `b`, and the job is started or stopped with it.
    pub fn set_enabled<E>(&mut self, b: bool, written: Result<u64, E>) -> (r: Result<bool, E>)
        ensures
            match written {
                Ok(rows) => r matches Ok(changed) && changed == (rows > 0 && old(self)@.enabled
                    != b),
                Err(e) => r matches Err(cause) && cause == e,
            },
            final(self)@ == if r == Ok::<bool, E>(true) {
                DayNightView { enabled: b, cron: b, ..old(self)@ }
            } else {
                old(self)@
            },
            final(self).variants_labelled() == old(self).variants_labelled(),
            old(self).wf() ==> final(self).wf(),
    {
        let rows = match written {
            Ok(rows) => rows,
            Err(e) => {
                return Err(e);
            },
        };
        let changed = rows > 0 && self.enabled != b;
        if changed {
            self.enabled = b;
            if b {
                self.start_cron();
            } else {
                self.stop_cron();
            }
        }
        Ok(changed)
    }

    /// Changing the times of the switches is not served yet: every
    /// request is refused and nothing changes.
    pub fn change_schedule(&self, spec: ScheduleChange) -> (r: Result<(), NotSupported>)
        ensures
            r is Err,
    {
        Err(NotSupported)
    }

    /// Starts the job where the engine is on and the job does not run,
    /// and says whether it has to be started now. An engine that is off
    /// gets no job, and a job that runs is not started again.
    pub fn start_cron(&mut self) -> (start: bool)
        ensures
            start == (old(self)@.enabled && !old(self)@.cron),
            final(self)@ == (DayNightView {
                cron: old(self)@.cron || old(self)@.enabled,
                ..old(self)@
            }),
            final(self).variants_labelled() == old(self).variants_labelled(),
            old(self).wf() ==> final(self).wf(),
    {
        let start = self.enabled && !self.cron;
        if start {
            self.cron = true;
        }
        start
    }

    /// Stops the job where the engine is off and the job runs, and says
    /// whether it has to be stopped now. The job of an engine that is on
    /// goes on.
    pub fn stop_cron(&mut self) -> (stop: bool)
        ensures
            stop == (!old(self)@.enabled && old(self)@.cron),
            final(self)@ == (DayNightView {
                cron: old(self)@.cron && old(self)@.enabled,
                ..old(self)@
            }),
            final(self).variants_labelled() == old(self).variants_labelled(),
            old(self).wf() ==> final(self).wf(),
    {
        let stop = !self.enabled && self.cron;
        if stop {
            self.cron = false;
        }
        stop
    }

    /// Puts the variant that `spec` names, `DAY` or `NIGHT`, on show in
    /// `active_queue`; see the function of the same name.
    pub fn switch_active_queue_to(&mut self, spec: &str, active_queue: &mut Queue) -> (r: Option<
        (bool, Vec<String>),
    >)
        requires
            old(self).wf(),
            spec@ == "DAY"@ || spec@ == "NIGHT"@,
            is_variant_or_none(old(active_queue).label()),
        ensures
            final(self).wf(),
            is_variant_or_none(final(active_queue).label()),
            final(self)@.enabled == old(self)@.enabled,
            final(self)@.cron == old(self)@.cron,
            (Playlists {
                label: final(active_queue).label(),
                live: final(active_queue).paths(),
                day: final(self)@.day,
                night: final(self)@.night,
            }) == after_switch(
                Playlists {
                    label: old(active_queue).label(),
                    live: old(active_queue).paths(),
                    day: old(self)@.day,
                    night: old(self)@.night,
                },
                spec@,
            ),
            match r {
                Some((daytime, rows)) => daytime_of(old(active_queue).label()) == Some(daytime)
                    && paths_of(rows@) == old(active_queue).paths(),
                None => old(active_queue).label() is None,
            },
    {
        switch_active_queue_to(spec, &mut self.day_night_queue, active_queue)
    }
}

/// Switching to `DAY` and then to `NIGHT` puts the paths that were live
/// back on show, when the live playlist is the night variant or holds the
/// very paths of the night variant. In every other case the second switch
/// shows the night variant as it was stored, which differs.
pub proof fn day_then_night_restores(p: Playlists)
    requires
        is_variant_or_none(p.label),
    ensures
        (p.label == Some("NIGHT"@) || p.night == p.live) <==> after_switch(
            after_switch(p, "DAY"@),
            "NIGHT"@,
        ).live == p.live,
        p.label == Some("NIGHT"@) ==> after_switch(after_switch(p, "DAY"@), "NIGHT"@).label
            == p.label,
{
    reveal_strlit("DAY");
    reveal_strlit("NIGHT");
    assert("DAY"@.len() != "NIGHT"@.len());
}

} // verus!
