//! The decisions of a platform's loop, which a platform runs around the
//! core: wait for input or the next deadline, hand each to `App::handle`,
//! carry out the effects, and redraw.

use vstd::prelude::*;

use crate::app::App;
use crate::event::{Event, EventKind};
use crate::time::Instant;

verus! {

/// The event a platform's loop delivers on a pass at `now` once input is
/// handled: a `Deadline` at `now` if the deadline the app asked for has
/// come, and nothing otherwise.
pub fn due_deadline(app: &App, now: Instant) -> (e: Option<Event>)
    ensures
        (app.model().deadline() matches Some(d) && d <= now@) ==> e == Some(
            Event { at: now, kind: EventKind::Deadline },
        ),
        !(app.model().deadline() matches Some(d) && d <= now@) ==> e is None,
{
    match app.next_deadline() {
        Some(d) => if now.is_before(d) {
            None
        } else {
            Some(Event::deadline(now))
        },
        None => None,
    }
}

/// How long a platform's loop may wait, in core milliseconds, before it
/// must run again at `now`: until the app's next deadline, but never longer
/// than `poll` so that input is read in time.
pub fn wait_millis(app: &App, now: Instant, poll: u64) -> (ms: u64)
    ensures
        ms <= poll,
        app.model().deadline() matches Some(d) ==> ms == if d <= now@ {
            0
        } else if d - now@ < poll {
            (d - now@) as u64
        } else {
            poll
        },
        app.model().deadline() is None ==> ms == poll,
{
    match app.next_deadline() {
        Some(d) => {
            let left = d.saturating_since(now);
            let ms = crate::time::millis(left);
            if ms < poll {
                ms
            } else {
                poll
            }
        },
        None => poll,
    }
}


/// What a replay loop does next, on a pass at `now` while the next recorded
/// entry is at `entry_at`.
#[derive(Clone, Copy, Debug, PartialEq, Eq)]
pub enum ReplayStep {
    /// Deliver a `Deadline` event at this instant.
    Deadline(Instant),
    /// Deliver the entry.
    Entry,
    /// Wait this many core milliseconds, then look again.
    Wait(u64),
}

/// The next step of a replay loop: the deadline the app asked for, if it
/// comes no later than the entry and has come by `now`; otherwise the entry,
/// if its time has come; otherwise a wait until the earlier of the two, but
/// never longer than `poll`.
pub fn replay_step(app: &App, entry_at: Instant, now: Instant, poll: u64) -> (s: ReplayStep)
    ensures
        (app.model().deadline() matches Some(d) && d <= entry_at@ && d <= now@) ==> (s matches ReplayStep::Deadline(
            t,
        ) && t@ == app.model().deadline()->0),
        !(app.model().deadline() matches Some(d) && d <= entry_at@ && d <= now@) && entry_at@ <= now@ ==> s
            == ReplayStep::Entry,
        !(app.model().deadline() matches Some(d) && d <= entry_at@ && d <= now@) && now@ < entry_at@ ==> ({
            let next = match app.model().deadline() {
                Some(d) => if d < entry_at@ {
                    d
                } else {
                    entry_at@
                },
                None => entry_at@,
            };
            s == ReplayStep::Wait(
                if next <= now@ {
                    0
                } else if next - now@ < poll {
                    (next - now@) as u64
                } else {
                    poll
                },
            )
        }),
{
    let deadline = app.next_deadline();
    if let Some(d) = deadline {
        if !entry_at.is_before(d) && !now.is_before(d) {
            return ReplayStep::Deadline(d);
        }
    }
    if !now.is_before(entry_at) {
        return ReplayStep::Entry;
    }
    let next = match deadline {
        Some(d) => d.earliest(entry_at),
        None => entry_at,
    };
    let left = crate::time::millis(next.saturating_since(now));
    ReplayStep::Wait(if left < poll { left } else { poll })
}
} // verus!
