//! Per-frame front-end decisions: when to repaint, where tape and history
//! navigation move.

use vstd::prelude::*;
use crate::app::PumpStatus;
use crate::domain::time::Duration;

verus! {

/// Milliseconds between frames while the runtime is idle.
pub const IDLE_POLL_MILLIS: u64 = 16;

/// Milliseconds before a frame retries a backpressured transport.
pub const BACKPRESSURE_RETRY_MILLIS: u64 = 10;

/// How long after a pump the next frame should run, in nanoseconds.
pub open spec fn repaint_nanos(status: PumpStatus) -> nat {
    match status {
        PumpStatus::WorkRemaining => 0nat,
        PumpStatus::Wait(duration) => duration@,
        PumpStatus::Idle => (IDLE_POLL_MILLIS * 1_000_000) as nat,
        PumpStatus::Backpressured => (BACKPRESSURE_RETRY_MILLIS * 1_000_000) as nat,
    }
}

/// Every pump status asks for another frame; none blocks.
pub fn repaint_delay(status: PumpStatus) -> (delay: Option<Duration>)
    ensures
        delay matches Some(d) && d@ == repaint_nanos(status),
{
    match status {
        PumpStatus::WorkRemaining => Some(Duration::zero()),
        PumpStatus::Wait(duration) => Some(duration),
        PumpStatus::Idle => Some(Duration::from_millis(IDLE_POLL_MILLIS)),
        PumpStatus::Backpressured => Some(Duration::from_millis(BACKPRESSURE_RETRY_MILLIS)),
    }
}

#[derive(Clone, Copy, Debug, PartialEq, Eq, Structural)]
pub enum TapeStepDirection {
    TowardStart,
    TowardEnd,
}

/// One byte along the tape, clamped to its ends.
pub fn stepped_position(position: usize, tape_length: usize, direction: TapeStepDirection) -> (next:
    usize)
    ensures
        next == match direction {
            TapeStepDirection::TowardStart => if position == 0 {
                0
            } else {
                (position - 1) as usize
            },
            TapeStepDirection::TowardEnd => if position + 1 > tape_length {
                tape_length
            } else {
                (position + 1) as usize
            },
        },
{
    match direction {
        TapeStepDirection::TowardStart => position.saturating_sub(1),
        TapeStepDirection::TowardEnd => {
            let next = position.saturating_add(1);
            if next < tape_length {
                next
            } else {
                tape_length
            }
        },
    }
}

/// Where a wheel step moves the history view: three lines toward older text, or
/// back toward the bottom, where the view follows the live paper again (`None`).
pub fn history_scroll_target(current: Option<usize>, bottom: usize, toward_older: bool) -> (target:
    Option<usize>)
    ensures
        ({
            let from: int = match current {
                Some(c) => c as int,
                None => bottom as int,
            };
            let next: int = if toward_older {
                if from < 3 {
                    0
                } else {
                    from - 3
                }
            } else if from + 3 > bottom {
                bottom as int
            } else {
                from + 3
            };
            target == if next < bottom {
                Some(next as usize)
            } else {
                None::<usize>
            }
        }),
{
    let from = match current {
        Some(c) => c,
        None => bottom,
    };
    let next = if toward_older {
        from.saturating_sub(3)
    } else {
        let up = from.saturating_add(3);
        if up < bottom {
            up
        } else {
            bottom
        }
    };
    if next < bottom {
        Some(next)
    } else {
        None
    }
}

/// Where Page Up or Page Down moves the history view: twelve lines. Page Up
/// always enters the history view; Page Down leaves it on reaching the bottom.
pub fn page_scroll_target(current: Option<usize>, bottom: usize, toward_older: bool) -> (target:
    Option<usize>)
    ensures
        ({
            let from: int = match current {
                Some(c) => c as int,
                None => bottom as int,
            };
            if toward_older {
                target == Some((if from < 12 {
                    0
                } else {
                    from - 12
                }) as usize)
            } else {
                let next: int = if from + 12 > bottom {
                    bottom as int
                } else {
                    from + 12
                };
                target == if next < bottom {
                    Some(next as usize)
                } else {
                    None::<usize>
                }
            }
        }),
{
    let from = match current {
        Some(c) => c,
        None => bottom,
    };
    if toward_older {
        Some(from.saturating_sub(12))
    } else {
        let down = from.saturating_add(12);
        let next = if down < bottom {
            down
        } else {
            bottom
        };
        if next < bottom {
            Some(next)
        } else {
            None
        }
    }
}

} // verus!
