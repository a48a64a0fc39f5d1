//! When enforcements fall due.

use crate::actions::EnforcementAction;
use crate::clock::{rfc3339_text, Moment};
use crate::issue::{due_text, schedulable, StampsView};
use vstd::prelude::*;

verus! {

/// An action that bears a time falls due after that time, in seconds: its duration, its delay or
/// its interval. A time that no signed 64-bit number can hold wraps around. An action without a
/// time falls due at once.
pub proof fn actions_wait_for_their_time(
    seconds: u64,
    count: Option<u64>,
    back: Option<bool>,
)
    ensures
        ({
            let wait: int = if seconds < 0x8000_0000_0000_0000 {
                seconds as int
            } else {
                seconds - 0x1_0000_0000_0000_0000
            };
            &&& (EnforcementAction::Mute { duration: Some(seconds) }).delay() == wait
            &&& (EnforcementAction::Ban { duration: Some(seconds) }).delay() == wait
            &&& (EnforcementAction::Kick { delay: Some(seconds) }).delay() == wait
            &&& (EnforcementAction::VoiceMute { duration: Some(seconds) }).delay() == wait
            &&& (EnforcementAction::VoiceDeafen { duration: Some(seconds) }).delay() == wait
            &&& (EnforcementAction::VoiceDisconnect { delay: Some(seconds) }).delay() == wait
            &&& (EnforcementAction::VoiceChannelHaunt {
                teleport_count: count,
                interval: Some(seconds),
                return_to_origin: back,
            }).delay() == wait
        }),
        (EnforcementAction::Mute { duration: None }).delay() == 0,
        (EnforcementAction::Ban { duration: None }).delay() == 0,
        (EnforcementAction::Kick { delay: None }).delay() == 0,
        (EnforcementAction::VoiceMute { duration: None }).delay() == 0,
        (EnforcementAction::VoiceDeafen { duration: None }).delay() == 0,
        (EnforcementAction::VoiceDisconnect { delay: None }).delay() == 0,
        (EnforcementAction::VoiceChannelHaunt {
            teleport_count: count,
            interval: None,
            return_to_origin: back,
        }).delay() == 0,
        EnforcementAction::NoAction.delay() == 0,
{
}

/// An action falls due its delay after the moment from which it counts, to the nanosecond, and can
/// do so where that second lies in the calendar: from the start of the year -262143 to the end of
/// the year 262142.
pub proof fn due_moments_lie_in_the_calendar(action: EnforcementAction, scheduled: Moment)
    ensures
        schedulable(action, scheduled) <==> -8_334_601_228_800 <= scheduled.secs + action.delay()
            <= 8_210_266_876_799,
        due_text(action, scheduled) == rfc3339_text(
            (scheduled.secs + action.delay()) as i64,
            scheduled.nanos,
        ),
{
}

/// Stamps that were drawn bear identifiers of thirty-six characters and moments from the epoch to
/// the end of the calendar.
pub proof fn drawn_stamps_can_be_held(stamps: StampsView)
    requires
        stamps.drawn(),
    ensures
        stamps.warning_id.len() == 36,
        stamps.enforcement_id.len() == 36,
        0 <= stamps.issued.secs <= 8_210_266_876_799,
        0 <= stamps.scheduled.secs <= 8_210_266_876_799,
        stamps.issued.nanos < 1_000_000_000,
        stamps.scheduled.nanos < 1_000_000_000,
{
}

/// Moments in the calendar are the valid ones, and none else.
pub proof fn valid_stamps_lie_in_the_calendar(stamps: StampsView)
    ensures
        stamps.valid() <==> {
            &&& -8_334_601_228_800 <= stamps.issued.secs <= 8_210_266_876_799
            &&& -8_334_601_228_800 <= stamps.scheduled.secs <= 8_210_266_876_799
            &&& stamps.issued.nanos < 1_000_000_000
            &&& stamps.scheduled.nanos < 1_000_000_000
        },
{
}

} // verus!
