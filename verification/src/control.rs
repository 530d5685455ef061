//! The render loop's state machine and the per-tick frame computation: what
//! one tick decides (keep running or exit) and what it puts on the screen
//! (the layout partition and the two gauge percents).

use crate::layout::ScreenLayout;
use crate::layout::compute_layout;
use crate::layout::layout_of;
use crate::metrics::MonitorError;
use crate::metrics::cpu_mean;
use crate::metrics::cpu_mean_hundredths;
use crate::metrics::display_percent;
use crate::metrics::gauge_percent;
use crate::metrics::memory_percent_hundredths;
use crate::metrics::memory_ratio;
use vstd::arithmetic::div_mod::lemma_div_is_ordered;
use vstd::prelude::*;

verus! {

/// The render loop's state: the loop keeps ticking while `Running` and
/// stops for good once `Exiting`.
#[derive(Clone, Copy, Debug, PartialEq, Eq, Structural)]
pub enum LoopState {
    Running,
    Exiting,
}

/// Whether a keyboard event is the quit keystroke, the character `q`.
pub open spec fn is_quit_key(key: Option<char>) -> bool {
    key == Some('q')
}

/// The state after one keyboard event: the quit keystroke ends the session,
/// every other event — any other key, or none within the wait — leaves the
/// state unchanged.
pub open spec fn next_state(state: LoopState, key: Option<char>) -> LoopState {
    if is_quit_key(key) {
        LoopState::Exiting
    } else {
        state
    }
}

/// Whether a frame is drawn in a state: only while running.
pub open spec fn draws(state: LoopState) -> bool {
    state is Running
}

/// Applies one keyboard event to the loop state. The event is the character
/// of the key that was pressed, or nothing when the bounded wait ran out or
/// a non-key event arrived.
pub fn handle_key(state: LoopState, key: Option<char>) -> (next: LoopState)
    ensures
        next == next_state(state, key),
{
    match key {
        Option::Some(c) => if c == 'q' {
            LoopState::Exiting
        } else {
            state
        },
        Option::None => state,
    }
}

/// Whether the loop should draw another frame in this state.
pub fn should_draw(state: LoopState) -> (b: bool)
    ensures
        b == draws(state),
{
    match state {
        LoopState::Running => true,
        LoopState::Exiting => false,
    }
}

/// The quit keystroke moves the running loop to `Exiting`, no frame is
/// drawn in that state, and no later event leaves it: `Exiting` is terminal.
pub proof fn lemma_quit_stops_drawing(key: Option<char>, later: Option<char>)
    requires
        is_quit_key(key),
    ensures
        next_state(LoopState::Running, key) is Exiting,
        !draws(next_state(LoopState::Running, key)),
        next_state(next_state(LoopState::Running, key), later) is Exiting,
{
}

/// Any event other than the quit keystroke leaves the loop running, so the
/// next tick proceeds.
pub proof fn lemma_other_keys_keep_running(key: Option<char>)
    requires
        !is_quit_key(key),
    ensures
        next_state(LoopState::Running, key) == LoopState::Running,
        draws(next_state(LoopState::Running, key)),
{
}

/// Everything one tick puts on the screen: where each region sits and the
/// percent shown on each gauge.
#[derive(Clone, Copy, Debug, PartialEq, Eq, Structural)]
pub struct Frame {
    pub layout: ScreenLayout,
    pub cpu_percent: u16,
    pub memory_percent: u16,
}

/// Computes one frame from the screen size and the provider's raw figures:
/// the layout partition of the screen, the mean CPU load over the per-core
/// readings, and the memory load as a share of total, each gauge percent
/// rounded to the nearest whole percent and clamped for display. Zero cores
/// and zero total memory are the fatal configuration errors, in that order.
pub fn build_frame(
    width: u16,
    height: u16,
    cpu_readings: &Vec<u32>,
    used_memory: u64,
    total_memory: u64,
) -> (r: Result<Frame, MonitorError>)
    ensures
        r is Ok <==> (cpu_readings@.len() > 0 && total_memory > 0),
        cpu_readings@.len() == 0 ==> r == Err::<Frame, MonitorError>(MonitorError::NoCpuCores),
        cpu_readings@.len() > 0 && total_memory == 0 ==> r == Err::<Frame, MonitorError>(
            MonitorError::NoTotalMemory,
        ),
        r matches Ok(f) ==> {
            &&& f.layout == layout_of(width, height)
            &&& f.cpu_percent == display_percent(cpu_mean(cpu_readings@))
            &&& f.memory_percent == display_percent(
                memory_ratio(used_memory as int, total_memory as int),
            )
            &&& f.cpu_percent <= 100
            &&& f.memory_percent <= 100
        },
{
    let layout = compute_layout(width, height);
    let cpu_reading: u64 = match cpu_mean_hundredths(cpu_readings) {
        Ok(m) => m,
        Err(e) => {
            return Err(e);
        },
    };
    let memory_reading: u64 = match memory_percent_hundredths(used_memory, total_memory) {
        Ok(m) => m,
        Err(e) => {
            return Err(e);
        },
    };
    proof {
        let ratio = memory_ratio(used_memory as int, total_memory as int);
        if ratio > u64::MAX as int {
            lemma_div_is_ordered((u64::MAX as int) + 50, ratio + 50, 100);
        }
    }
    Ok(
        Frame {
            layout,
            cpu_percent: gauge_percent(cpu_reading),
            memory_percent: gauge_percent(memory_reading),
        },
    )
}

} // verus!
