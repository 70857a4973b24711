//! What the waveform overlay shows in each state of the dictation cycle.
use vstd::prelude::*;
use crate::app::State;

verus! {

/// The overlay's drawing mode.
#[derive(Debug, Clone, Copy, PartialEq, Eq, Structural)]
pub enum Mode {
    Idle,
    Recording,
    Transcribing,
}

/// The near-black pill background, as `0x00RRGGBB`.
pub const BACKGROUND: u32 = 0x0011_1114;

/// The dim resting colour of a bar.
pub const TRACK: u32 = 0x002E_2E36;

/// The soft white of the bars while recording.
pub const RECORDING_ACCENT: u32 = 0x00EA_EAF2;

/// The soft blue of the bars while transcribing.
pub const TRANSCRIBING_ACCENT: u32 = 0x006A_A0FF;

/// The overlay mode for each state of the dictation cycle.
pub open spec fn mode_of(state: State) -> Mode {
    match state {
        State::Idle => Mode::Idle,
        State::Recording => Mode::Recording,
        State::Transcribing => Mode::Transcribing,
    }
}

/// The overlay mode for `state`.
pub fn mode_for(state: State) -> (r: Mode)
    ensures
        r == mode_of(state),
{
    match state {
        State::Idle => Mode::Idle,
        State::Recording => Mode::Recording,
        State::Transcribing => Mode::Transcribing,
    }
}

/// Whether the overlay is shown and animated in `mode`: in every mode but `Idle`.
pub fn is_active(mode: Mode) -> (r: bool)
    ensures
        r == (mode != Mode::Idle),
{
    match mode {
        Mode::Idle => false,
        _ => true,
    }
}

/// The colour the bars are drawn towards in `mode`.
pub open spec fn accent_of(mode: Mode) -> u32 {
    match mode {
        Mode::Idle => TRACK,
        Mode::Recording => RECORDING_ACCENT,
        Mode::Transcribing => TRANSCRIBING_ACCENT,
    }
}

/// The colour the bars are drawn towards in `mode`.
pub fn accent_for(mode: Mode) -> (r: u32)
    ensures
        r == accent_of(mode),
{
    match mode {
        Mode::Idle => TRACK,
        Mode::Recording => RECORDING_ACCENT,
        Mode::Transcribing => TRANSCRIBING_ACCENT,
    }
}

/// How far above the bottom edge of the monitor the overlay sits, in pixels.
pub const BOTTOM_OFFSET: i32 = 90;

/// Half of `d`, rounded toward zero as `i32` division rounds.
pub open spec fn half_toward_zero(d: int) -> int {
    if d >= 0 {
        d / 2
    } else {
        -((-d) / 2)
    }
}

/// Where the overlay's top-left corner goes so that it sits centred
/// horizontally, `BOTTOM_OFFSET` pixels above the bottom of the monitor.
pub open spec fn bottom_center_of(
    monitor_x: int,
    monitor_y: int,
    monitor_width: int,
    monitor_height: int,
    window_width: int,
    window_height: int,
) -> (int, int) {
    (
        monitor_x + half_toward_zero(monitor_width - window_width),
        monitor_y + monitor_height - window_height - BOTTOM_OFFSET,
    )
}

/// Whether placing the overlay stays within `i32` at every step.
pub open spec fn placement_fits(
    monitor_x: int,
    monitor_y: int,
    monitor_width: int,
    monitor_height: int,
    window_width: int,
    window_height: int,
) -> bool {
    let dx = monitor_width - window_width;
    let p = bottom_center_of(
        monitor_x,
        monitor_y,
        monitor_width,
        monitor_height,
        window_width,
        window_height,
    );
    &&& i32::MIN <= dx <= i32::MAX
    &&& i32::MIN <= p.0 <= i32::MAX
    &&& i32::MIN <= monitor_y + monitor_height <= i32::MAX
    &&& i32::MIN <= monitor_y + monitor_height - window_height <= i32::MAX
    &&& i32::MIN <= p.1 <= i32::MAX
}

/// The overlay's top-left corner on a monitor at `(monitor_x, monitor_y)` of
/// the given size, for a window of the given size (see [`bottom_center_of`]).
pub fn bottom_center(
    monitor_x: i32,
    monitor_y: i32,
    monitor_width: i32,
    monitor_height: i32,
    window_width: i32,
    window_height: i32,
) -> (r: (i32, i32))
    requires
        placement_fits(
            monitor_x as int,
            monitor_y as int,
            monitor_width as int,
            monitor_height as int,
            window_width as int,
            window_height as int,
        ),
    ensures
        r == ({
            let p = bottom_center_of(
                monitor_x as int,
                monitor_y as int,
                monitor_width as int,
                monitor_height as int,
                window_width as int,
                window_height as int,
            );
            (p.0 as i32, p.1 as i32)
        }),
{
    let x = monitor_x + (monitor_width - window_width) / 2;
    let y = monitor_y + monitor_height - window_height - BOTTOM_OFFSET;
    (x, y)
}

/// On a monitor at least as wide as the window, the gaps left and right of the
/// overlay differ by at most one pixel, and its bottom edge sits
/// `BOTTOM_OFFSET` pixels above the monitor's.
pub proof fn overlay_is_centred(mx: int, my: int, mw: int, mh: int, ww: int, wh: int)
    requires
        mw >= ww,
    ensures
        ({
            let p = bottom_center_of(mx, my, mw, mh, ww, wh);
            let left = p.0 - mx;
            let right = (mx + mw) - (p.0 + ww);
            &&& 0 <= right - left <= 1
            &&& (my + mh) - (p.1 + wh) == BOTTOM_OFFSET
        }),
{
}

/// The overlay is visible exactly while the dictation cycle is not idle, and
/// recording and transcribing draw in different colours.
pub proof fn overlay_follows_state(state: State)
    ensures
        (mode_of(state) != Mode::Idle) == (state != State::Idle),
        accent_of(Mode::Recording) != accent_of(Mode::Transcribing),
{
}

/// The overlay draws each state of the dictation cycle in the mode of the
/// same name: recording mode (the live microphone level, in the recording
/// accent) exactly while recording, and transcribing mode (the pulse, in the
/// transcribing accent) exactly while transcribing.
pub proof fn overlay_mode_names_state(state: State)
    ensures
        (mode_of(state) == Mode::Idle) <==> (state == State::Idle),
        (mode_of(state) == Mode::Recording) <==> (state == State::Recording),
        (mode_of(state) == Mode::Transcribing) <==> (state == State::Transcribing),
        (accent_of(mode_of(state)) == 0x00EA_EAF2u32) <==> (state == State::Recording),
        (accent_of(mode_of(state)) == 0x006A_A0FFu32) <==> (state == State::Transcribing),
{
}

} // verus!
