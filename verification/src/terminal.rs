//! Input sampling: turning the key and mouse events of one poll into frozen pins.
use vstd::prelude::*;
use crate::bus::{idle_pins, InputPins};

verus! {

/// The pins sampled for one tick, plus the scroll request for the chip-routing panel.
#[derive(Clone, Copy, Debug, Default)]
pub struct SampledInput {
    pub pins: InputPins,
    /// Positive scrolls the chip-routing panel down; negative scrolls it up.
    pub chip_routing_scroll_delta: i16,
}

/// A key, as far as the game distinguishes keys.
#[derive(Clone, Copy, Debug, PartialEq, Eq, Structural)]
pub enum KeyInput {
    Up,
    Down,
    Left,
    Right,
    Esc,
    Enter,
    Char(char),
    Other,
}

/// One terminal event, as far as the game distinguishes events.
#[derive(Clone, Copy, Debug, PartialEq, Eq, Structural)]
pub enum InputEvent {
    Key(KeyInput),
    ScrollUp,
    ScrollDown,
    Other,
}

/// A sample with the elapsed time, no key held and no scroll.
pub open spec fn spec_idle_sample(frame_delta_ns: u64) -> SampledInput {
    SampledInput {
        pins: InputPins { frame_delta_ns: frame_delta_ns, ..idle_pins() },
        chip_routing_scroll_delta: 0,
    }
}

/// The sample to start a poll from: the elapsed time, no key held and no scroll.
pub fn idle_sample(frame_delta_ns: u64) -> (r: SampledInput)
    ensures
        r == spec_idle_sample(frame_delta_ns),
{
    let pins = InputPins { frame_delta_ns, ..InputPins::default() };
    SampledInput { pins, chip_routing_scroll_delta: 0 }
}

/// The pins after a key press: arrows and vi keys move, rotate and drop; space hard-drops;
/// z and x rotate; c holds; escape and enter are passed through. Other keys change nothing.
pub open spec fn spec_press(pins: InputPins, key: KeyInput) -> InputPins {
    match key {
        KeyInput::Up => InputPins { key_up: true, ..pins },
        KeyInput::Down => InputPins { key_down: true, ..pins },
        KeyInput::Left => InputPins { key_left: true, ..pins },
        KeyInput::Right => InputPins { key_right: true, ..pins },
        KeyInput::Esc => InputPins { key_escape: true, ..pins },
        KeyInput::Enter => InputPins { key_enter: true, ..pins },
        KeyInput::Char(c) => {
            if c == 'k' {
                InputPins { key_up: true, ..pins }
            } else if c == 'j' {
                InputPins { key_down: true, ..pins }
            } else if c == 'h' {
                InputPins { key_left: true, ..pins }
            } else if c == 'l' {
                InputPins { key_right: true, ..pins }
            } else if c == ' ' {
                InputPins { key_space: true, ..pins }
            } else if c == 'z' || c == 'Z' {
                InputPins { key_z: true, ..pins }
            } else if c == 'x' || c == 'X' {
                InputPins { key_x: true, ..pins }
            } else if c == 'c' || c == 'C' {
                InputPins { key_c: true, ..pins }
            } else {
                pins
            }
        },
        KeyInput::Other => pins,
    }
}

/// Whether folding `event` into a sample with scroll `delta` stays within `i16`.
pub open spec fn event_fits(delta: i16, event: InputEvent) -> bool {
    match event {
        InputEvent::ScrollUp => delta - 3 >= i16::MIN,
        InputEvent::ScrollDown => delta + 3 <= i16::MAX,
        _ => true,
    }
}

/// The sample after one more event of the poll: a key press latches its pin, and each
/// wheel step scrolls the routing panel by three lines.
pub open spec fn spec_apply_event(sample: SampledInput, event: InputEvent) -> SampledInput {
    match event {
        InputEvent::Key(key) => SampledInput { pins: spec_press(sample.pins, key), ..sample },
        InputEvent::ScrollUp => SampledInput {
            chip_routing_scroll_delta: (sample.chip_routing_scroll_delta - 3) as i16,
            ..sample
        },
        InputEvent::ScrollDown => SampledInput {
            chip_routing_scroll_delta: (sample.chip_routing_scroll_delta + 3) as i16,
            ..sample
        },
        InputEvent::Other => sample,
    }
}

fn press(pins: InputPins, key: KeyInput) -> (r: InputPins)
    ensures
        r == spec_press(pins, key),
{
    let mut p = pins;
    match key {
        KeyInput::Up => p.key_up = true,
        KeyInput::Down => p.key_down = true,
        KeyInput::Left => p.key_left = true,
        KeyInput::Right => p.key_right = true,
        KeyInput::Esc => p.key_escape = true,
        KeyInput::Enter => p.key_enter = true,
        KeyInput::Char(c) => {
            if c == 'k' {
                p.key_up = true;
            } else if c == 'j' {
                p.key_down = true;
            } else if c == 'h' {
                p.key_left = true;
            } else if c == 'l' {
                p.key_right = true;
            } else if c == ' ' {
                p.key_space = true;
            } else if c == 'z' || c == 'Z' {
                p.key_z = true;
            } else if c == 'x' || c == 'X' {
                p.key_x = true;
            } else if c == 'c' || c == 'C' {
                p.key_c = true;
            }
        },
        KeyInput::Other => {},
    }
    p
}

/// Fold one event of a poll into the sample.
pub fn apply_event(sample: &mut SampledInput, event: InputEvent)
    requires
        event_fits(old(sample).chip_routing_scroll_delta, event),
    ensures
        *final(sample) == spec_apply_event(*old(sample), event),
{
    match event {
        InputEvent::Key(key) => {
            let pins = press(sample.pins, key);
            *sample = SampledInput { pins, ..*sample };
        },
        InputEvent::ScrollUp => {
            *sample = SampledInput {
                chip_routing_scroll_delta: sample.chip_routing_scroll_delta - 3,
                ..*sample
            };
        },
        InputEvent::ScrollDown => {
            *sample = SampledInput {
                chip_routing_scroll_delta: sample.chip_routing_scroll_delta + 3,
                ..*sample
            };
        },
        InputEvent::Other => {},
    }
}

} // verus!
