//! The widget's state and the transitions that its input events cause.
use vstd::prelude::*;

use crate::error::BrightnessError;
use crate::percent::{percentage_scaled, scaled_percentage, units_per_percent, Precision};
use crate::reading::{is_level_output, output_level, parse_level};
use crate::text::{percent_chars, percentage_text};

verus! {

/// How far one notch of the slider moves the level.
#[derive(Clone, Copy, Debug, PartialEq, Eq, Structural)]
pub enum StepRule {
    /// One level per notch.
    Single,
    /// A hundredth of the maximum level per notch (rounded down).
    Hundredth,
}

/// The ways in which the widget can be configured.
#[derive(Clone, Copy, Debug, PartialEq, Eq, Structural)]
pub struct Options {
    /// Decimal places of the percentage shown.
    pub precision: Precision,
    /// Slider granularity.
    pub step_rule: StepRule,
    /// Whether the up and down arrow keys raise and lower the level.
    pub arrow_keys: bool,
    /// Whether a maximum level of 1 is taken to mean that no brightness
    /// control is present.
    pub single_level_means_absent: bool,
}

impl Default for Options {
    /// Whole percents, a slider step of a hundredth of the range, arrow keys on,
    /// and a maximum of 1 read as no control present.
    fn default() -> (r: Self)
        ensures
            r == (Options {
                precision: Precision::Whole,
                step_rule: StepRule::Hundredth,
                arrow_keys: true,
                single_level_means_absent: true,
            }),
    {
        Options {
            precision: Precision::Whole,
            step_rule: StepRule::Hundredth,
            arrow_keys: true,
            single_level_means_absent: true,
        }
    }
}

/// An input event of the widget.
#[derive(Clone, Copy, Debug, PartialEq, Eq, Structural)]
pub enum Message {
    /// The slider was moved to this level.
    Adjust(u32),
    /// Raise the level by one.
    Add,
    /// Lower the level by one.
    Minus,
}

/// A key pressed while the widget has the focus.
#[derive(Clone, Copy, Debug, PartialEq, Eq, Structural)]
pub enum Key {
    ArrowUp,
    ArrowDown,
    Other,
}

/// The colour theme of the widget.
#[derive(Clone, Copy, Debug, PartialEq, Eq, Structural)]
pub enum ThemeId {
    CatppuccinMacchiato,
}

/// The level after `m` at level `level` of `max`.
pub open spec fn next_level(level: u32, max: u32, m: Message) -> u32 {
    match m {
        Message::Adjust(v) => if v <= max {
            v
        } else {
            max
        },
        Message::Add => if level < max {
            (level + 1) as u32
        } else {
            level
        },
        Message::Minus => if level > 0 {
            (level - 1) as u32
        } else {
            level
        },
    }
}

/// The level that the provider is told to set after `m` at level `level` of
/// `max`, if any: the slider always sets its level, the keys only a changed one.
pub open spec fn set_call(level: u32, max: u32, m: Message) -> Option<u32> {
    match m {
        Message::Adjust(_) => Some(next_level(level, max, m)),
        _ => if next_level(level, max, m) != level {
            Some(next_level(level, max, m))
        } else {
            None
        },
    }
}

/// The slider step for a maximum level.
pub open spec fn step_for(rule: StepRule, max: u32) -> u32 {
    match rule {
        StepRule::Single => 1,
        StepRule::Hundredth => max / 100,
    }
}

/// The event that a key stands for.
pub open spec fn key_event(key: Key) -> Option<Message> {
    match key {
        Key::ArrowUp => Some(Message::Add),
        Key::ArrowDown => Some(Message::Minus),
        Key::Other => None,
    }
}

/// The brightness level as the widget shows it: a mirror of the provider's,
/// with the level always within `[0, max]` and the maximum above 0.
pub struct BrightnessState {
    current_level: u32,
    max_level: u32,
    options: Options,
}

impl BrightnessState {
    #[verifier::type_invariant]
    spec fn within_range(&self) -> bool {
        0 < self.max_level && self.current_level <= self.max_level
    }

    pub closed spec fn spec_level(&self) -> u32 {
        self.current_level
    }

    pub closed spec fn spec_max(&self) -> u32 {
        self.max_level
    }

    pub closed spec fn spec_options(&self) -> Options {
        self.options
    }

    /// A state at `current` of `max`; refused where `max` is 0 or `current`
    /// lies above it.
    pub fn new(current: u32, max: u32, options: Options) -> (r: Result<Self, BrightnessError>)
        ensures
            max == 0 ==> r == Err::<Self, BrightnessError>(BrightnessError::NoRange),
            0 < max < current ==> r == Err::<Self, BrightnessError>(
                BrightnessError::LevelAboveMax,
            ),
            0 < max && current <= max ==> (r matches Ok(s) && s.spec_level() == current
                && s.spec_max() == max && s.spec_options() == options),
    {
        if max == 0 {
            Err(BrightnessError::NoRange)
        } else if current > max {
            Err(BrightnessError::LevelAboveMax)
        } else {
            Ok(BrightnessState { current_level: current, max_level: max, options })
        }
    }

    /// The state read from the provider's outputs for the current and the
    /// maximum level.
    pub fn initialize(current_out: &[u8], max_out: &[u8], options: Options) -> (r: Result<
        Self,
        BrightnessError,
    >)
        ensures
            !is_level_output(current_out@) || !is_level_output(max_out@) ==> r == Err::<
                Self,
                BrightnessError,
            >(BrightnessError::MalformedOutput),
            is_level_output(current_out@) && is_level_output(max_out@) ==> ({
                let current = output_level(current_out@);
                let max = output_level(max_out@);
                &&& max == 0 ==> r == Err::<Self, BrightnessError>(BrightnessError::NoRange)
                &&& 0 < max < current ==> r == Err::<Self, BrightnessError>(
                    BrightnessError::LevelAboveMax,
                )
                &&& 0 < max && current <= max ==> (r matches Ok(s) && s.spec_level() == current
                    && s.spec_max() == max && s.spec_options() == options)
            }),
    {
        let current = match parse_level(current_out) {
            Ok(v) => v,
            Err(e) => return Err(e),
        };
        let max = match parse_level(max_out) {
            Ok(v) => v,
            Err(e) => return Err(e),
        };
        Self::new(current, max, options)
    }

    pub fn current_level(&self) -> (r: u32)
        ensures
            r == self.spec_level(),
            r <= self.spec_max(),
    {
        proof {
            use_type_invariant(self);
        }
        self.current_level
    }

    pub fn max_level(&self) -> (r: u32)
        ensures
            r == self.spec_max(),
            r > 0,
    {
        proof {
            use_type_invariant(self);
        }
        self.max_level
    }

    pub fn options(&self) -> (r: Options)
        ensures
            r == self.spec_options(),
    {
        self.options
    }

    /// Applies an input event: moves the level, clamped to `[0, max]`, and
    /// returns the level that the provider is to be told to set, if any.
    pub fn update(&mut self, message: Message) -> (r: Option<u32>)
        ensures
            final(self).spec_level() == next_level(old(self).spec_level(), old(self).spec_max(), message),
            final(self).spec_max() == old(self).spec_max(),
            final(self).spec_options() == old(self).spec_options(),
            final(self).spec_level() <= final(self).spec_max(),
            r == set_call(old(self).spec_level(), old(self).spec_max(), message),
    {
        proof {
            use_type_invariant(&*self);
        }
        match message {
            Message::Adjust(v) => {
                let level = if v <= self.max_level {
                    v
                } else {
                    self.max_level
                };
                self.current_level = level;
                Some(level)
            },
            Message::Add => {
                if self.current_level < self.max_level {
                    self.current_level = self.current_level + 1;
                    Some(self.current_level)
                } else {
                    None
                }
            },
            Message::Minus => {
                if self.current_level > 0 {
                    self.current_level = self.current_level - 1;
                    Some(self.current_level)
                } else {
                    None
                }
            },
        }
    }

    /// The percentage of the current level, in units of the configured
    /// precision, rounded to the nearest unit.
    pub fn percentage(&self) -> (r: u64)
        ensures
            r == scaled_percentage(
                self.spec_level() as nat,
                self.spec_max() as nat,
                self.spec_options().precision,
            ),
            2 * r * self.spec_max() <= 2 * (self.spec_level() * 100 * units_per_percent(
                self.spec_options().precision,
            )) + self.spec_max(),
            2 * (self.spec_level() * 100 * units_per_percent(self.spec_options().precision))
                <= 2 * r * self.spec_max() + self.spec_max(),
    {
        proof {
            use_type_invariant(self);
        }
        percentage_scaled(self.current_level, self.max_level, self.options.precision)
    }

    /// The text under the slider: the percentage with its `%` sign.
    pub fn label(&self) -> (r: String)
        ensures
            r@ == percent_chars(
                scaled_percentage(
                    self.spec_level() as nat,
                    self.spec_max() as nat,
                    self.spec_options().precision,
                ),
                self.spec_options().precision,
            ),
    {
        proof {
            use_type_invariant(self);
        }
        percentage_text(self.current_level, self.max_level, self.options.precision)
    }

    /// The slider step.
    pub fn step(&self) -> (r: u32)
        ensures
            r == step_for(self.spec_options().step_rule, self.spec_max()),
    {
        match self.options.step_rule {
            StepRule::Single => 1,
            StepRule::Hundredth => self.max_level / 100,
        }
    }

    /// The colour theme, the same for every state.
    pub fn theme(&self) -> (r: ThemeId)
        ensures
            r == ThemeId::CatppuccinMacchiato,
    {
        ThemeId::CatppuccinMacchiato
    }
}

/// At the maximum level, a raise leaves the level as it is and asks the
/// provider for nothing.
pub proof fn lemma_add_at_max_keeps_level(max: u32)
    ensures
        next_level(max, max, Message::Add) == max,
        set_call(max, max, Message::Add) is None,
{
}

/// At level 0, a lowering leaves the level as it is and asks the provider for
/// nothing.
pub proof fn lemma_minus_at_zero_keeps_level(max: u32)
    ensures
        next_level(0, max, Message::Minus) == 0,
        set_call(0, max, Message::Minus) is None,
{
}

/// Moving the slider to a level within range sets exactly that level, and the
/// provider is told to set it once.
pub proof fn lemma_slider_sets_level(level: u32, max: u32, v: u32)
    requires
        level <= max,
        v <= max,
    ensures
        next_level(level, max, Message::Adjust(v)) == v,
        set_call(level, max, Message::Adjust(v)) == Some(v),
{
}

/// Every event keeps the level within `[0, max]`.
pub proof fn lemma_event_keeps_range(level: u32, max: u32, m: Message)
    requires
        level <= max,
    ensures
        next_level(level, max, m) <= max,
{
}

/// The event that a key press stands for: up raises the level, down lowers
/// it, other keys do nothing.
pub fn key_message(key: Key) -> (r: Option<Message>)
    ensures
        r == key_event(key),
{
    match key {
        Key::ArrowUp => Some(Message::Add),
        Key::ArrowDown => Some(Message::Minus),
        Key::Other => None,
    }
}

} // verus!
