//! A numeric entry component: a slider paired with a free-text box.
//!
//! The component holds a value in millionths together with the text shown in
//! its box.  Dragging the slider rewrites the text from the value; typing
//! only records the text; submitting the text parses it and, when it names a
//! number, adopts it.  [`NumericInput::update`] applies one [`Event`] and
//! answers with the value to hand to the surrounding form when the edit is
//! one that commits (a slider release or a successful submission).

use vstd::prelude::*;

verus! {

use crate::fixed::spec_format_micros;
use crate::fixed::spec_parse_micros;
use crate::fixed::format_micros;
use crate::fixed::parse_micros;

/// One interaction with a numeric entry.  Slider payloads are in millionths.
#[derive(Clone, Debug)]
pub enum Event {
    SliderChanged(i64),
    SliderReleased,
    TextChanged(String),
    TextSubmitted,
}

/// The state of a numeric entry: its caption, current value (millionths),
/// shown text, slider range and step (millionths), layout sizes, and how
/// many decimal places the text shows.
#[derive(Clone, Debug)]
pub struct NumericInput {
    pub label: String,
    pub value: i64,
    pub value_string: String,
    pub min: i64,
    pub max: i64,
    pub step: i64,
    pub text_size: u16,
    pub width: u16,
    pub spacing: u16,
    pub decimals: u8,
}

impl NumericInput {
    /// A fresh entry showing `value` at the given number of decimals, with
    /// the default layout sizes.
    pub fn new(
        label: String,
        value: i64,
        min: i64,
        max: i64,
        step: i64,
        decimals: u8,
    ) -> (input: Self)
        requires
            value > i64::MIN,
        ensures
            input == (NumericInput {
                label: input.label,
                value,
                value_string: input.value_string,
                min,
                max,
                step,
                text_size: 15,
                width: 150,
                spacing: 10,
                decimals,
            }),
            input.label == label,
            input.value_string@ == spec_format_micros(value as int, decimals),
    {
        let value_string = format_micros(value, decimals);
        NumericInput {
            label,
            value,
            value_string,
            min,
            max,
            step,
            text_size: 15,
            width: 150,
            spacing: 10,
            decimals,
        }
    }

    pub fn text_size(self, text_size: u16) -> (input: Self)
        ensures
            input == (NumericInput { text_size, ..self }),
    {
        NumericInput { text_size, ..self }
    }

    pub fn width(self, width: u16) -> (input: Self)
        ensures
            input == (NumericInput { width, ..self }),
    {
        NumericInput { width, ..self }
    }

    pub fn spacing(self, spacing: u16) -> (input: Self)
        ensures
            input == (NumericInput { spacing, ..self }),
    {
        NumericInput { spacing, ..self }
    }

    pub fn decimals(self, decimals: u8) -> (input: Self)
        ensures
            input == (NumericInput { decimals, ..self }),
    {
        NumericInput { decimals, ..self }
    }

    /// Apply one interaction.
    ///
    /// A slider drag adopts the value and rewrites the text; a slider
    /// release commits the current value; typing records the text only; a
    /// submission parses the text and commits the parsed value, or changes
    /// nothing when the text names no number.
    pub fn update(&mut self, event: Event) -> (commit: Option<i64>)
        requires
            event matches Event::SliderChanged(v) ==> v > i64::MIN,
        ensures
            match event {
                Event::SliderChanged(v) => {
                    &&& *final(self) == (NumericInput {
                        value: v,
                        value_string: final(self).value_string,
                        ..*old(self)
                    })
                    &&& final(self).value_string@ == spec_format_micros(
                        v as int,
                        old(self).decimals,
                    )
                    &&& commit is None
                },
                Event::SliderReleased => {
                    &&& *final(self) == *old(self)
                    &&& commit == Some(old(self).value)
                },
                Event::TextChanged(t) => {
                    &&& *final(self) == (NumericInput { value_string: t, ..*old(self) })
                    &&& commit is None
                },
                Event::TextSubmitted => match spec_parse_micros(old(self).value_string@) {
                    Option::Some(v) => {
                        &&& *final(self) == (NumericInput { value: v, ..*old(self) })
                        &&& commit == Some(v)
                    },
                    Option::None => {
                        &&& *final(self) == *old(self)
                        &&& commit is None
                    },
                },
            },
    {
        match event {
            Event::SliderChanged(v) => {
                self.value = v;
                self.value_string = format_micros(v, self.decimals);
                None
            },
            Event::SliderReleased => Some(self.value),
            Event::TextChanged(t) => {
                self.value_string = t;
                None
            },
            Event::TextSubmitted => {
                match parse_micros(self.value_string.as_str()) {
                    Option::Some(v) => {
                        self.value = v;
                        Some(v)
                    },
                    Option::None => None,
                }
            },
        }
    }
}

} // verus!
