//! An LED part: its state mirrors one OUTPUT bit and is never written
//! back to the bank.

use vstd::prelude::*;
use crate::color::{Color, get_color, lookup_color};
use crate::doc::{DocError, DocValue, get_dim, get_str, get_uint, has_tag, has_type_tag, lookup_dim,
    lookup_str, lookup_uint};
use crate::gpioregs::{RegMemory, bit_of};
use crate::pin_api::pin_in_range;

verus! {

/// The mathematical view of an LED.
pub ghost struct LedModel {
    pub pin: u8,
    pub name: Seq<char>,
    pub color_off: Color,
    pub color_on: Color,
    pub pos_x: u16,
    pub pos_y: u16,
    pub state: bool,
}

/// An LED on a board: a pin, a display name, its two colors, a grid
/// position, and the lit state derived from the OUTPUT register.
pub struct Led {
    pub pin: u8,
    pub name: String,
    pub color_off: Color,
    pub color_on: Color,
    pub pos_x: u16,
    pub pos_y: u16,
    pub state: bool,
}

/// The defaults an LED document starts from.
pub open spec fn led_default_model() -> LedModel {
    LedModel {
        pin: 0,
        name: "LED $n"@,
        color_off: Color::Black,
        color_on: Color::LightRed,
        pos_x: 0,
        pos_y: 0,
        state: false,
    }
}

/// The LED that the object entries `entries` describe: each attribute
/// is the last usable value under its key, or the default.
pub open spec fn spec_led_of(entries: Seq<(String, DocValue)>) -> LedModel {
    LedModel {
        pin: match lookup_uint(entries, "pin"@) {
            Some(u) => u as u8,
            None => 0,
        },
        name: match lookup_str(entries, "name"@) {
            Some(s) => s,
            None => "LED $n"@,
        },
        color_off: match lookup_color(entries, "colorOff"@) {
            Some(c) => c,
            None => Color::Black,
        },
        color_on: match lookup_color(entries, "colorOn"@) {
            Some(c) => c,
            None => Color::LightRed,
        },
        pos_x: match lookup_dim(entries, "position"@, "x"@) {
            Some(u) => u as u16,
            None => 0,
        },
        pos_y: match lookup_dim(entries, "position"@, "y"@) {
            Some(u) => u as u16,
            None => 0,
        },
        state: false,
    }
}

/// An LED after one sync against the OUTPUT word: a valid pin mirrors
/// its OUTPUT bit, an out-of-range pin leaves the LED dark.
pub open spec fn spec_led_sync(m: LedModel, output: u32) -> LedModel {
    LedModel { state: pin_in_range(m.pin) && bit_of(output, m.pin), ..m }
}

impl Led {
    /// The mathematical view of this LED.
    pub open spec fn model(&self) -> LedModel {
        LedModel {
            pin: self.pin,
            name: self.name@,
            color_off: self.color_off,
            color_on: self.color_on,
            pos_x: self.pos_x,
            pos_y: self.pos_y,
            state: self.state,
        }
    }

    /// Read an LED from a document node.  Anything but an object is
    /// rejected outright; an object must carry the `simpi/led` type
    /// tag; every other attribute falls back to its default.
    pub fn from_doc(d: &DocValue) -> (r: Result<Led, DocError>)
        ensures
            match d {
                DocValue::Object(entries) => if has_type_tag(entries@, "simpi/led"@) {
                    r matches Ok(led) && led.model() == spec_led_of(entries@)
                } else {
                    r == Err::<Led, DocError>(DocError::InvalidData)
                },
                _ => r == Err::<Led, DocError>(DocError::InvalidInput),
            },
    {
        match d {
            DocValue::Object(entries) => {
                if !has_tag(entries, "simpi/led") {
                    return Err(DocError::InvalidData);
                }
                let mut led = Led::default();
                match get_uint(entries, "pin") {
                    Some(u) => {
                        led.pin = #[verifier::truncate] (u as u8);
                    },
                    None => {},
                }
                match get_str(entries, "name") {
                    Some(s) => {
                        led.name = s.clone();
                    },
                    None => {},
                }
                match get_color(entries, "colorOff") {
                    Some(c) => {
                        led.color_off = c;
                    },
                    None => {},
                }
                match get_color(entries, "colorOn") {
                    Some(c) => {
                        led.color_on = c;
                    },
                    None => {},
                }
                match get_dim(entries, "position", "x") {
                    Some(u) => {
                        led.pos_x = #[verifier::truncate] (u as u16);
                    },
                    None => {},
                }
                match get_dim(entries, "position", "y") {
                    Some(u) => {
                        led.pos_y = #[verifier::truncate] (u as u16);
                    },
                    None => {},
                }
                Ok(led)
            },
            _ => Err(DocError::InvalidInput),
        }
    }

    /// The lit state.
    pub fn get(&self) -> (r: bool)
        ensures
            r == self.model().state,
    {
        self.state
    }

    /// Overwrite the lit state.
    pub fn set(&mut self, state: bool)
        ensures
            final(self).model() == (LedModel { state, ..old(self).model() }),
    {
        self.state = state
    }

    /// Mirror the LED's OUTPUT bit into its state; an LED with an
    /// out-of-range pin stays dark and never touches the bank.
    pub fn sync(&mut self, reg_memory: &RegMemory)
        ensures
            final(self).model() == spec_led_sync(old(self).model(), reg_memory.output@),
    {
        if self.pin >= crate::MIN_PIN_NUM && self.pin <= crate::MAX_PIN_NUM {
            self.state = reg_memory.output.read_pin(self.pin) != 0;
        } else {
            self.state = false;
        }
    }
}

impl Clone for Led {
    /// An exact copy.
    fn clone(&self) -> (r: Led)
        ensures
            r == *self,
    {
        Led {
            pin: self.pin,
            name: self.name.clone(),
            color_off: self.color_off,
            color_on: self.color_on,
            pos_x: self.pos_x,
            pos_y: self.pos_y,
            state: self.state,
        }
    }
}

impl Default for Led {
    /// The LED every document starts from.
    fn default() -> (r: Led)
        ensures
            r.model() == led_default_model(),
    {
        Led {
            pin: 0,
            name: String::from_str("LED $n"),
            color_off: Color::Black,
            color_on: Color::LightRed,
            pos_x: 0,
            pos_y: 0,
            state: false,
        }
    }
}

} // verus!
