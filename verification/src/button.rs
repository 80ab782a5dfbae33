//! A button part: its local state is toggled by a matching hotkey and
//! written into one INPUT bit on each sync; it never reads OUTPUT.

use vstd::prelude::*;
use crate::color::{Color, get_color, lookup_color};
use crate::doc::{DocError, DocValue, get_dim, get_str, get_uint, has_tag, has_type_tag, lookup_dim,
    lookup_str, lookup_uint};
use crate::gpioregs::{RegMemory, spec_write_pin};
use crate::pin_api::pin_in_range;

verus! {

/// The mathematical view of a button.
pub ghost struct ButtonModel {
    pub pin: u8,
    pub name: Seq<char>,
    pub hotkey: Seq<char>,
    pub color_off: Color,
    pub color_on: Color,
    pub pos_x: u16,
    pub pos_y: u16,
    pub state: bool,
}

/// A button on a board: a pin, a display name, a hotkey (one character
/// or empty), its two colors, a grid position, and a local pressed
/// state that syncs drive into the INPUT register.
pub struct Button {
    pub pin: u8,
    pub name: String,
    pub hotkey: String,
    pub color_off: Color,
    pub color_on: Color,
    pub pos_x: u16,
    pub pos_y: u16,
    pub state: bool,
}

/// The defaults a button document starts from.
pub open spec fn button_default_model() -> ButtonModel {
    ButtonModel {
        pin: 0,
        name: "BTN $n"@,
        hotkey: ""@,
        color_off: Color::Black,
        color_on: Color::Yellow,
        pos_x: 0,
        pos_y: 0,
        state: false,
    }
}

/// The button that the object entries `entries` describe: each
/// attribute is the last usable value under its key, or the default.
pub open spec fn spec_button_of(entries: Seq<(String, DocValue)>) -> ButtonModel {
    ButtonModel {
        pin: match lookup_uint(entries, "pin"@) {
            Some(u) => u as u8,
            None => 0,
        },
        name: match lookup_str(entries, "name"@) {
            Some(s) => s,
            None => "BTN $n"@,
        },
        hotkey: match lookup_str(entries, "hotkey"@) {
            Some(s) => s,
            None => ""@,
        },
        color_off: match lookup_color(entries, "colorOff"@) {
            Some(c) => c,
            None => Color::Black,
        },
        color_on: match lookup_color(entries, "colorOn"@) {
            Some(c) => c,
            None => Color::Yellow,
        },
        pos_x: match lookup_dim(entries, "position"@, "x"@) {
            Some(u) => u as u16,
            None => 0,
        },
        pos_y: match lookup_dim(entries, "position"@, "y"@) {
            Some(u) => u as u16,
            None => 0,
        },
        state: false,
    }
}

impl Button {
    /// The mathematical view of this button.
    pub open spec fn model(&self) -> ButtonModel {
        ButtonModel {
            pin: self.pin,
            name: self.name@,
            hotkey: self.hotkey@,
            color_off: self.color_off,
            color_on: self.color_on,
            pos_x: self.pos_x,
            pos_y: self.pos_y,
            state: self.state,
        }
    }

    /// Read a button from a document node.  Anything but an object is
    /// rejected outright; an object must carry the `simpi/button` type
    /// tag; every other attribute falls back to its default.
    pub fn from_doc(d: &DocValue) -> (r: Result<Button, DocError>)
        ensures
            match d {
                DocValue::Object(entries) => if has_type_tag(entries@, "simpi/button"@) {
                    r matches Ok(b) && b.model() == spec_button_of(entries@)
                } else {
                    r == Err::<Button, DocError>(DocError::InvalidData)
                },
                _ => r == Err::<Button, DocError>(DocError::InvalidInput),
            },
    {
        match d {
            DocValue::Object(entries) => {
                if !has_tag(entries, "simpi/button") {
                    return Err(DocError::InvalidData);
                }
                let mut button = Button::default();
                match get_uint(entries, "pin") {
                    Some(u) => {
                        button.pin = #[verifier::truncate] (u as u8);
                    },
                    None => {},
                }
                match get_str(entries, "name") {
                    Some(s) => {
                        button.name = s.clone();
                    },
                    None => {},
                }
                match get_str(entries, "hotkey") {
                    Some(s) => {
                        button.hotkey = s.clone();
                    },
                    None => {},
                }
                match get_color(entries, "colorOff") {
                    Some(c) => {
                        button.color_off = c;
                    },
                    None => {},
                }
                match get_color(entries, "colorOn") {
                    Some(c) => {
                        button.color_on = c;
                    },
                    None => {},
                }
                match get_dim(entries, "position", "x") {
                    Some(u) => {
                        button.pos_x = #[verifier::truncate] (u as u16);
                    },
                    None => {},
                }
                match get_dim(entries, "position", "y") {
                    Some(u) => {
                        button.pos_y = #[verifier::truncate] (u as u16);
                    },
                    None => {},
                }
                Ok(button)
            },
            _ => Err(DocError::InvalidInput),
        }
    }

    /// The pressed state.
    pub fn get(&self) -> (r: bool)
        ensures
            r == self.model().state,
    {
        self.state
    }

    /// Overwrite the pressed state.
    pub fn set(&mut self, state: bool)
        ensures
            final(self).model() == (ButtonModel { state, ..old(self).model() }),
    {
        self.state = state
    }

    /// True iff this button's hotkey is exactly the character `c`.
    pub fn hotkey_matches(&self, c: char) -> (r: bool)
        ensures
            r == (self.model().hotkey == seq![c]),
    {
        if self.hotkey.as_str().unicode_len() == 1 {
            let h = self.hotkey.as_str().get_char(0);
            proof {
                if h == c {
                    assert(self.hotkey@ =~= seq![c]);
                }
            }
            h == c
        } else {
            false
        }
    }

    /// Drive the button's state into its INPUT bit; a button with an
    /// out-of-range pin never influences the bank.
    pub fn sync(&self, reg_memory: &mut RegMemory)
        ensures
            pin_in_range(self.pin) ==> {
                &&& final(reg_memory).input@ == spec_write_pin(
                    old(reg_memory).input@,
                    self.pin,
                    self.model().state,
                )
                &&& final(reg_memory).output == old(reg_memory).output
                &&& final(reg_memory).config == old(reg_memory).config
                &&& final(reg_memory).inten == old(reg_memory).inten
                &&& final(reg_memory).int0 == old(reg_memory).int0
                &&& final(reg_memory).int1 == old(reg_memory).int1
            },
            !pin_in_range(self.pin) ==> *final(reg_memory) == *old(reg_memory),
    {
        if self.pin >= crate::MIN_PIN_NUM && self.pin <= crate::MAX_PIN_NUM {
            let v: u8 = if self.state {
                1
            } else {
                0
            };
            reg_memory.input.write_pin(self.pin, v);
        }
    }
}

impl Clone for Button {
    /// An exact copy.
    fn clone(&self) -> (r: Button)
        ensures
            r == *self,
    {
        Button {
            pin: self.pin,
            name: self.name.clone(),
            hotkey: self.hotkey.clone(),
            color_off: self.color_off,
            color_on: self.color_on,
            pos_x: self.pos_x,
            pos_y: self.pos_y,
            state: self.state,
        }
    }
}

impl Default for Button {
    /// The button every document starts from.
    fn default() -> (r: Button)
        ensures
            r.model() == button_default_model(),
    {
        Button {
            pin: 0,
            name: String::from_str("BTN $n"),
            hotkey: String::from_str(""),
            color_off: Color::Black,
            color_on: Color::Yellow,
            pos_x: 0,
            pos_y: 0,
            state: false,
        }
    }
}

} // verus!
