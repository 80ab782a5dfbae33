//! A board: a named collection of hardware parts on a character grid,
//! loaded from a structured document and synchronized against the
//! register bank on every broker tick.

use vstd::prelude::*;
use crate::color::{Color, get_color, lookup_color};
use crate::doc::{DocError, DocValue, get_dim, get_str, has_tag, has_type_tag, lookup_dim,
    lookup_str};
use crate::gpioregs::RegMemory;
use crate::led::spec_led_sync;
use crate::part::{Part, PartModel, part_from_doc, spec_part_of, spec_parts_of};
use crate::pin_api::pin_in_range;
use crate::strutil::str_eq;

verus! {

/// The mathematical view of a board.
pub ghost struct BoardModel {
    pub name: Seq<char>,
    pub background_color: Color,
    pub foreground_color: Color,
    pub width: u16,
    pub height: u16,
    pub hardware: Seq<PartModel>,
}

/// A board: its name, colors, grid size, and parts in document order.
pub struct Board {
    pub name: String,
    pub background_color: Color,
    pub foreground_color: Color,
    pub width: u16,
    pub height: u16,
    pub hardware: Vec<Part>,
}

/// The defaults a board document starts from.
pub open spec fn board_default_model() -> BoardModel {
    BoardModel {
        name: "Board $n"@,
        background_color: Color::Green,
        foreground_color: Color::White,
        width: 64,
        height: 24,
        hardware: Seq::empty(),
    }
}

/// All parts declared by the `hardware` arrays among `entries`, in
/// document order.
pub open spec fn spec_board_hardware(entries: Seq<(String, DocValue)>) -> Seq<PartModel>
    decreases entries.len(),
{
    if entries.len() == 0 {
        Seq::empty()
    } else {
        spec_board_hardware(entries.drop_last()) + (if entries.last().0@ == "hardware"@
            && entries.last().1 is Array {
            spec_parts_of(entries.last().1->Array_0@)
        } else {
            Seq::empty()
        })
    }
}

/// The board that the object entries `entries` describe: each scalar
/// attribute is the last usable value under its key, or the default,
/// and the hardware is everything the `hardware` arrays declare.
pub open spec fn spec_board_of(entries: Seq<(String, DocValue)>) -> BoardModel {
    BoardModel {
        name: match lookup_str(entries, "name"@) {
            Some(s) => s,
            None => "Board $n"@,
        },
        background_color: match lookup_color(entries, "backgroundColor"@) {
            Some(c) => c,
            None => Color::Green,
        },
        foreground_color: match lookup_color(entries, "foregroundColor"@) {
            Some(c) => c,
            None => Color::White,
        },
        width: match lookup_dim(entries, "size"@, "width"@) {
            Some(u) => u as u16,
            None => 64,
        },
        height: match lookup_dim(entries, "size"@, "height"@) {
            Some(u) => u as u16,
            None => 24,
        },
        hardware: spec_board_hardware(entries),
    }
}

/// A part after one board keypress: a button whose hotkey is exactly
/// `c` toggles its state; everything else is untouched.
pub open spec fn spec_keypress_part(p: PartModel, c: char) -> PartModel {
    match p {
        PartModel::Button(b) => if b.hotkey == seq![c] {
            PartModel::Button(crate::button::ButtonModel { state: !b.state, ..b })
        } else {
            p
        },
        PartModel::Led(_) => p,
    }
}

/// The INPUT word after every button of `parts`, in order, drove its
/// state into its bit; buttons with out-of-range pins write nothing.
pub open spec fn spec_sync_input(parts: Seq<PartModel>, input: u32) -> u32
    decreases parts.len(),
{
    if parts.len() == 0 {
        input
    } else {
        let w = spec_sync_input(parts.drop_last(), input);
        match parts.last() {
            PartModel::Button(b) => if pin_in_range(b.pin) {
                crate::gpioregs::spec_write_pin(w, b.pin, b.state)
            } else {
                w
            },
            PartModel::Led(_) => w,
        }
    }
}

/// The parts of a board after one sync: every LED mirrors its OUTPUT
/// bit, every button is untouched.
pub open spec fn spec_sync_parts(parts: Seq<PartModel>, output: u32) -> Seq<PartModel> {
    parts.map_values(
        |p: PartModel|
            match p {
                PartModel::Led(l) => PartModel::Led(spec_led_sync(l, output)),
                PartModel::Button(_) => p,
            },
    )
}

impl Board {
    /// The mathematical view of this board.
    pub open spec fn model(&self) -> BoardModel {
        BoardModel {
            name: self.name@,
            background_color: self.background_color,
            foreground_color: self.foreground_color,
            width: self.width,
            height: self.height,
            hardware: self.hardware@.map_values(|p: Part| p.model()),
        }
    }

    /// Read a board from a document node.  Anything but an object is
    /// rejected outright; an object must carry the `simpi/board` type
    /// tag; every other attribute falls back to its default, and the
    /// parts come from the `hardware` arrays in order.
    pub fn from_doc(d: &DocValue) -> (r: Result<Board, DocError>)
        ensures
            match d {
                DocValue::Object(entries) => if has_type_tag(entries@, "simpi/board"@) {
                    r matches Ok(b) && b.model() == spec_board_of(entries@)
                } else {
                    r == Err::<Board, DocError>(DocError::InvalidData)
                },
                _ => r == Err::<Board, DocError>(DocError::InvalidInput),
            },
    {
        match d {
            DocValue::Object(entries) => {
                if !has_tag(entries, "simpi/board") {
                    return Err(DocError::InvalidData);
                }
                let mut board = Board::default();
                match get_str(entries, "name") {
                    Some(s) => {
                        board.name = s.clone();
                    },
                    None => {},
                }
                match get_color(entries, "backgroundColor") {
                    Some(c) => {
                        board.background_color = c;
                    },
                    None => {},
                }
                match get_color(entries, "foregroundColor") {
                    Some(c) => {
                        board.foreground_color = c;
                    },
                    None => {},
                }
                match get_dim(entries, "size", "width") {
                    Some(u) => {
                        board.width = #[verifier::truncate] (u as u16);
                    },
                    None => {},
                }
                match get_dim(entries, "size", "height") {
                    Some(u) => {
                        board.height = #[verifier::truncate] (u as u16);
                    },
                    None => {},
                }
                let n = entries.len();
                let mut i: usize = 0;
                proof {
                    assert(entries@.take(0) =~= Seq::<(String, DocValue)>::empty());
                    assert(board.hardware@.map_values(|p: Part| p.model()) =~= spec_board_hardware(
                        entries@.take(0),
                    ));
                }
                while i < n
                    invariant
                        i <= n,
                        n == entries@.len(),
                        board.name@ == spec_board_of(entries@).name,
                        board.background_color == spec_board_of(entries@).background_color,
                        board.foreground_color == spec_board_of(entries@).foreground_color,
                        board.width == spec_board_of(entries@).width,
                        board.height == spec_board_of(entries@).height,
                        board.hardware@.map_values(|p: Part| p.model()) == spec_board_hardware(
                            entries@.take(i as int),
                        ),
                    decreases n - i,
                {
                    proof {
                        assert(entries@.take(i as int + 1).last() == entries@[i as int]);
                        assert(entries@.take(i as int + 1).drop_last() =~= entries@.take(i as int));
                    }
                    if str_eq(entries[i].0.as_str(), "hardware") {
                        match &entries[i].1 {
                            DocValue::Array(arr) => {
                                let m = arr.len();
                                let mut j: usize = 0;
                                proof {
                                    assert(arr@.take(0) =~= Seq::<DocValue>::empty());
                                    assert(spec_parts_of(arr@.take(0)) =~= Seq::<
                                        PartModel,
                                    >::empty());
                                    assert(board.hardware@.map_values(|p: Part| p.model())
                                        =~= spec_board_hardware(entries@.take(i as int))
                                        + spec_parts_of(arr@.take(0)));
                                }
                                while j < m
                                    invariant
                                        j <= m,
                                        m == arr@.len(),
                                        board.name@ == spec_board_of(entries@).name,
                                        board.background_color == spec_board_of(
                                            entries@,
                                        ).background_color,
                                        board.foreground_color == spec_board_of(
                                            entries@,
                                        ).foreground_color,
                                        board.width == spec_board_of(entries@).width,
                                        board.height == spec_board_of(entries@).height,
                                        board.hardware@.map_values(|p: Part| p.model())
                                            == spec_board_hardware(entries@.take(i as int))
                                            + spec_parts_of(arr@.take(j as int)),
                                    decreases m - j,
                                {
                                    proof {
                                        assert(arr@.take(j as int + 1).last() == arr@[j as int]);
                                        assert(arr@.take(j as int + 1).drop_last() =~= arr@.take(
                                            j as int,
                                        ));
                                    }
                                    let ghost hw_before = board.hardware@;
                                    match part_from_doc(&arr[j]) {
                                        Some(p) => {
                                            board.hardware.push(p);
                                            proof {
                                                assert(board.hardware@.map_values(
                                                    |p: Part| p.model(),
                                                ) =~= hw_before.map_values(
                                                    |p: Part| p.model(),
                                                ).push(board.hardware@.last().model()));
                                                assert(board.hardware@.map_values(
                                                    |p: Part| p.model(),
                                                ) =~= spec_board_hardware(entries@.take(i as int))
                                                    + spec_parts_of(arr@.take(j as int + 1)));
                                            }
                                        },
                                        None => {
                                            proof {
                                                assert(spec_parts_of(arr@.take(j as int + 1))
                                                    =~= spec_parts_of(arr@.take(j as int)));
                                            }
                                        },
                                    }
                                    j = j + 1;
                                }
                                proof {
                                    assert(arr@.take(m as int) =~= arr@);
                                }
                            },
                            _ => {},
                        }
                    }
                    proof {
                        assert(board.hardware@.map_values(|p: Part| p.model())
                            =~= spec_board_hardware(entries@.take(i as int + 1)));
                    }
                    i = i + 1;
                }
                proof {
                    assert(entries@.take(n as int) =~= entries@);
                }
                Ok(board)
            },
            _ => Err(DocError::InvalidInput),
        }
    }

    /// Toggle every button whose hotkey is exactly `c`; nothing else
    /// changes.
    pub fn event_keypress(&mut self, c: char)
        ensures
            final(self).model() == (BoardModel {
                hardware: old(self).model().hardware.map_values(
                    |p: PartModel| spec_keypress_part(p, c),
                ),
                ..old(self).model()
            }),
    {
        let ghost hw0 = self.hardware@.map_values(|p: Part| p.model());
        let n = self.hardware.len();
        let mut i: usize = 0;
        while i < n
            invariant
                i <= n,
                n == self.hardware@.len(),
                self.name == old(self).name,
                self.background_color == old(self).background_color,
                self.foreground_color == old(self).foreground_color,
                self.width == old(self).width,
                self.height == old(self).height,
                hw0 == old(self).model().hardware,
                hw0.len() == n,
                forall|k: int|
                    0 <= k < i ==> (#[trigger] self.hardware@[k]).model() == spec_keypress_part(
                        hw0[k],
                        c,
                    ),
                forall|k: int|
                    i <= k < n ==> (#[trigger] self.hardware@[k]).model() == hw0[k],
            decreases n - i,
        {
            match &mut self.hardware[i] {
                Part::Button(button) => {
                    if button.hotkey_matches(c) {
                        let cur = button.get();
                        button.set(!cur);
                    }
                },
                _ => {},
            }
            i = i + 1;
        }
        proof {
            assert(self.hardware@.map_values(|p: Part| p.model()) =~= hw0.map_values(
                |p: PartModel| spec_keypress_part(p, c),
            ));
        }
    }

    /// One tick's synchronization: every LED's state is refreshed from
    /// its OUTPUT bit and every button's state is driven into its INPUT
    /// bit, in part order; no other register changes.  LEDs never write
    /// INPUT; buttons never read OUTPUT.
    pub fn sync(&mut self, reg_memory: &mut RegMemory)
        ensures
            final(self).model() == (BoardModel {
                hardware: spec_sync_parts(old(self).model().hardware, old(reg_memory).output@),
                ..old(self).model()
            }),
            final(reg_memory).input@ == spec_sync_input(
                old(self).model().hardware,
                old(reg_memory).input@,
            ),
            final(reg_memory).output == old(reg_memory).output,
            final(reg_memory).config == old(reg_memory).config,
            final(reg_memory).inten == old(reg_memory).inten,
            final(reg_memory).int0 == old(reg_memory).int0,
            final(reg_memory).int1 == old(reg_memory).int1,
    {
        let ghost hw0 = self.hardware@.map_values(|p: Part| p.model());
        let ghost regs0 = *reg_memory;
        let n = self.hardware.len();
        let mut i: usize = 0;
        while i < n
            invariant
                i <= n,
                n == self.hardware@.len(),
                self.name == old(self).name,
                self.background_color == old(self).background_color,
                self.foreground_color == old(self).foreground_color,
                self.width == old(self).width,
                self.height == old(self).height,
                hw0 == old(self).model().hardware,
                hw0.len() == n,
                regs0 == *old(reg_memory),
                reg_memory.input@ == spec_sync_input(hw0.take(i as int), regs0.input@),
                reg_memory.output == regs0.output,
                reg_memory.config == regs0.config,
                reg_memory.inten == regs0.inten,
                reg_memory.int0 == regs0.int0,
                reg_memory.int1 == regs0.int1,
                forall|k: int|
                    0 <= k < i ==> (#[trigger] self.hardware@[k]).model() == (match hw0[k] {
                        PartModel::Led(l) => PartModel::Led(spec_led_sync(l, regs0.output@)),
                        PartModel::Button(_) => hw0[k],
                    }),
                forall|k: int|
                    i <= k < n ==> (#[trigger] self.hardware@[k]).model() == hw0[k],
            decreases n - i,
        {
            proof {
                assert(hw0.take(i as int + 1).last() == hw0[i as int]);
                assert(hw0.take(i as int + 1).drop_last() =~= hw0.take(i as int));
            }
            match &mut self.hardware[i] {
                Part::Led(led) => {
                    led.sync(reg_memory);
                },
                Part::Button(button) => {
                    button.sync(reg_memory);
                },
            }
            i = i + 1;
        }
        proof {
            assert(hw0.take(n as int) =~= hw0);
            assert(self.hardware@.map_values(|p: Part| p.model()) =~= spec_sync_parts(
                hw0,
                regs0.output@,
            ));
        }
    }

    /// How many LEDs and how many buttons the board holds, in that
    /// order: the figures a board list displays.
    pub fn hardware_counts(&self) -> (r: (usize, usize))
        ensures
            r.0 == count_leds(self.model().hardware),
            r.1 == count_buttons(self.model().hardware),
    {
        let ghost hw = self.model().hardware;
        let n = self.hardware.len();
        let mut leds: usize = 0;
        let mut buttons: usize = 0;
        let mut i: usize = 0;
        proof {
            assert(hw.take(0) =~= Seq::<PartModel>::empty());
        }
        while i < n
            invariant
                i <= n,
                n == self.hardware@.len(),
                hw == self.model().hardware,
                hw.len() == n,
                leds == count_leds(hw.take(i as int)),
                buttons == count_buttons(hw.take(i as int)),
                leds <= i,
                buttons <= i,
            decreases n - i,
        {
            proof {
                assert(hw.take(i as int + 1).last() == hw[i as int]);
                assert(hw.take(i as int + 1).drop_last() =~= hw.take(i as int));
            }
            match &self.hardware[i] {
                Part::Led(_) => {
                    leds = leds + 1;
                },
                Part::Button(_) => {
                    buttons = buttons + 1;
                },
            }
            i = i + 1;
        }
        proof {
            assert(hw.take(n as int) =~= hw);
        }
        (leds, buttons)
    }
}

/// How many parts of `parts` are LEDs.
pub open spec fn count_leds(parts: Seq<PartModel>) -> nat
    decreases parts.len(),
{
    if parts.len() == 0 {
        0
    } else {
        count_leds(parts.drop_last()) + (if parts.last() is Led {
            1nat
        } else {
            0nat
        })
    }
}

/// How many parts of `parts` are buttons.
pub open spec fn count_buttons(parts: Seq<PartModel>) -> nat
    decreases parts.len(),
{
    if parts.len() == 0 {
        0
    } else {
        count_buttons(parts.drop_last()) + (if parts.last() is Button {
            1nat
        } else {
            0nat
        })
    }
}

/// Every part declared by a `hardware` array entry of a board document
/// appears among the parts of the board read from it, with its
/// attributes as the document gave them.
pub proof fn lemma_board_preserves_parts(
    entries: Seq<(String, DocValue)>,
    i: int,
    j: int,
)
    requires
        0 <= i < entries.len(),
        entries[i].0@ == "hardware"@,
        entries[i].1 is Array,
        0 <= j < entries[i].1->Array_0@.len(),
        spec_part_of(entries[i].1->Array_0@[j]) is Some,
    ensures
        spec_board_hardware(entries).contains(spec_part_of(entries[i].1->Array_0@[j])->Some_0),
    decreases entries.len(),
{
    let p = spec_part_of(entries[i].1->Array_0@[j])->Some_0;
    if i == entries.len() - 1 {
        crate::part::lemma_parts_preserved(entries[i].1->Array_0@, j);
        let tail = spec_parts_of(entries[i].1->Array_0@);
        let k = choose|k: int| 0 <= k < tail.len() && tail[k] == p;
        let prefix = spec_board_hardware(entries.drop_last());
        assert(entries.last() == entries[i]);
        assert(spec_board_hardware(entries)[prefix.len() + k] == p);
    } else {
        assert(entries.drop_last()[i] == entries[i]);
        lemma_board_preserves_parts(entries.drop_last(), i, j);
        let prefix = spec_board_hardware(entries.drop_last());
        let k = choose|k: int| 0 <= k < prefix.len() && prefix[k] == p;
        assert(spec_board_hardware(entries)[k] == p);
    }
}

impl Clone for Board {
    /// A copy with the same view: every attribute and every part is
    /// kept.
    fn clone(&self) -> (r: Board)
        ensures
            r.model() == self.model(),
    {
        let hardware = self.hardware.clone();
        proof {
            assert forall|i: int| 0 <= i < hardware@.len() implies #[trigger] hardware@[i]
                == self.hardware@[i] by {
                assert(cloned(self.hardware@[i], hardware@[i]));
            }
            assert(hardware@.map_values(|p: Part| p.model()) =~= self.hardware@.map_values(
                |p: Part| p.model(),
            ));
        }
        Board {
            name: self.name.clone(),
            background_color: self.background_color,
            foreground_color: self.foreground_color,
            width: self.width,
            height: self.height,
            hardware,
        }
    }
}

impl Default for Board {
    /// The board every document starts from.
    fn default() -> (r: Board)
        ensures
            r.model() == board_default_model(),
    {
        let r = Board {
            name: String::from_str("Board $n"),
            background_color: Color::Green,
            foreground_color: Color::White,
            width: 64,
            height: 24,
            hardware: Vec::new(),
        };
        proof {
            assert(r.hardware@.map_values(|p: Part| p.model()) =~= Seq::<PartModel>::empty());
        }
        r
    }
}

} // verus!
