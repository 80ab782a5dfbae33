//! A hardware part: the tagged union of the two part kinds a board can
//! hold, and how a document array of parts is read.

use vstd::prelude::*;
use crate::button::{Button, ButtonModel, spec_button_of};
use crate::doc::{DocError, DocValue, has_type_tag};
use crate::led::{Led, LedModel, spec_led_of};

verus! {

/// One hardware element on a board.
pub enum Part {
    Button(Button),
    Led(Led),
}

/// The mathematical view of a part.
pub ghost enum PartModel {
    Button(ButtonModel),
    Led(LedModel),
}

impl Clone for Part {
    /// An exact copy.
    fn clone(&self) -> (r: Part)
        ensures
            r == *self,
    {
        match self {
            Part::Button(b) => Part::Button(b.clone()),
            Part::Led(l) => Part::Led(l.clone()),
        }
    }
}

impl Part {
    /// The mathematical view of this part.
    pub open spec fn model(&self) -> PartModel {
        match self {
            Part::Button(b) => PartModel::Button(b.model()),
            Part::Led(l) => PartModel::Led(l.model()),
        }
    }
}

/// The part a document node describes, if any: an object tagged
/// `simpi/led` reads as an LED, one tagged `simpi/button` as a button,
/// and anything else is skipped.
pub open spec fn spec_part_of(d: DocValue) -> Option<PartModel> {
    if d is Object && has_type_tag(d->Object_0@, "simpi/led"@) {
        Some(PartModel::Led(spec_led_of(d->Object_0@)))
    } else if d is Object && has_type_tag(d->Object_0@, "simpi/button"@) {
        Some(PartModel::Button(spec_button_of(d->Object_0@)))
    } else {
        None
    }
}

/// The parts a document array describes, in order, skipping nodes that
/// describe no part.
pub open spec fn spec_parts_of(vals: Seq<DocValue>) -> Seq<PartModel>
    decreases vals.len(),
{
    if vals.len() == 0 {
        Seq::empty()
    } else {
        spec_parts_of(vals.drop_last()) + (match spec_part_of(vals.last()) {
            Some(p) => seq![p],
            None => Seq::empty(),
        })
    }
}

/// Read one document node as a part, trying the LED shape first and
/// the button shape second.
pub fn part_from_doc(d: &DocValue) -> (r: Option<Part>)
    ensures
        match r {
            Some(p) => spec_part_of(*d) == Some(p.model()),
            None => spec_part_of(*d) is None,
        },
{
    match Led::from_doc(d) {
        Ok(led) => Some(Part::Led(led)),
        Err(DocError::InvalidInput) => None,
        Err(DocError::InvalidData) => match Button::from_doc(d) {
            Ok(button) => Some(Part::Button(button)),
            Err(_) => None,
        },
    }
}

/// Every part a document array declares appears among the parts read
/// from it.
pub proof fn lemma_parts_preserved(vals: Seq<DocValue>, j: int)
    requires
        0 <= j < vals.len(),
        spec_part_of(vals[j]) is Some,
    ensures
        spec_parts_of(vals).contains(spec_part_of(vals[j])->Some_0),
    decreases vals.len(),
{
    let p = spec_part_of(vals[j])->Some_0;
    if j == vals.len() - 1 {
        assert(vals.last() == vals[j]);
        let prefix = spec_parts_of(vals.drop_last());
        assert(spec_parts_of(vals)[prefix.len() as int] == p);
    } else {
        assert(vals.drop_last()[j] == vals[j]);
        lemma_parts_preserved(vals.drop_last(), j);
        let prefix = spec_parts_of(vals.drop_last());
        let k = choose|k: int| 0 <= k < prefix.len() && prefix[k] == p;
        assert(spec_parts_of(vals)[k] == p);
    }
}

} // verus!
