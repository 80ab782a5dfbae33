//! The interrupt-detection engine: compares successive INPUT snapshots
//! against the interrupt-configuration registers and says which pins
//! fire in a poll.
//!
//! A worker in the client process drives [`InterruptEngine::poll`] at a
//! fixed period with a copy of the relevant registers taken under a
//! read lock, and invokes the returned pins' callbacks without holding
//! any lock.

use vstd::prelude::*;
use crate::gpioregs::bit_of;
use crate::{MAX_PIN_NUM, MIN_PIN_NUM};

verus! {

/// Whether one observed transition fires an interrupt of mode
/// `(int1, int0)`: `(1,1)` rising edge, `(1,0)` falling edge, `(0,1)`
/// any change, `(0,0)` level low.  Level-low mode holds whenever the
/// new level reads 0, so it fires once per poll for as long as the pin
/// stays low; edge-only behaviour needs mode `(1,0)`.
pub open spec fn spec_fires(int0: bool, int1: bool, old_level: bool, new_level: bool) -> bool {
    if int1 && int0 {
        !old_level && new_level
    } else if int1 && !int0 {
        old_level && !new_level
    } else if !int1 && int0 {
        old_level != new_level
    } else {
        !new_level
    }
}

/// Decide whether a transition from `old_level` to `new_level` fires an
/// interrupt of mode `(int1, int0)`.
pub fn should_fire(int0: bool, int1: bool, old_level: bool, new_level: bool) -> (r: bool)
    ensures
        r == spec_fires(int0, int1, old_level, new_level),
{
    if int1 && int0 {
        !old_level && new_level
    } else if int1 && !int0 {
        old_level && !new_level
    } else if !int1 && int0 {
        old_level != new_level
    } else {
        !new_level
    }
}

/// True iff pin `p` fires in a poll that sees the INPUT word `input`
/// after the previous snapshot `old_input`, under the interrupt
/// configuration `inten`/`int0`/`int1`, with `isr_mask` holding one bit
/// per pin that has a callback registered.  Detection keys on the
/// interrupt-enable bit alone; the direction register plays no part in
/// it.
pub open spec fn spec_pin_fires(
    input: u32,
    inten: u32,
    int0: u32,
    int1: u32,
    old_input: u32,
    isr_mask: u32,
    p: u8,
) -> bool {
    &&& MIN_PIN_NUM <= p && p <= MAX_PIN_NUM
    &&& bit_of(inten, p)
    &&& bit_of(isr_mask, p)
    &&& spec_fires(bit_of(int0, p), bit_of(int1, p), bit_of(old_input, p), bit_of(input, p))
}

/// Test bit `p` of the word `w`.
fn bit_set(w: u32, p: u8) -> (r: bool)
    requires
        p < 32,
    ensures
        r == bit_of(w, p),
{
    proof {
        assert(((w >> (p as u32)) & 1 > 0) == ((w >> (p as u32)) & 1 == 1)) by (bit_vector);
    }
    (w >> (p as u32)) & 1 > 0
}

/// The pins that fire in one poll, in strictly ascending order: exactly
/// those user-addressable pins that are interrupt-enabled, have a
/// callback registered, and whose mode matches the observed transition.
pub fn poll_pins(
    input: u32,
    inten: u32,
    int0: u32,
    int1: u32,
    old_input: u32,
    isr_mask: u32,
) -> (r: Vec<u8>)
    ensures
        forall|i: int|
            0 <= i < r@.len() ==> spec_pin_fires(
                input,
                inten,
                int0,
                int1,
                old_input,
                isr_mask,
                #[trigger] r@[i],
            ),
        forall|p: u8|
            spec_pin_fires(input, inten, int0, int1, old_input, isr_mask, p) ==> r@.contains(p),
        forall|i: int, j: int| 0 <= i < j < r@.len() ==> r@[i] < r@[j],
{
    let mut r: Vec<u8> = Vec::new();
    let mut p: u8 = MIN_PIN_NUM;
    while p <= MAX_PIN_NUM
        invariant
            MIN_PIN_NUM <= p && p <= MAX_PIN_NUM + 1,
            forall|i: int|
                0 <= i < r@.len() ==> spec_pin_fires(
                    input,
                    inten,
                    int0,
                    int1,
                    old_input,
                    isr_mask,
                    #[trigger] r@[i],
                ) && r@[i] < p,
            forall|q: u8|
                q < p && spec_pin_fires(input, inten, int0, int1, old_input, isr_mask, q)
                    ==> r@.contains(q),
            forall|i: int, j: int| 0 <= i < j < r@.len() ==> r@[i] < r@[j],
        decreases MAX_PIN_NUM + 1 - p,
    {
        if bit_set(inten, p) && bit_set(isr_mask, p) {
            let fires = should_fire(
                bit_set(int0, p),
                bit_set(int1, p),
                bit_set(old_input, p),
                bit_set(input, p),
            );
            if fires {
                let ghost old_r = r@;
                r.push(p);
                proof {
                    assert(r@.last() == p);
                    assert forall|q: u8|
                        q < p + 1 && spec_pin_fires(
                            input,
                            inten,
                            int0,
                            int1,
                            old_input,
                            isr_mask,
                            q,
                        ) implies r@.contains(q) by {
                        if q < p {
                            assert(old_r.contains(q));
                            let k = choose|k: int| 0 <= k < old_r.len() && old_r[k] == q;
                            assert(r@[k] == q);
                        } else {
                            assert(r@[r@.len() - 1] == q);
                        }
                    }
                }
            }
        }
        proof {
            assert forall|q: u8|
                q < p + 1 && spec_pin_fires(input, inten, int0, int1, old_input, isr_mask, q)
                    implies r@.contains(q) by {
                if q < p {
                    assert(r@.contains(q));
                } else {
                    assert(q == p);
                }
            }
        }
        p = p + 1;
    }
    r
}

/// The engine's cross-poll state: the INPUT snapshot observed by the
/// previous poll, against which the next poll detects edges.  A fresh
/// engine has seen every pin low.
///
/// An edge that persists is reported by the first poll whose input
/// shows it and by no later one, so the worker's fixed poll period
/// bounds the dispatch latency: at its 50 ms period a callback runs
/// within two periods of the transition.  That wall-clock bound
/// belongs to the worker loop; what the engine itself guarantees is
/// the per-poll firing set.
pub struct InterruptEngine {
    old_input: u32,
}

impl InterruptEngine {
    /// The snapshot the previous poll stored.
    pub closed spec fn spec_old_input(&self) -> u32 {
        self.old_input
    }

    /// An engine that has not observed any poll yet.
    pub fn new() -> (r: InterruptEngine)
        ensures
            r.spec_old_input() == 0u32,
    {
        InterruptEngine { old_input: 0 }
    }

    /// One poll: decide which pins fire against the stored snapshot,
    /// then store `input` as the snapshot for the next poll.  The
    /// caller passes register copies taken under a read lock and
    /// invokes the returned pins' callbacks in order, without holding
    /// any lock.
    pub fn poll(&mut self, input: u32, inten: u32, int0: u32, int1: u32, isr_mask: u32) -> (r: Vec<
        u8,
    >)
        ensures
            forall|i: int|
                0 <= i < r@.len() ==> spec_pin_fires(
                    input,
                    inten,
                    int0,
                    int1,
                    old(self).spec_old_input(),
                    isr_mask,
                    #[trigger] r@[i],
                ),
            forall|p: u8|
                spec_pin_fires(input, inten, int0, int1, old(self).spec_old_input(), isr_mask, p)
                    ==> r@.contains(p),
            forall|i: int, j: int| 0 <= i < j < r@.len() ==> r@[i] < r@[j],
            final(self).spec_old_input() == input,
    {
        let fired = poll_pins(input, inten, int0, int1, self.old_input, isr_mask);
        self.old_input = input;
        fired
    }
}

/// Rising-edge interrupts fire exactly once per observed transition: a
/// pin with mode `(1,1)` fires in the poll that first sees its level
/// go from 0 to 1, and not in the following poll if the level stays 1,
/// because that poll compares against the stored snapshot in which the
/// level is already 1.
pub proof fn lemma_rising_edge_fires_once(
    input: u32,
    inten: u32,
    int0: u32,
    int1: u32,
    old_input: u32,
    isr_mask: u32,
    p: u8,
)
    requires
        MIN_PIN_NUM <= p && p <= MAX_PIN_NUM,
        bit_of(inten, p),
        bit_of(isr_mask, p),
        bit_of(int0, p),
        bit_of(int1, p),
        !bit_of(old_input, p),
        bit_of(input, p),
    ensures
        spec_pin_fires(input, inten, int0, int1, old_input, isr_mask, p),
        !spec_pin_fires(input, inten, int0, int1, input, isr_mask, p),
{
}

} // verus!
