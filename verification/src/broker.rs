//! The broker's own state and its decisions: which page is shown,
//! whether rendering is paused on a snapshot, and what each function
//! key asks the surrounding process to do with the shared bank.
//!
//! The surrounding process drives a fixed-rate loop: it performs the
//! returned command under the right lock (clone the bank for a
//! snapshot, reset it, quit) and calls [`Broker::sync_boards`] with
//! the locked bank on every unpaused tick.

use vstd::prelude::*;
use crate::board::{BoardModel, spec_sync_input, spec_sync_parts};
use crate::board_manager::{BoardManager, FocusArea};
use crate::gpioregs::{RegMemory, is_reset_state};

verus! {

/// The page the broker is showing.
#[derive(Clone, Copy, PartialEq, Eq, Structural, Debug)]
pub enum BrokerPage {
    GpioRegs,
    Help,
    BoardManager,
    Preferences,
}

/// What a handled function key asks the surrounding process to do.
#[derive(Clone, Copy, PartialEq, Eq, Structural, Debug)]
pub enum BrokerCmd {
    /// Nothing beyond the state change already made.
    Idle,
    /// Clone the bank under a read lock and hand it to
    /// `set_snapshot`.
    TakeSnapshot,
    /// Acquire the write lock and reset the bank.
    ResetBank,
    /// Tear the terminal down and exit.
    Quit,
}

/// `m2` is `m` with any transient focus dropped: what leaving the
/// board-manager page does.
pub open spec fn spec_bm_deactivated(m: BoardManager) -> BoardManager {
    BoardManager {
        current_focus_area: FocusArea::Tab,
        active_content: 0,
        items_content: 0,
        active_field: 0,
        items_field: 0,
        ..m
    }
}

/// The broker's state.
pub struct Broker {
    pub active_page: BrokerPage,
    pub bm: BoardManager,
    pub is_paused: bool,
    pub reg_memory_snapshot: RegMemory,
    pub tick_rate: u64,
}

/// The INPUT word after every board, in order, synchronized its
/// buttons into it.
pub open spec fn spec_boards_sync_input(boards: Seq<BoardModel>, input: u32) -> u32
    decreases boards.len(),
{
    if boards.len() == 0 {
        input
    } else {
        spec_sync_input(boards.last().hardware, spec_boards_sync_input(boards.drop_last(), input))
    }
}

/// A board after one tick's synchronization against the OUTPUT word.
pub open spec fn spec_board_synced(b: BoardModel, output: u32) -> BoardModel {
    BoardModel { hardware: spec_sync_parts(b.hardware, output), ..b }
}

impl Broker {
    /// A broker on the register page, unpaused, with no boards loaded
    /// and a snapshot holding the reset state, ticking at 50 ms.
    pub fn new() -> (r: Broker)
        ensures
            r.active_page == BrokerPage::GpioRegs,
            r.bm.boards@.len() == 0,
            r.is_paused == false,
            is_reset_state(r.reg_memory_snapshot),
            r.tick_rate == 50,
    {
        Broker {
            active_page: BrokerPage::GpioRegs,
            bm: BoardManager::default(),
            is_paused: false,
            reg_memory_snapshot: RegMemory::new(),
            tick_rate: 50,
        }
    }

    /// Store the snapshot that paused rendering reads from.
    pub fn set_snapshot(&mut self, regs: RegMemory)
        ensures
            *final(self) == (Broker { reg_memory_snapshot: regs, ..*old(self) }),
    {
        self.reg_memory_snapshot = regs;
    }

    /// React to a function key: `F1`/`F2`/`F3` toggle the help, board
    /// manager and preferences pages (leaving the board manager drops
    /// its focus), `F7` pauses after asking for a snapshot and
    /// unpauses, `F8` asks for a bank reset, `F9` asks to quit.
    pub fn handle_function_key(&mut self, n: u8) -> (r: BrokerCmd)
        ensures
            n == 1 ==> r == BrokerCmd::Idle && (if old(self).active_page == BrokerPage::Help {
                *final(self) == (Broker { active_page: BrokerPage::GpioRegs, ..*old(self) })
            } else {
                *final(self) == (Broker {
                    active_page: BrokerPage::Help,
                    bm: spec_bm_deactivated(old(self).bm),
                    ..*old(self)
                })
            }),
            n == 2 ==> r == BrokerCmd::Idle && (if old(self).active_page
                == BrokerPage::BoardManager {
                *final(self) == (Broker {
                    active_page: BrokerPage::GpioRegs,
                    bm: spec_bm_deactivated(old(self).bm),
                    ..*old(self)
                })
            } else {
                *final(self) == (Broker { active_page: BrokerPage::BoardManager, ..*old(self) })
            }),
            n == 3 ==> r == BrokerCmd::Idle && (if old(self).active_page
                == BrokerPage::Preferences {
                *final(self) == (Broker { active_page: BrokerPage::GpioRegs, ..*old(self) })
            } else {
                *final(self) == (Broker {
                    active_page: BrokerPage::Preferences,
                    bm: spec_bm_deactivated(old(self).bm),
                    ..*old(self)
                })
            }),
            n == 7 ==> (if old(self).is_paused {
                r == BrokerCmd::Idle && *final(self) == (Broker { is_paused: false, ..*old(self) })
            } else {
                r == BrokerCmd::TakeSnapshot && *final(self) == (Broker {
                    is_paused: true,
                    ..*old(self)
                })
            }),
            n == 8 ==> r == BrokerCmd::ResetBank && *final(self) == *old(self),
            n == 9 ==> r == BrokerCmd::Quit && *final(self) == *old(self),
            !(n == 1 || n == 2 || n == 3 || n == 7 || n == 8 || n == 9) ==> r == BrokerCmd::Idle
                && *final(self) == *old(self),
    {
        if n == 1 {
            if self.active_page == BrokerPage::Help {
                self.active_page = BrokerPage::GpioRegs;
            } else {
                self.active_page = BrokerPage::Help;
                self.bm.set_active(false);
            }
            BrokerCmd::Idle
        } else if n == 2 {
            if self.active_page == BrokerPage::BoardManager {
                self.active_page = BrokerPage::GpioRegs;
                self.bm.set_active(false);
            } else {
                self.active_page = BrokerPage::BoardManager;
                self.bm.set_active(true);
            }
            BrokerCmd::Idle
        } else if n == 3 {
            if self.active_page == BrokerPage::Preferences {
                self.active_page = BrokerPage::GpioRegs;
            } else {
                self.active_page = BrokerPage::Preferences;
                self.bm.set_active(false);
            }
            BrokerCmd::Idle
        } else if n == 7 {
            if self.is_paused {
                self.is_paused = false;
                BrokerCmd::Idle
            } else {
                self.is_paused = true;
                BrokerCmd::TakeSnapshot
            }
        } else if n == 8 {
            BrokerCmd::ResetBank
        } else if n == 9 {
            BrokerCmd::Quit
        } else {
            BrokerCmd::Idle
        }
    }

    /// One unpaused tick under the write lock: every loaded board, in
    /// order, refreshes its LEDs from OUTPUT and drives its buttons
    /// into INPUT; no other register changes.
    pub fn sync_boards(&mut self, reg_memory: &mut RegMemory)
        ensures
            final(reg_memory).input@ == spec_boards_sync_input(
                old(self).bm.boards@.map_values(|b: crate::board::Board| b.model()),
                old(reg_memory).input@,
            ),
            final(reg_memory).output == old(reg_memory).output,
            final(reg_memory).config == old(reg_memory).config,
            final(reg_memory).inten == old(reg_memory).inten,
            final(reg_memory).int0 == old(reg_memory).int0,
            final(reg_memory).int1 == old(reg_memory).int1,
            final(self).bm.boards@.map_values(|b: crate::board::Board| b.model()) == old(
                self,
            ).bm.boards@.map_values(|b: crate::board::Board| b.model()).map_values(
                |b: BoardModel| spec_board_synced(b, old(reg_memory).output@),
            ),
            *final(self) == (Broker {
                bm: (BoardManager { boards: final(self).bm.boards, ..old(self).bm }),
                ..*old(self)
            }),
    {
        let ghost boards0 = self.bm.boards@.map_values(|b: crate::board::Board| b.model());
        let ghost regs0 = *reg_memory;
        let n = self.bm.boards.len();
        let mut i: usize = 0;
        proof {
            assert(boards0.take(0) =~= Seq::<BoardModel>::empty());
        }
        while i < n
            invariant
                i <= n,
                n == self.bm.boards@.len(),
                boards0 == old(self).bm.boards@.map_values(|b: crate::board::Board| b.model()),
                boards0.len() == n,
                regs0 == *old(reg_memory),
                reg_memory.input@ == spec_boards_sync_input(boards0.take(i as int), regs0.input@),
                reg_memory.output == regs0.output,
                reg_memory.config == regs0.config,
                reg_memory.inten == regs0.inten,
                reg_memory.int0 == regs0.int0,
                reg_memory.int1 == regs0.int1,
                *self == (Broker {
                    bm: (BoardManager { boards: self.bm.boards, ..old(self).bm }),
                    ..*old(self)
                }),
                forall|k: int|
                    0 <= k < i ==> (#[trigger] self.bm.boards@[k]).model() == spec_board_synced(
                        boards0[k],
                        regs0.output@,
                    ),
                forall|k: int|
                    i <= k < n ==> (#[trigger] self.bm.boards@[k]).model() == boards0[k],
            decreases n - i,
        {
            proof {
                assert(boards0.take(i as int + 1).last() == boards0[i as int]);
                assert(boards0.take(i as int + 1).drop_last() =~= boards0.take(i as int));
            }
            let board = &mut self.bm.boards[i];
            board.sync(reg_memory);
            i = i + 1;
        }
        proof {
            assert(boards0.take(n as int) =~= boards0);
            assert(self.bm.boards@.map_values(|b: crate::board::Board| b.model())
                =~= boards0.map_values(|b: BoardModel| spec_board_synced(b, regs0.output@)));
        }
    }
}

} // verus!
