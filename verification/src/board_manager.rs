//! The board manager page: the list of loaded boards, a menu of
//! actions, and the focus state that keys move through.  Loading a
//! board file is asked of the surrounding process, which hands the
//! outcome back in.

use vstd::prelude::*;
use crate::board::Board;
use crate::keys::Key;

verus! {

/// Where the keyboard focus of the board manager rests.
#[derive(Clone, Copy, PartialEq, Eq, Structural, Debug)]
pub enum FocusArea {
    /// On the action menu.
    Tab,
    /// On a tab's content: the board list, or the path being typed.
    Content,
    /// On a confirmation or preview field.
    Field,
}

/// What a handled key asks the surrounding process to do.
#[derive(Clone, Copy, PartialEq, Eq, Structural, Debug)]
pub enum BmRequest {
    /// The key meant nothing here.
    NotHandled,
    /// The key was consumed by the manager's own state.
    Handled,
    /// Load the board document at the typed path and hand the outcome
    /// to `finish_open`.
    OpenBoard,
}

/// The board manager's state.  Tabs are numbered from 1 in menu order;
/// tab 3 opens a board from a typed path and tab 6 removes one.
pub struct BoardManager {
    pub active_tab: usize,
    pub active_content: usize,
    pub active_field: usize,
    pub boards: Vec<Board>,
    pub current_focus_area: FocusArea,
    pub items_tab: usize,
    pub items_content: usize,
    pub items_field: usize,
    pub tmp_open_board: Result<Board, String>,
    pub tmp_open_board_str: String,
}

/// `m2` is `m` with the confirmation field closed, back on the
/// content.
pub open spec fn spec_field_closed(m: BoardManager, m2: BoardManager) -> bool {
    m2 == (BoardManager {
        current_focus_area: FocusArea::Content,
        active_field: 0,
        items_field: 0,
        ..m
    })
}

/// `m2` is `m` after the open-board flow was confirmed: a successfully
/// loaded board joins the list, the typed path is cleared, and the
/// focus returns to the menu.
pub open spec fn spec_confirm_open(m: BoardManager, m2: BoardManager) -> bool {
    &&& m2 == (BoardManager {
        boards: m2.boards,
        tmp_open_board_str: m2.tmp_open_board_str,
        current_focus_area: FocusArea::Tab,
        active_content: 0,
        items_content: 0,
        active_field: 0,
        items_field: 0,
        ..m
    })
    &&& m2.tmp_open_board_str@ == Seq::<char>::empty()
    &&& (match m.tmp_open_board {
        Ok(b) => m2.boards@.map_values(|x: Board| x.model()) == m.boards@.map_values(
            |x: Board| x.model(),
        ).push(b.model()),
        Err(_) => m2.boards == m.boards,
    })
}

/// `m2` is `m` after the removal of the selected board was confirmed:
/// the board leaves the list and the focus returns to the first list
/// entry.  A selection out of the list's bounds removes nothing.
pub open spec fn spec_confirm_remove(m: BoardManager, m2: BoardManager) -> bool {
    if 1 <= m.active_content && m.active_content <= m.boards@.len() {
        &&& m2 == (BoardManager {
            boards: m2.boards,
            current_focus_area: FocusArea::Content,
            active_content: 1,
            ..m
        })
        &&& m2.boards@ == m.boards@.remove(m.active_content - 1)
    } else {
        m2 == m
    }
}

impl BoardManager {
    /// Printable characters: typed into the open-board path when it
    /// has the focus, and answering `y`/`n` on confirmation fields.
    /// Always reports the key as not fully handled, as the page list
    /// may still react to it.
    pub fn event_keypress(&mut self, c: char) -> (r: bool)
        ensures
            r == false,
            old(self).active_tab == 3 && old(self).current_focus_area == FocusArea::Content ==> {
                &&& *final(self) == (BoardManager {
                    tmp_open_board_str: final(self).tmp_open_board_str,
                    ..*old(self)
                })
                &&& final(self).tmp_open_board_str@ == old(self).tmp_open_board_str@.push(c)
            },
            old(self).active_tab == 3 && old(self).current_focus_area == FocusArea::Field && c
                == 'y' ==> spec_confirm_open(*old(self), *final(self)),
            old(self).active_tab == 3 && old(self).current_focus_area == FocusArea::Field && c
                == 'n' ==> spec_field_closed(*old(self), *final(self)),
            old(self).active_tab == 6 && old(self).current_focus_area == FocusArea::Field && c
                == 'y' ==> spec_confirm_remove(*old(self), *final(self)),
            old(self).active_tab == 6 && old(self).current_focus_area == FocusArea::Field && c
                == 'n' ==> spec_field_closed(*old(self), *final(self)),
            !(old(self).active_tab == 3 && old(self).current_focus_area == FocusArea::Content)
                && !(old(self).active_tab == 3 && old(self).current_focus_area == FocusArea::Field
                && (c == 'y' || c == 'n')) && !(old(self).active_tab == 6 && old(
                self,
            ).current_focus_area == FocusArea::Field && (c == 'y' || c == 'n')) ==> *final(self)
                == *old(self),
    {
        if self.active_tab == 3 {
            if self.current_focus_area == FocusArea::Content {
                self.tmp_open_board_str.push(c);
            } else if self.current_focus_area == FocusArea::Field {
                if c == 'y' {
                    self.confirm_open();
                } else if c == 'n' {
                    self.close_field();
                }
            }
        } else if self.active_tab == 6 {
            if self.current_focus_area == FocusArea::Field {
                if c == 'y' {
                    self.confirm_remove();
                } else if c == 'n' {
                    self.close_field();
                }
            }
        }
        false
    }

    /// Close a confirmation field, back to the content.
    fn close_field(&mut self)
        ensures
            spec_field_closed(*old(self), *final(self)),
    {
        self.current_focus_area = FocusArea::Content;
        self.active_field = 0;
        self.items_field = 0;
    }

    /// Confirm the open-board flow: push the loaded board, clear the
    /// typed path, and return the focus to the menu.
    fn confirm_open(&mut self)
        ensures
            spec_confirm_open(*old(self), *final(self)),
    {
        match &self.tmp_open_board {
            Ok(b) => {
                let ghost before = self.boards@;
                let copy = b.clone();
                self.boards.push(copy);
                proof {
                    assert(self.boards@.map_values(|x: Board| x.model()) =~= before.map_values(
                        |x: Board| x.model(),
                    ).push(self.boards@.last().model()));
                }
            },
            Err(_) => {},
        }
        self.current_focus_area = FocusArea::Tab;
        self.active_content = 0;
        self.items_content = 0;
        self.active_field = 0;
        self.items_field = 0;
        self.tmp_open_board_str = String::new();
    }

    /// Confirm the removal of the selected board, if the selection is
    /// within the list.
    fn confirm_remove(&mut self)
        ensures
            spec_confirm_remove(*old(self), *final(self)),
    {
        if 1 <= self.active_content && self.active_content <= self.boards.len() {
            let idx = self.active_content - 1;
            self.boards.remove(idx);
            self.current_focus_area = FocusArea::Content;
            self.active_content = 1;
        }
    }

    /// Navigation keys: arrows move within the focused area, enter
    /// descends (and on the open-board tab asks for the typed path to
    /// be loaded), escape ascends, backspace edits the typed path.
    pub fn event_keypress_special(&mut self, c: Key) -> (r: BmRequest)
        ensures
            c == Key::Up ==> r == BmRequest::Handled && (match old(self).current_focus_area {
                FocusArea::Tab => (if old(self).active_tab > 1 {
                    *final(self) == (BoardManager {
                        active_tab: final(self).active_tab,
                        ..*old(self)
                    }) && final(self).active_tab == old(self).active_tab - 1
                } else {
                    *final(self) == *old(self)
                }),
                FocusArea::Content => (if old(self).active_content > 1 {
                    *final(self) == (BoardManager {
                        active_content: final(self).active_content,
                        ..*old(self)
                    }) && final(self).active_content == old(self).active_content - 1
                } else {
                    *final(self) == *old(self)
                }),
                FocusArea::Field => (if old(self).active_field > 1 {
                    *final(self) == (BoardManager {
                        active_field: final(self).active_field,
                        ..*old(self)
                    }) && final(self).active_field == old(self).active_field - 1
                } else {
                    *final(self) == *old(self)
                }),
            }),
            c == Key::Down ==> r == BmRequest::Handled && (match old(self).current_focus_area {
                FocusArea::Tab => (if old(self).active_tab < old(self).items_tab {
                    *final(self) == (BoardManager {
                        active_tab: final(self).active_tab,
                        ..*old(self)
                    }) && final(self).active_tab == old(self).active_tab + 1
                } else {
                    *final(self) == *old(self)
                }),
                FocusArea::Content => (if old(self).active_content < old(self).items_content {
                    *final(self) == (BoardManager {
                        active_content: final(self).active_content,
                        ..*old(self)
                    }) && final(self).active_content == old(self).active_content + 1
                } else {
                    *final(self) == *old(self)
                }),
                FocusArea::Field => (if old(self).active_field < old(self).items_field {
                    *final(self) == (BoardManager {
                        active_field: final(self).active_field,
                        ..*old(self)
                    }) && final(self).active_field == old(self).active_field + 1
                } else {
                    *final(self) == *old(self)
                }),
            }),
            c == Key::Enter ==> (match old(self).current_focus_area {
                FocusArea::Tab => r == BmRequest::Handled && *final(self) == (BoardManager {
                    current_focus_area: FocusArea::Content,
                    active_content: 1,
                    ..*old(self)
                }),
                FocusArea::Content => (if old(self).active_tab == 3 && old(
                    self,
                ).tmp_open_board_str@.len() > 0 {
                    r == BmRequest::OpenBoard && *final(self) == *old(self)
                } else if old(self).active_tab != 3 && old(self).items_content > 0 {
                    r == BmRequest::Handled && *final(self) == (BoardManager {
                        current_focus_area: FocusArea::Field,
                        active_field: 1,
                        ..*old(self)
                    })
                } else {
                    r == BmRequest::Handled && *final(self) == *old(self)
                }),
                FocusArea::Field => r == BmRequest::Handled && (if old(self).active_tab == 3 {
                    spec_confirm_open(*old(self), *final(self))
                } else {
                    *final(self) == *old(self)
                }),
            }),
            c == Key::Esc ==> r == BmRequest::Handled && (match old(self).current_focus_area {
                FocusArea::Tab => *final(self) == *old(self),
                FocusArea::Content => *final(self) == (BoardManager {
                    current_focus_area: FocusArea::Tab,
                    active_content: 0,
                    items_content: 0,
                    ..*old(self)
                }),
                FocusArea::Field => spec_field_closed(*old(self), *final(self)),
            }),
            c == Key::Backspace ==> r == BmRequest::Handled && (if old(self).current_focus_area
                == FocusArea::Content && old(self).active_tab == 3 && old(
                self,
            ).tmp_open_board_str@.len() > 0 {
                *final(self) == (BoardManager {
                    tmp_open_board_str: final(self).tmp_open_board_str,
                    ..*old(self)
                }) && final(self).tmp_open_board_str@ == old(self).tmp_open_board_str@.drop_last()
            } else {
                *final(self) == *old(self)
            }),
            !(c == Key::Up || c == Key::Down || c == Key::Enter || c == Key::Esc || c
                == Key::Backspace) ==> r == BmRequest::NotHandled && *final(self) == *old(self),
    {
        match c {
            Key::Up => {
                match self.current_focus_area {
                    FocusArea::Tab => {
                        if self.active_tab > 1 {
                            self.active_tab = self.active_tab - 1;
                        }
                    },
                    FocusArea::Content => {
                        if self.active_content > 1 {
                            self.active_content = self.active_content - 1;
                        }
                    },
                    FocusArea::Field => {
                        if self.active_field > 1 {
                            self.active_field = self.active_field - 1;
                        }
                    },
                }
                BmRequest::Handled
            },
            Key::Down => {
                match self.current_focus_area {
                    FocusArea::Tab => {
                        if self.active_tab < self.items_tab {
                            self.active_tab = self.active_tab + 1;
                        }
                    },
                    FocusArea::Content => {
                        if self.active_content < self.items_content {
                            self.active_content = self.active_content + 1;
                        }
                    },
                    FocusArea::Field => {
                        if self.active_field < self.items_field {
                            self.active_field = self.active_field + 1;
                        }
                    },
                }
                BmRequest::Handled
            },
            Key::Enter => {
                match self.current_focus_area {
                    FocusArea::Tab => {
                        self.current_focus_area = FocusArea::Content;
                        self.active_content = 1;
                        BmRequest::Handled
                    },
                    FocusArea::Content => {
                        if self.active_tab == 3 && self.tmp_open_board_str.as_str().unicode_len()
                            > 0 {
                            BmRequest::OpenBoard
                        } else if self.active_tab != 3 && self.items_content > 0 {
                            self.current_focus_area = FocusArea::Field;
                            self.active_field = 1;
                            BmRequest::Handled
                        } else {
                            BmRequest::Handled
                        }
                    },
                    FocusArea::Field => {
                        if self.active_tab == 3 {
                            self.confirm_open();
                        }
                        BmRequest::Handled
                    },
                }
            },
            Key::Esc => {
                match self.current_focus_area {
                    FocusArea::Tab => {},
                    FocusArea::Content => {
                        self.current_focus_area = FocusArea::Tab;
                        self.active_content = 0;
                        self.items_content = 0;
                    },
                    FocusArea::Field => {
                        self.close_field();
                    },
                }
                BmRequest::Handled
            },
            Key::Backspace => {
                if self.current_focus_area == FocusArea::Content && self.active_tab == 3
                    && self.tmp_open_board_str.as_str().unicode_len() > 0 {
                    self.tmp_open_board_str.pop();
                }
                BmRequest::Handled
            },
            _ => BmRequest::NotHandled,
        }
    }

    /// Record the outcome of loading the typed path: the result is
    /// shown in a confirmation field.
    pub fn finish_open(&mut self, res: Result<Board, String>)
        ensures
            *final(self) == (BoardManager {
                tmp_open_board: res,
                current_focus_area: FocusArea::Field,
                active_field: 1,
                ..*old(self)
            }),
    {
        self.tmp_open_board = res;
        self.current_focus_area = FocusArea::Field;
        self.active_field = 1;
    }

    /// Record how many entries the rendered board list holds, so that
    /// the selection can move over them.
    pub fn set_items_content(&mut self, n: usize)
        ensures
            *final(self) == (BoardManager { items_content: n, ..*old(self) }),
    {
        self.items_content = n;
    }

    /// Tell the manager whether its page is the active one; leaving
    /// the page drops any transient focus.
    pub fn set_active(&mut self, active: bool)
        ensures
            active ==> *final(self) == *old(self),
            !active ==> *final(self) == (BoardManager {
                current_focus_area: FocusArea::Tab,
                active_content: 0,
                items_content: 0,
                active_field: 0,
                items_field: 0,
                ..*old(self)
            }),
    {
        if !active {
            self.current_focus_area = FocusArea::Tab;
            self.active_content = 0;
            self.items_content = 0;
            self.active_field = 0;
            self.items_field = 0;
        }
    }
}

impl Default for BoardManager {
    /// A manager with no boards, opened on the overview tab.
    fn default() -> (r: BoardManager)
        ensures
            r.active_tab == 1,
            r.active_content == 0,
            r.active_field == 0,
            r.boards@.len() == 0,
            r.current_focus_area == FocusArea::Tab,
            r.items_tab == 6,
            r.items_content == 0,
            r.items_field == 0,
            r.tmp_open_board matches Ok(b) && b.model() == crate::board::board_default_model(),
            r.tmp_open_board_str@.len() == 0,
    {
        BoardManager {
            active_tab: 1,
            active_content: 0,
            active_field: 0,
            boards: Vec::new(),
            current_focus_area: FocusArea::Tab,
            items_tab: 6,
            items_content: 0,
            items_field: 0,
            tmp_open_board: Ok(Board::default()),
            tmp_open_board_str: String::new(),
        }
    }
}

} // verus!
