//! How the calculator divides the screen.

use vstd::prelude::*;
use crate::calculator::state::TabKind;

verus! {

/// The heights, in rows, of the fixed parts of the screen.
#[derive(Debug, Clone, Copy, PartialEq, Eq)]
pub struct Heights {
    tab: u16,
    expression: u16,
    arithmetic: u16,
}

impl Heights {
    pub closed spec fn spec_tab(self) -> u16 {
        self.tab
    }

    pub closed spec fn spec_expression(self) -> u16 {
        self.expression
    }

    pub closed spec fn spec_arithmetic(self) -> u16 {
        self.arithmetic
    }

    /// The rows below the results that the tab `tab` takes up: the
    /// expression line, and in the programming tab the table of bases.
    pub open spec fn spec_below(self, tab: TabKind) -> int {
        match tab {
            TabKind::Basic => self.spec_expression() as int,
            TabKind::Programming => self.spec_expression() + self.spec_arithmetic(),
        }
    }

    /// The heights the calculator uses: three rows of tabs, five for the
    /// expression, six for the table of bases.
    pub fn standard() -> (h: Heights)
        ensures
            h.spec_tab() == 3,
            h.spec_expression() == 5,
            h.spec_arithmetic() == 6,
    {
        Heights { tab: 3, expression: 5, arithmetic: 6 }
    }

    pub fn tab(&self) -> (r: u16)
        ensures
            r == self.spec_tab(),
    {
        self.tab
    }

    pub fn expression(&self) -> (r: u16)
        ensures
            r == self.spec_expression(),
    {
        self.expression
    }

    pub fn arithmetic(&self) -> (r: u16)
        ensures
            r == self.spec_arithmetic(),
    {
        self.arithmetic
    }

    /// The rows left under the tabs on a screen of `screen` rows, or
    /// `None` if the screen is too low for the tabs.
    pub fn body_height(&self, screen: u16) -> (r: Option<u16>)
        ensures
            r == if screen >= self.spec_tab() {
                Some((screen - self.spec_tab()) as u16)
            } else {
                None
            },
    {
        screen.checked_sub(self.tab)
    }

    /// The rows left for the results when the part under the tabs has
    /// `body` rows, or `None` if that is too low for the rest.
    pub fn results_height(&self, body: u16, tab: TabKind) -> (r: Option<u16>)
        ensures
            r == if body >= self.spec_below(tab) {
                Some((body - self.spec_below(tab)) as u16)
            } else {
                None
            },
    {
        match tab {
            TabKind::Basic => body.checked_sub(self.expression),
            TabKind::Programming => match self.expression.checked_add(self.arithmetic) {
                Some(below) => body.checked_sub(below),
                None => None,
            },
        }
    }
}

/// Which lines of a history of `len` lines a window of `rows` rows
/// shows, and how it is padded: the index of the first line shown, and
/// the number of empty rows above it. The newest lines are shown; a
/// short history is pushed to the bottom.
pub fn history_window(len: usize, rows: usize) -> (r: (usize, usize))
    ensures
        r.0 == if len > rows {
            len - rows
        } else {
            0
        },
        r.1 == if len > rows {
            0
        } else {
            rows - len
        },
        len - r.0 + r.1 == rows,
{
    if len > rows {
        (len - rows, 0)
    } else {
        (0, rows - len)
    }
}

} // verus!
