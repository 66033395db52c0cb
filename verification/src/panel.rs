use vstd::prelude::*;

verus! {

/// Active focus panel in the three-panel interface.
#[derive(Debug, Clone, Copy, PartialEq, Eq, Structural)]
pub enum ActivePanel {
    Collections,
    Papers,
    Details,
}

/// Position of a panel from left to right (0, 1, 2).
pub open spec fn panel_pos(p: ActivePanel) -> int {
    match p {
        ActivePanel::Collections => 0,
        ActivePanel::Papers => 1,
        ActivePanel::Details => 2,
    }
}

/// The panel standing at position `i` (taken modulo 3).
pub open spec fn panel_at(i: int) -> ActivePanel {
    let j = i % 3;
    if j == 0 {
        ActivePanel::Collections
    } else if j == 1 {
        ActivePanel::Papers
    } else {
        ActivePanel::Details
    }
}

impl Default for ActivePanel {
    fn default() -> (p: Self)
        ensures
            p == ActivePanel::Collections,
    {
        ActivePanel::Collections
    }
}

impl ActivePanel {
    /// Cycles to the next panel: Collections -> Papers -> Details -> Collections.
    pub fn next(self) -> (r: Self)
        ensures
            r == panel_at(panel_pos(self) + 1),
    {
        match self {
            ActivePanel::Collections => ActivePanel::Papers,
            ActivePanel::Papers => ActivePanel::Details,
            ActivePanel::Details => ActivePanel::Collections,
        }
    }

    /// Cycles to the previous panel: Details -> Papers -> Collections -> Details.
    pub fn previous(self) -> (r: Self)
        ensures
            r == panel_at(panel_pos(self) + 2),
    {
        match self {
            ActivePanel::Collections => ActivePanel::Details,
            ActivePanel::Papers => ActivePanel::Collections,
            ActivePanel::Details => ActivePanel::Papers,
        }
    }

    /// Moves focus to the left panel (clamped at Collections).
    pub fn left(self) -> (r: Self)
        ensures
            panel_pos(r) == if panel_pos(self) == 0 { 0 } else { panel_pos(self) - 1 },
    {
        match self {
            ActivePanel::Collections => ActivePanel::Collections,
            ActivePanel::Papers => ActivePanel::Collections,
            ActivePanel::Details => ActivePanel::Papers,
        }
    }

    /// Moves focus to the right panel (clamped at Details).
    pub fn right(self) -> (r: Self)
        ensures
            panel_pos(r) == if panel_pos(self) == 2 { 2 } else { panel_pos(self) + 1 },
    {
        match self {
            ActivePanel::Collections => ActivePanel::Papers,
            ActivePanel::Papers => ActivePanel::Details,
            ActivePanel::Details => ActivePanel::Details,
        }
    }

    /// Name of the panel for display.
    pub fn name(self) -> (s: &'static str)
        ensures
            s@ == panel_name(self),
    {
        match self {
            ActivePanel::Collections => "Collections",
            ActivePanel::Papers => "Papers",
            ActivePanel::Details => "Details",
        }
    }
}

/// Display name of each panel.
pub open spec fn panel_name(p: ActivePanel) -> Seq<char> {
    match p {
        ActivePanel::Collections => "Collections"@,
        ActivePanel::Papers => "Papers"@,
        ActivePanel::Details => "Details"@,
    }
}

/// Layout mode for the main panel area.
#[derive(Debug, Clone, Copy, PartialEq, Eq, Structural)]
pub enum LayoutMode {
    MultiPanel,
    SinglePanel,
}

impl Default for LayoutMode {
    fn default() -> (m: Self)
        ensures
            m == LayoutMode::MultiPanel,
    {
        LayoutMode::MultiPanel
    }
}

/// `next` and `previous` undo each other, and three steps of `next` come back
/// to the start.
pub proof fn lemma_panel_cycle(p: ActivePanel)
    ensures
        panel_at(panel_pos(panel_at(panel_pos(p) + 1)) + 2) == p,
        panel_at(panel_pos(panel_at(panel_pos(p) + 2)) + 1) == p,
        panel_at(panel_pos(panel_at(panel_pos(panel_at(panel_pos(p) + 1)) + 1)) + 1) == p,
{
}

/// `left` and `right` never leave the three panels and are clamped at the
/// edges: `right` after `left` returns to the start unless the start was the
/// leftmost panel.
pub proof fn lemma_left_right(p: ActivePanel)
    ensures
        0 <= panel_pos(p) <= 2,
        panel_at(panel_pos(p)) == p,
{
}

} // verus!
