//! The selection tracker: which row of the current list is highlighted, and
//! how the Up/Down keys move it.

use vstd::prelude::*;

verus! {

/// The highlighted row. A numeric index lives in one of two domains: the
/// cached history list (`History`) or the live daemon results
/// (`PopLauncher`); `Reset` is no selection at all.
#[derive(Clone, Copy, Debug, PartialEq, Eq, Structural)]
pub enum Selection {
    Reset,
    History(usize),
    PopLauncher(usize),
}

/// The numeric index of a selection, if there is one, with its domain tag
/// forgotten.
pub open spec fn selected_index(s: Selection) -> Option<usize> {
    match s {
        Selection::Reset => None,
        Selection::History(i) => Some(i),
        Selection::PopLauncher(i) => Some(i),
    }
}

/// A present index stays strictly under `total`.
pub open spec fn sel_in_bounds(s: Selection, total: nat) -> bool {
    match selected_index(s) {
        Some(i) => (i as nat) < total,
        None => true,
    }
}

/// One Down transition over a list of `total` items: no selection lands on
/// history index 0; an index moves one row down unless it is already on the
/// last row.
pub open spec fn step_down(s: Selection, total: nat) -> Selection {
    match s {
        Selection::Reset => Selection::History(0),
        Selection::History(i) => if total != 0 && (i as nat) < (total - 1) as nat {
            Selection::History((i + 1) as usize)
        } else {
            Selection::History(i)
        },
        Selection::PopLauncher(i) => if total != 0 && (i as nat) < (total - 1) as nat {
            Selection::PopLauncher((i + 1) as usize)
        } else {
            Selection::PopLauncher(i)
        },
    }
}

/// One Up transition: an index moves one row up and stops at 0; no selection
/// stays unselected.
pub open spec fn step_up(s: Selection) -> Selection {
    match s {
        Selection::Reset => Selection::Reset,
        Selection::History(i) => if i > 0 {
            Selection::History((i - 1) as usize)
        } else {
            Selection::History(i)
        },
        Selection::PopLauncher(i) => if i > 0 {
            Selection::PopLauncher((i - 1) as usize)
        } else {
            Selection::PopLauncher(i)
        },
    }
}

/// The selection after a whole key sequence: `true` is Down, `false` is Up,
/// over a list whose length stays `total` throughout.
pub open spec fn apply_steps(s: Selection, steps: Seq<bool>, total: nat) -> Selection
    decreases steps.len(),
{
    if steps.len() == 0 {
        s
    } else {
        let s1 = if steps[0] {
            step_down(s, total)
        } else {
            step_up(s)
        };
        apply_steps(s1, steps.drop_first(), total)
    }
}

/// One transition keeps the index in bounds when the list is not empty.
pub proof fn lemma_step_in_bounds(s: Selection, down: bool, total: nat)
    requires
        total > 0,
        sel_in_bounds(s, total),
    ensures
        sel_in_bounds(if down { step_down(s, total) } else { step_up(s) }, total),
{
}

/// Clamping law: over any sequence of Up/Down transitions on a non-empty
/// list, a selection that starts in bounds never reaches `total` or goes
/// below 0.
pub proof fn lemma_clamping(s: Selection, steps: Seq<bool>, total: nat)
    requires
        total > 0,
        sel_in_bounds(s, total),
    ensures
        sel_in_bounds(apply_steps(s, steps, total), total),
    decreases steps.len(),
{
    if steps.len() > 0 {
        let s1 = if steps[0] {
            step_down(s, total)
        } else {
            step_up(s)
        };
        lemma_step_in_bounds(s, steps[0], total);
        lemma_clamping(s1, steps.drop_first(), total);
    }
}

/// Boundary law, downward: Down on the last row changes nothing.
pub proof fn lemma_down_at_last_noop(s: Selection, total: nat)
    requires
        selected_index(s) matches Some(i) && (i as nat) == (total - 1) as nat,
        total > 0,
    ensures
        step_down(s, total) == s,
{
}

/// Boundary law, upward: Up on row 0 changes nothing.
pub proof fn lemma_up_at_zero_noop(s: Selection)
    requires
        selected_index(s) == Some(0usize),
    ensures
        step_up(s) == s,
{
}

} // verus!
