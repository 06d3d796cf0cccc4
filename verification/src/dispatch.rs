//! Selection dispatch: what the UI loop does with a drained signal.
//!
//! A drained selection signal resolves to a numeric menu identifier; only
//! identifiers inside the reserved dynamic range select a script. A drained
//! batch of change signals coalesces into at most one rebuild per wake.

use vstd::prelude::*;
use crate::menu::{MenuModel, MENU_ID_BASE};
use crate::session::{ProbeResult, SessionController, StopRunOutcome};

verus! {

/// Outcome of dispatching one selection signal.
#[derive(Clone, Copy, PartialEq, Eq, Structural, Debug)]
pub enum SelectionOutcome {
    /// The identifier lies outside the reserved dynamic range: it belongs
    /// to a static command and nothing here changes.
    NotAScript,
    /// A script was running and the user declined the stop prompt.
    Declined,
    /// A script was running, the stop was confirmed, but no terminable
    /// handle could be obtained.
    TerminateFailed,
    /// The selected entry's file is absent.
    NotFound,
    /// The run proceeds and the entry is now the checked one.
    Started,
}

/// Dispatch one selection signal carrying menu identifier `id`.
///
/// Outside the reserved range nothing changes. Inside it, the entry's label
/// names the script, and the controller's stop-then-run decision applies;
/// the menu's checked state moves to the selected entry only when the run
/// actually proceeds, and is left exactly as before on every abort path.
pub fn handle_selection(
    menu: &mut MenuModel,
    ctrl: &mut SessionController,
    id: u32,
    probe: ProbeResult,
    confirmed: bool,
    terminate_ok: bool,
    file_exists: bool,
) -> (r: SelectionOutcome)
    requires
        old(menu).wf(),
    ensures
        final(menu).wf(),
        ({
            let in_range = MENU_ID_BASE <= id && id - MENU_ID_BASE < old(menu).entries@.len();
            let running = old(ctrl)@.session is Some && probe is Alive;
            let gate = !running || (confirmed && terminate_ok);
            let label = old(menu).entries@[id - MENU_ID_BASE].label@;
            &&& (r is NotAScript <==> !in_range)
            &&& (r is Declined <==> in_range && running && !confirmed)
            &&& (r is TerminateFailed <==> in_range && running && confirmed && !terminate_ok)
            &&& (r is NotFound <==> in_range && gate && !file_exists)
            &&& (r is Started <==> in_range && gate && file_exists)
            &&& (!(r is Started) ==> final(ctrl)@ == old(ctrl)@ && final(menu).entries@
                == old(menu).entries@)
            &&& (r is Started ==> final(ctrl)@.selected == label && final(ctrl)@.session == Some(
                label,
            ))
            &&& (r is Started ==> final(menu).entries@.len() == old(menu).entries@.len())
            &&& (r is Started ==> forall|i: int|
                0 <= i < final(menu).entries@.len() ==> (#[trigger] final(menu).entries@[i]).id
                    == old(menu).entries@[i].id && final(menu).entries@[i].label@
                    == old(menu).entries@[i].label@)
            &&& (r is Started ==> forall|i: int|
                0 <= i < final(menu).entries@.len() ==> ((#[trigger] final(menu).entries@[i]).checked
                    <==> final(menu).entries@[i].id == id))
        }),
{
    if id < MENU_ID_BASE {
        return SelectionOutcome::NotAScript;
    }
    let idx: usize = (id - MENU_ID_BASE) as usize;
    if idx >= menu.entries.len() {
        return SelectionOutcome::NotAScript;
    }
    let label: String = menu.entries[idx].label.clone();
    let outcome = ctrl.request_stop_then_run(&label, probe, confirmed, terminate_ok, file_exists);
    match outcome {
        StopRunOutcome::Declined => SelectionOutcome::Declined,
        StopRunOutcome::TerminateFailed => SelectionOutcome::TerminateFailed,
        StopRunOutcome::NotFound => SelectionOutcome::NotFound,
        StopRunOutcome::Started => {
            menu.set_checked(id);
            SelectionOutcome::Started
        },
    }
}

/// Coalesce a drained batch of change signals: one rebuild is due iff some
/// drained signal carried a change.
pub fn any_change(signals: &Vec<bool>) -> (r: bool)
    ensures
        r == (exists|i: int| 0 <= i < signals@.len() && signals@[i]),
{
    let mut i: usize = 0;
    let mut found: bool = false;
    while i < signals.len()
        invariant
            i <= signals@.len(),
            found == (exists|j: int| 0 <= j < i && signals@[j]),
        decreases signals@.len() - i,
    {
        if signals[i] {
            found = true;
        }
        i = i + 1;
    }
    found
}

} // verus!
