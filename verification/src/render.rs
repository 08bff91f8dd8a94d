//! Rendering of checkpoints for the terminal: one line per checkpoint in
//! the order received, with one sentinel status code replaced by its
//! human-readable label and every other status shown unchanged.

use vstd::prelude::*;

use crate::data::Checkpoint;

verus! {

/// The display status of a raw status code: the label `Received` when the
/// raw code is exactly the sentinel `GTMS_SIGNED`, and the raw code itself,
/// unchanged, otherwise.
pub open spec fn spec_display_status(raw: Seq<char>) -> Seq<char> {
    if raw == "GTMS_SIGNED"@ {
        "Received"@
    } else {
        raw
    }
}

/// One rendered output line: the timestamp in square brackets, a space,
/// then the display status.
pub open spec fn spec_render_line(time: Seq<char>, raw_status: Seq<char>) -> Seq<char> {
    "["@ + time + "] "@ + spec_display_status(raw_status)
}

/// The rendering of a whole checkpoint sequence: one line per checkpoint,
/// in the same order.
pub open spec fn spec_render_lines(cps: Seq<Checkpoint>) -> Seq<Seq<char>> {
    cps.map_values(|cp: Checkpoint| spec_render_line(cp.time@, cp.status_raw@))
}

/// The sentinel raw status renders as the label `Received`.
pub proof fn lemma_sentinel_status_rendered()
    ensures
        spec_display_status("GTMS_SIGNED"@) == "Received"@,
{
}

/// Every raw status other than the sentinel renders as itself, unchanged;
/// this covers the empty status and statuses that merely contain the
/// sentinel as a proper substring.
pub proof fn lemma_other_status_rendered(raw: Seq<char>)
    requires
        raw != "GTMS_SIGNED"@,
    ensures
        spec_display_status(raw) == raw,
{
}

/// Rendering preserves the input order: a sequence of N checkpoints yields
/// exactly N lines, and the line at each position is the rendering of the
/// checkpoint at that same position.
pub proof fn lemma_render_preserves_order(cps: Seq<Checkpoint>)
    ensures
        spec_render_lines(cps).len() == cps.len(),
        forall|i: int|
            0 <= i < cps.len() ==> spec_render_lines(cps)[i] == spec_render_line(
                cps[i].time@,
                cps[i].status_raw@,
            ),
{
}

/// An empty checkpoint sequence renders as no lines at all.
pub proof fn lemma_render_empty()
    ensures
        spec_render_lines(Seq::<Checkpoint>::empty()) =~= Seq::<Seq<char>>::empty(),
{
}

/// Computes the display status of one raw status code.
pub fn display_status(raw: &str) -> (r: String)
    ensures
        r@ == spec_display_status(raw@),
{
    let sentinel: String = "GTMS_SIGNED".to_owned();
    let raw_owned: String = raw.to_owned();
    if sentinel == raw_owned {
        "Received".to_owned()
    } else {
        raw_owned
    }
}

/// Renders one checkpoint as its output line.
pub fn render_checkpoint_line(cp: &Checkpoint) -> (line: String)
    ensures
        line@ == spec_render_line(cp.time@, cp.status_raw@),
{
    let mut line = String::new();
    line.append("[");
    line.append(cp.time.as_str());
    line.append("] ");
    let status = display_status(cp.status_raw.as_str());
    line.append(status.as_str());
    proof {
        assert(line@ =~= spec_render_line(cp.time@, cp.status_raw@));
    }
    line
}

/// Renders a checkpoint sequence: one line per checkpoint, input order
/// preserved, and no lines at all for an empty sequence.
pub fn render_checkpoints(cps: &Vec<Checkpoint>) -> (lines: Vec<String>)
    ensures
        lines@.len() == cps@.len(),
        forall|i: int|
            0 <= i < cps@.len() ==> lines@[i]@ == spec_render_line(
                cps@[i].time@,
                cps@[i].status_raw@,
            ),
        lines@.map_values(|l: String| l@) == spec_render_lines(cps@),
{
    let mut lines: Vec<String> = Vec::new();
    let mut i: usize = 0;
    while i < cps.len()
        invariant
            i <= cps@.len(),
            lines@.len() == i,
            forall|j: int|
                0 <= j < i ==> lines@[j]@ == spec_render_line(
                    cps@[j].time@,
                    cps@[j].status_raw@,
                ),
        decreases cps@.len() - i,
    {
        let line = render_checkpoint_line(&cps[i]);
        lines.push(line);
        i = i + 1;
    }
    proof {
        assert(lines@.map_values(|l: String| l@) =~= spec_render_lines(cps@));
    }
    lines
}

} // verus!
