//! The displayed text.
//!
//! The interactive harness shows a fixed block of instructions whose
//! last line is the status line.  Only that last line is ever
//! replaced; the lines above it are immutable.

use vstd::prelude::*;

verus! {

/// The instructional text, one line per element.  The last line is
/// the initial status line.
pub fn instruction_lines() -> (r: Vec<&'static str>)
    ensures
        r@.len() == 8,
        r@[0]@ == "FMOD 2.03.09 Manual Sound Test"@,
        r@[1]@ == ""@,
        r@[2]@ == "SPACE: Play/stop Country ambience"@,
        r@[3]@ == "1: Play explosion"@,
        r@[4]@ == "2: Play UI cancel sound"@,
        r@[5]@ == "ESC: Exit"@,
        r@[6]@ == ""@,
        r@[7]@ == "Status: Ready"@,
{
    let mut r: Vec<&'static str> = Vec::new();
    r.push("FMOD 2.03.09 Manual Sound Test");
    r.push("");
    r.push("SPACE: Play/stop Country ambience");
    r.push("1: Play explosion");
    r.push("2: Play UI cancel sound");
    r.push("ESC: Exit");
    r.push("");
    r.push("Status: Ready");
    r
}

/// Replaces the last line of the displayed text with a new status
/// line.  Every preceding line is left exactly as it was.
pub fn set_status_line(lines: &mut Vec<&'static str>, status: &'static str)
    requires
        old(lines).len() >= 1,
    ensures
        final(lines).len() == old(lines).len(),
        final(lines)@[final(lines).len() - 1] == status,
        forall|i: int| 0 <= i < old(lines).len() - 1 ==> final(lines)@[i] == old(lines)@[i],
{
    let last = lines.len() - 1;
    lines.pop();
    lines.push(status);
    proof {
        assert(lines@ =~= old(lines)@.update(last as int, status));
    }
}

} // verus!
