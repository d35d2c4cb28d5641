//! The ladder of reasoning efforts.

use vstd::prelude::*;

use crate::event::optional_text;

verus! {

/// The efforts, from the least to the most.
pub open spec fn efforts() -> Seq<Seq<char>> {
    seq!["none"@, "low"@, "medium"@, "high"@, "xhigh"@]
}

/// The rung that `current` stands on. An effort that is missing or not on the
/// ladder counts as the most.
pub open spec fn rung(current: Option<Seq<char>>) -> int {
    if current == Some("none"@) {
        0
    } else if current == Some("low"@) {
        1
    } else if current == Some("medium"@) {
        2
    } else if current == Some("high"@) {
        3
    } else {
        4
    }
}

/// The rung one step away: up for a positive direction, down for any other, and
/// never off the ladder.
pub open spec fn next_rung(rung: int, direction: int) -> int {
    if direction > 0 {
        if rung < 4 {
            rung + 1
        } else {
            4
        }
    } else {
        if rung > 0 {
            rung - 1
        } else {
            0
        }
    }
}

/// The effort one step from `current`.
pub open spec fn next_effort(current: Option<Seq<char>>, direction: int) -> Seq<char> {
    efforts()[next_rung(rung(current), direction)]
}

fn current_rung(current: &Option<String>) -> (found: usize)
    ensures
        found == rung(optional_text(*current)),
{
    match current {
        None => 4,
        Some(effort) => {
            if *effort == "none".to_string() {
                0
            } else if *effort == "low".to_string() {
                1
            } else if *effort == "medium".to_string() {
                2
            } else if *effort == "high".to_string() {
                3
            } else {
                4
            }
        },
    }
}

/// The effort one step from `current` on the ladder.
pub fn next_reasoning_effort(current: &Option<String>, direction: i8) -> (effort: &'static str)
    ensures
        effort@ == next_effort(optional_text(*current), direction as int),
{
    let current_index: usize = current_rung(current);
    let next_index: usize = if direction > 0 {
        if current_index + 1 < 4 {
            current_index + 1
        } else {
            4
        }
    } else {
        current_index.saturating_sub(1)
    };
    match next_index {
        0 => "none",
        1 => "low",
        2 => "medium",
        3 => "high",
        _ => "xhigh",
    }
}

/// An effort on the ladder moves one rung up for a positive direction and one rung down
/// for any other, and stays at the end that it would step past. Any other report, and a
/// missing one, moves as the most does.
pub proof fn effort_moves_one_rung(
    current: Option<String>,
    direction: i8,
    effort: &'static str,
    r: int,
)
    requires
        call_ensures(next_reasoning_effort, (&current, direction), effort),
        0 <= r < 5,
        ({
            let ladder = seq!["none"@, "low"@, "medium"@, "high"@, "xhigh"@];
            match current {
                Some(text) => text@ == ladder[r] || (r == 4 && !ladder.contains(text@)),
                None => r == 4,
            }
        }),
    ensures
        ({
            let ladder = seq!["none"@, "low"@, "medium"@, "high"@, "xhigh"@];
            effort@ == if direction > 0 {
                if r == 4 {
                    ladder[4]
                } else {
                    ladder[r + 1]
                }
            } else {
                if r == 0 {
                    ladder[0]
                } else {
                    ladder[r - 1]
                }
            }
        }),
{
    let ladder = seq!["none"@, "low"@, "medium"@, "high"@, "xhigh"@];
    efforts_differ();
    assert(ladder == efforts());
    assert(ladder[0] == "none"@ && ladder[1] == "low"@ && ladder[2] == "medium"@ && ladder[3]
        == "high"@ && ladder[4] == "xhigh"@);
    if let Some(text) = current {
        if text@ == ladder[r] {
            rung_of_effort(r);
        } else {
            assert(rung(Some(text@)) == 4) by {
                assert(text@ != ladder[0] && text@ != ladder[1] && text@ != ladder[2] && text@
                    != ladder[3]);
            }
        }
    }
}

proof fn efforts_differ()
    ensures
        efforts().no_duplicates(),
{
    reveal_strlit("none");
    reveal_strlit("low");
    reveal_strlit("medium");
    reveal_strlit("high");
    reveal_strlit("xhigh");
    assert("none"@.len() == 4);
    assert("low"@.len() == 3);
    assert("medium"@.len() == 6);
    assert("high"@.len() == 4);
    assert("xhigh"@.len() == 5);
    assert("none"@[0] != "high"@[0]);
}

/// Every rung is read back from the effort that stands on it.
pub proof fn rung_of_effort(r: int)
    requires
        0 <= r < efforts().len(),
    ensures
        rung(Some(efforts()[r])) == r,
{
    efforts_differ();
    let ladder = efforts();
    assert(ladder[0] == "none"@ && ladder[1] == "low"@ && ladder[2] == "medium"@ && ladder[3]
        == "high"@ && ladder[4] == "xhigh"@);
}

/// Stepping never leaves the ladder, whatever the server reports as current.
pub proof fn next_effort_is_on_the_ladder(current: Option<Seq<char>>, direction: int)
    ensures
        efforts().contains(next_effort(current, direction)),
{
}

/// A step up and a step down undo each other, except at the end that the first of
/// the two steps runs into.
pub proof fn opposite_steps_cancel(r: int, up: int, down: int)
    requires
        0 <= r < efforts().len(),
        up > 0,
        down <= 0,
    ensures
        r < 4 ==> next_effort(Some(next_effort(Some(efforts()[r]), up)), down) == efforts()[r],
        r > 0 ==> next_effort(Some(next_effort(Some(efforts()[r]), down)), up) == efforts()[r],
{
    rung_of_effort(r);
    rung_of_effort(next_rung(r, up));
    rung_of_effort(next_rung(r, down));
}

/// The ends of the ladder hold: a step past one stays on it.
pub proof fn ends_hold(up: int, down: int)
    requires
        up > 0,
        down <= 0,
    ensures
        next_effort(Some("xhigh"@), up) == "xhigh"@,
        next_effort(Some("none"@), down) == "none"@,
{
    rung_of_effort(0);
    rung_of_effort(4);
}

} // verus!
