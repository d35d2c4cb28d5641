use session_launch::effort::next_reasoning_effort;

fn next(current: Option<&str>, direction: i8) -> &'static str {
    next_reasoning_effort(&current.map(|effort| effort.to_string()), direction)
}

#[test]
fn efforts_step_up() {
    assert_eq!(next(Some("none"), 1), "low");
    assert_eq!(next(Some("low"), 1), "medium");
    assert_eq!(next(Some("medium"), 1), "high");
    assert_eq!(next(Some("high"), 127), "xhigh");
}

#[test]
fn efforts_step_down() {
    assert_eq!(next(Some("xhigh"), -1), "high");
    assert_eq!(next(Some("high"), -128), "medium");
    assert_eq!(next(Some("medium"), -1), "low");
    assert_eq!(next(Some("low"), -1), "none");
}

#[test]
fn the_ends_of_the_ladder_hold() {
    assert_eq!(next(Some("xhigh"), 1), "xhigh");
    assert_eq!(next(Some("none"), -1), "none");
}

#[test]
fn no_direction_counts_as_down() {
    assert_eq!(next(Some("high"), 0), "medium");
    assert_eq!(next(Some("none"), 0), "none");
}

#[test]
fn an_unknown_effort_counts_as_the_most() {
    for current in [None, Some("extreme"), Some("High"), Some("")] {
        assert_eq!(next(current, 1), "xhigh");
        assert_eq!(next(current, -1), "high");
    }
}

#[test]
fn opposite_steps_cancel_inside_the_ladder() {
    for effort in ["low", "medium", "high"] {
        assert_eq!(next(Some(next(Some(effort), 1)), -1), effort);
        assert_eq!(next(Some(next(Some(effort), -1)), 1), effort);
    }
}
