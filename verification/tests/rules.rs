use wacraft_reminders::models::ReminderRule;
use wacraft_reminders::rules::inactivity_seconds;
use wacraft_reminders::rules::rule_matches;
use wacraft_reminders::rules::select_rule;

fn rule(name: &str, hours: u64) -> ReminderRule {
    ReminderRule { name: name.to_string(), inactive_for_hours: hours, action: None }
}

const HOUR: i64 = 3600;

#[test]
fn two_rules_select_longest_met_threshold() {
    let rules = vec![rule("A", 24), rule("B", 72)];
    let sel = select_rule(&rules, 80 * HOUR).expect("a rule must match");
    assert_eq!(sel.name, "B");
}

#[test]
fn lower_threshold_wins_when_higher_not_met() {
    let rules = vec![rule("A", 24), rule("B", 72)];
    let sel = select_rule(&rules, 30 * HOUR).expect("a rule must match");
    assert_eq!(sel.name, "A");
}

#[test]
fn empty_rule_set_selects_nothing() {
    let rules: Vec<ReminderRule> = Vec::new();
    assert!(select_rule(&rules, 1000 * HOUR).is_none());
    assert!(select_rule(&rules, 0).is_none());
    assert!(select_rule(&rules, -5).is_none());
}

#[test]
fn no_rule_below_every_threshold() {
    let rules = vec![rule("A", 24), rule("B", 72)];
    assert!(select_rule(&rules, 23 * HOUR).is_none());
}

#[test]
fn threshold_is_inclusive() {
    let rules = vec![rule("A", 24)];
    let sel = select_rule(&rules, 24 * HOUR).expect("exact threshold matches");
    assert_eq!(sel.name, "A");
    assert!(select_rule(&rules, 24 * HOUR - 1).is_none());
}

#[test]
fn tie_prefers_earlier_rule() {
    let rules = vec![rule("first", 24), rule("second", 24)];
    let sel = select_rule(&rules, 25 * HOUR).expect("a rule must match");
    assert_eq!(sel.name, "first");
}

#[test]
fn rule_order_does_not_hide_greater_threshold() {
    let rules = vec![rule("long", 72), rule("short", 24)];
    let sel = select_rule(&rules, 80 * HOUR).expect("a rule must match");
    assert_eq!(sel.name, "long");
}

#[test]
fn negative_duration_matches_no_rule() {
    let rules = vec![rule("zero", 0), rule("day", 24)];
    assert!(select_rule(&rules, -1).is_none());
}

#[test]
fn zero_duration_matches_zero_hour_rule() {
    let rules = vec![rule("zero", 0)];
    let sel = select_rule(&rules, 0).expect("zero threshold matches zero inactivity");
    assert_eq!(sel.name, "zero");
}

#[test]
fn growing_duration_keeps_a_selection() {
    let rules = vec![rule("A", 24), rule("B", 72)];
    let mut last_hours = 0;
    for d in [24 * HOUR, 30 * HOUR, 72 * HOUR, 100 * HOUR] {
        let sel = select_rule(&rules, d).expect("selection never disappears as d grows");
        assert!(sel.inactive_for_hours >= last_hours);
        last_hours = sel.inactive_for_hours;
    }
}

#[test]
fn rule_matches_is_threshold_in_seconds() {
    let r = rule("A", 2);
    assert!(rule_matches(&r, 7200));
    assert!(!rule_matches(&r, 7199));
    assert!(!rule_matches(&r, -7200));
}

#[test]
fn inactivity_is_wall_clock_difference() {
    assert_eq!(inactivity_seconds(1_000, 400), 600);
    assert_eq!(inactivity_seconds(400, 1_000), -600);
}
