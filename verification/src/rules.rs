//! The rule engine: selecting the single applicable inactivity rule for a
//! given inactivity duration.

use vstd::prelude::*;

use crate::models::ReminderRule;

verus! {

/// True exactly when an inactivity of `secs` seconds meets the rule's
/// whole-hour threshold.
pub open spec fn spec_rule_matches(r: ReminderRule, secs: int) -> bool {
    secs >= r.inactive_for_hours * 3600
}

/// Decides whether `inactive_secs` seconds of inactivity meet the rule's
/// threshold. A negative duration (clock skew) meets no rule.
pub fn rule_matches(r: &ReminderRule, inactive_secs: i64) -> (b: bool)
    ensures
        b == spec_rule_matches(*r, inactive_secs as int),
{
    if inactive_secs < 0 {
        return false;
    }
    let d: u64 = inactive_secs as u64;
    let b = r.inactive_for_hours <= d / 3600;
    proof {
        assert(b == (r.inactive_for_hours * 3600 <= d)) by (nonlinear_arith)
            requires
                d == inactive_secs as u64,
                inactive_secs >= 0,
                b == (r.inactive_for_hours <= d / 3600),
        ;
    }
    b
}

/// The rule that a left-to-right scan selects from the first `rules.len()`
/// rules: the earliest rule with the greatest matched threshold, or `None`
/// when no threshold is met.
pub open spec fn spec_select_rule(rules: Seq<ReminderRule>, secs: int) -> Option<ReminderRule>
    decreases rules.len(),
{
    if rules.len() == 0 {
        None
    } else {
        let prev = spec_select_rule(rules.drop_last(), secs);
        let last = rules.last();
        if spec_rule_matches(last, secs) && (prev is None || last.inactive_for_hours
            > prev->0.inactive_for_hours) {
            Some(last)
        } else {
            prev
        }
    }
}

/// The position of the selected rule, which depends on the thresholds alone.
pub open spec fn spec_select_index(rules: Seq<ReminderRule>, secs: int) -> Option<int>
    decreases rules.len(),
{
    if rules.len() == 0 {
        None
    } else {
        let prev = spec_select_index(rules.drop_last(), secs);
        let last = rules.last();
        if spec_rule_matches(last, secs) && (prev is None || last.inactive_for_hours
            > rules[prev->0].inactive_for_hours) {
            Some(rules.len() - 1)
        } else {
            prev
        }
    }
}

/// Selects the applicable rule: the one with the greatest
/// `inactive_for_hours` whose threshold the inactivity duration meets, ties
/// broken in favour of the earliest rule. `None` (not an error) when no rule
/// applies or the list is empty.
pub fn select_rule<'a>(rules: &'a Vec<ReminderRule>, inactive_secs: i64) -> (r: Option<
    &'a ReminderRule,
>)
    ensures
        r is Some <==> spec_select_rule(rules@, inactive_secs as int) is Some,
        r is Some ==> *r->0 == spec_select_rule(rules@, inactive_secs as int)->0,
{
    let ghost secs = inactive_secs as int;
    let mut best: Option<&ReminderRule> = None;
    let mut i: usize = 0;
    proof {
        assert(rules@.take(0int) =~= Seq::<ReminderRule>::empty());
    }
    while i < rules.len()
        invariant
            i <= rules.len(),
            secs == inactive_secs as int,
            best is Some <==> spec_select_rule(rules@.take(i as int), secs) is Some,
            best is Some ==> *best->0 == spec_select_rule(rules@.take(i as int), secs)->0,
        decreases rules.len() - i,
    {
        let r = &rules[i];
        if rule_matches(r, inactive_secs) {
            let take_it = match best {
                None => true,
                Some(b) => r.inactive_for_hours > b.inactive_for_hours,
            };
            if take_it {
                best = Some(r);
            }
        }
        i = i + 1;
        proof {
            assert(rules@.take(i as int).drop_last() =~= rules@.take(i as int - 1));
            assert(rules@.take(i as int).last() == rules@[i as int - 1]);
        }
    }
    proof {
        assert(rules@.take(rules@.len() as int) =~= rules@);
    }
    best
}

/// The selected rule occurs in the list and its threshold is met.
pub proof fn lemma_select_rule_sound(rules: Seq<ReminderRule>, secs: int)
    requires
        spec_select_rule(rules, secs) is Some,
    ensures
        spec_rule_matches(spec_select_rule(rules, secs)->0, secs),
        exists|i: int| 0 <= i < rules.len() && rules[i] == spec_select_rule(rules, secs)->0,
    decreases rules.len(),
{
    let sel = spec_select_rule(rules, secs)->0;
    let prev = spec_select_rule(rules.drop_last(), secs);
    if spec_rule_matches(rules.last(), secs) && (prev is None || rules.last().inactive_for_hours
        > prev->0.inactive_for_hours) {
        assert(rules[rules.len() - 1] == sel);
    } else {
        lemma_select_rule_sound(rules.drop_last(), secs);
        let i = choose|i: int|
            0 <= i < rules.drop_last().len() && rules.drop_last()[i] == prev->0;
        assert(rules[i] == sel);
    }
}

/// Among the matched rules the selected one has the greatest threshold; in
/// particular, whenever some rule matches, one is selected.
pub proof fn lemma_select_rule_maximal(rules: Seq<ReminderRule>, secs: int, i: int)
    requires
        0 <= i < rules.len(),
        spec_rule_matches(rules[i], secs),
    ensures
        spec_select_rule(rules, secs) is Some,
        rules[i].inactive_for_hours <= spec_select_rule(rules, secs)->0.inactive_for_hours,
    decreases rules.len(),
{
    if i < rules.len() - 1 {
        assert(rules.drop_last()[i] == rules[i]);
        lemma_select_rule_maximal(rules.drop_last(), secs, i);
    }
}

/// When no rule is selected, no rule's threshold was met.
pub proof fn lemma_select_rule_none(rules: Seq<ReminderRule>, secs: int)
    requires
        spec_select_rule(rules, secs) is None,
    ensures
        forall|i: int| 0 <= i < rules.len() ==> !spec_rule_matches(rules[i], secs),
{
    assert forall|i: int| 0 <= i < rules.len() implies !spec_rule_matches(rules[i], secs) by {
        if spec_rule_matches(rules[i], secs) {
            lemma_select_rule_maximal(rules, secs, i);
        }
    }
}

/// A negative inactivity duration (the conversation's last update lies in
/// the future, by clock skew) meets no threshold, so no rule is selected.
pub proof fn lemma_negative_duration_selects_nothing(rules: Seq<ReminderRule>, d: int)
    requires
        d < 0,
    ensures
        spec_select_rule(rules, d) is None,
{
    if spec_select_rule(rules, d) is Some {
        lemma_select_rule_sound(rules, d);
    }
}

/// Monotonicity: growing the inactivity duration never loses the selection;
/// the selected threshold can only grow with the duration.
pub proof fn lemma_select_rule_monotonic(rules: Seq<ReminderRule>, d1: int, d2: int)
    requires
        d1 <= d2,
        spec_select_rule(rules, d1) is Some,
    ensures
        spec_select_rule(rules, d2) is Some,
        spec_select_rule(rules, d1)->0.inactive_for_hours <= spec_select_rule(
            rules,
            d2,
        )->0.inactive_for_hours,
{
    lemma_select_rule_sound(rules, d1);
    let sel = spec_select_rule(rules, d1)->0;
    let i = choose|i: int| 0 <= i < rules.len() && rules[i] == sel;
    assert(spec_rule_matches(rules[i], d2));
    lemma_select_rule_maximal(rules, d2, i);
}

/// The selected rule stands at the selected position.
pub proof fn lemma_select_index_consistent(rules: Seq<ReminderRule>, secs: int)
    ensures
        spec_select_rule(rules, secs) is Some <==> spec_select_index(rules, secs) is Some,
        spec_select_index(rules, secs) matches Some(i) ==> 0 <= i < rules.len()
            && spec_select_rule(rules, secs) == Some(rules[i]),
    decreases rules.len(),
{
    if rules.len() > 0 {
        lemma_select_index_consistent(rules.drop_last(), secs);
        assert forall|j: int| 0 <= j < rules.drop_last().len() implies rules.drop_last()[j]
            == rules[j] by {}
    }
}

/// Two rule lists with the same thresholds select the same position: the
/// selection outcome survives any reloading of the rules that keeps their
/// order and thresholds, such as a serialization round trip.
pub proof fn lemma_select_index_depends_on_thresholds(
    r1: Seq<ReminderRule>,
    r2: Seq<ReminderRule>,
    secs: int,
)
    requires
        r1.len() == r2.len(),
        forall|i: int| 0 <= i < r1.len() ==> r1[i].inactive_for_hours == r2[i].inactive_for_hours,
    ensures
        spec_select_index(r1, secs) == spec_select_index(r2, secs),
    decreases r1.len(),
{
    if r1.len() > 0 {
        assert forall|j: int| 0 <= j < r1.drop_last().len() implies r1.drop_last()[
            j
        ].inactive_for_hours == r2.drop_last()[j].inactive_for_hours by {
            assert(r1.drop_last()[j] == r1[j]);
            assert(r2.drop_last()[j] == r2[j]);
        }
        lemma_select_index_depends_on_thresholds(r1.drop_last(), r2.drop_last(), secs);
        assert(r1.last().inactive_for_hours == r2.last().inactive_for_hours);
        let prev = spec_select_index(r1.drop_last(), secs);
        assert(spec_select_index(r2.drop_last(), secs) == prev);
        if prev is Some {
            let p = prev->0;
            lemma_select_index_consistent(r1.drop_last(), secs);
            assert(0 <= p < r1.len() - 1);
            assert(r1[p].inactive_for_hours == r2[p].inactive_for_hours);
        }
    }
}

/// Computes the inactivity duration in seconds from the evaluation time and
/// the conversation's last update, both in Unix epoch seconds. The result
/// may be negative when the last update lies in the future.
pub fn inactivity_seconds(now: i64, last_updated_at: i64) -> (d: i64)
    requires
        i64::MIN <= now - last_updated_at <= i64::MAX,
    ensures
        d == now - last_updated_at,
{
    now - last_updated_at
}

} // verus!
