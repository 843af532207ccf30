//! A rule set serialized to JSON and reloaded selects exactly as the
//! original does, for every duration.

use wacraft_reminders::models::ReminderRule;
use wacraft_reminders::rules::select_rule;

fn rules() -> Vec<ReminderRule> {
    vec![
        ReminderRule { name: "day".to_string(), inactive_for_hours: 24, action: None },
        ReminderRule { name: "three-days".to_string(), inactive_for_hours: 72, action: None },
        ReminderRule { name: "day-too".to_string(), inactive_for_hours: 24, action: None },
        ReminderRule { name: "week".to_string(), inactive_for_hours: 168, action: None },
    ]
}

fn serialize(rules: &[ReminderRule]) -> String {
    let mut out = String::from("[");
    for (i, r) in rules.iter().enumerate() {
        if i > 0 {
            out.push(',');
        }
        out.push_str(&format!(
            "{{\"name\": \"{}\", \"inactive_for_hours\": {}}}",
            r.name, r.inactive_for_hours
        ));
    }
    out.push(']');
    out
}

fn reload(text: &str) -> Vec<ReminderRule> {
    let value: serde_json::Value = serde_json::from_str(text).expect("the dump parses");
    let array = value.as_array().expect("a rule file is an array");
    array
        .iter()
        .map(|v| ReminderRule {
            name: v.get("name").and_then(|n| n.as_str()).expect("name").to_string(),
            inactive_for_hours: v
                .get("inactive_for_hours")
                .and_then(|h| h.as_u64())
                .expect("inactive_for_hours"),
            action: None,
        })
        .collect()
}

#[test]
fn reloaded_rules_select_identically() {
    let original = rules();
    let reloaded = reload(&serialize(&original));
    assert_eq!(original.len(), reloaded.len());
    const HOUR: i64 = 3600;
    for d in [-5, 0, HOUR, 24 * HOUR, 25 * HOUR, 72 * HOUR, 100 * HOUR, 168 * HOUR, 4000 * HOUR] {
        let a = select_rule(&original, d);
        let b = select_rule(&reloaded, d);
        match (a, b) {
            (None, None) => {}
            (Some(x), Some(y)) => {
                assert_eq!(x.name, y.name);
                assert_eq!(x.inactive_for_hours, y.inactive_for_hours);
            }
            _ => panic!("selection differs after the round trip at d = {}", d),
        }
    }
}
