//! Which windows a rule matches, and what the rule sets decide.

use mochi::error::Error;
use mochi::rules::{
    ApplicationIdentifier, MatchingRule, MatchingStrategy, RuleDecision, RuleSets, WindowInfo,
};

fn title(id: &str, strategy: MatchingStrategy) -> MatchingRule {
    MatchingRule::simple(ApplicationIdentifier::Title, id, strategy)
}

fn titled(text: &str) -> WindowInfo<'_> {
    WindowInfo::new(text, "", "", "")
}

#[test]
fn every_strategy_compares_in_its_own_way() {
    let cases: [(MatchingStrategy, &str, &str, bool); 16] = [
        (MatchingStrategy::Equals, "Code", "Code", true),
        (MatchingStrategy::Equals, "Code", "code", false),
        (MatchingStrategy::Equals, "Code", "Code.exe", false),
        (MatchingStrategy::Contains, "ode", "Code", true),
        (MatchingStrategy::Contains, "Code", "ode", false),
        (MatchingStrategy::Contains, "aab", "aaab", true),
        (MatchingStrategy::StartsWith, "Co", "Code", true),
        (MatchingStrategy::StartsWith, "de", "Code", false),
        (MatchingStrategy::EndsWith, "de", "Code", true),
        (MatchingStrategy::EndsWith, "Co", "Code", false),
        (MatchingStrategy::EndsWith, "\u{fc}r", "T\u{fc}r", true),
        (MatchingStrategy::Regex, "^C.*e$", "Code", true),
        (MatchingStrategy::Regex, "od", "Code", true),
        (MatchingStrategy::Regex, "^od", "Code", false),
        (MatchingStrategy::Regex, "(?i)CODE", "code", true),
        (MatchingStrategy::Regex, "(", "(", false),
    ];
    for (strategy, id, text, expected) in cases {
        assert_eq!(
            title(id, strategy).matches_window(&titled(text)),
            expected,
            "{strategy:?} {id:?} {text:?}"
        );
    }
}

#[test]
fn an_empty_rule_matches_nothing() {
    for strategy in [
        MatchingStrategy::Equals,
        MatchingStrategy::Contains,
        MatchingStrategy::StartsWith,
        MatchingStrategy::EndsWith,
        MatchingStrategy::Regex,
    ] {
        assert!(!title("", strategy).matches_window(&titled("")));
        assert!(!title("", strategy).matches_window(&titled("Code")));
    }
}

#[test]
fn a_rule_looks_at_its_own_piece() {
    let info = WindowInfo::new("t", "c", "e", "p");
    for (kind, id) in [
        (ApplicationIdentifier::Title, "t"),
        (ApplicationIdentifier::Class, "c"),
        (ApplicationIdentifier::Exe, "e"),
        (ApplicationIdentifier::Path, "p"),
    ] {
        for other in ["t", "c", "e", "p"] {
            let rule = MatchingRule::simple(kind, other, MatchingStrategy::Equals);
            assert_eq!(rule.matches_window(&info), other == id);
        }
    }
}

#[test]
fn the_engine_decides_only_for_a_regular_expression() {
    let plain = title("Code", MatchingStrategy::Equals);
    assert!(plain.accepts("Code", None));
    assert!(plain.accepts("Code", Some(false)));
    assert!(!plain.accepts("Peek", Some(true)));

    let pattern = title("Code", MatchingStrategy::Regex);
    assert!(pattern.accepts("Peek", Some(true)));
    assert!(!pattern.accepts("Code", Some(false)));
    assert!(!pattern.accepts("Code", None));
}

#[test]
fn a_manage_rule_overrules_an_ignore_rule_but_not_an_own_one() {
    let mut sets = RuleSets::new();
    let info = titled("Code");
    assert_eq!(sets.decide(&info), RuleDecision::Tile);

    sets.floating_applications.push(title("Code", MatchingStrategy::Equals));
    assert_eq!(sets.decide(&info), RuleDecision::Float);

    sets.ignore_rules.push(title("Co", MatchingStrategy::StartsWith));
    assert!(sets.should_ignore(&info));
    assert_eq!(sets.decide(&info), RuleDecision::Ignore);

    sets.manage_rules.push(title("Code", MatchingStrategy::Equals));
    assert!(!sets.should_ignore(&info));
    assert_eq!(sets.decide(&info), RuleDecision::Float);

    sets.own_ignore_rules.push(title("Code", MatchingStrategy::Equals));
    assert!(sets.should_ignore(&info));
    assert_eq!(sets.decide(&info), RuleDecision::Ignore);
}

#[test]
fn broken_rules_are_listed_in_order() {
    let mut sets = RuleSets::new();
    assert_eq!(sets.validate(), vec![]);

    sets.manage_rules.push(title("", MatchingStrategy::Equals));
    sets.ignore_rules.push(title("fine", MatchingStrategy::Contains));
    sets.ignore_rules.push(title("a(b", MatchingStrategy::Regex));
    sets.ignore_rules.push(title("(", MatchingStrategy::Equals));
    sets.slow_application_identifiers.push(MatchingRule::simple(
        ApplicationIdentifier::Exe,
        "",
        MatchingStrategy::Regex,
    ));
    let errors = sets.validate();
    assert_eq!(errors.len(), 3);
    match &errors[0] {
        Error::InvalidRegex { pattern, message } => {
            assert_eq!(pattern, "a(b");
            assert!(message.contains("unclosed group"), "{message}");
        }
        other => panic!("{other:?}"),
    }
    assert_eq!(errors[1], Error::EmptyRuleId { kind: ApplicationIdentifier::Title });
    assert_eq!(errors[2], Error::EmptyRuleId { kind: ApplicationIdentifier::Exe });
}

#[test]
fn a_complaint_counts_only_for_a_regular_expression() {
    let complaint = Some("unclosed group".to_owned());
    assert_eq!(title("(", MatchingStrategy::Equals).problem(complaint.clone()), None);
    assert_eq!(title("(", MatchingStrategy::Regex).problem(None), None);
    assert_eq!(
        title("(", MatchingStrategy::Regex).problem(complaint.clone()),
        Some(Error::InvalidRegex {
            pattern: "(".to_owned(),
            message: "unclosed group".to_owned(),
        })
    );
    assert_eq!(
        title("", MatchingStrategy::Regex).problem(complaint),
        Some(Error::EmptyRuleId { kind: ApplicationIdentifier::Title })
    );
}

#[test]
fn every_kind_of_rule_has_a_name() {
    assert_eq!(ApplicationIdentifier::Exe.to_string(), "Exe");
    assert_eq!(ApplicationIdentifier::Class.to_string(), "Class");
    assert_eq!(ApplicationIdentifier::Title.to_string(), "Title");
    assert_eq!(ApplicationIdentifier::Path.to_string(), "Path");
}
