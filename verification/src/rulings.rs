//! What the rules say about a window.

use vstd::prelude::*;

use crate::error::ErrorView;
use crate::rules::{
    matching, problems, regex_complaint, ApplicationIdentifier, MatchingRuleView, MatchingStrategy,
    RuleSetsView, WindowInfoView,
};
use crate::seqs::any;

verus! {

/// A rule accepts every text that its own text is part of in the way its strategy
/// asks: all of it, its beginning, its end, or anywhere in it.
pub proof fn a_rule_accepts_what_holds_its_text(
    rule: MatchingRuleView,
    before: Seq<char>,
    after: Seq<char>,
    verdict: Option<bool>,
)
    requires
        rule.id.len() > 0,
    ensures
        rule.matching_strategy is Equals ==> rule.accepts(rule.id, verdict),
        rule.matching_strategy is StartsWith ==> rule.accepts(rule.id + after, verdict),
        rule.matching_strategy is EndsWith ==> rule.accepts(before + rule.id, verdict),
        rule.matching_strategy is Contains ==> rule.accepts(before + rule.id + after, verdict),
        rule.matching_strategy is Regex ==> (rule.accepts(before, verdict) <==> verdict == Some(
            true,
        )),
{
    assert((rule.id + after).subrange(0, rule.id.len() as int) =~= rule.id);
    assert((before + rule.id).subrange(before.len() as int, (before + rule.id).len() as int)
        =~= rule.id);
    let text = before + rule.id + after;
    let at = before.len() as int;
    assert(text.subrange(at, at + rule.id.len()) =~= rule.id);
}

/// A text that a rule accepts holds the text of the rule in the way its strategy
/// asks. A rule with an empty text accepts none.
pub proof fn what_a_rule_accepts_holds_its_text(
    rule: MatchingRuleView,
    text: Seq<char>,
    verdict: Option<bool>,
) -> (at: int)
    requires
        rule.accepts(text, verdict),
    ensures
        rule.id.len() > 0,
        rule.matching_strategy is Equals ==> text == rule.id,
        rule.matching_strategy is StartsWith ==> text == rule.id + text.skip(
            rule.id.len() as int,
        ),
        rule.matching_strategy is EndsWith ==> text == text.take(text.len() - rule.id.len())
            + rule.id,
        rule.matching_strategy is Contains ==> 0 <= at <= text.len() && text == text.take(at)
            + rule.id + text.skip(at + rule.id.len()),
{
    let len = rule.id.len() as int;
    match rule.matching_strategy {
        MatchingStrategy::StartsWith => {
            assert(text =~= text.subrange(0, len) + text.skip(len));
            0
        },
        MatchingStrategy::EndsWith => {
            assert(text =~= text.take(text.len() - len) + text.subrange(
                text.len() - len,
                text.len() as int,
            ));
            0
        },
        MatchingStrategy::Contains => {
            let at = choose|at: int|
                0 <= at <= text.len() - len && #[trigger] text.subrange(at, at + len) == rule.id;
            assert(text =~= text.take(at) + text.subrange(at, at + len) + text.skip(at + len));
            at
        },
        _ => 0,
    }
}

/// A rule looks at the piece of the metadata it names, and at nothing else.
pub proof fn a_rule_looks_at_its_own_piece(
    rule: MatchingRuleView,
    a: WindowInfoView,
    b: WindowInfoView,
)
    requires
        rule.kind is Exe ==> a.exe == b.exe,
        rule.kind is Class ==> a.class == b.class,
        rule.kind is Title ==> a.title == b.title,
        rule.kind is Path ==> a.path == b.path,
    ensures
        rule.matches_window(a) == rule.matches_window(b),
        rule.id.len() > 0 && rule.matching_strategy is Equals ==> (rule.matches_window(a) <==> match
        rule.kind {
            ApplicationIdentifier::Exe => a.exe,
            ApplicationIdentifier::Class => a.class,
            ApplicationIdentifier::Title => a.title,
            ApplicationIdentifier::Path => a.path,
        } == rule.id),
{
}

/// One of the rules matches the window.
pub open spec fn some_match(rules: Seq<MatchingRuleView>, info: WindowInfoView) -> bool {
    exists|i: int| 0 <= i < rules.len() && (#[trigger] rules[i]).matches_window(info)
}

proof fn some_match_is_any(rules: Seq<MatchingRuleView>, info: WindowInfoView)
    ensures
        any(rules, matching(info)) == some_match(rules, info),
{
    if some_match(rules, info) {
        let i = choose|i: int| 0 <= i < rules.len() && (#[trigger] rules[i]).matches_window(info);
        assert(matching(info)(rules[i]));
    }
    if any(rules, matching(info)) {
        let i = choose|i: int| 0 <= i < rules.len() && matching(info)(#[trigger] rules[i]);
        assert(rules[i].matches_window(info));
    }
}

impl RuleSetsView {
    /// The user's own ignore rules come first, then the manage rules, then the other
    /// ignore rules. A window nobody ignores floats when one of the floating
    /// applications matches, and is tiled otherwise.
    pub proof fn the_first_say_goes_to_the_user(self, info: WindowInfoView)
        ensures
            some_match(self.own_ignore_rules, info) ==> self.decide(info) is Ignore,
            !some_match(self.own_ignore_rules, info) && some_match(self.manage_rules, info)
                ==> !(self.decide(info) is Ignore),
            !some_match(self.own_ignore_rules, info) && !some_match(self.manage_rules, info) ==> (
            self.decide(info) is Ignore <==> some_match(self.ignore_rules, info)),
            !(self.decide(info) is Ignore) ==> (self.decide(info) is Float <==> some_match(
                self.floating_applications,
                info,
            )),
            self.ignores(info) == (self.decide(info) is Ignore),
    {
        some_match_is_any(self.own_ignore_rules, info);
        some_match_is_any(self.ignore_rules, info);
        some_match_is_any(self.manage_rules, info);
        some_match_is_any(self.floating_applications, info);
    }
}

/// A rule with an empty text is named by what it looks at, a regular expression rule
/// that does not compile by its pattern and the words of the compiler, and every
/// other rule is in order.
pub proof fn a_rule_is_in_order_unless_it_is_empty_or_broken(
    rule: MatchingRuleView,
    complaint: Option<Seq<char>>,
)
    ensures
        rule.id.len() == 0 ==> rule.problem(complaint) == Some(
            ErrorView::EmptyRuleId { kind: rule.kind },
        ),
        rule.id.len() > 0 && !(rule.matching_strategy is Regex) ==> rule.problem(complaint) is None,
        rule.id.len() > 0 && complaint is None ==> rule.problem(complaint) is None,
        rule.id.len() > 0 && rule.matching_strategy is Regex && complaint is Some ==> rule.problem(
            complaint,
        ) == Some(ErrorView::InvalidRegex { pattern: rule.id, message: complaint->0 }),
{
}

/// What is wrong with a rule, for the pattern it holds.
pub open spec fn fault(rule: MatchingRuleView) -> Option<ErrorView> {
    rule.problem(regex_complaint(rule.id))
}

/// Every rule with something wrong is reported, and nothing else is.
pub proof fn every_broken_rule_is_reported(rules: Seq<MatchingRuleView>)
    ensures
        forall|i: int|
            0 <= i < rules.len() && fault(#[trigger] rules[i]) is Some ==> problems(rules).contains(
                fault(rules[i])->0,
            ),
        forall|k: int|
            0 <= k < problems(rules).len() ==> exists|i: int|
                0 <= i < rules.len() && fault(#[trigger] rules[i]) == Some(
                    #[trigger] problems(rules)[k],
                ),
        problems(rules).len() <= rules.len(),
    decreases rules.len(),
{
    if rules.len() > 0 {
        let head = rules.drop_last();
        let (all, some) = (problems(rules), problems(head));
        every_broken_rule_is_reported(head);
        assert(some.len() <= all.len() && all.take(some.len() as int) =~= some);
        assert forall|i: int|
            0 <= i < rules.len() && fault(#[trigger] rules[i]) is Some implies all.contains(
            fault(rules[i])->0,
        ) by {
            let said = fault(rules[i])->0;
            if i < head.len() {
                assert(head[i] == rules[i]);
                let k = choose|k: int| 0 <= k < some.len() && some[k] == said;
                assert(all[k] == said);
            } else {
                assert(all[some.len() as int] == said);
            }
        }
        assert forall|k: int| 0 <= k < all.len() implies exists|i: int|
            0 <= i < rules.len() && fault(#[trigger] rules[i]) == Some(#[trigger] all[k]) by {
            if k < some.len() {
                assert(all[k] == some[k]);
                let i = choose|i: int|
                    0 <= i < head.len() && fault(#[trigger] head[i]) == Some(some[k]);
                assert(fault(rules[i]) == Some(all[k]));
            } else {
                assert(fault(rules[rules.len() - 1]) == Some(all[k]));
            }
        }
    }
}

} // verus!
