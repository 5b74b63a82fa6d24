//! Which windows to ignore, float or manage.
//!
//! A rule names one piece of window metadata, a text to compare it with and how
//! to compare. The rule sets gather the lists a configuration file holds and
//! decide what happens to a window when it appears.

use vstd::prelude::*;

use crate::error::{error_views, Error, ErrorView};
use crate::seqs::any;
use crate::text::{chars_of, owned};

verus! {

/// The piece of window metadata a rule looks at.
#[derive(Debug, Clone, Copy, PartialEq, Eq, Hash, Structural)]
pub enum ApplicationIdentifier {
    /// The name of the executable.
    Exe,
    /// The window class.
    Class,
    /// The window title.
    Title,
    /// The full path of the executable.
    Path,
}

impl ApplicationIdentifier {
    /// The word for this piece of metadata.
    pub open spec fn name(self) -> Seq<char> {
        match self {
            ApplicationIdentifier::Exe => "Exe"@,
            ApplicationIdentifier::Class => "Class"@,
            ApplicationIdentifier::Title => "Title"@,
            ApplicationIdentifier::Path => "Path"@,
        }
    }

    /// The word for this piece of metadata.
    pub fn to_string(&self) -> (r: String)
        ensures
            r@ == self.name(),
    {
        match self {
            ApplicationIdentifier::Exe => owned("Exe"),
            ApplicationIdentifier::Class => owned("Class"),
            ApplicationIdentifier::Title => owned("Title"),
            ApplicationIdentifier::Path => owned("Path"),
        }
    }
}

/// How the text of a rule is compared with the window metadata.
#[derive(Debug, Clone, Copy, PartialEq, Eq, Hash, Structural)]
pub enum MatchingStrategy {
    /// The metadata is the text.
    Equals,
    /// The text is somewhere in the metadata.
    Contains,
    /// The metadata starts with the text.
    StartsWith,
    /// The metadata ends with the text.
    EndsWith,
    /// The text is a regular expression that matches somewhere in the metadata.
    Regex,
}

/// The metadata of one window, as a value of its texts.
pub ghost struct WindowInfoView {
    /// The window title.
    pub title: Seq<char>,
    /// The window class.
    pub class: Seq<char>,
    /// The name of the executable.
    pub exe: Seq<char>,
    /// The full path of the executable.
    pub path: Seq<char>,
}

impl WindowInfoView {
    /// The piece of metadata a rule of that kind looks at.
    pub open spec fn piece(self, kind: ApplicationIdentifier) -> Seq<char> {
        match kind {
            ApplicationIdentifier::Exe => self.exe,
            ApplicationIdentifier::Class => self.class,
            ApplicationIdentifier::Title => self.title,
            ApplicationIdentifier::Path => self.path,
        }
    }
}

/// The metadata of one window, as rules see it.
#[derive(Debug, Clone, Copy, PartialEq, Eq)]
pub struct WindowInfo<'a> {
    /// The window title.
    pub title: &'a str,
    /// The window class.
    pub class: &'a str,
    /// The name of the executable.
    pub exe: &'a str,
    /// The full path of the executable.
    pub path: &'a str,
}

impl<'a> View for WindowInfo<'a> {
    type V = WindowInfoView;

    open spec fn view(&self) -> WindowInfoView {
        WindowInfoView {
            title: self.title@,
            class: self.class@,
            exe: self.exe@,
            path: self.path@,
        }
    }
}

impl<'a> WindowInfo<'a> {
    /// The metadata from its four parts.
    #[must_use]
    pub fn new(title: &'a str, class: &'a str, exe: &'a str, path: &'a str) -> (r: Self)
        ensures
            r@ == (WindowInfoView { title: title@, class: class@, exe: exe@, path: path@ }),
    {
        WindowInfo { title, class, exe, path }
    }

    fn piece(&self, kind: ApplicationIdentifier) -> (r: &'a str)
        ensures
            r@ == self@.piece(kind),
    {
        match kind {
            ApplicationIdentifier::Exe => self.exe,
            ApplicationIdentifier::Class => self.class,
            ApplicationIdentifier::Title => self.title,
            ApplicationIdentifier::Path => self.path,
        }
    }
}

/// Whether a regular expression matches somewhere in a text. `None` when the
/// pattern is not a regular expression.
pub uninterp spec fn regex_verdict(pattern: Seq<char>, text: Seq<char>) -> Option<bool>;

/// What is wrong with a pattern, in the words of the regular expression
/// compiler. `None` when it is a regular expression.
pub uninterp spec fn regex_complaint(pattern: Seq<char>) -> Option<Seq<char>>;

/// Compiles a pattern with `regex::Regex::new` and asks `is_match` for a match
/// anywhere in the text.
///
/// Claimed: the answer is fixed by the pattern and the text, and there is one
/// exactly when the pattern compiles. Which patterns match which texts is left
/// to the regular expression engine.
#[verifier::external_body]
fn ask_regex(pattern: &str, text: &str) -> (r: Option<bool>)
    ensures
        r == regex_verdict(pattern@, text@),
        r is Some <==> regex_complaint(pattern@) is None,
{
    regex::Regex::new(pattern).ok().map(|compiled| compiled.is_match(text))
}

/// Compiles a pattern with `regex::Regex::new` and renders the error, if any.
///
/// Claimed: the outcome is fixed by the pattern.
#[verifier::external_body]
fn check_regex(pattern: &str) -> (r: Option<String>)
    ensures
        match r {
            Some(message) => regex_complaint(pattern@) == Some(message@),
            None => regex_complaint(pattern@) is None,
        },
{
    regex::Regex::new(pattern).err().map(|error| error.to_string())
}

/// What a [`MatchingRule`] holds.
pub ghost struct MatchingRuleView {
    /// The piece of window metadata the rule looks at.
    pub kind: ApplicationIdentifier,
    /// The text it is compared with.
    pub id: Seq<char>,
    /// How to compare.
    pub matching_strategy: MatchingStrategy,
}

/// `part` is somewhere in `text`.
pub open spec fn is_part(part: Seq<char>, text: Seq<char>) -> bool {
    exists|at: int|
        0 <= at <= text.len() - part.len() && #[trigger] text.subrange(at, at + part.len()) == part
}

/// `text` starts with `part`.
pub open spec fn starts_with(text: Seq<char>, part: Seq<char>) -> bool {
    part.len() <= text.len() && text.subrange(0, part.len() as int) == part
}

/// `text` ends with `part`.
pub open spec fn ends_with(text: Seq<char>, part: Seq<char>) -> bool {
    part.len() <= text.len() && text.subrange(text.len() - part.len(), text.len() as int) == part
}

impl MatchingRuleView {
    /// `true` when a text compares as the rule asks, given what the regular
    /// expression engine says. An empty rule names nothing.
    pub open spec fn accepts(self, text: Seq<char>, verdict: Option<bool>) -> bool {
        self.id.len() > 0 && match self.matching_strategy {
            MatchingStrategy::Equals => text == self.id,
            MatchingStrategy::Contains => is_part(self.id, text),
            MatchingStrategy::StartsWith => starts_with(text, self.id),
            MatchingStrategy::EndsWith => ends_with(text, self.id),
            MatchingStrategy::Regex => verdict == Some(true),
        }
    }

    /// `true` when the rule matches the window.
    pub open spec fn matches_window(self, info: WindowInfoView) -> bool {
        let text = info.piece(self.kind);
        self.accepts(text, regex_verdict(self.id, text))
    }
}

/// Holds of the rules that match a window.
pub open spec fn matching(info: WindowInfoView) -> spec_fn(MatchingRuleView) -> bool {
    |rule: MatchingRuleView| rule.matches_window(info)
}

fn part_at(part: &Vec<char>, text: &Vec<char>, at: usize) -> (r: bool)
    requires
        at + part@.len() <= text@.len(),
    ensures
        r == (text@.subrange(at as int, at + part@.len()) == part@),
{
    for i in 0..part.len()
        invariant
            at + part@.len() <= text@.len(),
            forall|j: int| 0 <= j < i ==> text@[at + j] == part@[j],
    {
        assert(at + i < text.len());
        if text[at + i] != part[i] {
            assert(text@.subrange(at as int, at + part@.len())[i as int] != part@[i as int]);
            return false;
        }
    }
    assert(text@.subrange(at as int, at + part@.len()) =~= part@);
    true
}

fn has_part(part: &Vec<char>, text: &Vec<char>) -> (r: bool)
    ensures
        r == is_part(part@, text@),
{
    if part.len() > text.len() {
        return false;
    }
    let last = text.len() - part.len();
    let mut at: usize = 0;
    while at <= last
        invariant
            last == text@.len() - part@.len(),
            at <= last + 1,
            forall|k: int|
                0 <= k < at ==> #[trigger] text@.subrange(k, k + part@.len()) != part@,
        decreases last + 1 - at,
    {
        if part_at(part, text, at) {
            return true;
        }
        if at == last {
            return false;
        }
        at = at + 1;
    }
    false
}

/// One rule: what it looks at, the text it compares with, and how.
#[derive(Debug, PartialEq, Eq)]
pub struct MatchingRule {
    /// The piece of window metadata the rule looks at.
    pub kind: ApplicationIdentifier,
    /// The text it is compared with.
    pub id: String,
    /// How to compare.
    pub matching_strategy: MatchingStrategy,
}

impl View for MatchingRule {
    type V = MatchingRuleView;

    open spec fn view(&self) -> MatchingRuleView {
        MatchingRuleView {
            kind: self.kind,
            id: self.id@,
            matching_strategy: self.matching_strategy,
        }
    }
}

impl Clone for MatchingRule {
    fn clone(&self) -> (r: Self)
        ensures
            r@ == self@,
    {
        MatchingRule {
            kind: self.kind,
            id: self.id.clone(),
            matching_strategy: self.matching_strategy,
        }
    }
}

impl MatchingRule {
    /// A rule from its three parts.
    #[must_use]
    pub fn simple(
        kind: ApplicationIdentifier,
        id: &str,
        matching_strategy: MatchingStrategy,
    ) -> (r: Self)
        ensures
            r@ == (MatchingRuleView { kind, id: id@, matching_strategy }),
    {
        MatchingRule { kind, id: owned(id), matching_strategy }
    }

    /// `true` when a text compares as the rule asks, given what the regular
    /// expression engine says about it. `verdict` only counts for a regular
    /// expression rule, and is `None` when its pattern does not compile.
    #[must_use]
    pub fn accepts(&self, text: &str, verdict: Option<bool>) -> (r: bool)
        ensures
            r == self@.accepts(text@, verdict),
    {
        let part = chars_of(self.id.as_str());
        if part.len() == 0 {
            return false;
        }
        let text = chars_of(text);
        match self.matching_strategy {
            MatchingStrategy::Equals => {
                if text.len() == part.len() {
                    assert(text@.subrange(0, part@.len() as int) =~= text@);
                    part_at(&part, &text, 0)
                } else {
                    false
                }
            },
            MatchingStrategy::Contains => has_part(&part, &text),
            MatchingStrategy::StartsWith => part.len() <= text.len() && part_at(&part, &text, 0),
            MatchingStrategy::EndsWith => part.len() <= text.len() && part_at(
                &part,
                &text,
                text.len() - part.len(),
            ),
            MatchingStrategy::Regex => match verdict {
                Some(matched) => matched,
                None => false,
            },
        }
    }

    /// `true` when the rule matches the window.
    #[must_use]
    pub fn matches_window(&self, info: &WindowInfo<'_>) -> (r: bool)
        ensures
            r == self@.matches_window(info@),
    {
        let text = info.piece(self.kind);
        let verdict = match self.matching_strategy {
            MatchingStrategy::Regex => ask_regex(self.id.as_str(), text),
            _ => None,
        };
        self.accepts(text, verdict)
    }

    /// What is wrong with the rule, given what the regular expression compiler
    /// says about its pattern. `complaint` only counts for a regular expression
    /// rule, and is `None` when its pattern compiles.
    #[must_use]
    pub fn problem(&self, complaint: Option<String>) -> (r: Option<Error>)
        ensures
            error_view(r) == self@.problem(text_view(complaint)),
    {
        let chars = chars_of(self.id.as_str());
        if chars.len() == 0 {
            return Some(Error::EmptyRuleId { kind: self.kind });
        }
        match self.matching_strategy {
            MatchingStrategy::Regex => match complaint {
                Some(message) => Some(Error::InvalidRegex { pattern: self.id.clone(), message }),
                None => None,
            },
            _ => None,
        }
    }

    fn check(&self) -> (r: Option<Error>)
        ensures
            error_view(r) == self@.problem(regex_complaint(self@.id)),
    {
        let complaint = match self.matching_strategy {
            MatchingStrategy::Regex => check_regex(self.id.as_str()),
            _ => None,
        };
        self.problem(complaint)
    }
}

/// The view of an error, where there is one.
pub open spec fn error_view(error: Option<Error>) -> Option<ErrorView> {
    match error {
        Some(error) => Some(error@),
        None => None,
    }
}

/// The characters of a text, where there is one.
pub open spec fn text_view(text: Option<String>) -> Option<Seq<char>> {
    match text {
        Some(text) => Some(text@),
        None => None,
    }
}

impl MatchingRuleView {
    /// What is wrong with the rule, given what the regular expression compiler
    /// says about its pattern: it names nothing, or its pattern is no regular
    /// expression.
    pub open spec fn problem(self, complaint: Option<Seq<char>>) -> Option<ErrorView> {
        if self.id.len() == 0 {
            Some(ErrorView::EmptyRuleId { kind: self.kind })
        } else if self.matching_strategy is Regex && complaint is Some {
            Some(ErrorView::InvalidRegex { pattern: self.id, message: complaint->0 })
        } else {
            None
        }
    }
}

/// What happens to a window when it appears.
#[derive(Debug, Clone, Copy, PartialEq, Eq, Hash, Structural)]
pub enum RuleDecision {
    /// The window is never touched.
    Ignore,
    /// The window is managed but never tiled.
    Float,
    /// The window is tiled.
    Tile,
}

/// What a [`RuleSets`] holds.
#[verifier::ext_equal]
pub ghost struct RuleSetsView {
    /// Windows that are never touched at all.
    pub ignore_rules: Seq<MatchingRuleView>,
    /// The ignore rules of the user's own file.
    pub own_ignore_rules: Seq<MatchingRuleView>,
    /// Windows that are managed even though the heuristics say no.
    pub manage_rules: Seq<MatchingRuleView>,
    /// Windows that are managed but never tiled.
    pub floating_applications: Seq<MatchingRuleView>,
    /// Applications that keep a hidden window alive in the tray.
    pub tray_and_multi_window_applications: Seq<MatchingRuleView>,
    /// Applications that reuse one window and only change its title.
    pub object_name_change_applications: Seq<MatchingRuleView>,
    /// Applications whose border sits outside the window rectangle.
    pub border_overflow_applications: Seq<MatchingRuleView>,
    /// Layered windows that should be managed anyway.
    pub layered_whitelist: Seq<MatchingRuleView>,
    /// Windows that must never be made transparent.
    pub transparency_ignore_rules: Seq<MatchingRuleView>,
    /// Applications that need an extra beat before their window is ready.
    pub slow_application_identifiers: Seq<MatchingRuleView>,
}

impl RuleSetsView {
    /// `true` when the window is never touched. A manage rule overrules an
    /// ignore rule, but not one of the user's own.
    pub open spec fn ignores(self, info: WindowInfoView) -> bool {
        any(self.own_ignore_rules, matching(info)) || (any(self.ignore_rules, matching(info))
            && !any(self.manage_rules, matching(info)))
    }

    /// What happens to a window when it appears.
    pub open spec fn decide(self, info: WindowInfoView) -> RuleDecision {
        if self.ignores(info) {
            RuleDecision::Ignore
        } else if any(self.floating_applications, matching(info)) {
            RuleDecision::Float
        } else {
            RuleDecision::Tile
        }
    }
}

/// The views of some rules.
pub open spec fn rule_views(rules: Seq<MatchingRule>) -> Seq<MatchingRuleView> {
    rules.map_values(|rule: MatchingRule| rule@)
}

/// Every rule list, gathered in one place.
#[derive(Debug, Clone, PartialEq, Eq)]
pub struct RuleSets {
    /// Windows that are never touched at all.
    pub ignore_rules: Vec<MatchingRule>,
    /// The ignore rules of the user's own file.
    pub own_ignore_rules: Vec<MatchingRule>,
    /// Windows that are managed even though the heuristics say no.
    pub manage_rules: Vec<MatchingRule>,
    /// Windows that are managed but never tiled.
    pub floating_applications: Vec<MatchingRule>,
    /// Applications that keep a hidden window alive in the tray.
    pub tray_and_multi_window_applications: Vec<MatchingRule>,
    /// Applications that reuse one window and only change its title.
    pub object_name_change_applications: Vec<MatchingRule>,
    /// Applications whose border sits outside the window rectangle.
    pub border_overflow_applications: Vec<MatchingRule>,
    /// Layered windows that should be managed anyway.
    pub layered_whitelist: Vec<MatchingRule>,
    /// Windows that must never be made transparent.
    pub transparency_ignore_rules: Vec<MatchingRule>,
    /// Applications that need an extra beat before their window is ready.
    pub slow_application_identifiers: Vec<MatchingRule>,
}

impl View for RuleSets {
    type V = RuleSetsView;

    open spec fn view(&self) -> RuleSetsView {
        RuleSetsView {
            ignore_rules: rule_views(self.ignore_rules@),
            own_ignore_rules: rule_views(self.own_ignore_rules@),
            manage_rules: rule_views(self.manage_rules@),
            floating_applications: rule_views(self.floating_applications@),
            tray_and_multi_window_applications: rule_views(
                self.tray_and_multi_window_applications@,
            ),
            object_name_change_applications: rule_views(self.object_name_change_applications@),
            border_overflow_applications: rule_views(self.border_overflow_applications@),
            layered_whitelist: rule_views(self.layered_whitelist@),
            transparency_ignore_rules: rule_views(self.transparency_ignore_rules@),
            slow_application_identifiers: rule_views(self.slow_application_identifiers@),
        }
    }
}

fn any_matches(rules: &Vec<MatchingRule>, info: &WindowInfo<'_>) -> (r: bool)
    ensures
        r == any(rule_views(rules@), matching(info@)),
{
    for i in 0..rules.len()
        invariant
            forall|j: int| 0 <= j < i ==> !matching(info@)(#[trigger] rule_views(rules@)[j]),
    {
        assert(rule_views(rules@)[i as int] == rules@[i as int]@);
        if rules[i].matches_window(info) {
            return true;
        }
    }
    false
}

/// What is wrong with some rules, in their order.
pub open spec fn problems(rules: Seq<MatchingRuleView>) -> Seq<ErrorView>
    decreases rules.len(),
{
    if rules.len() == 0 {
        Seq::empty()
    } else {
        let before = problems(rules.drop_last());
        match rules.last().problem(regex_complaint(rules.last().id)) {
            Some(problem) => before.push(problem),
            None => before,
        }
    }
}

fn check_all(errors: &mut Vec<Error>, rules: &Vec<MatchingRule>)
    ensures
        error_views(final(errors)@) == error_views(old(errors)@) + problems(rule_views(rules@)),
{
    let ghost views = rule_views(rules@);
    assert(views.take(0) =~= Seq::empty());
    for i in 0..rules.len()
        invariant
            views == rule_views(rules@),
            error_views(errors@) == error_views(old(errors)@) + problems(views.take(i as int)),
    {
        assert(views.take(i + 1).drop_last() =~= views.take(i as int));
        assert(views.take(i + 1).last() == rules@[i as int]@);
        let ghost before = errors@;
        if let Some(error) = rules[i].check() {
            errors.push(error);
            assert(error_views(errors@) =~= error_views(before).push(error@));
        }
    }
    assert(views.take(rules@.len() as int) =~= views);
}

impl Default for RuleSets {
    fn default() -> (r: Self)
        ensures
            r@ == RuleSets::no_rules(),
    {
        RuleSets::new()
    }
}

impl RuleSets {
    /// No rules at all.
    pub open spec fn no_rules() -> RuleSetsView {
        RuleSetsView {
            ignore_rules: Seq::empty(),
            own_ignore_rules: Seq::empty(),
            manage_rules: Seq::empty(),
            floating_applications: Seq::empty(),
            tray_and_multi_window_applications: Seq::empty(),
            object_name_change_applications: Seq::empty(),
            border_overflow_applications: Seq::empty(),
            layered_whitelist: Seq::empty(),
            transparency_ignore_rules: Seq::empty(),
            slow_application_identifiers: Seq::empty(),
        }
    }

    /// No rules at all.
    #[must_use]
    pub fn new() -> (r: Self)
        ensures
            r@ == RuleSets::no_rules(),
    {
        let r = RuleSets {
            ignore_rules: Vec::new(),
            own_ignore_rules: Vec::new(),
            manage_rules: Vec::new(),
            floating_applications: Vec::new(),
            tray_and_multi_window_applications: Vec::new(),
            object_name_change_applications: Vec::new(),
            border_overflow_applications: Vec::new(),
            layered_whitelist: Vec::new(),
            transparency_ignore_rules: Vec::new(),
            slow_application_identifiers: Vec::new(),
        };
        assert(r@ =~= RuleSets::no_rules());
        r
    }

    /// `true` when the window is never touched.
    #[must_use]
    pub fn should_ignore(&self, info: &WindowInfo<'_>) -> (r: bool)
        ensures
            r == self@.ignores(info@),
    {
        any_matches(&self.own_ignore_rules, info) || (any_matches(&self.ignore_rules, info)
            && !any_matches(&self.manage_rules, info))
    }

    /// What happens to a window when it appears.
    #[must_use]
    pub fn decide(&self, info: &WindowInfo<'_>) -> (r: RuleDecision)
        ensures
            r == self@.decide(info@),
    {
        if self.should_ignore(info) {
            RuleDecision::Ignore
        } else if any_matches(&self.floating_applications, info) {
            RuleDecision::Float
        } else {
            RuleDecision::Tile
        }
    }

    /// What is wrong with the rules, list by list: one error for each rule with
    /// an empty id or a pattern that does not compile. The user's own ignore
    /// rules are among the ignore rules, and are not listed twice.
    #[must_use]
    pub fn validate(&self) -> (r: Vec<Error>)
        ensures
            error_views(r@) == problems(self@.ignore_rules) + problems(self@.manage_rules)
                + problems(self@.floating_applications) + problems(
                self@.tray_and_multi_window_applications,
            ) + problems(self@.object_name_change_applications) + problems(
                self@.border_overflow_applications,
            ) + problems(self@.layered_whitelist) + problems(self@.transparency_ignore_rules)
                + problems(self@.slow_application_identifiers),
    {
        let mut errors: Vec<Error> = Vec::new();
        assert(error_views(errors@) =~= Seq::empty());
        check_all(&mut errors, &self.ignore_rules);
        check_all(&mut errors, &self.manage_rules);
        check_all(&mut errors, &self.floating_applications);
        check_all(&mut errors, &self.tray_and_multi_window_applications);
        check_all(&mut errors, &self.object_name_change_applications);
        check_all(&mut errors, &self.border_overflow_applications);
        check_all(&mut errors, &self.layered_whitelist);
        check_all(&mut errors, &self.transparency_ignore_rules);
        check_all(&mut errors, &self.slow_application_identifiers);
        errors
    }
}

} // verus!
