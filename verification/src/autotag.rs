//! Automatic tagging: rules pair a regular expression with comma-separated
//! tags; the tags of every rule whose pattern matches a window title or a
//! task name are collected.

use vstd::prelude::*;
use crate::text::{contains_string, join, join_strings, split_char, split_on,
    trim, trim_str, views};

verus! {

/// One tagging rule: a regular expression and the comma-separated tags it
/// assigns.
pub struct TagRule {
    pub pattern: String,
    pub tags: String,
}

/// The set of tagging rules.
pub struct TagConfig {
    pub rules: Vec<TagRule>,
}

/// The built-in rules used when no rule file exists, as (pattern, tags).
pub open spec fn default_rules() -> Seq<(Seq<char>, Seq<char>)> {
    seq![
        ("(?i)firefox|chrome|chromium|brave|safari"@, "web,browsing"@),
        ("(?i)code\\.exe|visual studio code|vscodium|cursor"@, "coding,dev"@),
        ("(?i)terminal|alacritty|kitty|ghostty|wezterm|tmux"@, "terminal,cli"@),
        ("(?i)discord|slack|teams|zoom|meet"@, "communication"@),
        ("(?i)gimp|photoshop|figma|inkscape|blender"@, "design"@),
        ("(?i)rust|cargo\\.toml|\\.rs"@, "rust"@),
        ("(?i)go\\.mod|\\.go"@, "golang"@),
    ]
}

fn rule(pattern: &str, tags: &str) -> (r: TagRule)
    ensures
        r.pattern@ == pattern@,
        r.tags@ == tags@,
{
    TagRule { pattern: String::from_str(pattern), tags: String::from_str(tags) }
}

/// The built-in rules: browsers, editors, terminals, chat, design tools,
/// Rust and Go.
pub fn default_config() -> (c: TagConfig)
    ensures
        c.rules@.len() == default_rules().len(),
        forall|i: int|
            0 <= i < c.rules@.len() ==> (#[trigger] c.rules@[i].pattern@, c.rules@[i].tags@)
                == default_rules()[i],
{
    let mut rules: Vec<TagRule> = Vec::new();
    rules.push(rule("(?i)firefox|chrome|chromium|brave|safari", "web,browsing"));
    rules.push(rule("(?i)code\\.exe|visual studio code|vscodium|cursor", "coding,dev"));
    rules.push(rule("(?i)terminal|alacritty|kitty|ghostty|wezterm|tmux", "terminal,cli"));
    rules.push(rule("(?i)discord|slack|teams|zoom|meet", "communication"));
    rules.push(rule("(?i)gimp|photoshop|figma|inkscape|blender", "design"));
    rules.push(rule("(?i)rust|cargo\\.toml|\\.rs", "rust"));
    rules.push(rule("(?i)go\\.mod|\\.go", "golang"));
    TagConfig { rules }
}

/// Whether `word` is one of the `|`-separated alternatives of a
/// case-insensitive pattern `(?i)a|b|...`.
pub open spec fn is_alternative(pattern: Seq<char>, word: Seq<char>) -> bool {
    exists|k: int|
        4 <= k && k + word.len() <= pattern.len() && #[trigger] pattern.subrange(k, k + word.len()) == word
            && (k == 4 || pattern[k - 1] == '|') && (k + word.len() == pattern.len() || pattern[k + word.len()]
            == '|')
}

proof fn lemma_alternative_at(pattern: Seq<char>, word: Seq<char>, k: int)
    requires
        4 <= k && k + word.len() <= pattern.len(),
        pattern.subrange(k, k + word.len()) == word,
        k == 4 || pattern[k - 1] == '|',
        k + word.len() == pattern.len() || pattern[k + word.len()] == '|',
    ensures
        is_alternative(pattern, word),
{
}

proof fn lemma_default_rule_browsers()
    ensures
        default_rules()[0].0.subrange(0, 4) == "(?i)"@,
        default_rules()[0].0.len() == 40,
        default_rules()[0].1 == "web,browsing"@,
        is_alternative(default_rules()[0].0, "firefox"@),
        is_alternative(default_rules()[0].0, "chrome"@),
        is_alternative(default_rules()[0].0, "chromium"@),
        is_alternative(default_rules()[0].0, "brave"@),
        is_alternative(default_rules()[0].0, "safari"@),
{
    reveal_strlit("(?i)firefox|chrome|chromium|brave|safari");
    reveal_strlit("web,browsing");
    reveal_strlit("(?i)");
    let p = default_rules()[0].0;
    assert(p.subrange(0, 4) =~= "(?i)"@);
    reveal_strlit("firefox");
    assert(p.subrange(4, 11) =~= "firefox"@);
    lemma_alternative_at(p, "firefox"@, 4);
    reveal_strlit("chrome");
    assert(p.subrange(12, 18) =~= "chrome"@);
    lemma_alternative_at(p, "chrome"@, 12);
    reveal_strlit("chromium");
    assert(p.subrange(19, 27) =~= "chromium"@);
    lemma_alternative_at(p, "chromium"@, 19);
    reveal_strlit("brave");
    assert(p.subrange(28, 33) =~= "brave"@);
    lemma_alternative_at(p, "brave"@, 28);
    reveal_strlit("safari");
    assert(p.subrange(34, 40) =~= "safari"@);
    lemma_alternative_at(p, "safari"@, 34);
}

proof fn lemma_default_rule_editors()
    ensures
        default_rules()[1].0.subrange(0, 4) == "(?i)"@,
        default_rules()[1].0.len() == 48,
        default_rules()[1].1 == "coding,dev"@,
        is_alternative(default_rules()[1].0, "code\\.exe"@),
        is_alternative(default_rules()[1].0, "visual studio code"@),
        is_alternative(default_rules()[1].0, "vscodium"@),
        is_alternative(default_rules()[1].0, "cursor"@),
{
    reveal_strlit("(?i)code\\.exe|visual studio code|vscodium|cursor");
    reveal_strlit("coding,dev");
    reveal_strlit("(?i)");
    let p = default_rules()[1].0;
    assert(p.subrange(0, 4) =~= "(?i)"@);
    reveal_strlit("code\\.exe");
    assert(p.subrange(4, 13) =~= "code\\.exe"@);
    lemma_alternative_at(p, "code\\.exe"@, 4);
    reveal_strlit("visual studio code");
    assert(p.subrange(14, 32) =~= "visual studio code"@);
    lemma_alternative_at(p, "visual studio code"@, 14);
    reveal_strlit("vscodium");
    assert(p.subrange(33, 41) =~= "vscodium"@);
    lemma_alternative_at(p, "vscodium"@, 33);
    reveal_strlit("cursor");
    assert(p.subrange(42, 48) =~= "cursor"@);
    lemma_alternative_at(p, "cursor"@, 42);
}

proof fn lemma_default_rule_terminals()
    ensures
        default_rules()[2].0.subrange(0, 4) == "(?i)"@,
        default_rules()[2].0.len() == 49,
        default_rules()[2].1 == "terminal,cli"@,
        is_alternative(default_rules()[2].0, "terminal"@),
        is_alternative(default_rules()[2].0, "alacritty"@),
        is_alternative(default_rules()[2].0, "kitty"@),
        is_alternative(default_rules()[2].0, "ghostty"@),
        is_alternative(default_rules()[2].0, "wezterm"@),
        is_alternative(default_rules()[2].0, "tmux"@),
{
    reveal_strlit("(?i)terminal|alacritty|kitty|ghostty|wezterm|tmux");
    reveal_strlit("terminal,cli");
    reveal_strlit("(?i)");
    let p = default_rules()[2].0;
    assert(p.subrange(0, 4) =~= "(?i)"@);
    reveal_strlit("terminal");
    assert(p.subrange(4, 12) =~= "terminal"@);
    lemma_alternative_at(p, "terminal"@, 4);
    reveal_strlit("alacritty");
    assert(p.subrange(13, 22) =~= "alacritty"@);
    lemma_alternative_at(p, "alacritty"@, 13);
    reveal_strlit("kitty");
    assert(p.subrange(23, 28) =~= "kitty"@);
    lemma_alternative_at(p, "kitty"@, 23);
    reveal_strlit("ghostty");
    assert(p.subrange(29, 36) =~= "ghostty"@);
    lemma_alternative_at(p, "ghostty"@, 29);
    reveal_strlit("wezterm");
    assert(p.subrange(37, 44) =~= "wezterm"@);
    lemma_alternative_at(p, "wezterm"@, 37);
    reveal_strlit("tmux");
    assert(p.subrange(45, 49) =~= "tmux"@);
    lemma_alternative_at(p, "tmux"@, 45);
}

proof fn lemma_default_rule_chat()
    ensures
        default_rules()[3].0.subrange(0, 4) == "(?i)"@,
        default_rules()[3].0.len() == 33,
        default_rules()[3].1 == "communication"@,
        is_alternative(default_rules()[3].0, "discord"@),
        is_alternative(default_rules()[3].0, "slack"@),
        is_alternative(default_rules()[3].0, "teams"@),
        is_alternative(default_rules()[3].0, "zoom"@),
        is_alternative(default_rules()[3].0, "meet"@),
{
    reveal_strlit("(?i)discord|slack|teams|zoom|meet");
    reveal_strlit("communication");
    reveal_strlit("(?i)");
    let p = default_rules()[3].0;
    assert(p.subrange(0, 4) =~= "(?i)"@);
    reveal_strlit("discord");
    assert(p.subrange(4, 11) =~= "discord"@);
    lemma_alternative_at(p, "discord"@, 4);
    reveal_strlit("slack");
    assert(p.subrange(12, 17) =~= "slack"@);
    lemma_alternative_at(p, "slack"@, 12);
    reveal_strlit("teams");
    assert(p.subrange(18, 23) =~= "teams"@);
    lemma_alternative_at(p, "teams"@, 18);
    reveal_strlit("zoom");
    assert(p.subrange(24, 28) =~= "zoom"@);
    lemma_alternative_at(p, "zoom"@, 24);
    reveal_strlit("meet");
    assert(p.subrange(29, 33) =~= "meet"@);
    lemma_alternative_at(p, "meet"@, 29);
}

proof fn lemma_default_rule_design_tools()
    ensures
        default_rules()[4].0.subrange(0, 4) == "(?i)"@,
        default_rules()[4].0.len() == 41,
        default_rules()[4].1 == "design"@,
        is_alternative(default_rules()[4].0, "gimp"@),
        is_alternative(default_rules()[4].0, "photoshop"@),
        is_alternative(default_rules()[4].0, "figma"@),
        is_alternative(default_rules()[4].0, "inkscape"@),
        is_alternative(default_rules()[4].0, "blender"@),
{
    reveal_strlit("(?i)gimp|photoshop|figma|inkscape|blender");
    reveal_strlit("design");
    reveal_strlit("(?i)");
    let p = default_rules()[4].0;
    assert(p.subrange(0, 4) =~= "(?i)"@);
    reveal_strlit("gimp");
    assert(p.subrange(4, 8) =~= "gimp"@);
    lemma_alternative_at(p, "gimp"@, 4);
    reveal_strlit("photoshop");
    assert(p.subrange(9, 18) =~= "photoshop"@);
    lemma_alternative_at(p, "photoshop"@, 9);
    reveal_strlit("figma");
    assert(p.subrange(19, 24) =~= "figma"@);
    lemma_alternative_at(p, "figma"@, 19);
    reveal_strlit("inkscape");
    assert(p.subrange(25, 33) =~= "inkscape"@);
    lemma_alternative_at(p, "inkscape"@, 25);
    reveal_strlit("blender");
    assert(p.subrange(34, 41) =~= "blender"@);
    lemma_alternative_at(p, "blender"@, 34);
}

proof fn lemma_default_rule_rust()
    ensures
        default_rules()[5].0.subrange(0, 4) == "(?i)"@,
        default_rules()[5].0.len() == 25,
        default_rules()[5].1 == "rust"@,
        is_alternative(default_rules()[5].0, "rust"@),
        is_alternative(default_rules()[5].0, "cargo\\.toml"@),
        is_alternative(default_rules()[5].0, "\\.rs"@),
{
    reveal_strlit("(?i)rust|cargo\\.toml|\\.rs");
    reveal_strlit("rust");
    reveal_strlit("(?i)");
    let p = default_rules()[5].0;
    assert(p.subrange(0, 4) =~= "(?i)"@);
    reveal_strlit("rust");
    assert(p.subrange(4, 8) =~= "rust"@);
    lemma_alternative_at(p, "rust"@, 4);
    reveal_strlit("cargo\\.toml");
    assert(p.subrange(9, 20) =~= "cargo\\.toml"@);
    lemma_alternative_at(p, "cargo\\.toml"@, 9);
    reveal_strlit("\\.rs");
    assert(p.subrange(21, 25) =~= "\\.rs"@);
    lemma_alternative_at(p, "\\.rs"@, 21);
}

proof fn lemma_default_rule_go()
    ensures
        default_rules()[6].0.subrange(0, 4) == "(?i)"@,
        default_rules()[6].0.len() == 16,
        default_rules()[6].1 == "golang"@,
        is_alternative(default_rules()[6].0, "go\\.mod"@),
        is_alternative(default_rules()[6].0, "\\.go"@),
{
    reveal_strlit("(?i)go\\.mod|\\.go");
    reveal_strlit("golang");
    reveal_strlit("(?i)");
    let p = default_rules()[6].0;
    assert(p.subrange(0, 4) =~= "(?i)"@);
    reveal_strlit("go\\.mod");
    assert(p.subrange(4, 11) =~= "go\\.mod"@);
    lemma_alternative_at(p, "go\\.mod"@, 4);
    reveal_strlit("\\.go");
    assert(p.subrange(12, 16) =~= "\\.go"@);
    lemma_alternative_at(p, "\\.go"@, 12);
}

/// The built-in rules, in order, tag browsers (Firefox, Chrome, Chromium,
/// Brave, Safari) `web,browsing`; editors (`code.exe`, Visual Studio Code,
/// VSCodium, Cursor) `coding,dev`; terminals (Terminal, Alacritty, kitty,
/// Ghostty, WezTerm, tmux) `terminal,cli`; chat and calls (Discord, Slack,
/// Teams, Zoom, Meet) `communication`; design tools (GIMP, Photoshop,
/// Figma, Inkscape, Blender) `design`; Rust work (`rust`, `Cargo.toml`,
/// `.rs`) `rust`; and Go work (`go.mod`, `.go`) `golang`. Every pattern is
/// case-insensitive, each name is a whole alternative of its pattern, and
/// the patterns hold nothing else.
pub proof fn law_default_rules_tag_known_apps()
    ensures
        default_rules().len() == 7,
        default_rules()[0].0.subrange(0, 4) == "(?i)"@,
        default_rules()[0].0.len() == 40,
        default_rules()[0].1 == "web,browsing"@,
        is_alternative(default_rules()[0].0, "firefox"@),
        is_alternative(default_rules()[0].0, "chrome"@),
        is_alternative(default_rules()[0].0, "chromium"@),
        is_alternative(default_rules()[0].0, "brave"@),
        is_alternative(default_rules()[0].0, "safari"@),
        default_rules()[1].0.subrange(0, 4) == "(?i)"@,
        default_rules()[1].0.len() == 48,
        default_rules()[1].1 == "coding,dev"@,
        is_alternative(default_rules()[1].0, "code\\.exe"@),
        is_alternative(default_rules()[1].0, "visual studio code"@),
        is_alternative(default_rules()[1].0, "vscodium"@),
        is_alternative(default_rules()[1].0, "cursor"@),
        default_rules()[2].0.subrange(0, 4) == "(?i)"@,
        default_rules()[2].0.len() == 49,
        default_rules()[2].1 == "terminal,cli"@,
        is_alternative(default_rules()[2].0, "terminal"@),
        is_alternative(default_rules()[2].0, "alacritty"@),
        is_alternative(default_rules()[2].0, "kitty"@),
        is_alternative(default_rules()[2].0, "ghostty"@),
        is_alternative(default_rules()[2].0, "wezterm"@),
        is_alternative(default_rules()[2].0, "tmux"@),
        default_rules()[3].0.subrange(0, 4) == "(?i)"@,
        default_rules()[3].0.len() == 33,
        default_rules()[3].1 == "communication"@,
        is_alternative(default_rules()[3].0, "discord"@),
        is_alternative(default_rules()[3].0, "slack"@),
        is_alternative(default_rules()[3].0, "teams"@),
        is_alternative(default_rules()[3].0, "zoom"@),
        is_alternative(default_rules()[3].0, "meet"@),
        default_rules()[4].0.subrange(0, 4) == "(?i)"@,
        default_rules()[4].0.len() == 41,
        default_rules()[4].1 == "design"@,
        is_alternative(default_rules()[4].0, "gimp"@),
        is_alternative(default_rules()[4].0, "photoshop"@),
        is_alternative(default_rules()[4].0, "figma"@),
        is_alternative(default_rules()[4].0, "inkscape"@),
        is_alternative(default_rules()[4].0, "blender"@),
        default_rules()[5].0.subrange(0, 4) == "(?i)"@,
        default_rules()[5].0.len() == 25,
        default_rules()[5].1 == "rust"@,
        is_alternative(default_rules()[5].0, "rust"@),
        is_alternative(default_rules()[5].0, "cargo\\.toml"@),
        is_alternative(default_rules()[5].0, "\\.rs"@),
        default_rules()[6].0.subrange(0, 4) == "(?i)"@,
        default_rules()[6].0.len() == 16,
        default_rules()[6].1 == "golang"@,
        is_alternative(default_rules()[6].0, "go\\.mod"@),
        is_alternative(default_rules()[6].0, "\\.go"@),
{
    lemma_default_rule_browsers();
    lemma_default_rule_editors();
    lemma_default_rule_terminals();
    lemma_default_rule_chat();
    lemma_default_rule_design_tools();
    lemma_default_rule_rust();
    lemma_default_rule_go();
}

/// Whether a regular expression matches somewhere in a text (`Some(true)`
/// or `Some(false)`), or `None` when the pattern is not a valid expression:
/// the outcome of the `regex` crate's `Regex::new(pattern)` and
/// `is_match(text)`.
pub uninterp spec fn regex_match(pattern: Seq<char>, text: Seq<char>) -> Option<bool>;

/// Compiles `pattern` with `regex::Regex::new` and tests it against `text`
/// with `is_match`.
///
/// Trusted: the contract claims only that the outcome is `regex_match` of
/// the pattern and the text, which depends on nothing else.
#[verifier::external_body]
fn pattern_matches(pattern: &str, text: &str) -> (r: Option<bool>)
    ensures
        r == regex_match(pattern@, text@),
{
    match regex::Regex::new(pattern) {
        Ok(re) => Some(re.is_match(text)),
        Err(_) => None,
    }
}

/// `acc` extended, in order, with each piece once trimmed, skipping empty
/// pieces and those already present.
pub open spec fn add_tags(acc: Seq<Seq<char>>, pieces: Seq<Seq<char>>) -> Seq<Seq<char>>
    decreases pieces.len(),
{
    if pieces.len() == 0 {
        acc
    } else {
        let a = add_tags(acc, pieces.drop_last());
        let t = trim(pieces.last());
        if t.len() > 0 && !a.contains(t) {
            a.push(t)
        } else {
            a
        }
    }
}

/// The tags of the rules, taken in order, whose outcome is a match
/// (`Some(true)` at the rule's position in `outcomes`); a rule whose
/// pattern is invalid (`None`) or has no outcome is skipped.
pub open spec fn collect_from(rules: Seq<TagRule>, outcomes: Seq<Option<bool>>) -> Seq<Seq<char>>
    decreases rules.len(),
{
    if rules.len() == 0 {
        Seq::empty()
    } else {
        let a = collect_from(rules.drop_last(), outcomes);
        let k = rules.len() - 1;
        if k < outcomes.len() && outcomes[k] == Some(true) {
            add_tags(a, split_on(rules.last().tags@, ','))
        } else {
            a
        }
    }
}

/// The collected tags joined with `", "`, or `None` when no tag was
/// collected.
pub open spec fn tagged_from(rules: Seq<TagRule>, outcomes: Seq<Option<bool>>) -> Option<Seq<char>> {
    let tags = collect_from(rules, outcomes);
    if tags.len() == 0 {
        None
    } else {
        Some(join(tags, ", "@))
    }
}

/// The outcome of each rule's pattern on `text`.
pub open spec fn outcomes_of(rules: Seq<TagRule>, text: Seq<char>) -> Seq<Option<bool>> {
    Seq::new(rules.len(), |i: int| regex_match(rules[i].pattern@, text))
}

/// The result of `match_tags`: the tags of every rule whose pattern matches
/// `text`.
pub open spec fn matched_tags(text: Seq<char>, rules: Seq<TagRule>) -> Option<Seq<char>> {
    tagged_from(rules, outcomes_of(rules, text))
}

/// Combines the tags of the rules whose outcome (from testing each rule's
/// pattern, in order) is a match: each tag trimmed, empty and repeated tags
/// left out, joined with `", "`; `None` when no tag remains.
pub fn tags_from_outcomes(rules: &Vec<TagRule>, outcomes: &Vec<Option<bool>>) -> (r: Option<String>)
    ensures
        r is Some <==> tagged_from(rules@, outcomes@) is Some,
        r matches Some(t) ==> tagged_from(rules@, outcomes@) == Some(t@),
{
    let mut all: Vec<String> = Vec::new();
    let mut i: usize = 0;
    while i < rules.len()
        invariant
            i <= rules@.len(),
            views(all@) == collect_from(rules@.subrange(0, i as int), outcomes@),
        decreases rules.len() - i,
    {
        let rule = &rules[i];
        proof {
            assert(rules@.subrange(0, i + 1).drop_last() =~= rules@.subrange(0, i as int));
        }
        if i < outcomes.len() && outcomes[i] == Some(true) {
            let pieces = split_char(rule.tags.as_str(), ',');
            let ghost acc0 = views(all@);
            let mut j: usize = 0;
            while j < pieces.len()
                invariant
                    j <= pieces@.len(),
                    views(all@) == add_tags(acc0, views(pieces@).subrange(0, j as int)),
                decreases pieces.len() - j,
            {
                let t = trim_str(pieces[j].as_str());
                let ghost a = views(all@);
                proof {
                    assert(views(pieces@).subrange(0, j + 1).drop_last() =~= views(pieces@).subrange(0, j as int));
                    assert(views(pieces@).subrange(0, j + 1).last() == pieces@[j as int]@);
                }
                if t.as_str().unicode_len() > 0 && !contains_string(&all, &t) {
                    all.push(t);
                    assert(views(all@) =~= a.push(t@));
                }
                j = j + 1;
            }
            assert(views(pieces@).subrange(0, pieces@.len() as int) =~= views(pieces@));
        }
        i = i + 1;
    }
    assert(rules@.subrange(0, rules@.len() as int) =~= rules@);
    if all.len() == 0 {
        None
    } else {
        Some(join_strings(&all, ", "))
    }
}

/// Match text against all rules and return combined matching tags.
pub fn match_tags(text: &str, config: &TagConfig) -> (r: Option<String>)
    ensures
        r is Some <==> matched_tags(text@, config.rules@) is Some,
        r matches Some(t) ==> matched_tags(text@, config.rules@) == Some(t@),
{
    let mut outcomes: Vec<Option<bool>> = Vec::new();
    let mut i: usize = 0;
    while i < config.rules.len()
        invariant
            i <= config.rules@.len(),
            outcomes@.len() == i,
            forall|k: int| 0 <= k < i ==> #[trigger] outcomes@[k] == regex_match(config.rules@[k].pattern@, text@),
        decreases config.rules.len() - i,
    {
        let o = pattern_matches(config.rules[i].pattern.as_str(), text);
        outcomes.push(o);
        i = i + 1;
    }
    assert(outcomes@ =~= outcomes_of(config.rules@, text@));
    tags_from_outcomes(&config.rules, &outcomes)
}

/// Tags for a window title (when one could be read) under the rules.
pub fn auto_detect_tags(title: Option<String>, config: &TagConfig) -> (r: Option<String>)
    ensures
        title is None ==> r is None,
        title matches Some(t) ==> (r is Some <==> matched_tags(t@, config.rules@) is Some),
        title matches Some(t) ==> (r matches Some(x) ==> matched_tags(t@, config.rules@) == Some(x@)),
{
    match title {
        Some(t) => match_tags(t.as_str(), config),
        None => None,
    }
}

/// Infer tags from a task name using the rules.
pub fn infer_tags_from_task_name(name: &str, config: &TagConfig) -> (r: Option<String>)
    ensures
        r is Some <==> matched_tags(name@, config.rules@) is Some,
        r matches Some(t) ==> matched_tags(name@, config.rules@) == Some(t@),
{
    match_tags(name, config)
}

/// Tags given on the command line combined with those detected, in that
/// order, joined with `", "`.
pub open spec fn combined_tags(a: Option<Seq<char>>, b: Option<Seq<char>>) -> Option<Seq<char>> {
    match (a, b) {
        (Some(x), Some(y)) => Some(x + ", "@ + y),
        (Some(x), None) => Some(x),
        (None, Some(y)) => Some(y),
        (None, None) => None,
    }
}

/// Combines two optional tag lists with `", "` (either may be absent).
pub fn combine_tags(a: Option<String>, b: Option<String>) -> (r: Option<String>)
    ensures
        r is Some <==> combined_tags(opt_view(a), opt_view(b)) is Some,
        r matches Some(t) ==> combined_tags(opt_view(a), opt_view(b)) == Some(t@),
{
    match (a, b) {
        (Some(x), Some(y)) => {
            let mut s = x;
            s.append(", ");
            s.append(y.as_str());
            Some(s)
        },
        (Some(x), None) => Some(x),
        (None, Some(y)) => Some(y),
        (None, None) => None,
    }
}

/// The characters of an optional string.
pub open spec fn opt_view(o: Option<String>) -> Option<Seq<char>> {
    match o {
        Some(s) => Some(s@),
        None => None,
    }
}

/// Collected tags are non-empty and never repeated, whatever the rules
/// and whichever of them matched.
pub proof fn law_collected_tags_distinct(rules: Seq<TagRule>, outcomes: Seq<Option<bool>>)
    ensures
        forall|i: int| 0 <= i < collect_from(rules, outcomes).len() ==> #[trigger] collect_from(rules, outcomes)[i].len() > 0,
        forall|i: int, j: int|
            0 <= i < j < collect_from(rules, outcomes).len() ==> #[trigger] collect_from(rules, outcomes)[i]
                != #[trigger] collect_from(rules, outcomes)[j],
    decreases rules.len(),
{
    if rules.len() > 0 {
        law_collected_tags_distinct(rules.drop_last(), outcomes);
        let a = collect_from(rules.drop_last(), outcomes);
        let k = rules.len() - 1;
        if k < outcomes.len() && outcomes[k] == Some(true) {
            lemma_add_tags_distinct(a, split_on(rules.last().tags@, ','));
        }
    }
}

/// `add_tags` keeps a list of distinct non-empty tags so.
pub proof fn lemma_add_tags_distinct(acc: Seq<Seq<char>>, pieces: Seq<Seq<char>>)
    requires
        forall|i: int| 0 <= i < acc.len() ==> #[trigger] acc[i].len() > 0,
        forall|i: int, j: int| 0 <= i < j < acc.len() ==> #[trigger] acc[i] != #[trigger] acc[j],
    ensures
        forall|i: int| 0 <= i < add_tags(acc, pieces).len() ==> #[trigger] add_tags(acc, pieces)[i].len() > 0,
        forall|i: int, j: int|
            0 <= i < j < add_tags(acc, pieces).len() ==> #[trigger] add_tags(acc, pieces)[i]
                != #[trigger] add_tags(acc, pieces)[j],
    decreases pieces.len(),
{
    if pieces.len() > 0 {
        lemma_add_tags_distinct(acc, pieces.drop_last());
        let a = add_tags(acc, pieces.drop_last());
        let t = trim(pieces.last());
        if t.len() > 0 && !a.contains(t) {
            assert forall|i: int, j: int| 0 <= i < j < a.push(t).len() implies #[trigger] a.push(t)[i]
                != #[trigger] a.push(t)[j] by {
                if j == a.len() {
                    assert(a.push(t)[i] == a[i]);
                }
            }
        }
    }
}

/// The `title` field of a JSON object, when the bytes are JSON text whose
/// value is an object with a string `title` (`serde_json::from_slice` to a
/// `Value`, then `get("title")` and `as_str`).
pub uninterp spec fn json_title(bytes: Seq<u8>) -> Option<Seq<char>>;

/// Reads the string field `title` of the JSON object in `bytes` with
/// `serde_json`.
///
/// Trusted: the contract claims only that the result is `json_title` of
/// the bytes.
#[verifier::external_body]
fn title_field(bytes: &Vec<u8>) -> (r: Option<String>)
    ensures
        r is Some <==> json_title(bytes@) is Some,
        r matches Some(t) ==> json_title(bytes@) == Some(t@),
{
    let v: serde_json::Value = serde_json::from_slice(bytes.as_slice()).ok()?;
    match v.get("title")?.as_str() {
        Some(t) => Some(t.to_string()),
        None => None,
    }
}

/// The active window's title from what `hyprctl activewindow -j` printed:
/// the `title` field of its JSON output, when the command succeeded.
pub fn hyprland_title(success: bool, stdout: &Vec<u8>) -> (r: Option<String>)
    ensures
        !success ==> r is None,
        success ==> (r is Some <==> json_title(stdout@) is Some),
        success ==> (r matches Some(t) ==> json_title(stdout@) == Some(t@)),
{
    if !success {
        return None;
    }
    title_field(stdout)
}

} // verus!
