use trackerclaw::autotag::hyprland_title;
use trackerclaw::autotag::{
    auto_detect_tags, combine_tags, default_config, infer_tags_from_task_name, match_tags,
    tags_from_outcomes, TagConfig, TagRule,
};

fn rule(pattern: &str, tags: &str) -> TagRule {
    TagRule { pattern: pattern.to_string(), tags: tags.to_string() }
}

#[test]
fn default_rules_tag_browser_and_rust() {
    let cfg = default_config();
    assert_eq!(cfg.rules.len(), 7);
    assert_eq!(
        match_tags("Firefox - Rust docs", &cfg),
        Some("web, browsing, rust".to_string())
    );
}

#[test]
fn no_rule_matches_gives_none() {
    let cfg = default_config();
    assert_eq!(match_tags("spreadsheet", &cfg), None);
}

#[test]
fn tags_are_trimmed_and_not_repeated() {
    let cfg = TagConfig {
        rules: vec![rule("alpha", " one , two,, "), rule("a", "two,three"), rule("zzz", "never")],
    };
    assert_eq!(match_tags("alphabet", &cfg), Some("one, two, three".to_string()));
}

#[test]
fn invalid_pattern_is_skipped() {
    let cfg = TagConfig { rules: vec![rule("(unclosed", "broken"), rule("ok", "fine")] };
    assert_eq!(match_tags("ok then", &cfg), Some("fine".to_string()));
}

#[test]
fn window_title_absent_gives_no_tags() {
    let cfg = default_config();
    assert_eq!(auto_detect_tags(None, &cfg), None);
    assert_eq!(
        auto_detect_tags(Some("kitty ~ cargo build".to_string()), &cfg),
        Some("terminal, cli".to_string())
    );
}

#[test]
fn task_name_inference_uses_rules() {
    let cfg = default_config();
    assert_eq!(infer_tags_from_task_name("fix main.go", &cfg), Some("golang".to_string()));
    assert_eq!(infer_tags_from_task_name("Figma mockups", &cfg), Some("design".to_string()));
}

#[test]
fn outcomes_decide_which_rules_count() {
    let rules = vec![rule("x", "a,b"), rule("y", "b,c"), rule("z", "d")];
    let r = tags_from_outcomes(&rules, &vec![Some(true), Some(true), None]);
    assert_eq!(r, Some("a, b, c".to_string()));
    let r = tags_from_outcomes(&rules, &vec![Some(false), None, Some(true)]);
    assert_eq!(r, Some("d".to_string()));
    assert_eq!(tags_from_outcomes(&rules, &vec![Some(true)]), Some("a, b".to_string()));
    assert_eq!(tags_from_outcomes(&rules, &vec![]), None);
}

#[test]
fn combine_tags_joins_both() {
    assert_eq!(
        combine_tags(Some("cli".to_string()), Some("rust".to_string())),
        Some("cli, rust".to_string())
    );
    assert_eq!(combine_tags(None, Some("rust".to_string())), Some("rust".to_string()));
    assert_eq!(combine_tags(Some("cli".to_string()), None), Some("cli".to_string()));
    assert_eq!(combine_tags(None, None), None);
}

#[test]
fn hyprland_output_title() {
    let out = br#"{"address":"0x1","title":"kitty - vim main.rs","class":"kitty"}"#.to_vec();
    assert_eq!(hyprland_title(true, &out).as_deref(), Some("kitty - vim main.rs"));
    assert_eq!(hyprland_title(false, &out), None);
    assert_eq!(hyprland_title(true, &b"not json".to_vec()), None);
    assert_eq!(hyprland_title(true, &br#"{"title": 3}"#.to_vec()), None);
}
