use yara_x_core::context::{
    CompileContext, IdentId, PatternId, PatternInRule, RuleId, RuleInfo, StringPool,
};
use yara_x_core::stack::VarStack;

fn pattern(identifier: &str) -> PatternInRule {
    PatternInRule { identifier: identifier.to_string(), anchored_at: None }
}

fn context_with_patterns(patterns: Vec<(PatternId, PatternInRule)>) -> CompileContext {
    CompileContext {
        rules: vec![],
        current_rule_patterns: patterns,
        warnings: vec![],
        ident_pool: StringPool::new(),
        vars: VarStack::new(),
    }
}

#[test]
fn pattern_lookup_ignores_the_prefix() {
    let ctx = context_with_patterns(vec![
        (PatternId(10), pattern("$a")),
        (PatternId(11), pattern("$b")),
    ]);
    // Any of the valid prefixes resolves the same pattern.
    assert_eq!(ctx.get_pattern_id("$b"), PatternId(11));
    assert_eq!(ctx.get_pattern_id("#b"), PatternId(11));
    assert_eq!(ctx.get_pattern_id("@b"), PatternId(11));
    assert_eq!(ctx.get_pattern_id("!b"), PatternId(11));
    assert_eq!(ctx.get_pattern_id("#a"), PatternId(10));
}

#[test]
fn pattern_lookup_returns_the_first_match() {
    let ctx = context_with_patterns(vec![
        (PatternId(1), pattern("$x")),
        (PatternId(2), pattern("#x")),
    ]);
    assert_eq!(ctx.get_pattern_id("@x"), PatternId(1));
}

#[test]
fn pattern_nodes_can_be_annotated() {
    let mut ctx = context_with_patterns(vec![
        (PatternId(1), pattern("$a")),
        (PatternId(2), pattern("$b")),
    ]);
    ctx.get_pattern_mut("$b").anchored_at = Some(64);
    assert_eq!(ctx.current_rule_patterns[1].1.anchored_at, Some(64));
    assert_eq!(ctx.current_rule_patterns[0].1.anchored_at, None);
}

#[test]
fn rules_are_looked_up_by_id() {
    let mut ctx = context_with_patterns(vec![]);
    ctx.rules.push(RuleInfo { ident_id: IdentId(0), patterns: vec![] });
    ctx.rules.push(RuleInfo {
        ident_id: IdentId(1),
        patterns: vec![(IdentId(2), PatternId(5))],
    });
    assert_eq!(ctx.get_rule(RuleId(0)).ident_id, IdentId(0));
    assert_eq!(ctx.get_rule(RuleId(1)).ident_id, IdentId(1));
    // The current rule is the most recently added one.
    assert_eq!(ctx.get_current_rule().ident_id, IdentId(1));
    assert_eq!(ctx.get_current_rule().patterns, vec![(IdentId(2), PatternId(5))]);
}

#[test]
fn interning_is_idempotent() {
    let mut pool = StringPool::new();
    let a = pool.get_or_intern("alpha");
    let b = pool.get_or_intern("beta");
    let a_again = pool.get_or_intern("alpha");
    assert_eq!(a, IdentId(0));
    assert_eq!(b, IdentId(1));
    assert_eq!(a_again, a);
    assert_eq!(pool.get(a).unwrap(), "alpha");
    assert_eq!(pool.get(b).unwrap(), "beta");
    assert!(pool.get(IdentId(2)).is_none());
}
