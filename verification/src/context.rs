//! The per-compilation orchestrator.
//!
//! One [`CompileContext`] exists per compilation pass. It carries the
//! metadata of the rules compiled so far, the patterns of the rule
//! currently being compiled, the warnings accumulated, the identifier
//! pool, and the stack of variables, and it exposes the lookup
//! helpers code generation calls while it descends the rule's syntax
//! tree. Compilation is single-threaded within one context; symbol
//! resolution and diagnostics rendering are external collaborators.

use vstd::prelude::*;
use vstd::string::StrSliceExecFns;

use crate::signature::str_eq;
use crate::stack::VarStack;
use crate::types::Span;

verus! {

/// Identifies a rule: the index of its metadata among the rules
/// compiled so far.
#[derive(Clone, Copy, Debug, PartialEq, Eq, Structural)]
pub struct RuleId(pub i32);

/// Identifies a declared pattern across the whole compilation.
#[derive(Clone, Copy, Debug, PartialEq, Eq, Structural)]
pub struct PatternId(pub i32);

/// Identifies an identifier interned in the pool.
#[derive(Clone, Copy, Debug, PartialEq, Eq, Structural)]
pub struct IdentId(pub u32);

/// Metadata about one already-compiled rule.
#[derive(Debug)]
pub struct RuleInfo {
    /// The rule's name, interned in the identifier pool.
    pub ident_id: IdentId,
    /// The rule's patterns: each one's interned identifier with its
    /// pattern identifier.
    pub patterns: Vec<(IdentId, PatternId)>,
}

/// The node a declared pattern contributes to the intermediate
/// representation of the rule currently being compiled.
#[derive(Debug)]
pub struct PatternInRule {
    /// The pattern's identifier, its one-character prefix included
    /// (`$a`, `#a`, `@a`, `!a`).
    pub identifier: String,
    /// Derived information code generation attaches to the node: the
    /// fixed offset the pattern is anchored at, if any.
    pub anchored_at: Option<u64>,
}

/// A warning raised during compilation: structured data and the span
/// it points at. Rendering the message is the diagnostics
/// collaborator's concern.
#[derive(Debug)]
pub struct Warning {
    pub detailed_report: String,
    pub span: Span,
}

/// Pool of the identifiers used in the rules: each distinct
/// identifier is stored once and addressed by an [`IdentId`].
pub struct StringPool {
    items: Vec<String>,
}

impl StringPool {
    /// The pooled identifiers, in insertion order.
    pub closed spec fn items(self) -> Seq<Seq<char>> {
        self.items@.map(|i: int, s: String| s@)
    }

    /// The pool invariant: no identifier is stored twice.
    pub open spec fn wf(self) -> bool {
        forall|i: int, j: int|
            0 <= i < j < self.items().len() ==> #[trigger] self.items()[i]
                != #[trigger] self.items()[j]
    }

    /// Creates an empty pool.
    pub fn new() -> (r: Self)
        ensures
            r.items() == Seq::<Seq<char>>::empty(),
            r.wf(),
    {
        StringPool { items: Vec::new() }
    }

    /// Returns the identifier of `s`, interning it first if it is not
    /// pooled yet. Interning is idempotent: an already-pooled
    /// identifier leaves the pool unchanged and yields its existing
    /// identifier.
    pub fn get_or_intern(&mut self, s: &str) -> (id: IdentId)
        requires
            old(self).wf(),
            old(self).items().len() < u32::MAX,
        ensures
            final(self).wf(),
            id.0 < final(self).items().len(),
            final(self).items()[id.0 as int] == s@,
            old(self).items().contains(s@) ==> *final(self) == *old(self),
            !old(self).items().contains(s@) ==> {
                &&& final(self).items() == old(self).items().push(s@)
                &&& id.0 == old(self).items().len()
            },
    {
        let n = self.items.len();
        let mut i: usize = 0;
        while i < n
            invariant
                i <= n,
                n == self.items@.len(),
                *self == *old(self),
                old(self).wf(),
                old(self).items().len() < u32::MAX,
                forall|j: int| 0 <= j < i ==> #[trigger] self.items()[j] != s@,
            decreases n - i,
        {
            if str_eq(self.items[i].as_str(), s) {
                proof {
                    assert(self.items().len() == self.items@.len());
                    assert(self.items()[i as int] == self.items@[i as int]@);
                }
                return IdentId(i as u32);
            }
            i = i + 1;
        }
        self.items.push(s.to_owned());
        proof {
            assert(self.items() =~= old(self).items().push(s@));
        }
        IdentId(n as u32)
    }

    /// Returns the pooled identifier `id` refers to, if any.
    pub fn get(&self, id: IdentId) -> (r: Option<&String>)
        ensures
            match r {
                Some(s) => id.0 < self.items().len() && s@ == self.items()[id.0 as int],
                None => id.0 >= self.items().len(),
            },
    {
        if (id.0 as usize) < self.items.len() {
            Some(&self.items[id.0 as usize])
        } else {
            None
        }
    }
}

/// The prefixes a pattern identifier may carry.
pub open spec fn is_pattern_prefix(c: char) -> bool {
    c == '$' || c == '#' || c == '@' || c == '!'
}

/// Whether the pattern's identifier equals `ident`, the one-character
/// prefix of each ignored: `$a`, `#a`, `@a` and `!a` all name the
/// same pattern.
pub open spec fn pattern_matches(p: PatternInRule, ident: Seq<char>) -> bool {
    p.identifier@.skip(1) == ident.skip(1)
}

/// Every pattern node carries an identifier of at least the prefix
/// character.
pub open spec fn patterns_wf(patterns: Seq<(PatternId, PatternInRule)>) -> bool {
    forall|i: int| 0 <= i < patterns.len() ==> (#[trigger] patterns[i]).1.identifier@.len() >= 1
}

/// Whether some pattern of the rule matches `ident`.
pub open spec fn has_match(patterns: Seq<(PatternId, PatternInRule)>, ident: Seq<char>) -> bool {
    exists|i: int| 0 <= i < patterns.len() && pattern_matches((#[trigger] patterns[i]).1, ident)
}

/// Index of the first pattern matching `ident`, or `-1` when none
/// does.
pub open spec fn first_match(patterns: Seq<(PatternId, PatternInRule)>, ident: Seq<char>) -> int
    decreases patterns.len(),
{
    if patterns.len() == 0 {
        -1
    } else if pattern_matches(patterns[0].1, ident) {
        0
    } else if first_match(patterns.drop_first(), ident) < 0 {
        -1
    } else {
        first_match(patterns.drop_first(), ident) + 1
    }
}

/// `first_match` finds an index exactly when a match exists, and what
/// it finds is the first matching index.
pub proof fn lemma_first_match(patterns: Seq<(PatternId, PatternInRule)>, ident: Seq<char>)
    ensures
        first_match(patterns, ident) >= 0 <==> has_match(patterns, ident),
        first_match(patterns, ident) >= 0 ==> {
            let fm = first_match(patterns, ident);
            &&& fm < patterns.len()
            &&& pattern_matches(patterns[fm].1, ident)
            &&& forall|j: int| 0 <= j < fm ==> !pattern_matches((#[trigger] patterns[j]).1, ident)
        },
    decreases patterns.len(),
{
    if patterns.len() == 0 {
    } else if pattern_matches(patterns[0].1, ident) {
    } else {
        let rest = patterns.drop_first();
        lemma_first_match(rest, ident);
        assert(forall|j: int| 0 <= j < rest.len() ==> #[trigger] rest[j] == patterns[j + 1]);
        if has_match(patterns, ident) {
            let i = choose|i: int|
                0 <= i < patterns.len() && pattern_matches((#[trigger] patterns[i]).1, ident);
            assert(i != 0);
            assert(rest[i - 1] == patterns[i]);
            assert(has_match(rest, ident));
        }
        if has_match(rest, ident) {
            let i = choose|i: int|
                0 <= i < rest.len() && pattern_matches((#[trigger] rest[i]).1, ident);
            assert(patterns[i + 1] == rest[i]);
            assert(has_match(patterns, ident));
        }
        let fm = first_match(patterns, ident);
        if fm >= 0 {
            let fmr = first_match(rest, ident);
            assert(fm == fmr + 1);
            assert(patterns[fm] == rest[fmr]);
            assert forall|j: int| 0 <= j < fm implies !pattern_matches(
                (#[trigger] patterns[j]).1,
                ident,
            ) by {
                if j > 0 {
                    assert(rest[j - 1] == patterns[j]);
                }
            }
        }
    }
}

/// Index of the first pattern of the rule whose identifier matches
/// `ident`, prefixes ignored.
fn find_pattern_index(patterns: &Vec<(PatternId, PatternInRule)>, ident: &str) -> (idx: usize)
    requires
        ident@.len() >= 1,
        patterns_wf(patterns@),
        has_match(patterns@, ident@),
    ensures
        idx < patterns@.len(),
        idx as int == first_match(patterns@, ident@),
{
    proof {
        lemma_first_match(patterns@, ident@);
    }
    let n = patterns.len();
    let mut i: usize = 0;
    while i < n
        invariant
            i <= n,
            n == patterns@.len(),
            ident@.len() >= 1,
            patterns_wf(patterns@),
            has_match(patterns@, ident@),
            first_match(patterns@, ident@) >= i,
            forall|j: int| 0 <= j < i ==> !pattern_matches((#[trigger] patterns@[j]).1, ident@),
        decreases n - i,
    {
        let p = &patterns[i];
        if ident_tail_eq(p.1.identifier.as_str(), ident) {
            proof {
                lemma_first_match(patterns@, ident@);
            }
            return i;
        }
        proof {
            lemma_first_match(patterns@, ident@);
        }
        i = i + 1;
    }
    proof {
        lemma_first_match(patterns@, ident@);
        assert(false);
    }
    0
}

/// Compares two pattern identifiers ignoring the leading prefix
/// character of each.
fn ident_tail_eq(a: &str, b: &str) -> (r: bool)
    requires
        a@.len() >= 1,
        b@.len() >= 1,
    ensures
        r == (a@.skip(1) == b@.skip(1)),
{
    let la = a.unicode_len();
    let lb = b.unicode_len();
    let ta = a.substring_char(1, la);
    let tb = b.substring_char(1, lb);
    proof {
        assert(a@.subrange(1, a@.len() as int) =~= a@.skip(1));
        assert(b@.subrange(1, b@.len() as int) =~= b@.skip(1));
    }
    str_eq(ta, tb)
}

/// Context shared while one rule set is compiled: the bookkeeping and
/// the variables stack that code generation threads through its
/// single-pass, depth-first traversal of each rule.
pub struct CompileContext {
    /// Information about the rules compiled so far.
    pub rules: Vec<RuleInfo>,
    /// The patterns declared in the rule currently being compiled,
    /// each accompanied by its pattern identifier.
    pub current_rule_patterns: Vec<(PatternId, PatternInRule)>,
    /// Warnings generated during the compilation.
    pub warnings: Vec<Warning>,
    /// Pool with the identifiers used in the rules.
    pub ident_pool: StringPool,
    /// Stack of variables: local temporaries used during the
    /// evaluation of rule conditions, for example loop variables.
    pub vars: VarStack,
}

impl CompileContext {
    /// Returns the metadata of the rule `rule_id` identifies.
    ///
    /// The calling phase guarantees the identifier exists; a missing
    /// one would be a compiler defect, excluded here rather than
    /// handled.
    pub fn get_rule(&self, rule_id: RuleId) -> (r: &RuleInfo)
        requires
            0 <= rule_id.0 < self.rules@.len(),
        ensures
            *r == self.rules@[rule_id.0 as int],
    {
        &self.rules[rule_id.0 as usize]
    }

    /// Returns the metadata of the rule currently being compiled: the
    /// most recently added one.
    pub fn get_current_rule(&self) -> (r: &RuleInfo)
        requires
            self.rules@.len() >= 1,
        ensures
            *r == self.rules@.last(),
    {
        let n = self.rules.len();
        &self.rules[n - 1]
    }

    /// Given a pattern identifier with any of the valid prefixes
    /// (`$a`, `#a`, `@a`, `!a`), returns the pattern identifier of the
    /// first pattern of the current rule with that name, the prefix
    /// characters ignored during the comparison.
    ///
    /// The resolution phase that runs earlier guarantees the pattern
    /// exists; its absence would be a compiler defect, excluded here
    /// rather than handled.
    pub fn get_pattern_id(&self, ident: &str) -> (r: PatternId)
        requires
            ident@.len() >= 1,
            is_pattern_prefix(ident@[0]),
            patterns_wf(self.current_rule_patterns@),
            has_match(self.current_rule_patterns@, ident@),
        ensures
            r == self.current_rule_patterns@[first_match(self.current_rule_patterns@, ident@)].0,
    {
        let idx = find_pattern_index(&self.current_rule_patterns, ident);
        self.current_rule_patterns[idx].0
    }

    /// Like [`Self::get_pattern_id`], but returns a mutable reference
    /// to the pattern's node in the intermediate representation, for
    /// code generation to annotate it with derived information.
    /// Nothing else in the context changes.
    pub fn get_pattern_mut(&mut self, ident: &str) -> (r: &mut PatternInRule)
        requires
            ident@.len() >= 1,
            is_pattern_prefix(ident@[0]),
            patterns_wf(old(self).current_rule_patterns@),
            has_match(old(self).current_rule_patterns@, ident@),
        ensures
            ({
                let pats = old(self).current_rule_patterns@;
                let fm = first_match(pats, ident@);
                &&& *r == pats[fm].1
                &&& final(self).current_rule_patterns@ == pats.update(
                    fm,
                    (pats[fm].0, *final(r)),
                )
            }),
            final(self).rules == old(self).rules,
            final(self).warnings == old(self).warnings,
            final(self).ident_pool == old(self).ident_pool,
            final(self).vars == old(self).vars,
    {
        let idx = find_pattern_index(&self.current_rule_patterns, ident);
        &mut self.current_rule_patterns[idx].1
    }
}

} // verus!
