use vstd::prelude::*;

verus! {

#[verifier::external_type_specification]
#[verifier::external_body]
pub struct ExRegex(regex::Regex);

/// Whether `pattern` compiles as a case-insensitive, Unicode-aware,
/// single-line regular expression.
pub uninterp spec fn pattern_compiles(pattern: Seq<char>) -> bool;

/// Whether the compiled `pattern` finds a match anywhere in `text`
/// (no implicit anchors).
pub uninterp spec fn pattern_matches(pattern: Seq<char>, text: Seq<char>) -> bool;

/// One compiled rule: the pattern text and the regex built from it.
///
/// The fields are private and only [`compile_rule`] builds a value, so `regex`
/// is always the compilation of `source`.
pub struct Rule {
    source: String,
    regex: regex::Regex,
}

impl Rule {
    pub closed spec fn source(&self) -> Seq<char> {
        self.source@
    }
}

/// Relies on regex::RegexBuilder::build, with case-insensitive and Unicode
/// matching on and multi-line and dot-matches-newline off: it returns `Ok`
/// exactly when the pattern compiles, depending on the pattern text alone.
#[verifier::external_body]
fn compile_rule(pattern: &String) -> (r: Option<Rule>)
    ensures
        r is Some <==> pattern_compiles(pattern@),
        r matches Some(rule) ==> rule.source() == pattern@,
{
    match regex::RegexBuilder::new(pattern.as_str())
        .case_insensitive(true)
        .multi_line(false)
        .dot_matches_new_line(false)
        .unicode(true)
        .build()
    {
        Ok(regex) => Some(Rule { source: pattern.clone(), regex }),
        Err(_) => None,
    }
}

/// Relies on regex::Regex::is_match: whether the rule's regex matches
/// somewhere in `text`.
#[verifier::external_body]
fn rule_is_match(rule: &Rule, text: &str) -> (r: bool)
    ensures
        r == pattern_matches(rule.source(), text@),
{
    rule.regex.is_match(text)
}

/// The patterns of `raw` that compile, in their original order.
pub open spec fn retained(raw: Seq<Seq<char>>) -> Seq<Seq<char>>
    decreases raw.len(),
{
    if raw.len() == 0 {
        Seq::empty()
    } else if pattern_compiles(raw.last()) {
        retained(raw.drop_last()).push(raw.last())
    } else {
        retained(raw.drop_last())
    }
}

/// Whether some pattern of `rules` matches `text`.
pub open spec fn any_matches(rules: Seq<Seq<char>>, text: Seq<char>) -> bool {
    exists|i: int| 0 <= i < rules.len() && pattern_matches(#[trigger] rules[i], text)
}

/// The ordered set of compiled match rules.
pub struct RegexPatterns {
    vec: Vec<Rule>,
}

impl View for RegexPatterns {
    type V = Seq<Seq<char>>;

    /// The source text of each retained rule, in order.
    closed spec fn view(&self) -> Seq<Seq<char>> {
        self.vec@.map_values(|r: Rule| r.source())
    }
}

impl RegexPatterns {
    /// Compiles each pattern and keeps those that compile, in order; a
    /// pattern that does not compile is left out.
    pub fn new(patterns: &[String]) -> (r: Self)
        ensures
            r@ == retained(patterns@.map_values(|p: String| p@)),
    {
        let mut vec: Vec<Rule> = Vec::new();
        let mut i: usize = 0;
        while i < patterns.len()
            invariant
                i <= patterns@.len(),
                vec@.map_values(|r: Rule| r.source()) == retained(
                    patterns@.subrange(0, i as int).map_values(|p: String| p@),
                ),
            decreases patterns@.len() - i,
        {
            let ghost before = vec@;
            let ghost raw = patterns@.subrange(0, i + 1).map_values(|p: String| p@);
            assert(raw.drop_last() =~= patterns@.subrange(0, i as int).map_values(|p: String| p@));
            assert(raw.last() == patterns@[i as int]@);
            match compile_rule(&patterns[i]) {
                Some(rule) => {
                    vec.push(rule);
                    assert(vec@.map_values(|r: Rule| r.source()) =~= before.map_values(
                        |r: Rule| r.source(),
                    ).push(patterns@[i as int]@));
                },
                None => {},
            }
            i += 1;
        }
        assert(patterns@.subrange(0, patterns@.len() as int) =~= patterns@);
        RegexPatterns { vec }
    }

    /// Whether some retained rule matches `address`, trying the rules in order.
    pub fn contains(&self, address: &str) -> (r: bool)
        ensures
            r == any_matches(self@, address@),
    {
        let mut i: usize = 0;
        while i < self.vec.len()
            invariant
                i <= self.vec@.len(),
                forall|j: int| 0 <= j < i ==> !pattern_matches(#[trigger] self@[j], address@),
            decreases self.vec@.len() - i,
        {
            if rule_is_match(&self.vec[i], address) {
                assert(pattern_matches(self@[i as int], address@));
                return true;
            }
            i += 1;
        }
        false
    }

    /// The number of retained rules.
    pub fn len(&self) -> (r: usize)
        ensures
            r == self@.len(),
    {
        self.vec.len()
    }
}

} // verus!
