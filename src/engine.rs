//! The filter-application engine: one rule, then an ordered list of rules,
//! applied to a text with the marker as replacement.
use vstd::prelude::*;

verus! {

/// The token put in place of every match.
pub const MARKER: &'static str = "[FILTERED]";

/// Whether `regex::Regex::new` accepts `pattern`.
pub uninterp spec fn compiles(pattern: Seq<char>) -> bool;

/// The text that `regex::Regex::replace_all` returns for the compiled
/// `pattern`, the haystack `text` and the replacement `rep`.
pub uninterp spec fn replaced_all(pattern: Seq<char>, text: Seq<char>, rep: Seq<char>) -> Seq<char>;

#[verifier::external_type_specification]
#[verifier::external_body]
pub struct ExRegexError(regex::Error);

/// Relies on `regex::Regex::new`, which compiles `pattern` or reports why it
/// cannot, and on `regex::Regex::replace_all`, which puts `rep` in place of
/// every non-overlapping leftmost-first match in `text`. Both depend on their
/// arguments alone.
#[verifier::external_body]
fn regex_replace_all(pattern: &str, text: &str, rep: &str) -> (r: Result<String, regex::Error>)
    ensures
        r is Ok <==> compiles(pattern@),
        r matches Ok(s) ==> s@ == replaced_all(pattern@, text@, rep@),
{
    let re = regex::Regex::new(pattern)?;
    Ok(re.replace_all(text, rep).into_owned())
}

/// One rule on `text`: every match becomes the marker. A pattern that does not
/// compile leaves the text as it is.
pub open spec fn apply_rule(pattern: Seq<char>, text: Seq<char>) -> Seq<char> {
    if compiles(pattern) {
        replaced_all(pattern, text, MARKER@)
    } else {
        text
    }
}

/// The rules in order, each applied to the output of the one before.
pub open spec fn apply_rules(patterns: Seq<Seq<char>>, text: Seq<char>) -> Seq<char>
    decreases patterns.len(),
{
    if patterns.len() == 0 {
        text
    } else {
        apply_rule(patterns.last(), apply_rules(patterns.drop_last(), text))
    }
}

/// A text that no rule of `patterns` changes on its own passes the whole list
/// unchanged.
pub proof fn lemma_unchanged_by_each_rule(patterns: Seq<Seq<char>>, text: Seq<char>)
    requires
        forall|i: int| 0 <= i < patterns.len() ==> #[trigger] apply_rule(patterns[i], text) == text,
    ensures
        apply_rules(patterns, text) == text,
    decreases patterns.len(),
{
    if patterns.len() > 0 {
        let rest = patterns.drop_last();
        assert forall|i: int| 0 <= i < rest.len() implies #[trigger] apply_rule(rest[i], text)
            == text by {
            assert(rest[i] == patterns[i]);
        }
        lemma_unchanged_by_each_rule(rest, text);
        assert(apply_rule(patterns[patterns.len() - 1], text) == text);
    }
}

/// What one rule leaves of `text`, given what the regular-expression engine
/// returned for it: the replaced text, or `text` itself where the pattern did
/// not compile.
pub fn keep_on_error(text: String, outcome: Result<String, regex::Error>) -> (r: String)
    ensures
        r == match outcome {
            Ok(s) => s,
            Err(_) => text,
        },
{
    match outcome {
        Ok(s) => s,
        Err(_) => text,
    }
}

/// The views of a list of pattern literals.
pub open spec fn pattern_views(patterns: Seq<&str>) -> Seq<Seq<char>> {
    patterns.map_values(|p: &str| p@)
}

/// Applies `patterns` to `input` in order, each to the output of the one
/// before, putting the marker in place of every match; a pattern that does not
/// compile is skipped.
pub fn apply_regex_patterns(input: &str, patterns: &[&str]) -> (r: String)
    ensures
        r@ == apply_rules(pattern_views(patterns@), input@),
{
    let mut result = String::from_str(input);
    let mut i: usize = 0;
    while i < patterns.len()
        invariant
            i <= patterns@.len(),
            result@ == apply_rules(pattern_views(patterns@.subrange(0, i as int)), input@),
        decreases patterns@.len() - i,
    {
        let pattern = patterns[i];
        let replaced = regex_replace_all(pattern, result.as_str(), MARKER);
        proof {
            let done = pattern_views(patterns@.subrange(0, i as int));
            let next = pattern_views(patterns@.subrange(0, i as int + 1));
            assert(next.drop_last() =~= done);
            assert(next.last() == pattern@);
        }
        result = keep_on_error(result, replaced);
        i = i + 1;
    }
    assert(patterns@.subrange(0, patterns@.len() as int) =~= patterns@);
    result
}

} // verus!
