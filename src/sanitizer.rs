//! The ten categories of injection patterns and the pipeline that runs them.
use vstd::prelude::*;
use crate::engine::{
    apply_regex_patterns, apply_rule, apply_rules, lemma_unchanged_by_each_rule, pattern_views,
};
use crate::trim::{trim_str, trimmed};

verus! {

/// Explicit role headers and orders to drop earlier instructions.
pub open spec fn system_prompt_rules() -> Seq<Seq<char>> {
    seq![
        r"(?i)\bsystem\s*:"@,
        r"(?i)\byou\s+are\s+now\b"@,
        r"(?i)\bignore\s+previous\s+instructions\b"@,
        r"(?i)\bignore\s+all\s+previous\s+instructions\b"@,
        r"(?i)\bforget\s+everything\b"@,
        r"(?i)\bnew\s+instructions\s*:"@,
    ]
}

/// Removes role headers such as `System:` and orders to ignore or forget
/// earlier instructions.
fn remove_system_prompt_injections(input: &str) -> (r: String)
    ensures
        r@ == apply_rules(system_prompt_rules(), input@),
{
    let patterns = [
        r"(?i)\bsystem\s*:",
        r"(?i)\byou\s+are\s+now\b",
        r"(?i)\bignore\s+previous\s+instructions\b",
        r"(?i)\bignore\s+all\s+previous\s+instructions\b",
        r"(?i)\bforget\s+everything\b",
        r"(?i)\bnew\s+instructions\s*:",
    ];
    assert(pattern_views(patterns@) =~= system_prompt_rules());
    apply_regex_patterns(input, &patterns)
}

/// Requests to take on another role.
pub open spec fn role_manipulation_rules() -> Seq<Seq<char>> {
    seq![
        r"(?i)\bact\s+as\s+a\s+\w+"@,
        r"(?i)\bpretend\s+to\s+be\b"@,
        r"(?i)\broleplay\s+as\b"@,
        r"(?i)\bsimulate\s+being\b"@,
        r"(?i)\btake\s+on\s+the\s+role\b"@,
    ]
}

/// Removes requests such as "act as", "pretend to be" or "roleplay as".
fn remove_role_manipulation(input: &str) -> (r: String)
    ensures
        r@ == apply_rules(role_manipulation_rules(), input@),
{
    let patterns = [
        r"(?i)\bact\s+as\s+a\s+\w+",
        r"(?i)\bpretend\s+to\s+be\b",
        r"(?i)\broleplay\s+as\b",
        r"(?i)\bsimulate\s+being\b",
        r"(?i)\btake\s+on\s+the\s+role\b",
    ];
    assert(pattern_views(patterns@) =~= role_manipulation_rules());
    apply_regex_patterns(input, &patterns)
}

/// Orders to set the given instructions aside.
pub open spec fn instruction_override_rules() -> Seq<Seq<char>> {
    seq![
        r"(?i)\binstead\s+of\s+following\b"@,
        r"(?i)\boverride\s+your\s+instructions\b"@,
        r"(?i)\bignore\s+previous\s+instruction\b"@,
        r"(?i)\bdisregard\s+the\s+above\b"@,
        r"(?i)\bignore\s+your\s+guidelines\b"@,
        r"(?i)\bignore\s+previous\s+instruction\b"@,
        r"(?i)\bnew\s+directive\s*:"@,
    ]
}

/// Removes orders such as "disregard the above" or "override your
/// instructions".
fn remove_instruction_overrides(input: &str) -> (r: String)
    ensures
        r@ == apply_rules(instruction_override_rules(), input@),
{
    let patterns = [
        r"(?i)\binstead\s+of\s+following\b",
        r"(?i)\boverride\s+your\s+instructions\b",
        r"(?i)\bignore\s+previous\s+instruction\b",
        r"(?i)\bdisregard\s+the\s+above\b",
        r"(?i)\bignore\s+your\s+guidelines\b",
        r"(?i)\bignore\s+previous\s+instruction\b",
        r"(?i)\bnew\s+directive\s*:",
    ];
    assert(pattern_views(patterns@) =~= instruction_override_rules());
    apply_regex_patterns(input, &patterns)
}

/// Requests to leave the conversation's frame.
pub open spec fn context_escape_rules() -> Seq<Seq<char>> {
    seq![
        r"(?i)\bbreak\s+out\s+of\s+character\b"@,
        r"(?i)\bexit\s+the\s+simulation\b"@,
        r"(?i)\bend\s+conversation\b"@,
        r"(?i)\bstop\s+being\s+an?\s+\w+"@,
        r"(?i)\bleave\s+your\s+role\b"@,
    ]
}

/// Removes requests such as "break out of character" or "exit the
/// simulation".
fn remove_context_escapes(input: &str) -> (r: String)
    ensures
        r@ == apply_rules(context_escape_rules(), input@),
{
    let patterns = [
        r"(?i)\bbreak\s+out\s+of\s+character\b",
        r"(?i)\bexit\s+the\s+simulation\b",
        r"(?i)\bend\s+conversation\b",
        r"(?i)\bstop\s+being\s+an?\s+\w+",
        r"(?i)\bleave\s+your\s+role\b",
    ];
    assert(pattern_views(patterns@) =~= context_escape_rules());
    apply_regex_patterns(input, &patterns)
}

/// Jailbreaks and named bypass modes.
pub open spec fn jailbreak_rules() -> Seq<Seq<char>> {
    seq![
        r"(?i)\bjailbreak\b"@,
        r"(?i)\bdan\s+mode\b"@,
        r"(?i)\bdeveloper\s+mode\b"@,
        r"(?i)\bevil\s+mode\b"@,
        r"(?i)\bunrestricted\s+mode\b"@,
        r"(?i)\bbypass\s+safety\b"@,
    ]
}

/// Removes "jailbreak", named modes such as "DAN mode" and "bypass
/// safety".
fn remove_jailbreak_attempts(input: &str) -> (r: String)
    ensures
        r@ == apply_rules(jailbreak_rules(), input@),
{
    let patterns = [
        r"(?i)\bjailbreak\b",
        r"(?i)\bdan\s+mode\b",
        r"(?i)\bdeveloper\s+mode\b",
        r"(?i)\bevil\s+mode\b",
        r"(?i)\bunrestricted\s+mode\b",
        r"(?i)\bbypass\s+safety\b",
    ];
    assert(pattern_views(patterns@) =~= jailbreak_rules());
    apply_regex_patterns(input, &patterns)
}

/// Requests to disclose the prompt or configuration.
pub open spec fn prompt_leaking_rules() -> Seq<Seq<char>> {
    seq![
        r"(?i)\bshow\s+me\s+your\s+prompt\b"@,
        r"(?i)\bwhat\s+are\s+your\s+instructions\b"@,
        r"(?i)\brepeat\s+your\s+system\s+message\b"@,
        r"(?i)\breveal\s+your\s+guidelines\b"@,
        r"(?i)\bdisplay\s+your\s+configuration\b"@,
    ]
}

/// Removes requests such as "show me your prompt" or "reveal your
/// guidelines".
fn remove_prompt_leaking(input: &str) -> (r: String)
    ensures
        r@ == apply_rules(prompt_leaking_rules(), input@),
{
    let patterns = [
        r"(?i)\bshow\s+me\s+your\s+prompt\b",
        r"(?i)\bwhat\s+are\s+your\s+instructions\b",
        r"(?i)\brepeat\s+your\s+system\s+message\b",
        r"(?i)\breveal\s+your\s+guidelines\b",
        r"(?i)\bdisplay\s+your\s+configuration\b",
    ];
    assert(pattern_views(patterns@) =~= prompt_leaking_rules());
    apply_regex_patterns(input, &patterns)
}

/// Requests to run code, evaluation calls and fenced code blocks.
pub open spec fn code_execution_rules() -> Seq<Seq<char>> {
    seq![
        r"(?i)\bexecute\s+code\b"@,
        r"(?i)\brun\s+this\s+script\b"@,
        r"(?i)\beval\s*\("@,
        r"(?i)\bsystem\s*\("@,
        r"(?i)\bshell\s+command\b"@,
        r"```[\s\S]*?```"@,
    ]
}

/// Removes requests to run code, `eval(` and `system(` calls, and fenced
/// code blocks.
fn remove_code_execution(input: &str) -> (r: String)
    ensures
        r@ == apply_rules(code_execution_rules(), input@),
{
    let patterns = [
        r"(?i)\bexecute\s+code\b",
        r"(?i)\brun\s+this\s+script\b",
        r"(?i)\beval\s*\(",
        r"(?i)\bsystem\s*\(",
        r"(?i)\bshell\s+command\b",
        r"```[\s\S]*?```",
    ];
    assert(pattern_views(patterns@) =~= code_execution_rules());
    apply_regex_patterns(input, &patterns)
}

/// Requests for training data or memorised text.
pub open spec fn training_data_rules() -> Seq<Seq<char>> {
    seq![
        r"(?i)\btraining\s+data\b"@,
        r"(?i)\bmemorized\s+content\b"@,
        r"(?i)\brepeat\s+verbatim\b"@,
        r"(?i)\bexact\s+copy\b"@,
        r"(?i)\bword\s+for\s+word\b"@,
        r"(?i)\bwhat\s+did\s+you\s+learn\b"@,
    ]
}

/// Removes requests such as "training data", "memorized content" or
/// "word for word".
fn remove_training_data_extraction(input: &str) -> (r: String)
    ensures
        r@ == apply_rules(training_data_rules(), input@),
{
    let patterns = [
        r"(?i)\btraining\s+data\b",
        r"(?i)\bmemorized\s+content\b",
        r"(?i)\brepeat\s+verbatim\b",
        r"(?i)\bexact\s+copy\b",
        r"(?i)\bword\s+for\s+word\b",
        r"(?i)\bwhat\s+did\s+you\s+learn\b",
    ];
    assert(pattern_views(patterns@) =~= training_data_rules());
    apply_regex_patterns(input, &patterns)
}

/// Instructions planted for later turns.
pub open spec fn indirect_injection_rules() -> Seq<Seq<char>> {
    seq![
        r"(?i)\bwhen\s+you\s+see\s+this\b"@,
        r"(?i)\bif\s+someone\s+asks\b"@,
        r"(?i)\bfuture\s+instructions\b"@,
        r"(?i)\bnext\s+time\s+respond\b"@,
        r"(?i)\bremember\s+to\s+always\b"@,
    ]
}

/// Removes planted instructions such as "when you see this" or "future
/// instructions".
fn remove_indirect_injections(input: &str) -> (r: String)
    ensures
        r@ == apply_rules(indirect_injection_rules(), input@),
{
    let patterns = [
        r"(?i)\bwhen\s+you\s+see\s+this\b",
        r"(?i)\bif\s+someone\s+asks\b",
        r"(?i)\bfuture\s+instructions\b",
        r"(?i)\bnext\s+time\s+respond\b",
        r"(?i)\bremember\s+to\s+always\b",
    ];
    assert(pattern_views(patterns@) =~= indirect_injection_rules());
    apply_regex_patterns(input, &patterns)
}

/// Settings of the model's sampling parameters.
pub open spec fn model_manipulation_rules() -> Seq<Seq<char>> {
    seq![
        r"(?i)\btemperature\s*="@,
        r"(?i)\bmax_tokens\s*="@,
        r"(?i)\btop_p\s*="@,
        r"(?i)\bfrequency_penalty\b"@,
        r"(?i)\bpresence_penalty\b"@,
        r"(?i)\bmodel\s+parameters\b"@,
    ]
}

/// Removes settings such as `temperature=`, `max_tokens=` or `top_p=` and
/// the penalty parameters.
fn remove_model_manipulation(input: &str) -> (r: String)
    ensures
        r@ == apply_rules(model_manipulation_rules(), input@),
{
    let patterns = [
        r"(?i)\btemperature\s*=",
        r"(?i)\bmax_tokens\s*=",
        r"(?i)\btop_p\s*=",
        r"(?i)\bfrequency_penalty\b",
        r"(?i)\bpresence_penalty\b",
        r"(?i)\bmodel\s+parameters\b",
    ];
    assert(pattern_views(patterns@) =~= model_manipulation_rules());
    apply_regex_patterns(input, &patterns)
}

/// The categories in the order in which the pipeline runs them.
pub open spec fn categories() -> Seq<Seq<Seq<char>>> {
    seq![
        system_prompt_rules(),
        role_manipulation_rules(),
        instruction_override_rules(),
        context_escape_rules(),
        jailbreak_rules(),
        prompt_leaking_rules(),
        code_execution_rules(),
        training_data_rules(),
        indirect_injection_rules(),
        model_manipulation_rules(),
    ]
}

/// The categories run in order, each on the output of the one before.
pub open spec fn run_categories(s: Seq<char>) -> Seq<char> {
    let t = apply_rules(system_prompt_rules(), s);
    let t = apply_rules(role_manipulation_rules(), t);
    let t = apply_rules(instruction_override_rules(), t);
    let t = apply_rules(context_escape_rules(), t);
    let t = apply_rules(jailbreak_rules(), t);
    let t = apply_rules(prompt_leaking_rules(), t);
    let t = apply_rules(code_execution_rules(), t);
    let t = apply_rules(training_data_rules(), t);
    let t = apply_rules(indirect_injection_rules(), t);
    apply_rules(model_manipulation_rules(), t)
}

/// What sanitising `s` gives: nothing for blank text, else the output of the
/// categories without its leading and trailing white space.
pub open spec fn sanitized(s: Seq<char>) -> Seq<char> {
    if trimmed(s).len() == 0 {
        Seq::empty()
    } else {
        trimmed(run_categories(s))
    }
}

/// Neutralises prompt-injection patterns in `input`: every match of a rule
/// becomes the marker, category by category in a fixed order, and the result
/// is trimmed. Blank input gives an empty result.
pub fn sanitize_prompt(input: &str) -> (r: String)
    ensures
        r@ == sanitized(input@),
        trimmed(input@).len() == 0 ==> r@.len() == 0,
{
    if trim_str(input).unicode_len() == 0 {
        return String::new();
    }
    let sanitized = remove_system_prompt_injections(input);
    let sanitized = remove_role_manipulation(sanitized.as_str());
    let sanitized = remove_instruction_overrides(sanitized.as_str());
    let sanitized = remove_context_escapes(sanitized.as_str());
    let sanitized = remove_jailbreak_attempts(sanitized.as_str());
    let sanitized = remove_prompt_leaking(sanitized.as_str());
    let sanitized = remove_code_execution(sanitized.as_str());
    let sanitized = remove_training_data_extraction(sanitized.as_str());
    let sanitized = remove_indirect_injections(sanitized.as_str());
    let sanitized = remove_model_manipulation(sanitized.as_str());
    String::from_str(trim_str(sanitized.as_str()))
}

/// The categories of `cats` in order, each on the output of the one before.
pub open spec fn apply_categories(cats: Seq<Seq<Seq<char>>>, s: Seq<char>) -> Seq<char>
    decreases cats.len(),
{
    if cats.len() == 0 {
        s
    } else {
        apply_rules(cats.last(), apply_categories(cats.drop_last(), s))
    }
}

/// The pipeline is a left fold over the ordered list of categories: each
/// category gets the cumulative output of all the categories before it.
pub proof fn lemma_pipeline_folds_categories(s: Seq<char>)
    ensures
        run_categories(s) == apply_categories(categories(), s),
{
    let cats = categories();
    let t0 = s;
    assert(apply_categories(cats.subrange(0, 0), s) == t0);
    let t1 = apply_rules(cats[0], t0);
    assert(cats.subrange(0, 1).drop_last() =~= cats.subrange(0, 0));
    assert(cats.subrange(0, 1).last() == cats[0]);
    assert(apply_categories(cats.subrange(0, 1), s) == t1);
    let t2 = apply_rules(cats[1], t1);
    assert(cats.subrange(0, 2).drop_last() =~= cats.subrange(0, 1));
    assert(cats.subrange(0, 2).last() == cats[1]);
    assert(apply_categories(cats.subrange(0, 2), s) == t2);
    let t3 = apply_rules(cats[2], t2);
    assert(cats.subrange(0, 3).drop_last() =~= cats.subrange(0, 2));
    assert(cats.subrange(0, 3).last() == cats[2]);
    assert(apply_categories(cats.subrange(0, 3), s) == t3);
    let t4 = apply_rules(cats[3], t3);
    assert(cats.subrange(0, 4).drop_last() =~= cats.subrange(0, 3));
    assert(cats.subrange(0, 4).last() == cats[3]);
    assert(apply_categories(cats.subrange(0, 4), s) == t4);
    let t5 = apply_rules(cats[4], t4);
    assert(cats.subrange(0, 5).drop_last() =~= cats.subrange(0, 4));
    assert(cats.subrange(0, 5).last() == cats[4]);
    assert(apply_categories(cats.subrange(0, 5), s) == t5);
    let t6 = apply_rules(cats[5], t5);
    assert(cats.subrange(0, 6).drop_last() =~= cats.subrange(0, 5));
    assert(cats.subrange(0, 6).last() == cats[5]);
    assert(apply_categories(cats.subrange(0, 6), s) == t6);
    let t7 = apply_rules(cats[6], t6);
    assert(cats.subrange(0, 7).drop_last() =~= cats.subrange(0, 6));
    assert(cats.subrange(0, 7).last() == cats[6]);
    assert(apply_categories(cats.subrange(0, 7), s) == t7);
    let t8 = apply_rules(cats[7], t7);
    assert(cats.subrange(0, 8).drop_last() =~= cats.subrange(0, 7));
    assert(cats.subrange(0, 8).last() == cats[7]);
    assert(apply_categories(cats.subrange(0, 8), s) == t8);
    let t9 = apply_rules(cats[8], t8);
    assert(cats.subrange(0, 9).drop_last() =~= cats.subrange(0, 8));
    assert(cats.subrange(0, 9).last() == cats[8]);
    assert(apply_categories(cats.subrange(0, 9), s) == t9);
    let t10 = apply_rules(cats[9], t9);
    assert(cats.subrange(0, 10).drop_last() =~= cats.subrange(0, 9));
    assert(cats.subrange(0, 10).last() == cats[9]);
    assert(apply_categories(cats.subrange(0, 10), s) == t10);
    assert(cats.subrange(0, 10) =~= cats);
}

/// No rule of any category changes `s` on its own.
pub open spec fn untouched_by_rules(s: Seq<char>) -> bool {
    forall|c: int, i: int|
        0 <= c < categories().len() && 0 <= i < categories()[c].len() ==> #[trigger] apply_rule(
            categories()[c][i],
            s,
        ) == s
}

/// Text whose trimmed form is empty sanitises to the empty text.
pub proof fn lemma_blank_input_gives_empty(s: Seq<char>)
    requires
        trimmed(s).len() == 0,
    ensures
        sanitized(s) == Seq::<char>::empty(),
{
}

/// Text that no rule of any category changes comes out only trimmed: its
/// inner characters, white space included, are kept as they are.
pub proof fn lemma_untouched_input_is_only_trimmed(s: Seq<char>)
    requires
        untouched_by_rules(s),
    ensures
        sanitized(s) == trimmed(s),
{
    let cats = categories();
    assert forall|c: int| 0 <= c < cats.len() implies apply_rules(#[trigger] cats[c], s) == s by {
        assert forall|i: int| 0 <= i < cats[c].len() implies #[trigger] apply_rule(cats[c][i], s)
            == s by {
            assert(apply_rule(categories()[c][i], s) == s);
        }
        lemma_unchanged_by_each_rule(cats[c], s);
    }
    assert(apply_rules(cats[0], s) == s);
    assert(apply_rules(cats[1], s) == s);
    assert(apply_rules(cats[2], s) == s);
    assert(apply_rules(cats[3], s) == s);
    assert(apply_rules(cats[4], s) == s);
    assert(apply_rules(cats[5], s) == s);
    assert(apply_rules(cats[6], s) == s);
    assert(apply_rules(cats[7], s) == s);
    assert(apply_rules(cats[8], s) == s);
    assert(apply_rules(cats[9], s) == s);
    assert(run_categories(s) == s);
    if trimmed(s).len() == 0 {
        assert(trimmed(s) =~= Seq::<char>::empty());
    }
}

/// Sanitising is stable on text that it would leave as it is: trimmed text
/// that no rule changes sanitises to itself.
pub proof fn lemma_clean_trimmed_text_is_fixed(s: Seq<char>)
    requires
        untouched_by_rules(s),
        trimmed(s) == s,
    ensures
        sanitized(s) == s,
{
    lemma_untouched_input_is_only_trimmed(s);
}

} // verus!
