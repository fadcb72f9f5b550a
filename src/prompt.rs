//! Reading a yes/no answer.
use vstd::prelude::*;

verus! {

/// What is left of a line once leading and trailing whitespace is removed.
pub uninterp spec fn trimmed(s: Seq<char>) -> Seq<char>;

/// Relies on `str::trim`: the line without its leading and trailing whitespace.
#[verifier::external_body]
fn trim(s: &str) -> (r: &str)
    ensures
        r@ == trimmed(s@),
{
    s.trim()
}

/// Shown when an answer is neither yes, no nor empty.
pub const RETRY_HINT: &'static str = "Please use 'y', or 'n'!";

/// The choices shown after a question, the default in capitals.
pub open spec fn choices(default_yes: bool) -> Seq<char> {
    if default_yes {
        " [Y, n]: "@
    } else {
        " [y, N]: "@
    }
}

/// What an answer (already trimmed) means: an empty one takes the default,
/// `y` or `Y` is yes, `n` or `N` is no, and anything else means nothing, so
/// the question is asked again.
pub open spec fn meaning(answer: Seq<char>, default_yes: bool) -> Option<bool> {
    if answer.len() == 0 {
        Some(default_yes)
    } else if answer == seq!['y'] || answer == seq!['Y'] {
        Some(true)
    } else if answer == seq!['n'] || answer == seq!['N'] {
        Some(false)
    } else {
        None
    }
}

/// The question as shown to the user.
pub fn prompt_text(question: &str, default_yes: bool) -> (r: String)
    ensures
        r@ == question@ + choices(default_yes),
{
    let mut text = String::from_str(question);
    if default_yes {
        text.append(" [Y, n]: ");
    } else {
        text.append(" [y, N]: ");
    }
    text
}

/// What the trimmed answer `answer` means; `None` asks again.
pub fn answer_meaning(answer: &str, default_yes: bool) -> (r: Option<bool>)
    ensures
        r == meaning(answer@, default_yes),
{
    let n = answer.unicode_len();
    if n == 0 {
        return Some(default_yes);
    }
    if n > 1 {
        assert(answer@ != seq!['y'] && answer@ != seq!['Y']);
        assert(answer@ != seq!['n'] && answer@ != seq!['N']);
        return None;
    }
    let c = answer.get_char(0);
    if c == 'y' || c == 'Y' {
        assert(answer@ =~= seq![c]);
        Some(true)
    } else if c == 'n' || c == 'N' {
        assert(answer@ =~= seq![c]);
        Some(false)
    } else {
        assert(answer@ != seq!['y'] && answer@ != seq!['Y']);
        assert(answer@ != seq!['n'] && answer@ != seq!['N']);
        None
    }
}

/// What a line the user typed means, once trimmed; `None` asks again.
pub fn read_answer(line: &str, default_yes: bool) -> (r: Option<bool>)
    ensures
        r == meaning(trimmed(line@), default_yes),
{
    answer_meaning(trim(line), default_yes)
}

} // verus!
