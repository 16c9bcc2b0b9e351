//! The prompt: a fixed system message and a user message that embeds the
//! staged diff between a fixed instruction line, a rules block and a closing
//! instruction.

use vstd::prelude::*;
use crate::git::GitDiff;
use crate::text::{decimal, decimal_text};

verus! {

/// How many candidate messages the model is asked for.
pub const MESSAGE_COUNT: u32 = 10;

/// The commit convention the model is asked to follow.
pub const CONVENTION: &'static str = "Conventional Commits";

/// The system message: the assistant's expertise.
pub const SYSTEM_MESSAGE: &'static str = "You are an expert Git commit message writer specializing in analyzing code changes and creating precise, meaningful commit messages.";

/// Allowed commit types, formatting guidance and an analysis checklist; it
/// ends where the diff begins.
pub const COMMIT_RULES: &'static str = "\
    \n## Requirements:\
    \n1. Language: Write all messages in english\
    \n2. Format: Strictly follow the conventional commit format:\
    \n<type>: <description>\
    \n3. Allowed Types:\
    \n  - docs: 'Documentation only changes'\
    \n  - style: 'Changes that do not affect the meaning of the code (white-space, formatting, missing semi-colons, etc)'\
    \n  - refactor: 'A code change that neither fixes a bug nor adds a feature'\
    \n  - perf: 'A code change that improves performance'\
    \n  - test: 'Adding missing tests or correcting existing tests'\
    \n  - build: 'Changes that affect the build system or external dependencies'\
    \n  - ci: 'Changes to CI configuration files, scripts'\
    \n  - chore: 'Other changes that don't modify src or test files'\
    \n  - revert: 'Reverts a previous commit'\
    \n  - feat: 'A new feature'\
    \n  - fix: 'A bug fix'\
    \n\
    \n## Guidelines:\
    \n- Subject line: Max ${maxLength} characters, imperative mood, no period\
    \n- Analyze the diff to understand:\
    \n  * What files were changed\
    \n  * What functionality was added, modified, or removed\
    \n  * The impact of changes\
    \n- For the commit type, choose based on:\
    \n  * feat: New functionality or feature\
    \n  * fix: Bug fixes or error corrections\
    \n  * refactor: Code restructuring without changing functionality\
    \n  * docs: Documentation changes only\
    \n  * style: Formatting, missing semi-colons, etc\
    \n  * test: Adding or modifying tests\
    \n  * chore: Maintenance tasks, dependency updates\
    \n  * perf: Performance improvements\
    \n  * build: Build system or external dependency changes\
    \n  * ci: CI configuration changes\
    \n- Body (when needed):\
    \n  * Explain the motivation for the change\
    \n  * Compare previous behavior with new behavior\
    \n  * Note any breaking changes or important details\
    \n- Footer: Include references to issues, breaking changes if applicable\
    \n\
    \n## Analysis Approach:\
    \n1. Identify the primary purpose of the changes\
    \n2. Group related changes together\
    \n3. Determine the most appropriate type\
    \n4. Write a clear, concise subject line\
    \n5. Add body details for complex changes\
    \n\
    \nRemember: The commit message should help future developers understand WHY this change was made, not just WHAT was changed.\
    \nHere is the git diff to analyze:\
    \n\
";
/// The instruction that follows the diff.
pub const CLOSING_INSTRUCTION: &'static str = "\n\nProvide only the commit messages without any additional text.";

/// The plural ending of "message" for a count.
pub open spec fn plural_suffix(count: u32) -> Seq<char> {
    if count > 1 {
        "s"@
    } else {
        ""@
    }
}

/// The first line of the user message: the count and the convention.
pub open spec fn instruction_line() -> Seq<char> {
    "Your task is to generate exactly "@ + decimal(MESSAGE_COUNT as nat) + " "@ + CONVENTION@
        + " style commit message"@ + plural_suffix(MESSAGE_COUNT) + " based on the provided git diff."@
}

/// The user message for a diff text: instruction line, rules, the diff
/// verbatim, closing instruction.
pub open spec fn user_message_text(diff: Seq<char>) -> Seq<char> {
    instruction_line() + COMMIT_RULES@ + diff + CLOSING_INSTRUCTION@
}

/// The system message of every request.
pub fn get_system_message() -> (r: String)
    ensures
        r@ == SYSTEM_MESSAGE@,
{
    SYSTEM_MESSAGE.to_string()
}

/// The user message for `diff`: it holds the diff text unchanged.
pub fn get_user_message(diff: &GitDiff) -> (r: String)
    ensures
        r@ == user_message_text(diff.diff@),
{
    let mut m = "Your task is to generate exactly ".to_string();
    let count = decimal_text(MESSAGE_COUNT);
    m.append(count.as_str());
    m.append(" ");
    m.append(CONVENTION);
    m.append(" style commit message");
    if MESSAGE_COUNT > 1 {
        m.append("s");
    } else {
        m.append("");
    }
    m.append(" based on the provided git diff.");
    m.append(COMMIT_RULES);
    m.append(diff.diff.as_str());
    m.append(CLOSING_INSTRUCTION);
    m
}

/// Whether `part` occurs in `whole` as a contiguous run.
pub open spec fn contains_run(whole: Seq<char>, part: Seq<char>) -> bool {
    exists|i: int|
        0 <= i && i + part.len() <= whole.len() && #[trigger] whole.subrange(i, i + part.len())
            == part
}

/// The user message holds the diff text as one contiguous, unmodified run,
/// whatever its length.
pub proof fn lemma_user_message_holds_diff(d: GitDiff)
    ensures
        contains_run(user_message_text(d.diff@), d.diff@),
{
    let diff = d.diff@;
    let pre = instruction_line() + COMMIT_RULES@;
    let m = user_message_text(diff);
    assert(m =~= pre + diff + CLOSING_INSTRUCTION@);
    assert(m.subrange(pre.len() as int, (pre.len() + diff.len()) as int) =~= diff);
}

} // verus!
