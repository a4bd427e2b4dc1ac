//! What the end of a shell job proves of its command, what its output and its updates tell, and the
//! commands that jobs are tried out with.
use crate::text::{self, chars_of, same, starts_with, trim};
use vstd::prelude::*;
use vstd::string::*;

verus! {

/// How far the command of a job got.
#[derive(Debug, Clone, Copy, PartialEq, Eq, Structural)]
pub enum ShellCommandExecutionState {
    NotStarted,
    Completed,
    TimedOut,
    OutcomeUnknown,
}

/// Returns how far the command of an ended job got: a timeout is one whatever it left behind, and
/// otherwise only an exit code proves that the command completed.
pub fn raw_shell_job_terminal_lifecycle(status: &str, exit_code: Option<i32>) -> (r:
    ShellCommandExecutionState)
    ensures
        r == if status@ == "timeout"@ {
            ShellCommandExecutionState::TimedOut
        } else if exit_code is Some {
            ShellCommandExecutionState::Completed
        } else {
            ShellCommandExecutionState::OutcomeUnknown
        },
{
    if same(status, "timeout") {
        return ShellCommandExecutionState::TimedOut;
    }
    match exit_code {
        Some(_) => ShellCommandExecutionState::Completed,
        None => ShellCommandExecutionState::OutcomeUnknown,
    }
}

// ---------------------------------------------------------------------------------------------
// Quoting
// ---------------------------------------------------------------------------------------------
/// What a character becomes between single quotes: a single quote ends them, stands in double
/// quotes, and starts them again.
pub open spec fn quoted_char(c: char) -> Seq<char> {
    if c == '\'' {
        seq!['\'', '"', '\'', '"', '\'']
    } else {
        seq![c]
    }
}

/// A text as it stands between single quotes.
pub open spec fn between_quotes(s: Seq<char>) -> Seq<char>
    decreases s.len(),
{
    if s.len() == 0 {
        Seq::empty()
    } else {
        between_quotes(s.drop_last()) + quoted_char(s.last())
    }
}

/// Returns a path as one word of a POSIX shell.
pub fn sh_quote(path: &str) -> (r: String)
    ensures
        r@ == seq!['\''] + between_quotes(path@) + seq!['\''],
{
    proof {
        reveal_strlit("'");
        reveal_strlit("'\"'\"'");
    }
    assert("'"@ =~= seq!['\'']);
    assert("'\"'\"'"@ =~= seq!['\'', '"', '\'', '"', '\'']);
    let chars = chars_of(path);
    let n: usize = chars.len();
    let mut out = "'".to_owned();
    assert(out@ =~= seq!['\''] + between_quotes(path@.take(0)));
    for i in 0..n
        invariant
            n == path@.len(),
            chars@ == path@,
            "'\"'\"'"@ == seq!['\'', '"', '\'', '"', '\''],
            out@ == seq!['\''] + between_quotes(path@.take(i as int)),
    {
        let ghost before = between_quotes(path@.take(i as int));
        assert(path@.take(i + 1).drop_last() =~= path@.take(i as int));
        assert(path@.take(i + 1).last() == path@[i as int]);
        let shown = if chars[i] == '\'' {
            "'\"'\"'"
        } else {
            path.substring_char(i, i + 1)
        };
        assert(shown@ =~= quoted_char(path@[i as int]));
        out.append(shown);
        assert(out@ =~= seq!['\''] + (before + quoted_char(path@[i as int])));
    }
    assert(path@.take(n as int) =~= path@);
    out.append("'");
    out
}

/// What a POSIX shell reads a word as, where it is made of single-quoted and double-quoted pieces
/// and nothing in it is expanded: the quotes go, and a quote of one kind inside the other stays.
/// `open` is the quote that the word is in, if any.
pub open spec fn unquoted(open: Option<char>, word: Seq<char>) -> Seq<char>
    decreases word.len(),
{
    if word.len() == 0 {
        Seq::empty()
    } else {
        let c = word[0];
        let rest = word.skip(1);
        match open {
            None => if c == '\'' || c == '"' {
                unquoted(Some(c), rest)
            } else {
                seq![c] + unquoted(None, rest)
            },
            Some(quote) => if c == quote {
                unquoted(None, rest)
            } else {
                seq![c] + unquoted(open, rest)
            },
        }
    }
}

/// The shell reads a quoted path as the path itself.
pub proof fn quoted_paths_read_back(path: Seq<char>)
    ensures
        unquoted(None, seq!['\''] + between_quotes(path) + seq!['\'']) == path,
{
    let word = seq!['\''] + between_quotes(path) + seq!['\''];
    assert(word.skip(1) =~= between_quotes(path) + seq!['\'']);
    quoted_middle_reads_back(path, seq!['\'']);
    reveal_with_fuel(unquoted, 2);
    assert(seq!['\''].skip(1) =~= Seq::<char>::empty());
    assert(path + unquoted(Some('\''), seq!['\'']) =~= path);
}

proof fn quoted_middle_reads_back(path: Seq<char>, rest: Seq<char>)
    ensures
        unquoted(Some('\''), between_quotes(path) + rest) == path + unquoted(Some('\''), rest),
    decreases path.len(),
{
    if path.len() == 0 {
        assert(between_quotes(path) + rest =~= rest);
        assert(path + unquoted(Some('\''), rest) =~= unquoted(Some('\''), rest));
    } else {
        let shown = quoted_char(path.last());
        assert(between_quotes(path) + rest =~= between_quotes(path.drop_last()) + (shown + rest));
        quoted_middle_reads_back(path.drop_last(), shown + rest);
        let word = shown + rest;
        if path.last() == '\'' {
            assert(word.skip(1) =~= seq!['"', '\'', '"', '\''] + rest);
            assert(word.skip(1).skip(1) =~= seq!['\'', '"', '\''] + rest);
            assert(word.skip(1).skip(1).skip(1) =~= seq!['"', '\''] + rest);
            assert(word.skip(1).skip(1).skip(1).skip(1) =~= seq!['\''] + rest);
            assert(word.skip(1).skip(1).skip(1).skip(1).skip(1) =~= rest);
            reveal_with_fuel(unquoted, 6);
        } else {
            assert(word.skip(1) =~= rest);
        }
        assert(path.drop_last() + (seq![path.last()] + unquoted(Some('\''), rest)) =~= path
            + unquoted(Some('\''), rest));
    }
}

// ---------------------------------------------------------------------------------------------
// Output
// ---------------------------------------------------------------------------------------------
/// A decimal digit.
pub open spec fn digit(c: char) -> bool {
    '0' <= c <= '9'
}

/// The number that decimal digits write.
pub open spec fn digits_value(s: Seq<char>) -> nat
    decreases s.len(),
{
    if s.len() == 0 {
        0
    } else {
        digits_value(s.drop_last()) * 10 + (s.last() as u32 - '0' as u32) as nat
    }
}

/// The digits of a number: a plus sign before them is not one.
pub open spec fn digits_of(s: Seq<char>) -> Seq<char> {
    if s.len() > 0 && s[0] == '+' {
        s.skip(1)
    } else {
        s
    }
}

/// The process number that a text is, if it is one: at least one digit, digits only, and no more
/// than 32 bits hold.
pub open spec fn process_number(s: Seq<char>) -> Option<u32> {
    let digits = digits_of(s);
    if digits.len() > 0 && (forall|i: int| 0 <= i < digits.len() ==> digit(#[trigger] digits[i]))
        && digits_value(digits) <= u32::MAX {
        Some(digits_value(digits) as u32)
    } else {
        None
    }
}

/// The lines of a text, without their line feeds.
pub open spec fn lines_of(s: Seq<char>) -> Seq<Seq<char>>
    decreases s.len(),
{
    if s.len() == 0 {
        seq![Seq::empty()]
    } else {
        let before = lines_of(s.drop_last());
        if s.last() == '\n' {
            before.push(Seq::empty())
        } else {
            before.drop_last().push(before.last().push(s.last()))
        }
    }
}

/// The process number that a line announces, if it does.
pub open spec fn announced(line: Seq<char>) -> Option<u32> {
    let content = text::trimmed(line);
    if "GRANDCHILD_PID="@.is_prefix_of(content) {
        process_number(text::trimmed(content.skip("GRANDCHILD_PID="@.len() as int)))
    } else {
        None
    }
}

/// The number that the first announcing line from `from` on announces.
pub open spec fn first_announced(lines: Seq<Seq<char>>, from: int) -> Option<u32>
    decreases lines.len() - from,
{
    if from >= lines.len() {
        None
    } else if announced(lines[from]) is Some {
        announced(lines[from])
    } else {
        first_announced(lines, from + 1)
    }
}

proof fn prefix_is_no_larger(s: Seq<char>, n: int)
    requires
        0 <= n <= s.len(),
        forall|i: int| 0 <= i < s.len() ==> digit(#[trigger] s[i]),
    ensures
        digits_value(s.take(n)) <= digits_value(s),
    decreases s.len(),
{
    if n < s.len() {
        assert(s.drop_last().take(n) =~= s.take(n));
        assert forall|i: int| 0 <= i < s.len() - 1 implies digit(#[trigger] s.drop_last()[i]) by {
            assert(s.drop_last()[i] == s[i]);
        }
        prefix_is_no_larger(s.drop_last(), n);
    } else {
        assert(s.take(n) =~= s);
    }
}

fn parse_process_number(s: &str) -> (r: Option<u32>)
    ensures
        r == process_number(s@),
{
    let chars = chars_of(s);
    let n: usize = chars.len();
    let start: usize = if n > 0 && chars[0] == '+' {
        1
    } else {
        0
    };
    let ghost digits = digits_of(s@);
    assert(digits =~= s@.skip(start as int));
    if start == n {
        return None;
    }
    for i in start..n
        invariant
            n == chars@.len(),
            digits == chars@.skip(start as int),
            digits == digits_of(s@),
            start <= n,
            forall|k: int| 0 <= k < i - start ==> digit(#[trigger] digits[k]),
    {
        if !('0' <= chars[i] && chars[i] <= '9') {
            assert(!digit(digits[i - start]));
            return None;
        }
    }
    let mut value: u64 = 0;
    assert(digits.take(0) =~= Seq::empty());
    for i in start..n
        invariant
            n == chars@.len(),
            start <= n,
            digits == chars@.skip(start as int),
            digits.len() == n - start,
            forall|k: int| 0 <= k < digits.len() ==> digit(#[trigger] digits[k]),
            digits == digits_of(s@),
            value == digits_value(digits.take(i - start)),
            value <= u32::MAX,
    {
        let ghost head = digits.take(i + 1 - start);
        assert(head.drop_last() =~= digits.take(i - start));
        assert(head.last() == chars@[i as int]);
        assert(digit(digits[i - start]));
        value = value * 10 + (chars[i] as u32 - 48) as u64;
        assert(value == digits_value(head));
        if value > 4294967295 {
            proof {
                prefix_is_no_larger(digits, i + 1 - start);
            }
            return None;
        }
    }
    assert(digits.take(n - start) =~= digits);
    Some(value as u32)
}

fn announced_by(line: &str) -> (r: Option<u32>)
    ensures
        r == announced(line@),
{
    let content = trim(line);
    if !starts_with(content, "GRANDCHILD_PID=") {
        return None;
    }
    let n: usize = content.unicode_len();
    let mark: &str = "GRANDCHILD_PID=";
    let rest = content.substring_char(mark.unicode_len(), n);
    assert(rest@ =~= content@.skip("GRANDCHILD_PID="@.len() as int));
    parse_process_number(trim(rest))
}

fn split_lines(s: &str) -> (r: Vec<String>)
    ensures
        text::list_view(r@) == lines_of(s@),
{
    let chars = chars_of(s);
    let n: usize = chars.len();
    let mut out: Vec<String> = Vec::new();
    let mut start: usize = 0;
    assert(s@.subrange(0, 0) =~= Seq::<char>::empty());
    assert(lines_of(s@.take(0)) =~= text::list_view(out@).push(s@.subrange(0, 0)));
    for i in 0..n
        invariant
            n == s@.len(),
            chars@ == s@,
            start <= i,
            lines_of(s@.take(i as int)) == text::list_view(out@).push(
                s@.subrange(start as int, i as int),
            ),
    {
        let ghost head = s@.take(i + 1);
        let ghost before = text::list_view(out@);
        assert(head.drop_last() =~= s@.take(i as int));
        assert(head.last() == s@[i as int]);
        if chars[i] == '\n' {
            out.push(s.substring_char(start, i).to_owned());
            start = i + 1;
            assert(text::list_view(out@) =~= lines_of(s@.take(i as int)));
            assert(s@.subrange(start as int, i + 1) =~= Seq::<char>::empty());
        } else {
            assert(lines_of(s@.take(i as int)).drop_last() =~= before);
            assert(s@.subrange(start as int, i as int).push(s@[i as int]) =~= s@.subrange(
                start as int,
                i + 1,
            ));
        }
    }
    assert(s@.take(n as int) =~= s@);
    let ghost before = text::list_view(out@);
    out.push(s.substring_char(start, n).to_owned());
    assert(text::list_view(out@) =~= before.push(s@.subrange(start as int, n as int)));
    out
}

/// Returns the process number that the first announcing line of an output announces.
pub fn extract_grandchild_pid(output: &str) -> (r: Option<u32>)
    ensures
        r == first_announced(lines_of(output@), 0),
{
    let lines = split_lines(output);
    let ghost all = lines_of(output@);
    for i in 0..lines.len()
        invariant
            all == text::list_view(lines@),
            all == lines_of(output@),
            first_announced(all, 0) == first_announced(all, i as int),
    {
        assert(all[i as int] == lines@[i as int]@);
        let found = announced_by(lines[i].as_str());
        if found.is_some() {
            return found;
        }
    }
    None
}

// ---------------------------------------------------------------------------------------------
// Updates
// ---------------------------------------------------------------------------------------------
/// What an update tells of the end of a job.
#[derive(Debug)]
pub struct JobUpdate {
    pub finished: bool,
    pub status: String,
    pub exit_code: Option<i32>,
    pub error: Option<String>,
}

/// Tells whether an update says that a validation step could not be started. `code` is the error
/// code of such a failure.
pub fn is_validation_spawn_failure(update: &JobUpdate, code: &str) -> (r: bool)
    ensures
        r == (update.finished && update.status@ == "failed"@ && update.exit_code is None
            && text::option_view(update.error) == Some(code@)),
{
    update.finished && same(update.status.as_str(), "failed") && update.exit_code.is_none()
        && match &update.error {
        Some(error) => same(error.as_str(), code),
        None => false,
    }
}

// ---------------------------------------------------------------------------------------------
// Gated jobs
// ---------------------------------------------------------------------------------------------
/// A job that tells by files when it started and while it runs, and that waits for another file
/// before it ends.
#[derive(Debug)]
pub struct GatedStructuredJob {
    pub job_id: String,
    pub started: String,
    pub active: String,
    pub release: String,
}

impl GatedStructuredJob {
    /// Returns the arguments of the command.
    pub fn args(&self) -> (r: Vec<String>)
        ensures
            text::list_view(r@) == seq![
                "gate"@,
                self.started@,
                self.active@,
                self.release@,
                self.job_id@,
            ],
    {
        let r = vec![
            "gate".to_owned(),
            self.started.clone(),
            self.active.clone(),
            self.release.clone(),
            self.job_id.clone(),
        ];
        assert(text::list_view(r@) =~= seq![
            "gate"@,
            self.started@,
            self.active@,
            self.release@,
            self.job_id@,
        ]);
        r
    }
}

// ---------------------------------------------------------------------------------------------
// Laws
// ---------------------------------------------------------------------------------------------
proof fn digits_write_numbers(s: Seq<char>)
    ensures
        digits_value(s) == text::written_number(s),
    decreases s.len(),
{
    if s.len() > 0 {
        digits_write_numbers(s.drop_last());
    }
}

/// A number in decimal is read as that number, with a plus sign before it or without.
pub proof fn written_numbers_are_read(n: u32)
    ensures
        process_number(text::decimal(n as nat)) == Some(n),
        process_number(seq!['+'] + text::decimal(n as nat)) == Some(n),
{
    let digits = text::decimal(n as nat);
    text::decimal_texts_write_their_number(n as nat);
    digits_write_numbers(digits);
    assert(digits[0] != '+');
    let signed = seq!['+'] + digits;
    assert(signed[0] == '+');
    assert(signed.skip(1) =~= digits);
}

/// What is read as a number is made of digits, but for one plus sign before them.
pub proof fn numbers_are_made_of_digits(s: Seq<char>)
    ensures
        process_number(s) is Some ==> s.len() > 0 && (forall|i: int|
            1 <= i < s.len() ==> '0' <= #[trigger] s[i] <= '9') && (s[0] == '+' && s.len() > 1 || '0'
            <= s[0] <= '9'),
{
    if process_number(s) is Some {
        let digits = digits_of(s);
        assert(digit(digits[0]));
        assert forall|i: int| 1 <= i < s.len() implies '0' <= #[trigger] s[i] <= '9' by {
            if s[0] == '+' {
                assert(digits[i - 1] == s[i]);
            } else {
                assert(digits[i] == s[i]);
            }
        }
    }
}

/// A line announces the number that it gives after the mark, whatever white space stands around.
pub proof fn announced_numbers_are_read(before: Seq<char>, n: u32, after: Seq<char>)
    requires
        text::blank(before),
        text::blank(after),
    ensures
        announced(before + ("GRANDCHILD_PID="@ + text::decimal(n as nat)) + after) == Some(n),
{
    reveal_strlit("GRANDCHILD_PID=");
    let mark = "GRANDCHILD_PID="@;
    let digits = text::decimal(n as nat);
    text::decimal_texts_write_their_number(n as nat);
    let content = mark + digits;
    assert(content[0] == 'G');
    assert(content.last() == digits.last());
    assert('0' <= digits[digits.len() - 1] <= '9');
    assert('0' <= digits[0] <= '9');
    text::outer_white_space_is_trimmed_off(before, content, after);
    assert(content.subrange(0, mark.len() as int) =~= mark);
    assert(content.skip(mark.len() as int) =~= digits);
    text::outer_white_space_is_trimmed_off(Seq::empty(), digits, Seq::empty());
    assert(Seq::<char>::empty() + digits + Seq::<char>::empty() =~= digits);
    written_numbers_are_read(n);
}

/// A line that does not begin with the mark announces nothing.
pub proof fn other_lines_announce_nothing(line: Seq<char>)
    ensures
        announced(line) is Some ==> "GRANDCHILD_PID="@.is_prefix_of(text::trimmed(line)),
{
}

/// An output is split at its line feeds and nowhere else.
pub proof fn outputs_are_split_at_line_feeds(a: Seq<char>, b: Seq<char>)
    ensures
        lines_of(a.push('\n') + b) == lines_of(a) + lines_of(b),
        (forall|i: int| 0 <= i < a.len() ==> #[trigger] a[i] != '\n') ==> lines_of(a) == seq![a],
        lines_of(b).len() > 0,
    decreases a.len() + b.len(),
{
    let before = lines_of(a);
    if b.len() == 0 {
        assert((a.push('\n') + b).drop_last() =~= a);
        assert(before.push(Seq::empty()) =~= before + lines_of(b));
    } else {
        outputs_are_split_at_line_feeds(a, b.drop_last());
        let shorter = lines_of(b.drop_last());
        assert((a.push('\n') + b).drop_last() =~= a.push('\n') + b.drop_last());
        assert((a.push('\n') + b).last() == b.last());
        if b.last() == '\n' {
            assert((before + shorter).push(Seq::empty()) =~= before + shorter.push(Seq::empty()));
        } else {
            let last = shorter.last().push(b.last());
            assert((before + shorter).last() == shorter.last());
            assert((before + shorter).drop_last().push(last) =~= before
                + shorter.drop_last().push(last));
        }
    }
    if forall|i: int| 0 <= i < a.len() ==> #[trigger] a[i] != '\n' {
        if a.len() == 0 {
            assert(a =~= Seq::empty());
        } else {
            let less = a.drop_last();
            assert forall|i: int| 0 <= i < less.len() implies #[trigger] less[i] != '\n' by {
                assert(less[i] == a[i]);
            }
            outputs_are_split_at_line_feeds(less, Seq::empty());
            assert(seq![less].drop_last() =~= Seq::empty());
            assert(less.push(a.last()) =~= a);
            assert(lines_of(a) =~= seq![a]);
        }
    }
}

/// The number of an output is that of the first line that announces one.
pub proof fn first_announcement_counts(lines: Seq<Seq<char>>, from: int)
    requires
        0 <= from,
    ensures
        first_announced(lines, from) is None <==> (forall|i: int|
            from <= i < lines.len() ==> announced(#[trigger] lines[i]) is None),
        first_announced(lines, from) is Some ==> (exists|i: int|
            from <= i < lines.len() && announced(#[trigger] lines[i]) == first_announced(
                lines,
                from,
            ) && (forall|j: int| from <= j < i ==> announced(#[trigger] lines[j]) is None)),
    decreases lines.len() - from,
{
    if from < lines.len() {
        first_announcement_counts(lines, from + 1);
        if announced(lines[from]) is None && first_announced(lines, from + 1) is Some {
            let i = choose|i: int|
                from + 1 <= i < lines.len() && announced(#[trigger] lines[i]) == first_announced(
                    lines,
                    from + 1,
                ) && (forall|j: int| from + 1 <= j < i ==> announced(#[trigger] lines[j]) is None);
            assert forall|j: int| from <= j < i implies announced(#[trigger] lines[j]) is None by {
                if j > from {
                    assert(announced(lines[j]) is None);
                }
            }
            assert(announced(lines[i]) == first_announced(lines, from));
        } else if announced(lines[from]) is Some {
            assert(announced(lines[from]) == first_announced(lines, from));
        }
    }
}

} // verus!
