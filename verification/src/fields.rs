//! Single fields of a line of compact JSON, read without parsing the line.
use crate::text::{self, chars_of, is_white_space, same};
use vstd::prelude::*;
use vstd::string::*;

verus! {

/// Where `part` first occurs in `s`, at `from` or later.
pub open spec fn first_at(s: Seq<char>, part: Seq<char>, from: int) -> Option<int>
    decreases s.len() - from + 1,
{
    if from < 0 || from + part.len() > s.len() {
        None
    } else if text::occurs_at(s, part, from) {
        Some(from)
    } else {
        first_at(s, part, from + 1)
    }
}

/// How a field begins: its name in quotes, and a colon.
pub open spec fn field_head(field: Seq<char>) -> Seq<char> {
    "\""@ + field + "\":"@
}

/// What follows the first field of that name.
pub open spec fn after_field(body: Seq<char>, field: Seq<char>) -> Option<Seq<char>> {
    match first_at(body, field_head(field), 0) {
        Some(at) => Some(body.skip(at + field_head(field).len())),
        None => None,
    }
}

/// The text in quotes at the beginning of `rest`. A quote ends it, whatever stands before.
pub open spec fn quoted_text(rest: Seq<char>) -> Option<Seq<char>> {
    if rest.len() == 0 || rest[0] != '"' {
        None
    } else {
        match first_at(rest, seq!['"'], 1) {
            Some(end) => Some(rest.subrange(1, end)),
            None => None,
        }
    }
}

/// The digits at the beginning of `rest`.
pub open spec fn leading_digits(rest: Seq<char>) -> Seq<char>
    decreases rest.len(),
{
    if rest.len() > 0 && '0' <= rest[0] <= '9' {
        seq![rest[0]] + leading_digits(rest.drop_first())
    } else {
        Seq::empty()
    }
}

/// The number that digits write.
pub open spec fn digits_value(digits: Seq<char>) -> nat
    decreases digits.len(),
{
    if digits.len() == 0 {
        0
    } else {
        digits_value(digits.drop_last()) * 10 + ((digits.last() as u32 - '0' as u32) as nat)
    }
}

/// The text of the first field of that name, where it has one.
pub open spec fn text_of_field(body: Seq<char>, field: Seq<char>) -> Option<Seq<char>> {
    match after_field(body, field) {
        Some(rest) => quoted_text(rest),
        None => None,
    }
}

/// The unsigned number of the first field of that name, where it has one that fits.
pub open spec fn number_of_field(body: Seq<char>, field: Seq<char>) -> Option<u64> {
    match after_field(body, field) {
        Some(rest) => {
            let digits = leading_digits(text::trim_start(rest));
            if digits.len() > 0 && digits_value(digits) <= u64::MAX {
                Some(digits_value(digits) as u64)
            } else {
                None
            }
        },
        None => None,
    }
}

proof fn first_at_is(s: Seq<char>, part: Seq<char>, from: int, at: int)
    requires
        0 <= from <= at,
        at + part.len() <= s.len(),
        forall|k: int| from <= k < at ==> !text::occurs_at(s, part, k),
        text::occurs_at(s, part, at),
    ensures
        first_at(s, part, from) == Some(at),
    decreases at - from,
{
    if from < at {
        assert(!text::occurs_at(s, part, from));
        first_at_is(s, part, from + 1, at);
    }
}

proof fn first_at_none(s: Seq<char>, part: Seq<char>, from: int)
    requires
        0 <= from,
        forall|k: int| from <= k ==> !text::occurs_at(s, part, k),
    ensures
        first_at(s, part, from) is None,
    decreases s.len() - from + 1,
{
    if from + part.len() <= s.len() {
        assert(!text::occurs_at(s, part, from));
        first_at_none(s, part, from + 1);
    }
}

proof fn first_at_bounds(s: Seq<char>, part: Seq<char>, from: int)
    requires
        0 <= from,
    ensures
        first_at(s, part, from) matches Some(at) ==> from <= at && at + part.len() <= s.len(),
    decreases s.len() - from + 1,
{
    if from + part.len() <= s.len() && !text::occurs_at(s, part, from) {
        first_at_bounds(s, part, from + 1);
    }
}

/// Returns where `part` first occurs in `s`, at `from` or later.
fn find_from(s: &str, part: &str, from: usize) -> (r: Option<usize>)
    ensures
        match r {
            Some(at) => first_at(s@, part@, from as int) == Some(at as int),
            None => first_at(s@, part@, from as int) is None,
        },
{
    let n: usize = s.unicode_len();
    let m: usize = part.unicode_len();
    let mut at: usize = from;
    while at <= n && m <= n - at
        invariant
            n == s@.len(),
            m == part@.len(),
            from <= at,
            forall|k: int| from <= k < at ==> !text::occurs_at(s@, part@, k),
        decreases n - at + 1,
    {
        if same(s.substring_char(at, at + m), part) {
            proof {
                first_at_is(s@, part@, from as int, at as int);
            }
            return Some(at);
        }
        if at == n {
            assert(forall|k: int| from <= k ==> !text::occurs_at(s@, part@, k));
            proof {
                first_at_none(s@, part@, from as int);
            }
            return None;
        }
        at = at + 1;
    }
    proof {
        assert(forall|k: int| from <= k ==> !text::occurs_at(s@, part@, k));
        first_at_none(s@, part@, from as int);
    }
    None
}

/// Returns what follows the first field of that name.
fn rest_after<'a>(body: &'a str, field: &str) -> (r: Option<&'a str>)
    ensures
        match r {
            Some(rest) => after_field(body@, field@) == Some(rest@),
            None => after_field(body@, field@) is None,
        },
{
    let head = "\"".to_owned().concat(field).concat("\":");
    match find_from(body, head.as_str(), 0) {
        Some(at) => {
            proof {
                first_at_bounds(body@, head@, 0);
            }
            let end: usize = body.unicode_len();
            let width: usize = head.as_str().unicode_len();
            let rest = body.substring_char(at + width, end);
            assert(rest@ =~= body@.skip(at + head@.len()));
            Some(rest)
        },
        None => None,
    }
}

/// Returns the text of the first field of that name, where it has one.
pub fn string_field(body: &str, field: &str) -> (r: Option<String>)
    ensures
        text::option_view(r) == text_of_field(body@, field@),
{
    let rest = rest_after(body, field)?;
    if rest.is_empty() || rest.get_char(0) != '"' {
        return None;
    }
    proof {
        reveal_strlit("\"");
        assert("\""@ =~= seq!['"']);
        first_at_bounds(rest@, seq!['"'], 1);
    }
    match find_from(rest, "\"", 1) {
        Some(end) => Some(rest.substring_char(1, end).to_owned()),
        None => None,
    }
}

proof fn trim_start_skips(s: Seq<char>, k: int)
    requires
        0 <= k <= s.len(),
        forall|i: int| 0 <= i < k ==> text::white_space(#[trigger] s[i]),
        k < s.len() ==> !text::white_space(s[k]),
    ensures
        text::trim_start(s) == s.skip(k),
    decreases k,
{
    if k > 0 {
        assert(text::white_space(s[0]));
        let rest = s.drop_first();
        assert forall|i: int| 0 <= i < k - 1 implies text::white_space(#[trigger] rest[i]) by {
            assert(rest[i] == s[i + 1]);
        }
        trim_start_skips(rest, k - 1);
        assert(rest.skip(k - 1) =~= s.skip(k));
    } else {
        assert(s.skip(0) =~= s);
    }
}

proof fn leading_digits_are(s: Seq<char>, k: int)
    requires
        0 <= k <= s.len(),
        forall|i: int| 0 <= i < k ==> '0' <= (#[trigger] s[i]) <= '9',
        k < s.len() ==> !('0' <= s[k] <= '9'),
    ensures
        leading_digits(s) == s.take(k),
    decreases k,
{
    if k > 0 {
        assert('0' <= s[0] <= '9');
        let rest = s.drop_first();
        assert forall|i: int| 0 <= i < k - 1 implies '0' <= (#[trigger] rest[i]) <= '9' by {
            assert(rest[i] == s[i + 1]);
        }
        leading_digits_are(rest, k - 1);
        assert(seq![s[0]] + rest.take(k - 1) =~= s.take(k));
    } else {
        assert(s.take(0) =~= Seq::empty());
    }
}

proof fn more_digits_write_more(digits: Seq<char>, k: int)
    requires
        0 <= k <= digits.len(),
        forall|i: int| 0 <= i < digits.len() ==> '0' <= (#[trigger] digits[i]) <= '9',
    ensures
        digits_value(digits.take(k)) <= digits_value(digits),
    decreases digits.len(),
{
    if k < digits.len() {
        assert(digits.drop_last().take(k) =~= digits.take(k));
        more_digits_write_more(digits.drop_last(), k);
    } else {
        assert(digits.take(k) =~= digits);
    }
}

/// Returns the unsigned number of the first field of that name, where it has one that fits.
pub fn u64_field(body: &str, field: &str) -> (r: Option<u64>)
    ensures
        r == number_of_field(body@, field@),
{
    let rest = rest_after(body, field)?;
    let chars = chars_of(rest);
    let n: usize = chars.len();
    let mut from: usize = 0;
    while from < n && is_white_space(chars[from])
        invariant
            chars@ == rest@,
            n == rest@.len(),
            from <= n,
            forall|i: int| 0 <= i < from ==> text::white_space(#[trigger] rest@[i]),
        decreases n - from,
    {
        from = from + 1;
    }
    proof {
        trim_start_skips(rest@, from as int);
    }
    let ghost trimmed = rest@.skip(from as int);
    let mut to: usize = from;
    while to < n && '0' <= chars[to] && chars[to] <= '9'
        invariant
            chars@ == rest@,
            n == rest@.len(),
            from <= to <= n,
            trimmed == rest@.skip(from as int),
            forall|i: int| 0 <= i < to - from ==> '0' <= (#[trigger] trimmed[i]) <= '9',
        decreases n - to,
    {
        assert(trimmed[to - from] == rest@[to as int]);
        to = to + 1;
    }
    proof {
        assert(to < n ==> trimmed[to - from] == rest@[to as int]);
        leading_digits_are(trimmed, to - from);
    }
    let ghost digits = trimmed.take(to - from);
    if from == to {
        return None;
    }
    let mut value: u64 = 0;
    let mut at: usize = from;
    assert(digits.take(0) =~= Seq::empty());
    while at < to
        invariant
            chars@ == rest@,
            from <= at <= to <= rest@.len(),
            trimmed == rest@.skip(from as int),
            digits == trimmed.take(to - from),
            digits.len() > 0,
            after_field(body@, field@) == Some(rest@),
            leading_digits(text::trim_start(rest@)) == digits,
            forall|i: int| 0 <= i < digits.len() ==> '0' <= (#[trigger] digits[i]) <= '9',
            value == digits_value(digits.take(at - from)),
        decreases to - at,
    {
        let ghost next = digits.take(at - from + 1);
        proof {
            assert(next.drop_last() =~= digits.take(at - from));
            assert(next.last() == rest@[at as int]);
            more_digits_write_more(digits, at - from + 1);
        }
        let digit: u64 = (chars[at] as u32 - 48) as u64;
        let scaled: Option<u64> = value.checked_mul(10);
        let grown: Option<u64> = match scaled {
            Some(scaled) => scaled.checked_add(digit),
            None => None,
        };
        match grown {
            Some(grown) => {
                value = grown;
            },
            None => {
                return None;
            },
        }
        at = at + 1;
    }
    assert(digits.take(to - from) =~= digits);
    Some(value)
}

// ---------------------------------------------------------------------------------------------
// Laws
// ---------------------------------------------------------------------------------------------
/// What is found is the first occurrence, and nothing is found exactly where there is none.
pub proof fn first_occurrence_is_found(s: Seq<char>, part: Seq<char>, from: int)
    requires
        0 <= from,
    ensures
        first_at(s, part, from) matches Some(at) ==> from <= at && text::occurs_at(s, part, at) && (
        forall|k: int| from <= k < at ==> !#[trigger] text::occurs_at(s, part, k)),
        first_at(s, part, from) is None ==> (forall|k: int|
            from <= k ==> !#[trigger] text::occurs_at(s, part, k)),
    decreases s.len() - from + 1,
{
    if from + part.len() <= s.len() && !text::occurs_at(s, part, from) {
        first_occurrence_is_found(s, part, from + 1);
    }
}

/// A field is read as the text between its quotes, where its name with quotes and a colon stands
/// nowhere before.
pub proof fn quoted_fields_are_read(
    before: Seq<char>,
    field: Seq<char>,
    value: Seq<char>,
    rest: Seq<char>,
)
    requires
        forall|i: int| 0 <= i < value.len() ==> #[trigger] value[i] != '"',
        forall|k: int|
            0 <= k < before.len() ==> !#[trigger] text::occurs_at(
                before + ("\""@ + field + "\":"@) + (seq!['"'] + value + seq!['"'] + rest),
                "\""@ + field + "\":"@,
                k,
            ),
    ensures
        text_of_field(
            before + ("\""@ + field + "\":"@) + (seq!['"'] + value + seq!['"'] + rest),
            field,
        ) == Some(value),
{
    let head = "\""@ + field + "\":"@;
    let tail = seq!['"'] + value + seq!['"'] + rest;
    let body = before + head + tail;
    let at = before.len() as int;
    assert(body.subrange(at, at + head.len()) =~= head);
    first_at_is(body, head, 0, at);
    assert(body.skip(at + head.len()) =~= tail);
    let end = 1 + value.len() as int;
    assert(tail[end] == '"');
    assert(tail.subrange(end, end + 1) =~= seq!['"']);
    assert forall|k: int| 1 <= k < end implies !text::occurs_at(tail, seq!['"'], k) by {
        if text::occurs_at(tail, seq!['"'], k) {
            assert(tail.subrange(k, k + 1)[0] == tail[k]);
            assert(tail[k] == value[k - 1]);
        }
    }
    first_at_is(tail, seq!['"'], 1, end);
    assert(tail.subrange(1, end) =~= value);
}

proof fn digits_write_numbers(s: Seq<char>)
    ensures
        digits_value(s) == text::written_number(s),
    decreases s.len(),
{
    if s.len() > 0 {
        digits_write_numbers(s.drop_last());
    }
}

/// A field is read as the number after it, where its name with quotes and a colon stands nowhere
/// before and no digit follows the number.
pub proof fn number_fields_are_read(before: Seq<char>, field: Seq<char>, n: u64, rest: Seq<char>)
    requires
        rest.len() > 0 ==> !('0' <= rest[0] <= '9'),
        forall|k: int|
            0 <= k < before.len() ==> !#[trigger] text::occurs_at(
                before + ("\""@ + field + "\":"@) + (text::decimal(n as nat) + rest),
                "\""@ + field + "\":"@,
                k,
            ),
    ensures
        number_of_field(
            before + ("\""@ + field + "\":"@) + (text::decimal(n as nat) + rest),
            field,
        ) == Some(n),
{
    let head = "\""@ + field + "\":"@;
    let digits = text::decimal(n as nat);
    let tail = digits + rest;
    let body = before + head + tail;
    let at = before.len() as int;
    assert(body.subrange(at, at + head.len()) =~= head);
    first_at_is(body, head, 0, at);
    assert(body.skip(at + head.len()) =~= tail);
    text::decimal_texts_write_their_number(n as nat);
    assert('0' <= digits[0] <= '9');
    assert(tail[0] == digits[0]);
    trim_start_skips(tail, 0);
    assert(tail.skip(0) =~= tail);
    let k = digits.len() as int;
    assert forall|i: int| 0 <= i < k implies '0' <= (#[trigger] tail[i]) <= '9' by {
        assert(tail[i] == digits[i]);
    }
    if k < tail.len() {
        assert(tail[k] == rest[0]);
    }
    leading_digits_are(tail, k);
    assert(tail.take(k) =~= digits);
    digits_write_numbers(digits);
}

} // verus!
