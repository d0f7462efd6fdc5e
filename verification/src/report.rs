//! The lines that report the outcome of a request to the user.

use vstd::prelude::*;
use vstd::string::StringExecFns;
use crate::clerk::outcome_view;

verus! {

/// The lower-case hexadecimal digit of `n` (below 16).
pub open spec fn hex_digit(n: int) -> char {
    if n < 10 {
        (48 + n) as char
    } else {
        (87 + n) as char
    }
}

/// How one byte is written between the quotes of a byte string: the escapes
/// `\n`, `\r`, `\t`, `\\`, `\"` and `\0`, printable ASCII as itself, and any
/// other byte as `\x` and two lower-case hexadecimal digits.
pub open spec fn escaped_byte(b: u8) -> Seq<char> {
    if b == 0x0a {
        seq!['\\', 'n']
    } else if b == 0x0d {
        seq!['\\', 'r']
    } else if b == 0x09 {
        seq!['\\', 't']
    } else if b == 0x5c || b == 0x22 {
        seq!['\\', b as char]
    } else if b == 0 {
        seq!['\\', '0']
    } else if 0x20 <= b < 0x7f {
        seq![b as char]
    } else {
        seq!['\\', 'x', hex_digit((b / 16) as int), hex_digit((b % 16) as int)]
    }
}

/// The escaped bytes, one after the other.
pub open spec fn escaped_bytes(s: Seq<u8>) -> Seq<char>
    decreases s.len(),
{
    if s.len() == 0 {
        Seq::empty()
    } else {
        escaped_bytes(s.drop_last()) + escaped_byte(s.last())
    }
}

/// The text of bytes as a byte-string literal: `b"`, the escaped bytes, `"`.
pub open spec fn bytes_text(s: Seq<u8>) -> Seq<char> {
    seq!['b', '"'] + escaped_bytes(s) + seq!['"']
}

/// Formats the bytes with the `Debug` impl of `bytes::Bytes`. Claimed of it:
/// the text is `bytes_text` of the bytes, as the loop of
/// `impl Debug for BytesRef` in the `bytes` crate writes it.
#[verifier::external_body]
fn bytes_debug(data: &[u8]) -> (text: String)
    ensures
        text@ == bytes_text(data@),
{
    format!("{:?}", bytes::Bytes::copy_from_slice(data))
}

/// The line that reports the outcome of a `SET` (`Err` holds the text of the
/// error).
pub open spec fn set_outcome_text(outcome: Result<(), Seq<char>>) -> Seq<char> {
    match outcome {
        Ok(_) => "[SUCCESS] SET"@,
        Err(e) => "[FAIL] SET error: "@ + e,
    }
}

/// The line that reports the outcome of a `GET` (`Err` holds the text of the
/// error).
pub open spec fn get_outcome_text(outcome: Result<Option<Seq<u8>>, Seq<char>>) -> Seq<char> {
    match outcome {
        Ok(Some(data)) => "[SUCCESS] GET output: "@ + bytes_text(data),
        Ok(None) => "[SUCCESS] GET output empty"@,
        Err(e) => "[FAIL] GET error: "@ + e,
    }
}

/// A line reports a failure: it starts with `[FAIL]`.
pub open spec fn reports_failure(line: Seq<char>) -> bool {
    line.len() >= 6 && line.subrange(0, 6) == "[FAIL]"@
}

/// The line of a `SET` reports a failure exactly when the `SET` failed; a
/// successful `SET` reads `[SUCCESS] SET`.
pub proof fn lemma_set_line_reports_failure_iff_error(outcome: Result<(), Seq<char>>)
    ensures
        reports_failure(set_outcome_text(outcome)) <==> outcome is Err,
        outcome is Ok ==> set_outcome_text(outcome) == "[SUCCESS] SET"@,
{
    reveal_strlit("[FAIL]");
    reveal_strlit("[SUCCESS] SET");
    reveal_strlit("[FAIL] SET error: ");
    let line = set_outcome_text(outcome);
    if outcome is Ok {
        assert(line.subrange(0, 6)[1] == 'S');
    } else {
        assert(line.subrange(0, 6) =~= "[FAIL]"@);
    }
}

/// The line of a failed `SET` is `[FAIL] SET error: ` followed by the whole
/// error text, so different errors give different lines.
pub proof fn lemma_set_error_line(e: Seq<char>, other: Seq<char>)
    ensures
        set_outcome_text(Err(e)).len() == 18 + e.len(),
        set_outcome_text(Err(e)).subrange(0, 18) == "[FAIL] SET error: "@,
        set_outcome_text(Err(e)).subrange(18, (18 + e.len()) as int) == e,
        set_outcome_text(Err(e)) == set_outcome_text(Err(other)) ==> e == other,
{
    reveal_strlit("[FAIL] SET error: ");
    let l = set_outcome_text(Err(e));
    let m = set_outcome_text(Err(other));
    assert(l.subrange(0, 18) =~= "[FAIL] SET error: "@);
    assert(l.subrange(18, (18 + e.len()) as int) =~= e);
    assert(m.subrange(18, (18 + other.len()) as int) =~= other);
}

/// The line of a `GET` reports a failure exactly when the `GET` failed; a
/// `GET` that found nothing reads `[SUCCESS] GET output empty`.
pub proof fn lemma_get_line_reports_failure_iff_error(outcome: Result<Option<Seq<u8>>, Seq<char>>)
    ensures
        reports_failure(get_outcome_text(outcome)) <==> outcome is Err,
        outcome == Ok::<Option<Seq<u8>>, Seq<char>>(None) ==> get_outcome_text(outcome)
            == "[SUCCESS] GET output empty"@,
{
    reveal_strlit("[FAIL]");
    reveal_strlit("[SUCCESS] GET output: ");
    reveal_strlit("[SUCCESS] GET output empty");
    reveal_strlit("[FAIL] GET error: ");
    let line = get_outcome_text(outcome);
    match outcome {
        Ok(Some(d)) => {
            assert(line[1] == 'S');
            assert(line.subrange(0, 6)[1] == 'S');
        },
        Ok(None) => {
            assert(line.subrange(0, 6)[1] == 'S');
        },
        Err(e) => {
            assert(line.subrange(0, 6) =~= "[FAIL]"@);
        },
    }
}

/// The line of a failed `GET` is `[FAIL] GET error: ` followed by the whole
/// error text, so different errors give different lines.
pub proof fn lemma_get_error_line(e: Seq<char>, other: Seq<char>)
    ensures
        get_outcome_text(Err(e)).len() == 18 + e.len(),
        get_outcome_text(Err(e)).subrange(0, 18) == "[FAIL] GET error: "@,
        get_outcome_text(Err(e)).subrange(18, (18 + e.len()) as int) == e,
        get_outcome_text(Err(e)) == get_outcome_text(Err(other)) ==> e == other,
{
    reveal_strlit("[FAIL] GET error: ");
    let l = get_outcome_text(Err(e));
    let m = get_outcome_text(Err(other));
    assert(l.subrange(0, 18) =~= "[FAIL] GET error: "@);
    assert(l.subrange(18, (18 + e.len()) as int) =~= e);
    assert(m.subrange(18, (18 + other.len()) as int) =~= other);
}

/// Every byte takes at least one character of a byte string.
proof fn lemma_escaped_len(d: Seq<u8>)
    ensures
        escaped_bytes(d).len() >= d.len(),
    decreases d.len(),
{
    if d.len() > 0 {
        lemma_escaped_len(d.drop_last());
    }
}

/// Printable ASCII other than `\` and `"` is written as itself.
pub open spec fn plain_text(d: Seq<u8>) -> bool {
    forall|i: int| 0 <= i < d.len() ==> 0x20 <= #[trigger] d[i] < 0x7f && d[i] != 0x5c && d[i]
        != 0x22
}

/// The characters of ASCII bytes.
pub open spec fn ascii_chars(d: Seq<u8>) -> Seq<char> {
    Seq::new(d.len(), |i: int| d[i] as char)
}

proof fn lemma_escaped_plain(d: Seq<u8>)
    requires
        plain_text(d),
    ensures
        escaped_bytes(d) == ascii_chars(d),
    decreases d.len(),
{
    if d.len() > 0 {
        let p = d.drop_last();
        assert(plain_text(p)) by {
            assert forall|i: int| 0 <= i < p.len() implies 0x20 <= #[trigger] p[i] < 0x7f && p[i]
                != 0x5c && p[i] != 0x22 by {
                assert(p[i] == d[i]);
            }
        }
        lemma_escaped_plain(p);
        let l = d.len() - 1;
        assert(d[l] == d.last());
        assert(escaped_bytes(d) =~= ascii_chars(d));
    }
}

/// A `GET` that found a value is reported as a success that shows the value:
/// the line starts with `[SUCCESS] GET output: b"` and ends with `"`, shows
/// every byte (at least one character each), differs from the line of a
/// `GET` that found nothing, and shows plain text as that very text.
pub proof fn lemma_get_value_line(d: Seq<u8>)
    ensures
        get_outcome_text(Ok(Some(d))).len() >= 25 + d.len(),
        get_outcome_text(Ok(Some(d))).subrange(0, 24) == "[SUCCESS] GET output: b\""@,
        get_outcome_text(Ok(Some(d))).last() == '"',
        get_outcome_text(Ok(Some(d))) != get_outcome_text(Ok(None)),
        plain_text(d) ==> get_outcome_text(Ok(Some(d))) == "[SUCCESS] GET output: b\""@
            + ascii_chars(d) + "\""@,
{
    reveal_strlit("[SUCCESS] GET output: ");
    reveal_strlit("[SUCCESS] GET output: b\"");
    reveal_strlit("[SUCCESS] GET output empty");
    reveal_strlit("\"");
    lemma_escaped_len(d);
    let line = get_outcome_text(Ok(Some(d)));
    assert(line.subrange(0, 24) =~= "[SUCCESS] GET output: b\""@);
    assert(line[20] == ':');
    assert(get_outcome_text(Ok(None))[20] == ' ');
    if plain_text(d) {
        lemma_escaped_plain(d);
        assert(line =~= "[SUCCESS] GET output: b\""@ + ascii_chars(d) + "\""@);
    }
}

/// The value of the outcome of a `GET`.
pub open spec fn get_outcome_view(outcome: Result<Option<Vec<u8>>, String>) -> Result<
    Option<Seq<u8>>,
    Seq<char>,
> {
    match outcome {
        Ok(Some(data)) => Ok(Some(data@)),
        Ok(None) => Ok(None),
        Err(e) => Err(e@),
    }
}

/// The line that reports the outcome of a `SET`.
pub fn set_outcome_line(outcome: &Result<(), String>) -> (line: String)
    ensures
        line@ == set_outcome_text(outcome_view(*outcome)),
{
    match outcome {
        Ok(_) => String::from_str("[SUCCESS] SET"),
        Err(e) => String::from_str("[FAIL] SET error: ").concat(e.as_str()),
    }
}

/// The line that reports the outcome of a `GET`.
pub fn get_outcome_line(outcome: &Result<Option<Vec<u8>>, String>) -> (line: String)
    ensures
        line@ == get_outcome_text(get_outcome_view(*outcome)),
{
    match outcome {
        Ok(Some(data)) => {
            let text = bytes_debug(data.as_slice());
            String::from_str("[SUCCESS] GET output: ").concat(text.as_str())
        },
        Ok(None) => String::from_str("[SUCCESS] GET output empty"),
        Err(e) => String::from_str("[FAIL] GET error: ").concat(e.as_str()),
    }
}

} // verus!
