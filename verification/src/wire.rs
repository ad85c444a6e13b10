//! The wire shapes: decimal identifiers and JSON bodies.
//!
//! The service frames its own responses: a created-ticket body, a
//! ticket snapshot body and a uniform error envelope.  The decimal
//! reading of a path segment and the JSON string escaping are specified
//! exactly, character by character.

use vstd::prelude::*;
use vstd::string::StrSliceExecFns;
use vstd::string::StringExecFns;

use crate::data::{Status, Ticket, TicketView};
use crate::error::{spec_app_error_message, AppError};
use crate::store::TicketId;

verus! {

/// The character for one decimal digit.
pub open spec fn spec_digit_char(d: int) -> char
    recommends
        0 <= d < 10,
{
    if d == 0 {
        '0'
    } else if d == 1 {
        '1'
    } else if d == 2 {
        '2'
    } else if d == 3 {
        '3'
    } else if d == 4 {
        '4'
    } else if d == 5 {
        '5'
    } else if d == 6 {
        '6'
    } else if d == 7 {
        '7'
    } else if d == 8 {
        '8'
    } else {
        '9'
    }
}

/// The decimal rendering of `n`, most significant digit first, with no
/// sign and no leading zero (except for `n == 0` itself).
pub open spec fn spec_u64_decimal(n: u64) -> Seq<char>
    decreases n,
{
    if n < 10 {
        seq![spec_digit_char(n as int)]
    } else {
        spec_u64_decimal(n / 10).push(spec_digit_char((n % 10) as int))
    }
}

/// The one-character string for a decimal digit.
fn digit_str(d: u64) -> (r: &'static str)
    requires
        d < 10,
    ensures
        r@ == seq![spec_digit_char(d as int)],
{
    if d == 0 {
        proof {
            reveal_strlit("0");
            assert("0"@ =~= seq!['0']);
        }
        "0"
    } else if d == 1 {
        proof {
            reveal_strlit("1");
            assert("1"@ =~= seq!['1']);
        }
        "1"
    } else if d == 2 {
        proof {
            reveal_strlit("2");
            assert("2"@ =~= seq!['2']);
        }
        "2"
    } else if d == 3 {
        proof {
            reveal_strlit("3");
            assert("3"@ =~= seq!['3']);
        }
        "3"
    } else if d == 4 {
        proof {
            reveal_strlit("4");
            assert("4"@ =~= seq!['4']);
        }
        "4"
    } else if d == 5 {
        proof {
            reveal_strlit("5");
            assert("5"@ =~= seq!['5']);
        }
        "5"
    } else if d == 6 {
        proof {
            reveal_strlit("6");
            assert("6"@ =~= seq!['6']);
        }
        "6"
    } else if d == 7 {
        proof {
            reveal_strlit("7");
            assert("7"@ =~= seq!['7']);
        }
        "7"
    } else if d == 8 {
        proof {
            reveal_strlit("8");
            assert("8"@ =~= seq!['8']);
        }
        "8"
    } else {
        proof {
            reveal_strlit("9");
            assert("9"@ =~= seq!['9']);
        }
        "9"
    }
}

/// Renders `n` in decimal.
pub fn u64_to_decimal(n: u64) -> (r: String)
    ensures
        r@ == spec_u64_decimal(n),
    decreases n,
{
    if n < 10 {
        let s = digit_str(n);
        s.to_owned()
    } else {
        let mut prefix = u64_to_decimal(n / 10);
        let d = digit_str(n % 10);
        prefix.append(d);
        proof {
            assert(prefix@ =~= spec_u64_decimal(n));
        }
        prefix
    }
}

/// Whether `c` is a decimal digit.
pub open spec fn is_ascii_digit(c: char) -> bool {
    48 <= c as u32 <= 57
}

/// The value of a decimal digit character.
pub open spec fn digit_value(c: char) -> int
    recommends
        is_ascii_digit(c),
{
    c as u32 - 48
}

/// Whether every character of `s` is a decimal digit.
pub open spec fn all_ascii_digits(s: Seq<char>) -> bool {
    forall|i: int| 0 <= i < s.len() ==> is_ascii_digit(#[trigger] s[i])
}

/// The number a digit string denotes, most significant digit first.
pub open spec fn spec_digits_value(s: Seq<char>) -> int
    recommends
        all_ascii_digits(s),
    decreases s.len(),
{
    if s.len() == 0 {
        0
    } else {
        spec_digits_value(s.drop_last()) * 10 + digit_value(s.last())
    }
}

/// What `s` denotes as an unsigned 64-bit integer: an optional leading
/// `+`, then one or more decimal digits, denoting a value that fits.
pub open spec fn spec_parse_u64(s: Seq<char>) -> Option<u64> {
    let digits = if s.len() > 0 && s[0] == '+' {
        s.subrange(1, s.len() as int)
    } else {
        s
    };
    if digits.len() > 0 && all_ascii_digits(digits) && spec_digits_value(digits) <= u64::MAX {
        Some(spec_digits_value(digits) as u64)
    } else {
        None
    }
}

proof fn lemma_digits_value_nonneg(s: Seq<char>)
    requires
        all_ascii_digits(s),
    ensures
        spec_digits_value(s) >= 0,
    decreases s.len(),
{
    if s.len() > 0 {
        assert(all_ascii_digits(s.drop_last()));
        lemma_digits_value_nonneg(s.drop_last());
    }
}

/// Reading more digits never shrinks the value: every prefix of a
/// digit string denotes at most what the whole string denotes.
proof fn lemma_digits_value_monotone(s: Seq<char>, i: int)
    requires
        all_ascii_digits(s),
        0 <= i <= s.len(),
    ensures
        spec_digits_value(s.subrange(0, i)) <= spec_digits_value(s),
    decreases s.len() - i,
{
    if i == s.len() {
        assert(s.subrange(0, i) =~= s);
    } else {
        lemma_digits_value_monotone(s, i + 1);
        let p = s.subrange(0, i + 1);
        assert(p.drop_last() =~= s.subrange(0, i));
        assert(all_ascii_digits(s.subrange(0, i)));
        lemma_digits_value_nonneg(s.subrange(0, i));
    }
}

proof fn lemma_decimal_digits(n: u64)
    ensures
        spec_u64_decimal(n).len() > 0,
        all_ascii_digits(spec_u64_decimal(n)),
        spec_digits_value(spec_u64_decimal(n)) == n,
    decreases n,
{
    if n < 10 {
        let s = spec_u64_decimal(n);
        assert(s =~= seq![spec_digit_char(n as int)]);
        assert(s.drop_last() =~= Seq::<char>::empty());
        assert(spec_digits_value(Seq::<char>::empty()) == 0);
        assert(is_ascii_digit(spec_digit_char(n as int)));
        assert(digit_value(spec_digit_char(n as int)) == n);
    } else {
        lemma_decimal_digits(n / 10);
        let p = spec_u64_decimal(n / 10);
        let s = spec_u64_decimal(n);
        assert(s == p.push(spec_digit_char((n % 10) as int)));
        assert(s.drop_last() =~= p);
        assert(s.last() == spec_digit_char((n % 10) as int));
        assert(is_ascii_digit(spec_digit_char((n % 10) as int)));
        assert(digit_value(spec_digit_char((n % 10) as int)) == n % 10);
        assert forall|i: int| 0 <= i < s.len() implies is_ascii_digit(#[trigger] s[i]) by {
            if i < p.len() {
                assert(s[i] == p[i]);
            }
        }
        assert(spec_digits_value(s) == spec_digits_value(p) * 10 + (n % 10));
    }
}

/// Law: the decimal rendering of an identifier reads back as the same
/// identifier.
pub proof fn lemma_decimal_round_trip(n: u64)
    ensures
        spec_parse_u64(spec_u64_decimal(n)) == Some(n),
{
    lemma_decimal_digits(n);
    let s = spec_u64_decimal(n);
    assert(is_ascii_digit(s[0]));
    assert(s[0] as u32 != 43) by {
        assert(48 <= s[0] as u32 <= 57);
    }
    assert('+' as u32 == 43);
    assert(s[0] != '+');
}

/// Reads `s` as an unsigned 64-bit integer, accepting an optional
/// leading `+`, rejecting everything else and every value that does
/// not fit.
pub fn parse_u64(s: &str) -> (r: Option<u64>)
    ensures
        r == spec_parse_u64(s@),
{
    let len = s.unicode_len();
    if len == 0 {
        return None;
    }
    let first = s.get_char(0);
    let start: usize = if first == '+' {
        1
    } else {
        0
    };
    let ghost digits = if s@[0] == '+' {
        s@.subrange(1, s@.len() as int)
    } else {
        s@
    };
    if start == len {
        proof {
            assert(digits.len() == 0);
        }
        return None;
    }
    let mut i: usize = start;
    let mut acc: u64 = 0;
    while i < len
        invariant
            start <= i <= len,
            start < len,
            len == s@.len(),
            (start == 1) == (s@[0] == '+'),
            start == 0 || start == 1,
            digits == (if s@[0] == '+' {
                s@.subrange(1, s@.len() as int)
            } else {
                s@
            }),
            digits.len() == len - start,
            forall|j: int| 0 <= j < i - start ==> is_ascii_digit(#[trigger] digits[j]),
            acc == spec_digits_value(digits.subrange(0, i - start)),
        decreases len - i,
    {
        let c = s.get_char(i);
        proof {
            assert(digits[i - start] == s@[i as int]);
        }
        let u = c as u32;
        if u < 48 || u > 57 {
            proof {
                assert(!is_ascii_digit(digits[i - start]));
                assert(!all_ascii_digits(digits));
            }
            return None;
        }
        let d = (u - 48) as u64;
        if acc > (u64::MAX - d) / 10 {
            proof {
                let k = i - start;
                let p = digits.subrange(0, k + 1);
                assert(p.drop_last() =~= digits.subrange(0, k));
                assert(spec_digits_value(p) == acc * 10 + d);
                assert(acc * 10 + d > u64::MAX) by {
                    let q = ((u64::MAX - d) / 10) as int;
                    assert((u64::MAX - d) as int == 10 * q + ((u64::MAX - d) as int % 10));
                    assert(acc >= q + 1);
                    assert(acc * 10 >= (q + 1) * 10) by (nonlinear_arith)
                        requires
                            acc >= q + 1,
                    ;
                }
                if all_ascii_digits(digits) {
                    lemma_digits_value_monotone(digits, k + 1);
                    assert(spec_digits_value(digits) > u64::MAX);
                }
            }
            return None;
        }
        proof {
            let q = ((u64::MAX - d) / 10) as int;
            assert((u64::MAX - d) as int == 10 * q + ((u64::MAX - d) as int % 10));
            assert(acc * 10 <= q * 10) by (nonlinear_arith)
                requires
                    acc <= q,
            ;
        }
        let next = acc * 10 + d;
        proof {
            let k = i - start;
            let p = digits.subrange(0, k + 1);
            assert(p.drop_last() =~= digits.subrange(0, k));
            assert(spec_digits_value(p) == acc * 10 + d);
        }
        acc = next;
        i = i + 1;
    }
    proof {
        assert(digits.subrange(0, i - start) =~= digits);
        assert(all_ascii_digits(digits));
        assert(spec_digits_value(digits) == acc);
    }
    Some(acc)
}

/// The character for one lowercase hexadecimal digit.
pub open spec fn spec_hex_char(d: int) -> char
    recommends
        0 <= d < 16,
{
    if d < 10 {
        spec_digit_char(d)
    } else if d == 10 {
        'a'
    } else if d == 11 {
        'b'
    } else if d == 12 {
        'c'
    } else if d == 13 {
        'd'
    } else if d == 14 {
        'e'
    } else {
        'f'
    }
}

/// How one character appears inside a JSON string: quote and backslash
/// get a backslash escape, the common control characters their short
/// escapes, every other control character a `\u00..` escape, and
/// everything else stands as itself.
pub open spec fn spec_escape_char(c: char) -> Seq<char> {
    if c == '"' {
        seq!['\\', '"']
    } else if c == '\\' {
        seq!['\\', '\\']
    } else if c as u32 == 8 {
        seq!['\\', 'b']
    } else if c as u32 == 9 {
        seq!['\\', 't']
    } else if c as u32 == 10 {
        seq!['\\', 'n']
    } else if c as u32 == 12 {
        seq!['\\', 'f']
    } else if c as u32 == 13 {
        seq!['\\', 'r']
    } else if (c as u32) < 32 {
        let hi = spec_hex_char((c as u32 / 16) as int);
        let lo = spec_hex_char((c as u32 % 16) as int);
        seq!['\\', 'u', '0', '0', hi, lo]
    } else {
        seq![c]
    }
}

/// How a whole string appears inside a JSON string.
pub open spec fn spec_escape(s: Seq<char>) -> Seq<char>
    decreases s.len(),
{
    if s.len() == 0 {
        Seq::<char>::empty()
    } else {
        spec_escape(s.drop_last()) + spec_escape_char(s.last())
    }
}

/// The one-character string for a lowercase hexadecimal digit.
fn hex_str(d: u32) -> (r: &'static str)
    requires
        d < 16,
    ensures
        r@ == seq![spec_hex_char(d as int)],
{
    if d < 10 {
        digit_str(d as u64)
    } else if d == 10 {
        proof {
            reveal_strlit("a");
            assert("a"@ =~= seq!['a']);
        }
        "a"
    } else if d == 11 {
        proof {
            reveal_strlit("b");
            assert("b"@ =~= seq!['b']);
        }
        "b"
    } else if d == 12 {
        proof {
            reveal_strlit("c");
            assert("c"@ =~= seq!['c']);
        }
        "c"
    } else if d == 13 {
        proof {
            reveal_strlit("d");
            assert("d"@ =~= seq!['d']);
        }
        "d"
    } else if d == 14 {
        proof {
            reveal_strlit("e");
            assert("e"@ =~= seq!['e']);
        }
        "e"
    } else {
        proof {
            reveal_strlit("f");
            assert("f"@ =~= seq!['f']);
        }
        "f"
    }
}

/// Escapes `s` for inclusion inside a JSON string literal.
pub fn json_escape(s: &str) -> (r: String)
    ensures
        r@ == spec_escape(s@),
{
    let len = s.unicode_len();
    let mut out = String::new();
    let mut i: usize = 0;
    while i < len
        invariant
            i <= len,
            len == s@.len(),
            out@ == spec_escape(s@.subrange(0, i as int)),
        decreases len - i,
    {
        let c = s.get_char(i);
        let u = c as u32;
        if c == '"' {
            proof {
                reveal_strlit("\\\"");
                assert("\\\""@ =~= seq!['\\', '"']);
            }
            out.append("\\\"");
        } else if c == '\\' {
            proof {
                reveal_strlit("\\\\");
                assert("\\\\"@ =~= seq!['\\', '\\']);
            }
            out.append("\\\\");
        } else if u == 8 {
            proof {
                reveal_strlit("\\b");
                assert("\\b"@ =~= seq!['\\', 'b']);
            }
            out.append("\\b");
        } else if u == 9 {
            proof {
                reveal_strlit("\\t");
                assert("\\t"@ =~= seq!['\\', 't']);
            }
            out.append("\\t");
        } else if u == 10 {
            proof {
                reveal_strlit("\\n");
                assert("\\n"@ =~= seq!['\\', 'n']);
            }
            out.append("\\n");
        } else if u == 12 {
            proof {
                reveal_strlit("\\f");
                assert("\\f"@ =~= seq!['\\', 'f']);
            }
            out.append("\\f");
        } else if u == 13 {
            proof {
                reveal_strlit("\\r");
                assert("\\r"@ =~= seq!['\\', 'r']);
            }
            out.append("\\r");
        } else if u < 32 {
            proof {
                reveal_strlit("\\u00");
                assert("\\u00"@ =~= seq!['\\', 'u', '0', '0']);
            }
            out.append("\\u00");
            out.append(hex_str(u / 16));
            out.append(hex_str(u % 16));
        } else {
            let piece = s.substring_char(i, i + 1);
            proof {
                assert(piece@ =~= seq![s@[i as int]]);
            }
            out.append(piece);
        }
        proof {
            let p = s@.subrange(0, i + 1);
            assert(p.drop_last() =~= s@.subrange(0, i as int));
            assert(p.last() == s@[i as int]);
            assert(out@ =~= spec_escape(p));
        }
        i = i + 1;
    }
    proof {
        assert(s@.subrange(0, len as int) =~= s@);
    }
    out
}

/// The canonical wire token of a status.
pub open spec fn spec_status_token(s: Status) -> Seq<char> {
    match s {
        Status::ToDo => "ToDo"@,
        Status::InProgress => "InProgress"@,
        Status::Done => "Done"@,
    }
}

/// Renders a status as its canonical wire token.
pub fn status_token(s: &Status) -> (r: &'static str)
    ensures
        r@ == spec_status_token(*s),
{
    match s {
        Status::ToDo => "ToDo",
        Status::InProgress => "InProgress",
        Status::Done => "Done",
    }
}

/// Law: the canonical wire token of every status parses back to that
/// status — output is canonical-case, input is case-insensitive, and
/// the two agree.
pub proof fn lemma_status_token_round_trip(st: Status)
    ensures
        crate::data::status_of(spec_status_token(st)) == Some(st),
{
    reveal_strlit("ToDo");
    reveal_strlit("todo");
    reveal_strlit("InProgress");
    reveal_strlit("inprogress");
    reveal_strlit("Done");
    reveal_strlit("done");
    match st {
        Status::ToDo => {
            assert(crate::data::ci_eq("ToDo"@, "todo"@));
        },
        Status::InProgress => {
            assert(!crate::data::ci_eq("InProgress"@, "todo"@));
            assert(crate::data::ci_eq("InProgress"@, "inprogress"@));
        },
        Status::Done => {
            assert(crate::data::lower_code("Done"@[0]) != crate::data::lower_code("todo"@[0]));
            assert(!crate::data::ci_eq("Done"@, "todo"@));
            assert(!crate::data::ci_eq("Done"@, "inprogress"@));
            assert(crate::data::ci_eq("Done"@, "done"@));
        },
    }
}

/// The JSON body of a successful creation: `{"id":N}`.
pub open spec fn spec_created_body(id: u64) -> Seq<char> {
    "{\"id\":"@ + spec_u64_decimal(id) + "}"@
}

/// Renders the JSON body of a successful creation.
pub fn created_body(id: TicketId) -> (r: String)
    ensures
        r@ == spec_created_body(id.0),
{
    let mut s = "{\"id\":".to_owned();
    let digits = u64_to_decimal(id.0);
    s.append(digits.as_str());
    s.append("}");
    s
}

/// The JSON body of a ticket snapshot:
/// `{"id":N,"title":"…","description":"…","status":"…"}`, with the
/// textual fields escaped.
pub open spec fn spec_ticket_body(t: TicketView) -> Seq<char> {
    "{\"id\":"@ + spec_u64_decimal(t.id) + ",\"title\":\""@ + spec_escape(t.title)
        + "\",\"description\":\""@ + spec_escape(t.description) + "\",\"status\":\""@
        + spec_status_token(t.status) + "\"}"@
}

/// Renders the JSON body of a ticket snapshot.
pub fn ticket_body(t: &Ticket) -> (r: String)
    ensures
        r@ == spec_ticket_body(t@),
{
    let mut s = "{\"id\":".to_owned();
    let digits = u64_to_decimal(t.id.0);
    s.append(digits.as_str());
    s.append(",\"title\":\"");
    let title = json_escape(t.title.as_str());
    s.append(title.as_str());
    s.append("\",\"description\":\"");
    let description = json_escape(t.description.as_str());
    s.append(description.as_str());
    s.append("\",\"status\":\"");
    s.append(status_token(&t.status));
    s.append("\"}");
    s
}

/// The JSON error envelope: `{"error":"…"}`, holding the error's
/// stable message, escaped.
pub open spec fn spec_error_body(e: AppError) -> Seq<char> {
    "{\"error\":\""@ + spec_escape(spec_app_error_message(e)) + "\"}"@
}

/// Renders the JSON error envelope; no partial or successful payload
/// is ever mixed in.
pub fn error_body(e: &AppError) -> (r: String)
    ensures
        r@ == spec_error_body(*e),
{
    let mut s = "{\"error\":\"".to_owned();
    let msg = e.message();
    let escaped = json_escape(msg.as_str());
    s.append(escaped.as_str());
    s.append("\"}");
    s
}

} // verus!
