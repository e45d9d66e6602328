//! Rendering of the two reply payloads as compact JSON text.
//!
//! A found record becomes `{"habitat":"…","diet":"…"}`; a miss becomes
//! `{"error":"Animal '…' not found."}` with the original, un-normalized
//! input inside the quotes. String contents are escaped the way a compact
//! JSON encoder writes them: quote and backslash get a backslash, control
//! characters get their short escape where one exists and a `\u00..` escape
//! otherwise, and every other character stands as itself.

use vstd::prelude::*;

use crate::text::push_char;
use crate::zoo::LookupResult;
use crate::zoo::ResultModel;

verus! {

/// The lower-case hexadecimal digit for a value below sixteen.
pub open spec fn hex_digit(n: nat) -> char {
    if n < 10 {
        (48 + n) as char
    } else {
        (87 + n) as char
    }
}

/// True of a character that JSON string escaping leaves as itself.
pub open spec fn is_plain(c: char) -> bool {
    c != '"' && c != '\\' && c as u32 >= 32
}

/// What JSON string escaping writes for one character.
pub open spec fn escape_char(c: char) -> Seq<char> {
    if c == '"' {
        seq!['\\', '"']
    } else if c == '\\' {
        seq!['\\', '\\']
    } else if c == '\u{08}' {
        seq!['\\', 'b']
    } else if c == '\u{09}' {
        seq!['\\', 't']
    } else if c == '\u{0A}' {
        seq!['\\', 'n']
    } else if c == '\u{0C}' {
        seq!['\\', 'f']
    } else if c == '\u{0D}' {
        seq!['\\', 'r']
    } else if (c as u32) < 32 {
        seq!['\\', 'u', '0', '0', hex_digit((c as u32 / 16) as nat), hex_digit(
            (c as u32 % 16) as nat,
        )]
    } else {
        seq![c]
    }
}

/// What JSON string escaping writes for a whole string.
pub open spec fn escape_of(s: Seq<char>) -> Seq<char>
    decreases s.len(),
{
    if s.len() == 0 {
        Seq::empty()
    } else {
        escape_char(s[0]) + escape_of(s.drop_first())
    }
}

/// The message carried by a miss: `Animal '<name>' not found.`, with the
/// original input between the single quotes.
pub open spec fn error_message_of(name: Seq<char>) -> Seq<char> {
    "Animal '"@ + name + "' not found."@
}

/// The serialized reply for a lookup outcome.
pub open spec fn rendered(r: ResultModel) -> Seq<char> {
    match r {
        ResultModel::Found(record) => "{\"habitat\":\""@ + escape_of(record.habitat)
            + "\",\"diet\":\""@ + escape_of(record.diet) + "\"}"@,
        ResultModel::NotFound { queried_name } => "{\"error\":\""@ + escape_of(
            error_message_of(queried_name),
        ) + "\"}"@,
    }
}

/// Escaping a string extended by one character appends that character's
/// escape.
proof fn lemma_escape_push(s: Seq<char>, c: char)
    ensures
        escape_of(s.push(c)) == escape_of(s) + escape_char(c),
    decreases s.len(),
{
    if s.len() == 0 {
        reveal_with_fuel(escape_of, 2);
        assert(s.push(c) =~= seq![c]);
        assert(seq![c].drop_first() =~= Seq::<char>::empty());
        assert(escape_char(c) + Seq::<char>::empty() =~= escape_char(c));
        assert(escape_of(s) + escape_char(c) =~= escape_char(c));
        assert(escape_of(s.push(c)) == escape_char(c));
    } else {
        assert(s.push(c).drop_first() =~= s.drop_first().push(c));
        lemma_escape_push(s.drop_first(), c);
        assert(escape_of(s.push(c)) =~= escape_of(s) + escape_char(c));
    }
}

/// Escaping leaves a string of plain characters unchanged.
pub proof fn lemma_escape_plain(s: Seq<char>)
    requires
        forall|i: int| 0 <= i < s.len() ==> is_plain(s[i]),
    ensures
        escape_of(s) == s,
    decreases s.len(),
{
    if s.len() == 0 {
        assert(escape_of(s) =~= s);
    } else {
        lemma_escape_plain(s.drop_first());
        assert(escape_char(s[0]) =~= seq![s[0]]);
        assert(seq![s[0]] + s.drop_first() =~= s);
    }
}

/// Law: when the queried name holds no character that JSON escaping
/// rewrites, a miss serializes to exactly
/// `{"error":"Animal '<name>' not found."}` — the name embedded in its
/// original casing, not the normalized one.
pub proof fn lemma_miss_rendering(name: Seq<char>)
    requires
        forall|i: int| 0 <= i < name.len() ==> is_plain(name[i]),
    ensures
        rendered(ResultModel::NotFound { queried_name: name }) == "{\"error\":\"Animal '"@ + name
            + "' not found.\"}"@,
{
    reveal_strlit("Animal '");
    reveal_strlit("' not found.");
    reveal_strlit("{\"error\":\"");
    reveal_strlit("\"}");
    reveal_strlit("{\"error\":\"Animal '");
    reveal_strlit("' not found.\"}");
    let head = "Animal '"@;
    let tail = "' not found."@;
    assert(forall|i: int| 0 <= i < head.len() ==> is_plain(#[trigger] head[i]));
    assert(forall|i: int| 0 <= i < tail.len() ==> is_plain(#[trigger] tail[i]));
    let message = error_message_of(name);
    assert(forall|i: int| 0 <= i < message.len() ==> is_plain(#[trigger] message[i]));
    lemma_escape_plain(message);
    assert("{\"error\":\""@ + (head + name + tail) + "\"}"@ =~= "{\"error\":\"Animal '"@ + name
        + "' not found.\"}"@);
}

/// Returns the lower-case hexadecimal digit for `n`, which is below sixteen.
fn hex_digit_exec(n: u32) -> (r: char)
    requires
        n < 16,
    ensures
        r == hex_digit(n as nat),
{
    if n < 10 {
        let b: u8 = (48 + n) as u8;
        assert(b == 48 + n) by (bit_vector)
            requires
                n < 10,
                b == (48 + n) as u8,
        ;
        b as char
    } else {
        let b: u8 = (87 + n) as u8;
        assert(b == 87 + n) by (bit_vector)
            requires
                10 <= n < 16,
                b == (87 + n) as u8,
        ;
        b as char
    }
}

/// Appends the JSON escaping of `s` to `out`.
fn append_escaped(out: &mut String, s: &str)
    ensures
        final(out)@ == old(out)@ + escape_of(s@),
{
    let ghost start = out@;
    for c in it: s.chars()
        invariant
            it.seq() == s@,
            out@ == start + escape_of(s@.take(it.index() as int)),
    {
        let ghost done = s@.take(it.index() as int);
        if c == '"' {
            out.append("\\\"");
            proof {
                reveal_strlit("\\\"");
                assert("\\\""@ =~= escape_char(c));
            }
        } else if c == '\\' {
            out.append("\\\\");
            proof {
                reveal_strlit("\\\\");
                assert("\\\\"@ =~= escape_char(c));
            }
        } else if c == '\u{08}' {
            out.append("\\b");
            proof {
                reveal_strlit("\\b");
                assert("\\b"@ =~= escape_char(c));
            }
        } else if c == '\u{09}' {
            out.append("\\t");
            proof {
                reveal_strlit("\\t");
                assert("\\t"@ =~= escape_char(c));
            }
        } else if c == '\u{0A}' {
            out.append("\\n");
            proof {
                reveal_strlit("\\n");
                assert("\\n"@ =~= escape_char(c));
            }
        } else if c == '\u{0C}' {
            out.append("\\f");
            proof {
                reveal_strlit("\\f");
                assert("\\f"@ =~= escape_char(c));
            }
        } else if c == '\u{0D}' {
            out.append("\\r");
            proof {
                reveal_strlit("\\r");
                assert("\\r"@ =~= escape_char(c));
            }
        } else {
            let u: u32 = c as u32;
            if u < 32 {
                out.append("\\u00");
                let high = hex_digit_exec(u / 16);
                let low = hex_digit_exec(u % 16);
                push_char(out, high);
                push_char(out, low);
                proof {
                    reveal_strlit("\\u00");
                    assert("\\u00"@.push(high).push(low) =~= escape_char(c));
                }
            } else {
                push_char(out, c);
                proof {
                    assert(Seq::<char>::empty().push(c) =~= escape_char(c));
                    assert(out@ =~= start + escape_of(done) + escape_char(c));
                }
            }
        }
        proof {
            lemma_escape_push(done, c);
            assert(s@.take(it.index() as int + 1) =~= done.push(c));
            assert(out@ =~= start + escape_of(done.push(c)));
        }
    }
    proof {
        assert(s@.take(s@.len() as int) =~= s@);
    }
}

/// Serializes a lookup outcome as its reply payload, exactly as `rendered`
/// states it.
pub fn to_json(result: &LookupResult) -> (s: String)
    ensures
        s@ == rendered(result@),
{
    match result {
        LookupResult::Found(record) => {
            let mut out = String::from_str("{\"habitat\":\"");
            append_escaped(&mut out, record.habitat.as_str());
            out.append("\",\"diet\":\"");
            append_escaped(&mut out, record.diet.as_str());
            out.append("\"}");
            out
        },
        LookupResult::NotFound { queried_name } => {
            let mut out = String::from_str("{\"error\":\"");
            let message = error_message(queried_name.as_str());
            append_escaped(&mut out, message.as_str());
            out.append("\"}");
            out
        },
    }
}

/// Builds the miss message for `name`: the original input is embedded
/// unchanged.
pub fn error_message(name: &str) -> (r: String)
    ensures
        r@ == error_message_of(name@),
{
    let mut out = String::from_str("Animal '");
    out.append(name);
    out.append("' not found.");
    out
}

} // verus!
