//! Escaping text for a JSON string, and the grammar of a JSON string's body
//! that the escaped text meets.

use vstd::prelude::*;
use vstd::string::*;

verus! {

/// The hexadecimal digit of `n`, for `n` below sixteen.
pub open spec fn hex_digit(n: int) -> char {
    "0123456789abcdef"@[n]
}

/// A character as it stands inside a JSON string: a quote or a backslash
/// behind a backslash, a control character as its short escape or as
/// `\u00XX`, anything else as it is.
pub open spec fn escape_char(c: char) -> Seq<char> {
    if c == '"' {
        seq!['\\', '"']
    } else if c == '\\' {
        seq!['\\', '\\']
    } else if c == '\n' {
        seq!['\\', 'n']
    } else if c == '\r' {
        seq!['\\', 'r']
    } else if c == '\t' {
        seq!['\\', 't']
    } else if c == '\u{8}' {
        seq!['\\', 'b']
    } else if c == '\u{c}' {
        seq!['\\', 'f']
    } else if (c as u32) < 0x20 {
        seq!['\\', 'u', '0', '0', hex_digit(((c as u32) / 16) as int), hex_digit(((c as u32) % 16) as int)]
    } else {
        seq![c]
    }
}

/// Text as it stands inside a JSON string.
pub open spec fn json_escape(s: Seq<char>) -> Seq<char>
    decreases s.len(),
{
    if s.len() == 0 {
        Seq::empty()
    } else {
        json_escape(s.drop_last()) + escape_char(s.last())
    }
}

/// Whether `c` is a hexadecimal digit.
pub open spec fn is_hex(c: char) -> bool {
    ('0' <= c && c <= '9') || ('a' <= c && c <= 'f') || ('A' <= c && c <= 'F')
}

/// Whether `t` may stand between the quotes of a JSON string: every
/// character is unescaped (no quote, no backslash, no control character) or
/// part of an escape (`\"`, `\\`, `\/`, `\b`, `\f`, `\n`, `\r`, `\t`, or
/// `\u` and four hexadecimal digits).
pub open spec fn valid_string_body(t: Seq<char>) -> bool
    decreases t.len(),
{
    if t.len() == 0 {
        true
    } else if t[0] == '\\' {
        if t.len() >= 2 && (t[1] == '"' || t[1] == '\\' || t[1] == '/' || t[1] == 'b' || t[1] == 'f'
            || t[1] == 'n' || t[1] == 'r' || t[1] == 't') {
            valid_string_body(t.subrange(2, t.len() as int))
        } else if t.len() >= 6 && t[1] == 'u' && is_hex(t[2]) && is_hex(t[3]) && is_hex(t[4])
            && is_hex(t[5]) {
            valid_string_body(t.subrange(6, t.len() as int))
        } else {
            false
        }
    } else {
        t[0] != '"' && (t[0] as u32) >= 0x20 && valid_string_body(t.subrange(1, t.len() as int))
    }
}

/// Escaping text piece by piece is escaping it whole.
pub proof fn lemma_escape_concat(a: Seq<char>, b: Seq<char>)
    ensures
        json_escape(a + b) == json_escape(a) + json_escape(b),
    decreases b.len(),
{
    if b.len() == 0 {
        assert(a + b =~= a);
        assert(json_escape(a) + json_escape(b) =~= json_escape(a));
    } else {
        lemma_escape_concat(a, b.drop_last());
        assert((a + b).drop_last() =~= a + b.drop_last());
        assert((a + b).last() == b.last());
    }
}

/// An escaped character in front of a valid body gives a valid body.
pub proof fn lemma_escape_char_valid(c: char, rest: Seq<char>)
    requires
        valid_string_body(rest),
    ensures
        valid_string_body(escape_char(c) + rest),
{
    reveal_strlit("0123456789abcdef");
    let t = escape_char(c) + rest;
    if c == '"' || c == '\\' || c == '\n' || c == '\r' || c == '\t' || c == '\u{8}' || c == '\u{c}' {
        assert(t.subrange(2, t.len() as int) =~= rest);
    } else if (c as u32) < 0x20 {
        let hi = (c as u32) / 16;
        let lo = (c as u32) % 16;
        assert(0 <= hi < 16 && 0 <= lo < 16);
        assert(is_hex(hex_digit(hi as int)));
        assert(is_hex(hex_digit(lo as int)));
        assert(t.subrange(6, t.len() as int) =~= rest);
    } else {
        assert(t.subrange(1, t.len() as int) =~= rest);
    }
}

/// Escaped text may always stand between the quotes of a JSON string.
pub proof fn lemma_escape_valid(s: Seq<char>)
    ensures
        valid_string_body(json_escape(s)),
    decreases s.len(),
{
    if s.len() > 0 {
        let first = seq![s[0]];
        let rest = s.drop_first();
        lemma_escape_valid(rest);
        lemma_escape_concat(first, rest);
        assert(first + rest =~= s);
        assert(first.drop_last() =~= Seq::<char>::empty());
        assert(json_escape(Seq::<char>::empty()) =~= Seq::<char>::empty());
        assert(first.last() == s[0]);
        assert(json_escape(first) =~= escape_char(s[0]));
        lemma_escape_char_valid(s[0], json_escape(rest));
    }
}

/// The value of a hexadecimal digit.
pub open spec fn hex_value(c: char) -> int {
    if '0' <= c && c <= '9' {
        c as int - '0' as int
    } else if 'a' <= c && c <= 'f' {
        c as int - 'a' as int + 10
    } else if 'A' <= c && c <= 'F' {
        c as int - 'A' as int + 10
    } else {
        0
    }
}

/// The text that the body `t` of a JSON string stands for: each escape
/// read back as the character it names.
pub open spec fn json_unescape(t: Seq<char>) -> Seq<char>
    decreases t.len(),
{
    if t.len() == 0 {
        Seq::empty()
    } else if t[0] == '\\' && t.len() >= 6 && t[1] == 'u' {
        seq![
            (4096 * hex_value(t[2]) + 256 * hex_value(t[3]) + 16 * hex_value(t[4]) + hex_value(
                t[5],
            )) as char,
        ] + json_unescape(t.subrange(6, t.len() as int))
    } else if t[0] == '\\' && t.len() >= 2 {
        let e = t[1];
        seq![
            if e == 'b' {
                '\u{8}'
            } else if e == 'f' {
                '\u{c}'
            } else if e == 'n' {
                '\n'
            } else if e == 'r' {
                '\r'
            } else if e == 't' {
                '\t'
            } else {
                e
            },
        ] + json_unescape(t.subrange(2, t.len() as int))
    } else {
        seq![t[0]] + json_unescape(t.subrange(1, t.len() as int))
    }
}

/// Reading back an escaped character in front of more text gives the
/// character, then what the rest stands for.
pub proof fn lemma_unescape_char(c: char, rest: Seq<char>)
    ensures
        json_unescape(escape_char(c) + rest) == seq![c] + json_unescape(rest),
{
    reveal_strlit("0123456789abcdef");
    let t = escape_char(c) + rest;
    if c == '"' || c == '\\' || c == '\n' || c == '\r' || c == '\t' || c == '\u{8}' || c == '\u{c}' {
        assert(t.subrange(2, t.len() as int) =~= rest);
    } else if (c as u32) < 0x20 {
        let code = c as u32;
        let hi = (code / 16) as int;
        let lo = (code % 16) as int;
        assert(0 <= hi < 2 && 0 <= lo < 16);
        assert(hex_value(hex_digit(hi)) == hi);
        assert(hex_value(hex_digit(lo)) == lo);
        assert(hex_value('0') == 0);
        assert(4096 * hex_value(t[2]) + 256 * hex_value(t[3]) + 16 * hex_value(t[4]) + hex_value(t[5])
            == code as int);
        assert(t.subrange(6, t.len() as int) =~= rest);
    } else {
        assert(t.subrange(1, t.len() as int) =~= rest);
    }
}

/// Escaping loses nothing: the escaped text stands for exactly the text
/// that was escaped.
pub proof fn lemma_escape_round_trip(s: Seq<char>)
    ensures
        json_unescape(json_escape(s)) == s,
    decreases s.len(),
{
    if s.len() == 0 {
        assert(json_escape(s) =~= Seq::<char>::empty());
    } else {
        let first = seq![s[0]];
        let rest = s.drop_first();
        lemma_escape_round_trip(rest);
        lemma_escape_concat(first, rest);
        assert(first + rest =~= s);
        assert(first.drop_last() =~= Seq::<char>::empty());
        assert(json_escape(Seq::<char>::empty()) =~= Seq::<char>::empty());
        assert(first.last() == s[0]);
        assert(json_escape(first) =~= escape_char(s[0]));
        lemma_unescape_char(s[0], json_escape(rest));
        assert(seq![s[0]] + rest =~= s);
    }
}

/// `s` escaped for a JSON string.
pub fn escape_json(s: &str) -> (r: String)
    ensures
        r@ == json_escape(s@),
{
    proof {
        reveal_strlit("0123456789abcdef");
    }
    let hex = "0123456789abcdef";
    let mut r = String::new();
    let n = s.unicode_len();
    for i in 0..n
        invariant
            n == s@.len(),
            hex@ == "0123456789abcdef"@,
            hex@.len() == 16,
            r@ == json_escape(s@.take(i as int)),
    {
        let c = s.get_char(i);
        proof {
            reveal_strlit("0123456789abcdef");
            reveal_strlit("\\\"");
            reveal_strlit("\\\\");
            reveal_strlit("\\n");
            reveal_strlit("\\r");
            reveal_strlit("\\t");
            reveal_strlit("\\b");
            reveal_strlit("\\f");
            reveal_strlit("\\u00");
        }
        assert(s@.take(i + 1).drop_last() =~= s@.take(i as int));
        assert(s@.take(i + 1).last() == c);
        if c == '"' {
            r.append("\\\"");
        } else if c == '\\' {
            r.append("\\\\");
        } else if c == '\n' {
            r.append("\\n");
        } else if c == '\r' {
            r.append("\\r");
        } else if c == '\t' {
            r.append("\\t");
        } else if c == '\u{8}' {
            r.append("\\b");
        } else if c == '\u{c}' {
            r.append("\\f");
        } else if (c as u32) < 0x20 {
            let code = c as u32;
            let hi = (code / 16) as usize;
            let lo = (code % 16) as usize;
            r.append("\\u00");
            let h = hex.substring_char(hi, hi + 1);
            let l = hex.substring_char(lo, lo + 1);
            assert(h@ =~= seq![hex_digit(hi as int)]);
            assert(l@ =~= seq![hex_digit(lo as int)]);
            r.append(h);
            r.append(l);
            assert(r@ =~= json_escape(s@.take(i as int)) + escape_char(c));
        } else {
            r.append(s.substring_char(i, i + 1));
            assert(s@.subrange(i as int, i + 1) =~= seq![c]);
        }
        assert(r@ =~= json_escape(s@.take(i + 1)));
    }
    assert(s@.take(n as int) =~= s@);
    r
}

} // verus!
