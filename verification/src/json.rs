//! JSON string-literal escaping for the connection descriptor file, with a
//! proved inverse: unescaping the escaped text gives the original back, so
//! every descriptor field survives the trip through the file intact.

use vstd::prelude::*;
use vstd::string::StrSliceExecFns;
use vstd::string::StringExecFns;

verus! {

/// Lower-case hexadecimal digit character for `d < 16`.
pub open spec fn hex_char(d: nat) -> char {
    if d == 0 {
        '0'
    } else if d == 1 {
        '1'
    } else if d == 2 {
        '2'
    } else if d == 3 {
        '3'
    } else if d == 4 {
        '4'
    } else if d == 5 {
        '5'
    } else if d == 6 {
        '6'
    } else if d == 7 {
        '7'
    } else if d == 8 {
        '8'
    } else if d == 9 {
        '9'
    } else if d == 10 {
        'a'
    } else if d == 11 {
        'b'
    } else if d == 12 {
        'c'
    } else if d == 13 {
        'd'
    } else if d == 14 {
        'e'
    } else {
        'f'
    }
}

/// A lower-case hexadecimal digit.
pub open spec fn is_hex_lower(c: char) -> bool {
    (48 <= c as u32 && c as u32 <= 57) || (97 <= c as u32 && c as u32 <= 102)
}

/// The value of a lower-case hexadecimal digit.
pub open spec fn hex_val(c: char) -> nat {
    if 48 <= c as u32 && c as u32 <= 57 {
        (c as u32 - 48) as nat
    } else {
        (c as u32 - 87) as nat
    }
}

proof fn lemma_hex_char_val(d: nat)
    requires
        d < 16,
    ensures
        is_hex_lower(hex_char(d)),
        hex_val(hex_char(d)) == d,
        hex_char(d) != '"' && hex_char(d) != '\\',
{
}

/// How one character appears inside a JSON string literal: quote,
/// backslash and the named control characters get a two-character escape,
/// the remaining control characters a `\u00..` escape, everything else
/// stands for itself.
pub open spec fn escape_char(c: char) -> Seq<char> {
    if c == '"' {
        seq!['\\', '"']
    } else if c == '\\' {
        seq!['\\', '\\']
    } else if c == '\n' {
        seq!['\\', 'n']
    } else if c == '\r' {
        seq!['\\', 'r']
    } else if c == '\t' {
        seq!['\\', 't']
    } else if (c as u32) < 32 {
        seq!['\\', 'u', '0', '0', hex_char((c as u32 / 16) as nat), hex_char((c as u32 % 16) as nat)]
    } else {
        seq![c]
    }
}

/// The body of the JSON string literal for `s`.
pub open spec fn spec_escape(s: Seq<char>) -> Seq<char>
    decreases s.len(),
{
    if s.len() == 0 {
        Seq::empty()
    } else {
        spec_escape(s.drop_last()) + escape_char(s.last())
    }
}

/// Reading a JSON string-literal body back: the inverse of `spec_escape`,
/// `None` where the body is not well-formed.
pub open spec fn spec_unescape(s: Seq<char>) -> Option<Seq<char>>
    decreases s.len(),
{
    if s.len() == 0 {
        Some(Seq::empty())
    } else if s[0] != '\\' {
        match spec_unescape(s.drop_first()) {
            Some(t) => Some(seq![s[0]] + t),
            None => None,
        }
    } else if s.len() >= 2 && (s[1] == '"' || s[1] == '\\') {
        match spec_unescape(s.subrange(2, s.len() as int)) {
            Some(t) => Some(seq![s[1]] + t),
            None => None,
        }
    } else if s.len() >= 2 && s[1] == 'n' {
        match spec_unescape(s.subrange(2, s.len() as int)) {
            Some(t) => Some(seq!['\n'] + t),
            None => None,
        }
    } else if s.len() >= 2 && s[1] == 'r' {
        match spec_unescape(s.subrange(2, s.len() as int)) {
            Some(t) => Some(seq!['\r'] + t),
            None => None,
        }
    } else if s.len() >= 2 && s[1] == 't' {
        match spec_unescape(s.subrange(2, s.len() as int)) {
            Some(t) => Some(seq!['\t'] + t),
            None => None,
        }
    } else if s.len() >= 6 && s[1] == 'u' && s[2] == '0' && s[3] == '0' && is_hex_lower(s[4])
        && is_hex_lower(s[5]) {
        match spec_unescape(s.subrange(6, s.len() as int)) {
            Some(t) => Some(seq![(((hex_val(s[4]) * 16 + hex_val(s[5])) as u32) as char)] + t),
            None => None,
        }
    } else {
        None
    }
}

proof fn lemma_escape_concat(a: Seq<char>, b: Seq<char>)
    ensures
        spec_escape(a + b) == spec_escape(a) + spec_escape(b),
    decreases b.len(),
{
    if b.len() == 0 {
        assert(a + b =~= a);
        assert(spec_escape(a) + spec_escape(b) =~= spec_escape(a));
    } else {
        lemma_escape_concat(a, b.drop_last());
        assert((a + b).drop_last() =~= a + b.drop_last());
        assert((a + b).last() == b.last());
        assert(spec_escape(a) + spec_escape(b.drop_last()) + escape_char(b.last()) =~= spec_escape(
            a,
        ) + (spec_escape(b.drop_last()) + escape_char(b.last())));
    }
}

proof fn lemma_unescape_chunk(c: char, t: Seq<char>)
    ensures
        spec_unescape(escape_char(c) + t) == match spec_unescape(t) {
            Some(u) => Some(seq![c] + u),
            None => None::<Seq<char>>,
        },
{
    let s = escape_char(c) + t;
    if c == '"' || c == '\\' {
        assert(s.subrange(2, s.len() as int) =~= t);
    } else if c == '\n' || c == '\r' || c == '\t' {
        assert(s.subrange(2, s.len() as int) =~= t);
    } else if (c as u32) < 32 {
        let hi = (c as u32 / 16) as nat;
        let lo = (c as u32 % 16) as nat;
        lemma_hex_char_val(hi);
        lemma_hex_char_val(lo);
        assert(s.subrange(6, s.len() as int) =~= t);
        assert(hex_val(s[4]) * 16 + hex_val(s[5]) == c as u32);
        vstd::utf8::char_u32_cast(c, c as u32);
    } else {
        assert(s[0] == c && s[0] != '\\');
        assert(s.drop_first() =~= t);
    }
}

/// Escaping is invertible: unescaping the escaped body of any string gives
/// exactly the original string back.
pub proof fn lemma_unescape_escape(s: Seq<char>)
    ensures
        spec_unescape(spec_escape(s)) == Some(s),
    decreases s.len(),
{
    if s.len() == 0 {
    } else {
        let c = s[0];
        let rest = s.drop_first();
        lemma_unescape_escape(rest);
        assert(s =~= seq![c] + rest);
        lemma_escape_concat(seq![c], rest);
        let single = seq![c];
        assert(single.len() == 1 && single.last() == c);
        assert(single.drop_last() =~= Seq::<char>::empty());
        assert(spec_escape(single) == spec_escape(single.drop_last()) + escape_char(single.last()));
        assert(spec_escape(Seq::<char>::empty()) == Seq::<char>::empty());
        assert(spec_escape(single) =~= escape_char(c));
        lemma_unescape_chunk(c, spec_escape(rest));
        assert(seq![c] + rest =~= s);
    }
}

/// The escaped body never contains a raw quote, and every backslash it
/// contains opens an escape: the quote that ends the literal in the
/// emitted descriptor is exactly the one the emitter wrote.
pub proof fn lemma_escape_no_raw_quote(s: Seq<char>)
    ensures
        forall|i: int| 0 <= i < spec_escape(s).len() ==> #[trigger] spec_escape(s)[i] != '"' || (i
            > 0 && spec_escape(s)[i - 1] == '\\'),
    decreases s.len(),
{
    if s.len() > 0 {
        lemma_escape_no_raw_quote(s.drop_last());
        let pre = spec_escape(s.drop_last());
        let ch = escape_char(s.last());
        assert(spec_escape(s) == pre + ch);
        assert forall|i: int|
            0 <= i < spec_escape(s).len() implies #[trigger] spec_escape(s)[i] != '"' || (i > 0
            && spec_escape(s)[i - 1] == '\\') by {
            if i < pre.len() {
                assert(spec_escape(s)[i] == pre[i]);
                if i > 0 {
                    assert(spec_escape(s)[i - 1] == pre[i - 1]);
                }
            } else {
                let k = i - pre.len();
                assert(spec_escape(s)[i] == ch[k]);
                if ch[k] == '"' {
                    assert(s.last() == '"' && k == 1);
                    assert(spec_escape(s)[i - 1] == ch[0]);
                }
            }
        }
    }
}

fn hex_digit_str(d: u64) -> (s: &'static str)
    requires
        d < 16,
    ensures
        s@ == seq![hex_char(d as nat)],
{
    proof {
        reveal_strlit("0");
        reveal_strlit("1");
        reveal_strlit("2");
        reveal_strlit("3");
        reveal_strlit("4");
        reveal_strlit("5");
        reveal_strlit("6");
        reveal_strlit("7");
        reveal_strlit("8");
        reveal_strlit("9");
        reveal_strlit("a");
        reveal_strlit("b");
        reveal_strlit("c");
        reveal_strlit("d");
        reveal_strlit("e");
        reveal_strlit("f");
    }
    let s = match d {
        0 => "0",
        1 => "1",
        2 => "2",
        3 => "3",
        4 => "4",
        5 => "5",
        6 => "6",
        7 => "7",
        8 => "8",
        9 => "9",
        10 => "a",
        11 => "b",
        12 => "c",
        13 => "d",
        14 => "e",
        _ => "f",
    };
    proof {
        assert(s@ =~= seq![hex_char(d as nat)]);
    }
    s
}

/// Escapes `s` for use as the body of a JSON string literal.
pub fn json_escape(s: &str) -> (r: String)
    ensures
        r@ == spec_escape(s@),
{
    let n = s.unicode_len();
    let mut out = String::new();
    let mut i: usize = 0;
    while i < n
        invariant
            n == s@.len(),
            0 <= i <= n,
            out@ == spec_escape(s@.subrange(0, i as int)),
        decreases n - i,
    {
        let ghost pre = s@.subrange(0, i as int);
        let ghost pre1 = s@.subrange(0, i + 1);
        proof {
            assert(pre1.drop_last() =~= pre);
            assert(pre1.last() == s@[i as int]);
        }
        let c = s.get_char(i);
        if c == '"' {
            out.append("\\\"");
            proof {
                reveal_strlit("\\\"");
                assert(out@ =~= spec_escape(pre1));
            }
        } else if c == '\\' {
            out.append("\\\\");
            proof {
                reveal_strlit("\\\\");
                assert(out@ =~= spec_escape(pre1));
            }
        } else if c == '\n' {
            out.append("\\n");
            proof {
                reveal_strlit("\\n");
                assert(out@ =~= spec_escape(pre1));
            }
        } else if c == '\r' {
            out.append("\\r");
            proof {
                reveal_strlit("\\r");
                assert(out@ =~= spec_escape(pre1));
            }
        } else if c == '\t' {
            out.append("\\t");
            proof {
                reveal_strlit("\\t");
                assert(out@ =~= spec_escape(pre1));
            }
        } else if (c as u32) < 32 {
            let code = c as u32;
            out.append("\\u00");
            out.append(hex_digit_str((code / 16) as u64));
            out.append(hex_digit_str((code % 16) as u64));
            proof {
                reveal_strlit("\\u00");
                assert(out@ =~= spec_escape(pre1));
            }
        } else {
            let piece = s.substring_char(i, i + 1);
            out.append(piece);
            proof {
                assert(piece@ =~= seq![s@[i as int]]);
                assert(out@ =~= spec_escape(pre1));
            }
        }
        i = i + 1;
    }
    proof {
        assert(s@.subrange(0, n as int) =~= s@);
    }
    out
}

} // verus!
