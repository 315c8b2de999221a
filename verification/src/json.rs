//! JSON text emission for the arguments handed to the compiler's entry
//! call: string escaping, string arrays, the compiler configuration
//! objects, and the platform-constants object.
//!
//! The whole configuration surface crosses the host/engine boundary as
//! evaluated text, so these builders state the produced character
//! sequences exactly.
use vstd::prelude::*;

use crate::text::chars_to_string;
use crate::text::str_chars;

verus! {

/// The lower-case hex digit for a value below sixteen.
pub open spec fn spec_hex_digit(n: int) -> char {
    if n == 0 {
        '0'
    } else if n == 1 {
        '1'
    } else if n == 2 {
        '2'
    } else if n == 3 {
        '3'
    } else if n == 4 {
        '4'
    } else if n == 5 {
        '5'
    } else if n == 6 {
        '6'
    } else if n == 7 {
        '7'
    } else if n == 8 {
        '8'
    } else if n == 9 {
        '9'
    } else if n == 10 {
        'a'
    } else if n == 11 {
        'b'
    } else if n == 12 {
        'c'
    } else if n == 13 {
        'd'
    } else if n == 14 {
        'e'
    } else {
        'f'
    }
}

/// How one character appears inside a JSON string literal: quote,
/// backslash and the named control characters get a two-character escape,
/// the remaining control characters a `\u00XX` escape, and every other
/// character stands for itself.
pub open spec fn spec_escape_char(c: char) -> Seq<char> {
    if c == '"' {
        seq!['\\', '"']
    } else if c == '\\' {
        seq!['\\', '\\']
    } else if c == '\n' {
        seq!['\\', 'n']
    } else if c == '\r' {
        seq!['\\', 'r']
    } else if c == '\t' {
        seq!['\\', 't']
    } else if (c as u32) < 32 {
        seq!['\\', 'u', '0', '0', spec_hex_digit(c as u32 as int / 16), spec_hex_digit(c as u32 as int % 16)]
    } else {
        seq![c]
    }
}

/// The body of a JSON string literal for the given characters.
pub open spec fn spec_json_escaped(s: Seq<char>) -> Seq<char>
    decreases s.len(),
{
    if s.len() == 0 {
        Seq::<char>::empty()
    } else {
        spec_escape_char(s[0]) + spec_json_escaped(s.drop_first())
    }
}

/// A complete JSON string literal: quotes around the escaped body.
pub open spec fn spec_json_string(s: Seq<char>) -> Seq<char> {
    seq!['"'] + spec_json_escaped(s) + seq!['"']
}

/// Escaping distributes over concatenation.
pub proof fn lemma_json_escaped_concat(s1: Seq<char>, s2: Seq<char>)
    ensures
        spec_json_escaped(s1 + s2) == spec_json_escaped(s1) + spec_json_escaped(s2),
    decreases s1.len(),
{
    if s1.len() == 0 {
        assert(s1 + s2 =~= s2);
        assert(spec_json_escaped(s1) + spec_json_escaped(s2) =~= spec_json_escaped(s2));
    } else {
        assert((s1 + s2).drop_first() =~= s1.drop_first() + s2);
        lemma_json_escaped_concat(s1.drop_first(), s2);
        assert(spec_escape_char((s1 + s2)[0]) + (spec_json_escaped(s1.drop_first()) + spec_json_escaped(s2))
            =~= spec_json_escaped(s1) + spec_json_escaped(s2));
    }
}

/// The hex digit for a value below sixteen.
fn hex_digit_char(n: u32) -> (r: char)
    requires
        n < 16,
    ensures
        r == spec_hex_digit(n as int),
{
    match n {
        0 => '0',
        1 => '1',
        2 => '2',
        3 => '3',
        4 => '4',
        5 => '5',
        6 => '6',
        7 => '7',
        8 => '8',
        9 => '9',
        10 => 'a',
        11 => 'b',
        12 => 'c',
        13 => 'd',
        14 => 'e',
        _ => 'f',
    }
}

/// Appends the JSON escape of one character.
fn push_escaped_char(out: &mut Vec<char>, c: char)
    ensures
        final(out)@ == old(out)@ + spec_escape_char(c),
{
    let ghost start = out@;
    if c == '"' {
        out.push('\\');
        out.push('"');
    } else if c == '\\' {
        out.push('\\');
        out.push('\\');
    } else if c == '\n' {
        out.push('\\');
        out.push('n');
    } else if c == '\r' {
        out.push('\\');
        out.push('r');
    } else if c == '\t' {
        out.push('\\');
        out.push('t');
    } else if (c as u32) < 32 {
        let n = c as u32;
        out.push('\\');
        out.push('u');
        out.push('0');
        out.push('0');
        out.push(hex_digit_char(n / 16));
        out.push(hex_digit_char(n % 16));
    } else {
        out.push(c);
    }
    proof {
        assert(out@ =~= start + spec_escape_char(c));
    }
}

/// Appends a complete JSON string literal holding the characters of `s`.
pub fn push_json_string(out: &mut Vec<char>, s: &str)
    ensures
        final(out)@ == old(out)@ + spec_json_string(s@),
{
    let ghost start = out@;
    out.push('"');
    let cs = str_chars(s);
    let n = cs.len();
    let mut i: usize = 0;
    while i < n
        invariant
            i <= n,
            n == cs@.len(),
            cs@ == s@,
            out@ == start + seq!['"'] + spec_json_escaped(s@.subrange(0, i as int)),
        decreases n - i,
    {
        push_escaped_char(out, cs[i]);
        i += 1;
        proof {
            let pre = s@.subrange(0, i - 1);
            let cur = s@.subrange(0, i as int);
            assert(cur =~= pre + seq![s@[i - 1]]);
            lemma_json_escaped_concat(pre, seq![s@[i - 1]]);
            assert(seq![s@[i - 1]].drop_first() =~= Seq::<char>::empty());
            assert(spec_json_escaped(Seq::<char>::empty()) =~= Seq::<char>::empty());
            assert(spec_json_escaped(seq![s@[i - 1]]) =~= spec_escape_char(s@[i - 1]));
            assert(out@ =~= start + seq!['"'] + spec_json_escaped(cur));
        }
    }
    out.push('"');
    proof {
        assert(s@.subrange(0, n as int) =~= s@);
        assert(out@ =~= start + spec_json_string(s@));
    }
}

/// A JSON string literal holding the characters of `s`.
pub fn json_quote(s: &str) -> (r: String)
    ensures
        r@ == spec_json_string(s@),
{
    let mut out: Vec<char> = Vec::new();
    push_json_string(&mut out, s);
    proof {
        assert(out@ =~= spec_json_string(s@));
    }
    chars_to_string(&out)
}

/// The comma-separated JSON string literals for the given texts.
pub open spec fn spec_json_string_items(v: Seq<Seq<char>>) -> Seq<char>
    decreases v.len(),
{
    if v.len() == 0 {
        Seq::<char>::empty()
    } else if v.len() == 1 {
        spec_json_string(v[0])
    } else {
        spec_json_string(v[0]) + seq![','] + spec_json_string_items(v.drop_first())
    }
}

/// A JSON array of string literals for the given texts.
pub open spec fn spec_json_string_array(v: Seq<Seq<char>>) -> Seq<char> {
    seq!['['] + spec_json_string_items(v) + seq![']']
}

/// Appending one more item extends the joined items by a comma (when any
/// item came before) and the item's literal.
pub proof fn lemma_json_string_items_push(v: Seq<Seq<char>>, x: Seq<char>)
    ensures
        spec_json_string_items(v.push(x)) == if v.len() == 0 {
            spec_json_string(x)
        } else {
            spec_json_string_items(v) + seq![','] + spec_json_string_items(seq![x])
        },
    decreases v.len(),
{
    if v.len() == 0 {
        assert(v.push(x) =~= seq![x]);
        assert(spec_json_string_items(seq![x]) == spec_json_string(x));
    } else {
        assert(v.push(x).drop_first() =~= v.drop_first().push(x));
        lemma_json_string_items_push(v.drop_first(), x);
        if v.len() == 1 {
            assert(v.push(x)[0] == v[0]);
            assert(spec_json_string_items(v) == spec_json_string(v[0]));
        } else {
            assert(spec_json_string_items(v) + seq![','] + spec_json_string_items(seq![x])
                =~= spec_json_string(v[0]) + seq![','] + (spec_json_string_items(v.drop_first()) + seq![','] + spec_json_string_items(seq![x])));
        }
    }
}

/// A JSON array holding one string literal per element of `items`.
pub fn json_string_array(items: &Vec<String>) -> (r: String)
    ensures
        r@ == spec_json_string_array(items.deep_view()),
{
    let mut out: Vec<char> = Vec::new();
    out.push('[');
    let n = items.len();
    let mut i: usize = 0;
    while i < n
        invariant
            i <= n,
            n == items@.len(),
            out@ == seq!['['] + spec_json_string_items(items.deep_view().subrange(0, i as int)),
        decreases n - i,
    {
        if i > 0 {
            out.push(',');
        }
        push_json_string(&mut out, items[i].as_str());
        i += 1;
        proof {
            let dv = items.deep_view();
            let pre = dv.subrange(0, i - 1);
            let cur = dv.subrange(0, i as int);
            assert(cur =~= pre.push(dv[i - 1]));
            lemma_json_string_items_push(pre, dv[i - 1]);
            assert(spec_json_string_items(seq![dv[i - 1]]) == spec_json_string(dv[i - 1]));
            assert(dv[i - 1] == items@[i - 1]@);
            assert(out@ =~= seq!['['] + spec_json_string_items(cur));
        }
    }
    out.push(']');
    proof {
        assert(items.deep_view().subrange(0, n as int) =~= items.deep_view());
        assert(out@ =~= spec_json_string_array(items.deep_view()));
    }
    chars_to_string(&out)
}

} // verus!
