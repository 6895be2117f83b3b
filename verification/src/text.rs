//! Text building blocks for the wire format: decimal rendering, JSON string
//! quoting, ASCII-case-insensitive comparison, and comma-joined lists.
use vstd::prelude::*;

verus! {

use vstd::string::StrSliceExecFns;

/// The decimal digit character for `d` (meaningful for `d < 10`).
pub open spec fn dec_digit(d: nat) -> char {
    ((48 + d) as u8) as char
}

/// The decimal rendering of `n`, most significant digit first.
pub open spec fn dec_str(n: nat) -> Seq<char>
    decreases n,
{
    if n < 10 {
        seq![dec_digit(n)]
    } else {
        dec_str(n / 10).push(dec_digit(n % 10))
    }
}

fn dec_digit_exec(d: u8) -> (c: char)
    requires
        d < 10,
    ensures
        c == dec_digit(d as nat),
{
    (48 + d) as char
}

/// Appends the decimal rendering of `n` to `out`.
pub fn push_dec_u64(n: u64, out: &mut Vec<char>)
    ensures
        final(out)@ == old(out)@ + dec_str(n as nat),
    decreases n,
{
    if n >= 10 {
        push_dec_u64(n / 10, out);
    }
    out.push(dec_digit_exec((n % 10) as u8));
    proof {
        assert(out@ =~= old(out)@ + dec_str(n as nat));
    }
}

/// Appends the characters of `s` to `out`.
pub fn push_str_chars(s: &str, out: &mut Vec<char>)
    ensures
        final(out)@ == old(out)@ + s@,
{
    let n = s.unicode_len();
    for i in 0..n
        invariant
            n == s@.len(),
            out@ == old(out)@ + s@.take(i as int),
    {
        out.push(s.get_char(i));
        proof {
            assert(out@ =~= old(out)@ + s@.take(i + 1));
        }
    }
    proof {
        assert(s@.take(n as int) =~= s@);
    }
}

/// The hexadecimal digit character for `d` (meaningful for `d < 16`).
pub open spec fn hex_digit(d: nat) -> char {
    if d < 10 {
        dec_digit(d)
    } else {
        ((87 + d) as u8) as char
    }
}

fn hex_digit_exec(d: u8) -> (c: char)
    requires
        d < 16,
    ensures
        c == hex_digit(d as nat),
{
    if d < 10 {
        (48 + d) as char
    } else {
        (87 + d) as char
    }
}

/// How one character is written inside a JSON string literal: the two-letter
/// escapes of the JSON grammar, `\u00XX` for the remaining control
/// characters, and the character itself otherwise.
pub open spec fn esc_char(c: char) -> Seq<char> {
    if c == '"' {
        seq!['\\', '"']
    } else if c == '\\' {
        seq!['\\', '\\']
    } else if (c as u32) == 10 {
        seq!['\\', 'n']
    } else if (c as u32) == 13 {
        seq!['\\', 'r']
    } else if (c as u32) == 9 {
        seq!['\\', 't']
    } else if (c as u32) == 8 {
        seq!['\\', 'b']
    } else if (c as u32) == 12 {
        seq!['\\', 'f']
    } else if (c as u32) < 32 {
        seq!['\\', 'u', '0', '0', hex_digit(((c as u32) / 16) as nat), hex_digit(((c as u32) % 16) as nat)]
    } else {
        seq![c]
    }
}

/// The body of a JSON string literal for `s`: each character escaped.
pub open spec fn escaped(s: Seq<char>) -> Seq<char>
    decreases s.len(),
{
    if s.len() == 0 {
        Seq::empty()
    } else {
        escaped(s.drop_last()) + esc_char(s.last())
    }
}

/// The JSON string literal for `s`, quotes included.
pub open spec fn jstr(s: Seq<char>) -> Seq<char> {
    seq!['"'] + escaped(s) + seq!['"']
}

fn push_esc_char(c: char, out: &mut Vec<char>)
    ensures
        final(out)@ == old(out)@ + esc_char(c),
{
    let u = c as u32;
    if c == '"' {
        out.push('\\');
        out.push('"');
    } else if c == '\\' {
        out.push('\\');
        out.push('\\');
    } else if u == 10 {
        out.push('\\');
        out.push('n');
    } else if u == 13 {
        out.push('\\');
        out.push('r');
    } else if u == 9 {
        out.push('\\');
        out.push('t');
    } else if u == 8 {
        out.push('\\');
        out.push('b');
    } else if u == 12 {
        out.push('\\');
        out.push('f');
    } else if u < 32 {
        out.push('\\');
        out.push('u');
        out.push('0');
        out.push('0');
        out.push(hex_digit_exec((u / 16) as u8));
        out.push(hex_digit_exec((u % 16) as u8));
    } else {
        out.push(c);
    }
    proof {
        assert(out@ =~= old(out)@ + esc_char(c));
    }
}

/// Appends the JSON string literal for `s`, quotes and escapes included.
pub fn push_json_string(s: &str, out: &mut Vec<char>)
    ensures
        final(out)@ == old(out)@ + jstr(s@),
{
    out.push('"');
    let n = s.unicode_len();
    for i in 0..n
        invariant
            n == s@.len(),
            out@ == old(out)@ + seq!['"'] + escaped(s@.take(i as int)),
    {
        push_esc_char(s.get_char(i), out);
        proof {
            assert(s@.take(i + 1).drop_last() =~= s@.take(i as int));
            assert(s@.take(i + 1).last() == s@[i as int]);
            assert(out@ =~= old(out)@ + seq!['"'] + escaped(s@.take(i + 1)));
        }
    }
    out.push('"');
    proof {
        assert(s@.take(n as int) =~= s@);
        assert(out@ =~= old(out)@ + jstr(s@));
    }
}

/// ASCII lower-casing of one character; other characters are unchanged.
pub open spec fn lower_char(c: char) -> char {
    if 65 <= (c as u32) && (c as u32) <= 90 {
        (((c as u32) + 32) as u8) as char
    } else {
        c
    }
}

/// ASCII lower-casing of a character sequence.
pub open spec fn lower(s: Seq<char>) -> Seq<char> {
    s.map_values(|c: char| lower_char(c))
}

fn lower_char_exec(c: char) -> (r: char)
    ensures
        r == lower_char(c),
{
    let u = c as u32;
    if 65 <= u && u <= 90 {
        ((u + 32) as u8) as char
    } else {
        c
    }
}

/// Whether `s`, lower-cased ASCII-wise, equals `t` exactly.
pub fn eq_ignore_case(s: &str, t: &str) -> (r: bool)
    ensures
        r == (lower(s@) == t@),
{
    let ns = s.unicode_len();
    let nt = t.unicode_len();
    if ns != nt {
        proof {
            assert(lower(s@).len() == s@.len());
        }
        return false;
    }
    for i in 0..ns
        invariant
            ns == s@.len(),
            nt == t@.len(),
            ns == nt,
            forall|k: int| 0 <= k < i ==> lower_char(s@[k]) == t@[k],
    {
        if lower_char_exec(s.get_char(i)) != t.get_char(i) {
            proof {
                assert(lower(s@)[i as int] != t@[i as int]);
            }
            return false;
        }
    }
    proof {
        assert(lower(s@) =~= t@);
    }
    true
}

/// The items, joined by commas.
pub open spec fn comma_join(items: Seq<Seq<char>>) -> Seq<char>
    decreases items.len(),
{
    if items.len() == 0 {
        Seq::empty()
    } else if items.len() == 1 {
        items[0]
    } else {
        comma_join(items.drop_last()) + seq![','] + items.last()
    }
}

/// Appending one more item to a comma-joined list adds a comma exactly when
/// the list was not empty.
pub proof fn lemma_comma_join_push(items: Seq<Seq<char>>, x: Seq<char>)
    ensures
        comma_join(items.push(x)) == if items.len() == 0 {
            x
        } else {
            comma_join(items) + seq![','] + x
        },
{
    assert(items.push(x).drop_last() =~= items);
    assert(items.push(x).last() == x);
    if items.len() == 0 {
        assert(comma_join(items.push(x)) == items.push(x)[0]);
    }
}

/// A JSON array: the items joined by commas, between square brackets.
pub open spec fn array_text(items: Seq<Seq<char>>) -> Seq<char> {
    seq!['['] + comma_join(items) + seq![']']
}

/// The JSON rendering of a boolean.
pub open spec fn bool_text(b: bool) -> Seq<char> {
    if b {
        "true"@
    } else {
        "false"@
    }
}

/// Appends `true` or `false`.
pub fn push_bool(b: bool, out: &mut Vec<char>)
    ensures
        final(out)@ == old(out)@ + bool_text(b),
{
    if b {
        push_str_chars("true", out);
    } else {
        push_str_chars("false", out);
    }
}

/// Relies on `String: FromIterator<&char>`: collecting the characters of the
/// vector yields the string of exactly those characters, in order.
#[verifier::external_body]
pub fn string_of_chars(v: &Vec<char>) -> (r: String)
    ensures
        r@ == v@,
{
    v.iter().collect()
}

/// The JSON string literals for a sequence of strings.
pub open spec fn string_items(v: Seq<String>) -> Seq<Seq<char>> {
    v.map_values(|s: String| jstr(s@))
}

/// The decimal renderings of a sequence of `u32` values.
pub open spec fn u32_items(v: Seq<u32>) -> Seq<Seq<char>> {
    v.map_values(|n: u32| dec_str(n as nat))
}

/// The decimal renderings of a sequence of `u64` values.
pub open spec fn u64_items(v: Seq<u64>) -> Seq<Seq<char>> {
    v.map_values(|n: u64| dec_str(n as nat))
}

/// Appends the JSON array of string literals for `v`.
pub fn push_string_array(v: &Vec<String>, out: &mut Vec<char>)
    ensures
        final(out)@ == old(out)@ + array_text(string_items(v@)),
{
    out.push('[');
    let ghost items = string_items(v@);
    let n = v.len();
    for i in 0..n
        invariant
            n == v@.len(),
            items == string_items(v@),
            out@ == old(out)@ + seq!['['] + comma_join(items.take(i as int)),
    {
        if i > 0 {
            out.push(',');
        }
        push_json_string(v[i].as_str(), out);
        proof {
            assert(items.take(i as int).push(items[i as int]) =~= items.take(i + 1));
            lemma_comma_join_push(items.take(i as int), items[i as int]);
            assert(out@ =~= old(out)@ + seq!['['] + comma_join(items.take(i + 1)));
        }
    }
    out.push(']');
    proof {
        assert(items.take(n as int) =~= items);
        assert(out@ =~= old(out)@ + array_text(string_items(v@)));
    }
}

/// Appends the JSON array of decimal numbers for `v`.
pub fn push_u32_array(v: &Vec<u32>, out: &mut Vec<char>)
    ensures
        final(out)@ == old(out)@ + array_text(u32_items(v@)),
{
    out.push('[');
    let ghost items = u32_items(v@);
    let n = v.len();
    for i in 0..n
        invariant
            n == v@.len(),
            items == u32_items(v@),
            out@ == old(out)@ + seq!['['] + comma_join(items.take(i as int)),
    {
        if i > 0 {
            out.push(',');
        }
        push_dec_u64(v[i] as u64, out);
        proof {
            assert(items.take(i as int).push(items[i as int]) =~= items.take(i + 1));
            lemma_comma_join_push(items.take(i as int), items[i as int]);
            assert(out@ =~= old(out)@ + seq!['['] + comma_join(items.take(i + 1)));
        }
    }
    out.push(']');
    proof {
        assert(items.take(n as int) =~= items);
        assert(out@ =~= old(out)@ + array_text(u32_items(v@)));
    }
}

/// Appends the JSON array of decimal numbers for `v`.
pub fn push_u64_array(v: &Vec<u64>, out: &mut Vec<char>)
    ensures
        final(out)@ == old(out)@ + array_text(u64_items(v@)),
{
    out.push('[');
    let ghost items = u64_items(v@);
    let n = v.len();
    for i in 0..n
        invariant
            n == v@.len(),
            items == u64_items(v@),
            out@ == old(out)@ + seq!['['] + comma_join(items.take(i as int)),
    {
        if i > 0 {
            out.push(',');
        }
        push_dec_u64(v[i], out);
        proof {
            assert(items.take(i as int).push(items[i as int]) =~= items.take(i + 1));
            lemma_comma_join_push(items.take(i as int), items[i as int]);
            assert(out@ =~= old(out)@ + seq!['['] + comma_join(items.take(i + 1)));
        }
    }
    out.push(']');
    proof {
        assert(items.take(n as int) =~= items);
        assert(out@ =~= old(out)@ + array_text(u64_items(v@)));
    }
}

/// An optional string member: `pre` (which carries its separator) followed
/// by the JSON string literal, or nothing at all.
pub open spec fn opt_str_field(pre: Seq<char>, v: Option<String>) -> Seq<char> {
    match v {
        Some(s) => pre + jstr(s@),
        None => Seq::empty(),
    }
}

/// An optional string member that a required member follows: the key, the
/// JSON string literal, and a trailing comma — or nothing at all.
pub open spec fn opt_str_field_c(key: Seq<char>, v: Option<String>) -> Seq<char> {
    match v {
        Some(s) => key + jstr(s@) + seq![','],
        None => Seq::empty(),
    }
}

/// An optional boolean member: `pre` followed by `true` or `false`, or
/// nothing at all.
pub open spec fn opt_bool_field(pre: Seq<char>, v: Option<bool>) -> Seq<char> {
    match v {
        Some(b) => pre + bool_text(b),
        None => Seq::empty(),
    }
}

/// An optional numeric member: `pre` followed by the decimal value, or
/// nothing at all.
pub open spec fn opt_u32_field(pre: Seq<char>, v: Option<u32>) -> Seq<char> {
    match v {
        Some(n) => pre + dec_str(n as nat),
        None => Seq::empty(),
    }
}

/// Appends an optional string member, `pre` first.
pub fn push_opt_str_field(pre: &str, v: &Option<String>, out: &mut Vec<char>)
    ensures
        final(out)@ == old(out)@ + opt_str_field(pre@, *v),
{
    match v {
        Some(s) => {
            push_str_chars(pre, out);
            push_json_string(s.as_str(), out);
            proof {
                assert(out@ =~= old(out)@ + opt_str_field(pre@, *v));
            }
        },
        None => {},
    }
}

/// Appends an optional string member with its trailing comma.
pub fn push_opt_str_field_c(key: &str, v: &Option<String>, out: &mut Vec<char>)
    ensures
        final(out)@ == old(out)@ + opt_str_field_c(key@, *v),
{
    match v {
        Some(s) => {
            push_str_chars(key, out);
            push_json_string(s.as_str(), out);
            out.push(',');
            proof {
                assert(out@ =~= old(out)@ + opt_str_field_c(key@, *v));
            }
        },
        None => {},
    }
}

/// Appends an optional boolean member, `pre` first.
pub fn push_opt_bool_field(pre: &str, v: &Option<bool>, out: &mut Vec<char>)
    ensures
        final(out)@ == old(out)@ + opt_bool_field(pre@, *v),
{
    match v {
        Some(b) => {
            push_str_chars(pre, out);
            push_bool(*b, out);
            proof {
                assert(out@ =~= old(out)@ + opt_bool_field(pre@, *v));
            }
        },
        None => {},
    }
}

/// Appends an optional numeric member, `pre` first.
pub fn push_opt_u32_field(pre: &str, v: &Option<u32>, out: &mut Vec<char>)
    ensures
        final(out)@ == old(out)@ + opt_u32_field(pre@, *v),
{
    match v {
        Some(n) => {
            push_str_chars(pre, out);
            push_dec_u64(*n as u64, out);
            proof {
                assert(out@ =~= old(out)@ + opt_u32_field(pre@, *v));
            }
        },
        None => {},
    }
}

} // verus!
