//! Compact JSON text for strings, arrays of strings and flat objects.
use vstd::prelude::*;

verus! {

/// Relies on `String::push`: the character is appended at the end.
pub assume_specification[ String::push ](s: &mut String, ch: char)
    ensures
        final(s)@ == old(s)@.push(ch),
;

/// Lower-case hexadecimal digits, as used in `\u00XX` escapes.
pub const HEX_DIGITS: &'static str = "0123456789abcdef";

/// The lower-case hexadecimal digit of `d` (for `d < 16`).
pub open spec fn hex_digit(d: u32) -> char {
    HEX_DIGITS@[d as int]
}

/// The escaped form of one character inside a JSON string literal: quote and
/// backslash are escaped, the control characters with a short form get it,
/// other control characters become `\u00XX`, everything else stands as is.
pub open spec fn escape_char(c: char) -> Seq<char> {
    if c == '"' {
        seq!['\\', '"']
    } else if c == '\\' {
        seq!['\\', '\\']
    } else if c == '\n' {
        seq!['\\', 'n']
    } else if c == '\r' {
        seq!['\\', 'r']
    } else if c == '\t' {
        seq!['\\', 't']
    } else if c == '\x08' {
        seq!['\\', 'b']
    } else if c == '\x0c' {
        seq!['\\', 'f']
    } else if (c as u32) < 0x20 {
        seq!['\\', 'u', '0', '0', hex_digit((c as u32) / 16), hex_digit((c as u32) % 16)]
    } else {
        seq![c]
    }
}

/// The escaped body of a JSON string literal holding `s`.
pub open spec fn escape(s: Seq<char>) -> Seq<char>
    decreases s.len(),
{
    if s.len() == 0 {
        Seq::empty()
    } else {
        escape(s.drop_last()) + escape_char(s.last())
    }
}

/// Whether `c` stands for itself in a JSON string literal.
pub open spec fn is_plain(c: char) -> bool {
    c != '"' && c != '\\' && c as u32 >= 0x20
}

/// A text of plain characters is its own escaped form.
pub proof fn lemma_plain_escape(s: Seq<char>)
    requires
        forall|i: int| 0 <= i < s.len() ==> is_plain(#[trigger] s[i]),
    ensures
        escape(s) == s,
    decreases s.len(),
{
    if s.len() > 0 {
        lemma_plain_escape(s.drop_last());
        assert(is_plain(s[s.len() - 1]));
        assert(s.drop_last().push(s.last()) =~= s);
    }
}

/// The JSON string literal for `s`.
pub open spec fn json_string(s: Seq<char>) -> Seq<char> {
    seq!['"'] + escape(s) + seq!['"']
}

/// Appends the escaped form of `c` to `out`.
fn push_escaped(out: &mut String, c: char)
    ensures
        final(out)@ == old(out)@ + escape_char(c),
{
    if c == '"' {
        out.push('\\');
        out.push('"');
    } else if c == '\\' {
        out.push('\\');
        out.push('\\');
    } else if c == '\n' {
        out.push('\\');
        out.push('n');
    } else if c == '\r' {
        out.push('\\');
        out.push('r');
    } else if c == '\t' {
        out.push('\\');
        out.push('t');
    } else if c == '\x08' {
        out.push('\\');
        out.push('b');
    } else if c == '\x0c' {
        out.push('\\');
        out.push('f');
    } else if (c as u32) < 0x20 {
        proof {
            reveal_strlit("0123456789abcdef");
        }
        let code: u32 = c as u32;
        out.push('\\');
        out.push('u');
        out.push('0');
        out.push('0');
        out.push(HEX_DIGITS.get_char((code / 16) as usize));
        out.push(HEX_DIGITS.get_char((code % 16) as usize));
    } else {
        out.push(c);
    }
    assert(final(out)@ =~= old(out)@ + escape_char(c));
}

/// Appends the JSON string literal for `s` to `out`.
pub fn push_json_string(out: &mut String, s: &str)
    ensures
        final(out)@ == old(out)@ + json_string(s@),
{
    let n = s.unicode_len();
    out.push('"');
    let mut i: usize = 0;
    while i < n
        invariant
            n == s@.len(),
            i <= n,
            out@ == old(out)@ + seq!['"'] + escape(s@.subrange(0, i as int)),
        decreases n - i,
    {
        let c = s.get_char(i);
        push_escaped(out, c);
        proof {
            let t = s@.subrange(0, i + 1);
            assert(t.drop_last() =~= s@.subrange(0, i as int));
        }
        i = i + 1;
    }
    out.push('"');
    assert(s@.subrange(0, n as int) =~= s@);
    assert(final(out)@ =~= old(out)@ + json_string(s@));
}

/// The parts joined by commas.
pub open spec fn join_commas(parts: Seq<Seq<char>>) -> Seq<char>
    decreases parts.len(),
{
    if parts.len() == 0 {
        Seq::empty()
    } else if parts.len() == 1 {
        parts[0]
    } else {
        join_commas(parts.drop_last()) + seq![','] + parts.last()
    }
}

/// A joined list of at least two parts starts with its first part and a comma.
pub proof fn lemma_join_commas_prefix(parts: Seq<Seq<char>>)
    requires
        parts.len() >= 1,
    ensures
        parts[0].len() <= join_commas(parts).len(),
        join_commas(parts).subrange(0, parts[0].len() as int) == parts[0],
    decreases parts.len(),
{
    if parts.len() > 1 {
        lemma_join_commas_prefix(parts.drop_last());
        let j = join_commas(parts.drop_last());
        assert((j + seq![','] + parts.last()).subrange(0, parts[0].len() as int) =~= j.subrange(
            0,
            parts[0].len() as int,
        ));
    }
}

/// The views of a list of strings.
pub open spec fn views(items: Seq<String>) -> Seq<Seq<char>> {
    items.map_values(|s: String| s@)
}

/// The JSON array of string literals for `items`.
pub open spec fn json_string_array(items: Seq<Seq<char>>) -> Seq<char> {
    seq!['['] + join_commas(items.map_values(|s: Seq<char>| json_string(s))) + seq![']']
}

/// One `"key":value` member of an object, the value already encoded.
pub open spec fn json_member(member: (Seq<char>, Seq<char>)) -> Seq<char> {
    json_string(member.0) + seq![':'] + member.1
}

/// The JSON object of the given members, in order, with no whitespace.
pub open spec fn json_object(members: Seq<(Seq<char>, Seq<char>)>) -> Seq<char> {
    seq!['{'] + join_commas(members.map_values(|m: (Seq<char>, Seq<char>)| json_member(m))) + seq!['}']
}

/// Appending one more part to a joined list.
pub proof fn lemma_join_commas_push(parts: Seq<Seq<char>>, p: Seq<char>)
    ensures
        join_commas(parts.push(p)) == if parts.len() == 0 {
            p
        } else {
            join_commas(parts) + seq![','] + p
        },
{
    assert(parts.push(p).drop_last() =~= parts);
}

/// Appends the JSON array of string literals for `items` to `out`.
pub fn push_json_string_array(out: &mut String, items: &Vec<String>)
    ensures
        final(out)@ == old(out)@ + json_string_array(views(items@)),
{
    let ghost lits = views(items@).map_values(|s: Seq<char>| json_string(s));
    out.push('[');
    let mut i: usize = 0;
    while i < items.len()
        invariant
            i <= items@.len(),
            lits == views(items@).map_values(|s: Seq<char>| json_string(s)),
            out@ == old(out)@ + seq!['['] + join_commas(lits.subrange(0, i as int)),
        decreases items@.len() - i,
    {
        if i > 0 {
            out.push(',');
        }
        push_json_string(out, items[i].as_str());
        proof {
            lemma_join_commas_push(lits.subrange(0, i as int), lits[i as int]);
            assert(lits.subrange(0, i as int).push(lits[i as int]) =~= lits.subrange(0, i + 1));
        }
        i = i + 1;
    }
    out.push(']');
    assert(lits.subrange(0, items@.len() as int) =~= lits);
    assert(final(out)@ =~= old(out)@ + json_string_array(views(items@)));
}

/// The text of an object whose first members are `done`, before its closing brace.
pub open spec fn object_prefix(done: Seq<(Seq<char>, Seq<char>)>) -> Seq<char> {
    seq!['{'] + join_commas(done.map_values(|m: (Seq<char>, Seq<char>)| json_member(m)))
}

/// An object grows by its next member.
pub proof fn lemma_object_prefix_push(done: Seq<(Seq<char>, Seq<char>)>, m: (Seq<char>, Seq<char>))
    ensures
        object_prefix(done.push(m)) == object_prefix(done) + (if done.len() == 0 {
            Seq::<char>::empty()
        } else {
            seq![',']
        }) + json_string(m.0) + seq![':'] + m.1,
{
    let f = |m: (Seq<char>, Seq<char>)| json_member(m);
    assert(done.push(m).map_values(f) =~= done.map_values(f).push(json_member(m)));
    lemma_join_commas_push(done.map_values(f), json_member(m));
    if done.len() == 0 {
        assert(object_prefix(done.push(m)) =~= object_prefix(done) + Seq::<char>::empty()
            + json_string(m.0) + seq![':'] + m.1);
    } else {
        assert(object_prefix(done.push(m)) =~= object_prefix(done) + seq![','] + json_string(
            m.0,
        ) + seq![':'] + m.1);
    }
}

/// Appends the separator (unless `first`) and `"key":` to `out`.
pub fn push_member_key(out: &mut String, first: bool, key: &str)
    ensures
        final(out)@ == old(out)@ + (if first {
            Seq::<char>::empty()
        } else {
            seq![',']
        }) + json_string(key@) + seq![':'],
{
    if !first {
        out.push(',');
    }
    push_json_string(out, key);
    out.push(':');
    assert(final(out)@ =~= old(out)@ + (if first {
        Seq::<char>::empty()
    } else {
        seq![',']
    }) + json_string(key@) + seq![':']);
}

/// Distinct characters have escaped forms neither of which is a prefix of the
/// other: equal texts that start with escaped forms start with the same one.
pub proof fn lemma_escape_char_prefix(a: char, b: char, x: Seq<char>, y: Seq<char>)
    requires
        escape_char(a) + x == escape_char(b) + y,
    ensures
        a == b,
        x == y,
{
    reveal_strlit("0123456789abcdef");
    let ea = escape_char(a);
    let eb = escape_char(b);
    let l = ea + x;
    assert(l[0] == ea[0] && l[0] == eb[0]);
    if ea.len() >= 2 && eb.len() >= 2 {
        assert(l[1] == ea[1] && l[1] == eb[1]);
        if ea[1] == 'u' {
            assert(l[4] == ea[4] && l[4] == eb[4]);
            assert(l[5] == ea[5] && l[5] == eb[5]);
            assert((a as u32) / 16 == (b as u32) / 16);
            assert((a as u32) % 16 == (b as u32) % 16);
        }
    }
    assert(ea.len() == eb.len());
    assert(x =~= l.subrange(ea.len() as int, l.len() as int));
    assert(y =~= (eb + y).subrange(eb.len() as int, l.len() as int));
}

/// Escaping a text that starts with `c`.
pub proof fn lemma_escape_prepend(c: char, s: Seq<char>)
    ensures
        escape(seq![c] + s) == escape_char(c) + escape(s),
    decreases s.len(),
{
    if s.len() == 0 {
        assert(seq![c] + s =~= seq![c]);
        assert(seq![c].drop_last() =~= Seq::<char>::empty());
        assert(s =~= Seq::<char>::empty());
        assert(escape(Seq::<char>::empty()) =~= Seq::<char>::empty());
        assert(escape(seq![c]) == escape(seq![c].drop_last()) + escape_char(c));
        assert(escape(seq![c]) =~= escape_char(c) + escape(s));
    } else {
        lemma_escape_prepend(c, s.drop_last());
        assert((seq![c] + s).drop_last() =~= seq![c] + s.drop_last());
        assert(escape(seq![c] + s) =~= escape_char(c) + escape(s));
    }
}

/// The first character of an escaped form is never a quote.
proof fn lemma_escape_char_first(c: char)
    ensures
        escape_char(c).len() >= 1,
        escape_char(c)[0] != '"',
{
}

/// A JSON string literal ends at its first unescaped quote: equal texts that
/// start with string literals start with the same one.
pub proof fn lemma_json_string_prefix(a: Seq<char>, b: Seq<char>, x: Seq<char>, y: Seq<char>)
    requires
        json_string(a) + x == json_string(b) + y,
    ensures
        a == b,
        x == y,
{
    assert(json_string(a) + x =~= seq!['"'] + (escape(a) + seq!['"'] + x));
    assert(json_string(b) + y =~= seq!['"'] + (escape(b) + seq!['"'] + y));
    assert((seq!['"'] + (escape(a) + seq!['"'] + x)).drop_first() =~= escape(a) + seq!['"'] + x);
    assert((seq!['"'] + (escape(b) + seq!['"'] + y)).drop_first() =~= escape(b) + seq!['"'] + y);
    lemma_escaped_body_prefix(a, b, x, y);
}

/// The body of a string literal ends at its first unescaped quote.
proof fn lemma_escaped_body_prefix(a: Seq<char>, b: Seq<char>, x: Seq<char>, y: Seq<char>)
    requires
        escape(a) + seq!['"'] + x == escape(b) + seq!['"'] + y,
    ensures
        a == b,
        x == y,
    decreases a.len(),
{
    if a.len() == 0 {
        if b.len() > 0 {
            lemma_escape_prepend(b[0], b.drop_first());
            assert(seq![b[0]] + b.drop_first() =~= b);
            lemma_escape_char_first(b[0]);
            assert((escape(b) + seq!['"'] + y)[0] == escape_char(b[0])[0]);
            assert((escape(a) + seq!['"'] + x)[0] == '"');
        }
        assert(b.len() == 0);
        assert(a =~= b);
        assert(x =~= (escape(a) + seq!['"'] + x).drop_first());
        assert(y =~= (escape(b) + seq!['"'] + y).drop_first());
    } else if b.len() == 0 {
        lemma_escape_prepend(a[0], a.drop_first());
        assert(seq![a[0]] + a.drop_first() =~= a);
        lemma_escape_char_first(a[0]);
        assert((escape(a) + seq!['"'] + x)[0] == escape_char(a[0])[0]);
        assert((escape(b) + seq!['"'] + y)[0] == '"');
    } else {
        let a1 = a.drop_first();
        let b1 = b.drop_first();
        lemma_escape_prepend(a[0], a1);
        lemma_escape_prepend(b[0], b1);
        assert(seq![a[0]] + a1 =~= a);
        assert(seq![b[0]] + b1 =~= b);
        assert(escape(a) + seq!['"'] + x =~= escape_char(a[0]) + (escape(a1) + seq!['"'] + x));
        assert(escape(b) + seq!['"'] + y =~= escape_char(b[0]) + (escape(b1) + seq!['"'] + y));
        lemma_escape_char_prefix(a[0], b[0], escape(a1) + seq!['"'] + x, escape(b1) + seq!['"'] + y);
        lemma_escaped_body_prefix(a1, b1, x, y);
        assert(a =~= b);
    }
}

/// A joined list of two or more parts is its first part, a comma, and the
/// rest joined.
pub proof fn lemma_join_commas_front(parts: Seq<Seq<char>>)
    requires
        parts.len() >= 2,
    ensures
        join_commas(parts) == parts[0] + seq![','] + join_commas(parts.drop_first()),
    decreases parts.len(),
{
    if parts.len() == 2 {
        assert(join_commas(parts.drop_last()) == parts[0]);
        assert(join_commas(parts.drop_first()) == parts[1]);
    } else {
        lemma_join_commas_front(parts.drop_last());
        assert(parts.drop_last().drop_first() =~= parts.drop_first().drop_last());
        assert(join_commas(parts) =~= parts[0] + seq![','] + join_commas(parts.drop_first()));
    }
}

/// A joined list followed by more text, seen from its first part.
proof fn lemma_join_commas_split(parts: Seq<Seq<char>>, tail: Seq<char>)
    requires
        parts.len() >= 1,
    ensures
        join_commas(parts) + tail == parts[0] + (if parts.len() == 1 {
            tail
        } else {
            seq![','] + join_commas(parts.drop_first()) + tail
        }),
{
    if parts.len() == 1 {
    } else {
        lemma_join_commas_front(parts);
        assert(join_commas(parts) + tail =~= parts[0] + (seq![','] + join_commas(parts.drop_first())
            + tail));
    }
}

/// A list of string literals closed by `]` ends where its bracket stands.
proof fn lemma_string_list_prefix(a: Seq<Seq<char>>, b: Seq<Seq<char>>, x: Seq<char>, y: Seq<char>)
    requires
        join_commas(a.map_values(|s: Seq<char>| json_string(s))) + seq![']'] + x == join_commas(
            b.map_values(|s: Seq<char>| json_string(s)),
        ) + seq![']'] + y,
    ensures
        a == b,
        x == y,
    decreases a.len(),
{
    let f = |s: Seq<char>| json_string(s);
    let sa = a.map_values(f);
    let sb = b.map_values(f);
    let l = join_commas(sa) + seq![']'] + x;
    if a.len() == 0 || b.len() == 0 {
        if a.len() > 0 {
            lemma_join_commas_prefix(sa);
            assert(l[0] == sa[0][0]);
            assert(sa[0][0] == '"');
            assert((join_commas(sb) + seq![']'] + y)[0] == ']');
        }
        if b.len() > 0 {
            lemma_join_commas_prefix(sb);
            assert((join_commas(sb) + seq![']'] + y)[0] == sb[0][0]);
            assert(sb[0][0] == '"');
            assert(l[0] == ']');
        }
        assert(a =~= b);
        assert(x =~= l.drop_first());
        assert(y =~= (join_commas(sb) + seq![']'] + y).drop_first());
    } else {
        lemma_join_commas_split(sa, seq![']'] + x);
        lemma_join_commas_split(sb, seq![']'] + y);
        assert(join_commas(sa) + seq![']'] + x =~= join_commas(sa) + (seq![']'] + x));
        assert(join_commas(sb) + seq![']'] + y =~= join_commas(sb) + (seq![']'] + y));
        let ra = if sa.len() == 1 {
            seq![']'] + x
        } else {
            seq![','] + join_commas(sa.drop_first()) + (seq![']'] + x)
        };
        let rb = if sb.len() == 1 {
            seq![']'] + y
        } else {
            seq![','] + join_commas(sb.drop_first()) + (seq![']'] + y)
        };
        lemma_json_string_prefix(a[0], b[0], ra, rb);
        assert(ra[0] == rb[0]);
        let a1 = a.drop_first();
        let b1 = b.drop_first();
        if a.len() > 1 && b.len() > 1 {
            assert(sa.drop_first() =~= a1.map_values(f));
            assert(sb.drop_first() =~= b1.map_values(f));
            assert(ra.drop_first() =~= join_commas(a1.map_values(f)) + seq![']'] + x);
            assert(rb.drop_first() =~= join_commas(b1.map_values(f)) + seq![']'] + y);
            lemma_string_list_prefix(a1, b1, x, y);
        } else {
            assert(a.len() == 1 && b.len() == 1);
            assert(x =~= ra.drop_first());
            assert(y =~= rb.drop_first());
        }
        assert(a.len() == b.len());
        assert forall|i: int| 0 <= i < a.len() implies a[i] == b[i] by {
            if i > 0 {
                assert(a[i] == a1[i - 1]);
                assert(b[i] == b1[i - 1]);
            }
        }
        assert(a =~= b);
    }
}

/// A JSON array of string literals ends at its closing bracket.
pub proof fn lemma_json_string_array_prefix(
    a: Seq<Seq<char>>,
    b: Seq<Seq<char>>,
    x: Seq<char>,
    y: Seq<char>,
)
    requires
        json_string_array(a) + x == json_string_array(b) + y,
    ensures
        a == b,
        x == y,
{
    let f = |s: Seq<char>| json_string(s);
    let l = json_string_array(a) + x;
    let r = json_string_array(b) + y;
    assert(l.drop_first() =~= join_commas(a.map_values(f)) + seq![']'] + x);
    assert(r.drop_first() =~= join_commas(b.map_values(f)) + seq![']'] + y);
    lemma_string_list_prefix(a, b, x, y);
}

/// Whether `v` is the text of a string literal or of an array of them.
#[verifier::opaque]
pub open spec fn is_string_or_array(v: Seq<char>) -> bool {
    (exists|s: Seq<char>| v == json_string(s)) || (exists|a: Seq<Seq<char>>|
        v == json_string_array(a))
}

/// A string literal is a plain value.
pub proof fn lemma_string_is_plain(s: Seq<char>)
    ensures
        is_string_or_array(json_string(s)),
{
    reveal(is_string_or_array);
    assert(json_string(s) == json_string(s));
}

/// An array of string literals is a plain value.
pub proof fn lemma_array_is_plain(a: Seq<Seq<char>>)
    ensures
        is_string_or_array(json_string_array(a)),
{
    reveal(is_string_or_array);
    assert(json_string_array(a) == json_string_array(a));
}

/// Two texts with the same string literal are the same.
pub proof fn lemma_json_string_injective(a: Seq<char>, b: Seq<char>)
    requires
        json_string(a) == json_string(b),
    ensures
        a == b,
{
    let e = Seq::<char>::empty();
    assert(json_string(a) + e =~= json_string(b) + e);
    lemma_json_string_prefix(a, b, e, e);
}

/// Two lists with the same array text are the same.
pub proof fn lemma_json_string_array_injective(a: Seq<Seq<char>>, b: Seq<Seq<char>>)
    requires
        json_string_array(a) == json_string_array(b),
    ensures
        a == b,
{
    let e = Seq::<char>::empty();
    assert(json_string_array(a) + e =~= json_string_array(b) + e);
    lemma_json_string_array_prefix(a, b, e, e);
}

/// A string literal or an array of them ends where its closing mark stands.
proof fn lemma_value_prefix(v: Seq<char>, w: Seq<char>, x: Seq<char>, y: Seq<char>)
    requires
        is_string_or_array(v),
        is_string_or_array(w),
        v + x == w + y,
    ensures
        v == w,
        x == y,
{
    reveal(is_string_or_array);
    let l = v + x;
    if exists|s: Seq<char>| v == json_string(s) {
        let s = choose|s: Seq<char>| v == json_string(s);
        assert(l[0] == '"');
        if exists|t: Seq<char>| w == json_string(t) {
            let t = choose|t: Seq<char>| w == json_string(t);
            lemma_json_string_prefix(s, t, x, y);
        } else {
            let b = choose|b: Seq<Seq<char>>| w == json_string_array(b);
            assert((w + y)[0] == '[');
        }
    } else {
        let a = choose|a: Seq<Seq<char>>| v == json_string_array(a);
        assert(l[0] == '[');
        if exists|t: Seq<char>| w == json_string(t) {
            assert((w + y)[0] == '"');
        } else {
            let b = choose|b: Seq<Seq<char>>| w == json_string_array(b);
            lemma_json_string_array_prefix(a, b, x, y);
        }
    }
}

/// An object member ends where its value ends.
proof fn lemma_member_prefix(
    m: (Seq<char>, Seq<char>),
    n: (Seq<char>, Seq<char>),
    x: Seq<char>,
    y: Seq<char>,
)
    requires
        is_string_or_array(m.1),
        is_string_or_array(n.1),
        json_member(m) + x == json_member(n) + y,
    ensures
        m == n,
        x == y,
{
    assert(json_member(m) + x =~= json_string(m.0) + (seq![':'] + m.1 + x));
    assert(json_member(n) + y =~= json_string(n.0) + (seq![':'] + n.1 + y));
    lemma_json_string_prefix(m.0, n.0, seq![':'] + m.1 + x, seq![':'] + n.1 + y);
    assert((seq![':'] + m.1 + x).drop_first() =~= m.1 + x);
    assert((seq![':'] + n.1 + y).drop_first() =~= n.1 + y);
    lemma_value_prefix(m.1, n.1, x, y);
}

/// Whether every member's value is a string literal or an array of them.
pub open spec fn plain_members(m: Seq<(Seq<char>, Seq<char>)>) -> bool {
    forall|i: int| 0 <= i < m.len() ==> is_string_or_array(#[trigger] m[i].1)
}

/// A member's text starts with the quote of its key.
proof fn lemma_member_first(m: (Seq<char>, Seq<char>))
    ensures
        json_member(m).len() >= 1,
        json_member(m)[0] == '"',
{
}

/// The members after the first of a list whose values are all plain.
proof fn lemma_plain_members_tail(a: Seq<(Seq<char>, Seq<char>)>)
    requires
        a.len() >= 1,
        plain_members(a),
    ensures
        plain_members(a.drop_first()),
{
    let a1 = a.drop_first();
    assert forall|i: int| 0 <= i < a1.len() implies is_string_or_array(#[trigger] a1[i].1) by {
        assert(a1[i] == a[i + 1]);
    }
}

/// A list of members closed by `}` ends where its brace stands.
#[verifier::rlimit(40)]
proof fn lemma_member_list_prefix(
    a: Seq<(Seq<char>, Seq<char>)>,
    b: Seq<(Seq<char>, Seq<char>)>,
    x: Seq<char>,
    y: Seq<char>,
)
    requires
        plain_members(a),
        plain_members(b),
        join_commas(a.map_values(|m: (Seq<char>, Seq<char>)| json_member(m))) + seq!['}'] + x
            == join_commas(b.map_values(|m: (Seq<char>, Seq<char>)| json_member(m))) + seq!['}']
            + y,
    ensures
        a == b,
        x == y,
    decreases a.len(),
{
    let f = |m: (Seq<char>, Seq<char>)| json_member(m);
    let sa = a.map_values(f);
    let sb = b.map_values(f);
    let l = join_commas(sa) + seq!['}'] + x;
    if a.len() == 0 || b.len() == 0 {
        if a.len() > 0 {
            lemma_join_commas_prefix(sa);
            assert(l[0] == sa[0][0]);
            lemma_member_first(a[0]);
            assert((join_commas(sb) + seq!['}'] + y)[0] == '}');
        }
        if b.len() > 0 {
            lemma_join_commas_prefix(sb);
            assert((join_commas(sb) + seq!['}'] + y)[0] == sb[0][0]);
            lemma_member_first(b[0]);
            assert(l[0] == '}');
        }
        assert(a =~= b);
        assert(x =~= l.drop_first());
        assert(y =~= (join_commas(sb) + seq!['}'] + y).drop_first());
    } else {
        lemma_join_commas_split(sa, seq!['}'] + x);
        lemma_join_commas_split(sb, seq!['}'] + y);
        assert(join_commas(sa) + seq!['}'] + x =~= join_commas(sa) + (seq!['}'] + x));
        assert(join_commas(sb) + seq!['}'] + y =~= join_commas(sb) + (seq!['}'] + y));
        let ra = if sa.len() == 1 {
            seq!['}'] + x
        } else {
            seq![','] + join_commas(sa.drop_first()) + (seq!['}'] + x)
        };
        let rb = if sb.len() == 1 {
            seq!['}'] + y
        } else {
            seq![','] + join_commas(sb.drop_first()) + (seq!['}'] + y)
        };
        assert(is_string_or_array(a[0].1));
        assert(is_string_or_array(b[0].1));
        lemma_member_prefix(a[0], b[0], ra, rb);
        assert(ra[0] == rb[0]);
        let a1 = a.drop_first();
        let b1 = b.drop_first();
        if a.len() > 1 && b.len() > 1 {
            assert(sa.drop_first() =~= a1.map_values(f));
            assert(sb.drop_first() =~= b1.map_values(f));
            assert(ra.drop_first() =~= join_commas(a1.map_values(f)) + seq!['}'] + x);
            assert(rb.drop_first() =~= join_commas(b1.map_values(f)) + seq!['}'] + y);
            lemma_plain_members_tail(a);
            lemma_plain_members_tail(b);
            lemma_member_list_prefix(a1, b1, x, y);
        } else {
            assert(a.len() == 1 && b.len() == 1);
            assert(x =~= ra.drop_first());
            assert(y =~= rb.drop_first());
        }
        assert(a.len() == b.len());
        assert forall|i: int| 0 <= i < a.len() implies a[i] == b[i] by {
            if i > 0 {
                assert(a[i] == a1[i - 1]);
                assert(b[i] == b1[i - 1]);
            }
        }
        assert(a =~= b);
    }
}

/// Objects whose values are string literals or arrays of them have the same
/// text only when they have the same members in the same order.
pub proof fn lemma_json_object_injective(a: Seq<(Seq<char>, Seq<char>)>, b: Seq<(Seq<char>, Seq<char>)>)
    requires
        plain_members(a),
        plain_members(b),
        json_object(a) == json_object(b),
    ensures
        a == b,
{
    let f = |m: (Seq<char>, Seq<char>)| json_member(m);
    let e = Seq::<char>::empty();
    assert(json_object(a).drop_first() =~= join_commas(a.map_values(f)) + seq!['}'] + e);
    assert(json_object(b).drop_first() =~= join_commas(b.map_values(f)) + seq!['}'] + e);
    lemma_member_list_prefix(a, b, e, e);
}

} // verus!
