use vstd::prelude::*;

verus! {

/// The parts in order, with `sep` between each two neighbours.
pub open spec fn join(parts: Seq<Seq<char>>, sep: Seq<char>) -> Seq<char>
    decreases parts.len(),
{
    if parts.len() == 0 {
        Seq::empty()
    } else if parts.len() == 1 {
        parts[0]
    } else {
        join(parts.drop_last(), sep) + sep + parts.last()
    }
}

/// The parts in order, one directly behind the other.
pub open spec fn concat(parts: Seq<Seq<char>>) -> Seq<char>
    decreases parts.len(),
{
    if parts.len() == 0 {
        Seq::empty()
    } else {
        concat(parts.drop_last()) + parts.last()
    }
}

/// Joining one part more appends the separator and that part, unless it is the first.
pub proof fn lemma_join_push(parts: Seq<Seq<char>>, sep: Seq<char>, part: Seq<char>)
    ensures
        join(parts.push(part), sep) == if parts.len() == 0 {
            part
        } else {
            join(parts, sep) + sep + part
        },
{
    let all = parts.push(part);
    assert(all.drop_last() =~= parts);
    assert(all.last() == part);
    if parts.len() == 0 {
        assert(all[0] == part);
    }
}

/// Concatenating one part more appends that part.
pub proof fn lemma_concat_push(parts: Seq<Seq<char>>, part: Seq<char>)
    ensures
        concat(parts.push(part)) == concat(parts) + part,
{
    assert(parts.push(part).drop_last() =~= parts);
}

pub fn join_strings(parts: &Vec<String>, sep: &str) -> (r: String)
    ensures
        r@ == join(parts.deep_view(), sep@),
{
    let mut out = String::new();
    let mut i: usize = 0;
    while i < parts.len()
        invariant
            i <= parts.len(),
            out@ == join(parts.deep_view().take(i as int), sep@),
        decreases parts.len() - i,
    {
        proof {
            let seen = parts.deep_view().take(i as int);
            lemma_join_push(seen, sep@, parts[i as int]@);
            assert(parts.deep_view().take(i + 1) =~= seen.push(parts[i as int]@));
        }
        if i > 0 {
            out.append(sep);
        } else {
            assert(out@ + parts[i as int]@ =~= parts[i as int]@);
        }
        out.append(parts[i].as_str());
        i += 1;
    }
    proof {
        assert(parts.deep_view().take(parts.len() as int) =~= parts.deep_view());
    }
    out
}

pub fn concat_strings(parts: &Vec<String>) -> (r: String)
    ensures
        r@ == concat(parts.deep_view()),
{
    let mut out = String::new();
    let mut i: usize = 0;
    while i < parts.len()
        invariant
            i <= parts.len(),
            out@ == concat(parts.deep_view().take(i as int)),
        decreases parts.len() - i,
    {
        proof {
            let seen = parts.deep_view().take(i as int);
            lemma_concat_push(seen, parts[i as int]@);
            assert(parts.deep_view().take(i + 1) =~= seen.push(parts[i as int]@));
        }
        out.append(parts[i].as_str());
        i += 1;
    }
    proof {
        assert(parts.deep_view().take(parts.len() as int) =~= parts.deep_view());
    }
    out
}

/// Puts one string at the end of `list`.
pub fn push_string(list: &mut Vec<String>, s: String)
    ensures
        final(list).deep_view() == old(list).deep_view().push(s@),
{
    let ghost before = list.deep_view();
    let ghost text = s@;
    list.push(s);
    assert(list.deep_view() =~= before.push(text));
}

/// One character as it stands inside a string literal: a quote, a backslash and the common
/// control characters are written with a backslash, any other character as it is.
pub open spec fn escaped_char(c: char) -> Seq<char> {
    if c == '"' {
        seq!['\\', '"']
    } else if c == '\\' {
        seq!['\\', '\\']
    } else if c == '\n' {
        seq!['\\', 'n']
    } else if c == '\r' {
        seq!['\\', 'r']
    } else if c == '\t' {
        seq!['\\', 't']
    } else if c == '\0' {
        seq!['\\', '0']
    } else {
        seq![c]
    }
}

/// A text as it stands inside a string literal.
pub open spec fn escaped(s: Seq<char>) -> Seq<char>
    decreases s.len(),
{
    if s.len() == 0 {
        Seq::empty()
    } else {
        escaped(s.drop_last()) + escaped_char(s.last())
    }
}

/// The string literal that denotes a text.
pub open spec fn string_literal(s: Seq<char>) -> Seq<char> {
    seq!['"'] + escaped(s) + seq!['"']
}

/// Writes the string literal that denotes a text. It is meant for names, namespaces and
/// paths of files. On a text of letters, digits, punctuation and blanks it writes what
/// `proc_macro2::Literal::string` writes. The two differ, though both denote the text, on a
/// NUL before an octal digit, which is written `\0` here, and on the characters that std
/// escapes as `\u{..}`, which are written as they are here.
pub fn write_string_literal(s: &str) -> (r: String)
    ensures
        r@ == string_literal(s@),
{
    proof {
        reveal_strlit("\"");
    }
    let mut out = String::from_str("\"");
    assert(out@ =~= seq!['"'] + escaped(s@.take(0)));
    let n = s.unicode_len();
    let mut i: usize = 0;
    while i < n
        invariant
            i <= n,
            n == s@.len(),
            out@ == seq!['"'] + escaped(s@.take(i as int)),
        decreases n - i,
    {
        let c = s.get_char(i);
        proof {
            assert(s@.take(i + 1).drop_last() =~= s@.take(i as int));
            assert(s@.take(i + 1).last() == c);
            reveal_strlit("\\\"");
            reveal_strlit("\\\\");
            reveal_strlit("\\n");
            reveal_strlit("\\r");
            reveal_strlit("\\t");
            reveal_strlit("\\0");
        }
        let ghost before = out@;
        if c == '"' {
            out.append("\\\"");
            assert(out@ =~= before + escaped_char(c));
        } else if c == '\\' {
            out.append("\\\\");
            assert(out@ =~= before + escaped_char(c));
        } else if c == '\n' {
            out.append("\\n");
            assert(out@ =~= before + escaped_char(c));
        } else if c == '\r' {
            out.append("\\r");
            assert(out@ =~= before + escaped_char(c));
        } else if c == '\t' {
            out.append("\\t");
            assert(out@ =~= before + escaped_char(c));
        } else if c == '\0' {
            out.append("\\0");
            assert(out@ =~= before + escaped_char(c));
        } else {
            out.append(s.substring_char(i, i + 1));
            assert(s@.subrange(i as int, i + 1) =~= seq![c]);
            assert(out@ =~= before + escaped_char(c));
        }
        assert(out@ =~= seq!['"'] + (escaped(s@.take(i as int)) + escaped_char(c)));
        i += 1;
    }
    proof {
        assert(s@.take(n as int) =~= s@);
        reveal_strlit("\"");
    }
    out.append("\"");
    assert(out@ =~= string_literal(s@));
    out
}

} // verus!
