use vstd::prelude::*;
use vstd::string::StrSliceExecFns;

verus! {

/// The characters with the Unicode `White_Space` property, which
/// `char::is_whitespace` and `str::trim` go by.
pub open spec fn is_space(c: char) -> bool {
    let u = c as u32;
    (0x9 <= u <= 0xd) || u == 0x20 || u == 0x85 || u == 0xa0 || u == 0x1680 || (0x2000 <= u
        <= 0x200a) || u == 0x2028 || u == 0x2029 || u == 0x202f || u == 0x205f || u == 0x3000
}

pub open spec fn trim_start(s: Seq<char>) -> Seq<char>
    decreases s.len(),
{
    if s.len() > 0 && is_space(s[0]) {
        trim_start(s.drop_first())
    } else {
        s
    }
}

pub open spec fn trim_end(s: Seq<char>) -> Seq<char>
    decreases s.len(),
{
    if s.len() > 0 && is_space(s.last()) {
        trim_end(s.drop_last())
    } else {
        s
    }
}

/// The text without leading and trailing white space.
pub open spec fn trim(s: Seq<char>) -> Seq<char> {
    trim_end(trim_start(s))
}

/// The pieces of the text between line feeds, the last one included even
/// where empty.
pub open spec fn pieces(s: Seq<char>) -> Seq<Seq<char>>
    decreases s.len(),
{
    if s.len() == 0 {
        seq![seq![]]
    } else {
        let p = pieces(s.drop_last());
        if s.last() == '\n' {
            p.push(seq![])
        } else {
            p.update(p.len() - 1, p.last().push(s.last()))
        }
    }
}

/// Whether a trimmed line names a URL: it is neither blank nor a comment.
pub open spec fn is_entry(line: Seq<char>) -> bool {
    line.len() > 0 && line[0] != '#'
}

/// The trimmed lines that name URLs, in order.
pub open spec fn entries_of(lines: Seq<Seq<char>>) -> Seq<Seq<char>>
    decreases lines.len(),
{
    if lines.len() == 0 {
        seq![]
    } else {
        let before = entries_of(lines.drop_last());
        if is_entry(trim(lines.last())) {
            before.push(trim(lines.last()))
        } else {
            before
        }
    }
}

/// The URLs that a list names: one per line, trimmed, without blank lines and
/// lines that begin with `#`. (A carriage return before a line feed is white
/// space, so the trimming removes it.)
pub open spec fn url_list(s: Seq<char>) -> Seq<Seq<char>> {
    entries_of(pieces(s))
}

pub open spec fn strings_view(v: Seq<String>) -> Seq<Seq<char>> {
    v.map_values(|s: String| s@)
}

proof fn lemma_pieces_nonempty(s: Seq<char>)
    ensures
        pieces(s).len() >= 1,
    decreases s.len(),
{
    if s.len() > 0 {
        lemma_pieces_nonempty(s.drop_last());
    }
}

/// Whether the character is white space.
pub fn char_is_space(c: char) -> (r: bool)
    ensures
        r == is_space(c),
{
    let u = c as u32;
    (0x9 <= u && u <= 0xd) || u == 0x20 || u == 0x85 || u == 0xa0 || u == 0x1680 || (0x2000 <= u
        && u <= 0x200a) || u == 0x2028 || u == 0x2029 || u == 0x202f || u == 0x205f || u == 0x3000
}

/// The characters `from..to` of `s`, trimmed.
fn trimmed_range(s: &str, from: usize, to: usize) -> (r: String)
    requires
        from <= to <= s@.len(),
    ensures
        r@ == trim(s@.subrange(from as int, to as int)),
{
    let mut a = from;
    while a < to && char_is_space(s.get_char(a))
        invariant
            from <= a <= to <= s@.len(),
            trim_start(s@.subrange(from as int, to as int)) == trim_start(s@.subrange(a as int, to as int)),
        decreases to - a,
    {
        assert(s@.subrange(a as int, to as int).drop_first() =~= s@.subrange(a + 1, to as int));
        a += 1;
    }
    let mut b = to;
    while b > a && char_is_space(s.get_char(b - 1))
        invariant
            from <= a <= b <= to <= s@.len(),
            trim_start(s@.subrange(from as int, to as int)) == s@.subrange(a as int, to as int),
            trim(s@.subrange(from as int, to as int)) == trim_end(s@.subrange(a as int, b as int)),
        decreases b - a,
    {
        assert(s@.subrange(a as int, b as int).drop_last() =~= s@.subrange(a as int, b - 1));
        b -= 1;
    }
    s.substring_char(a, b).to_owned()
}

/// The URLs that a newline-separated list names: each line trimmed, blank
/// lines and lines beginning with `#` left out.
pub fn parse_url_list(content: &str) -> (r: Vec<String>)
    ensures
        strings_view(r@) == url_list(content@),
{
    let n = content.unicode_len();
    let mut out: Vec<String> = Vec::new();
    let mut start: usize = 0;
    let mut i: usize = 0;
    proof {
        assert(content@.take(0) =~= seq![]);
        assert(pieces(content@.take(0)).drop_last() =~= seq![]);
    }
    while i < n
        invariant
            n == content@.len(),
            start <= i <= n,
            pieces(content@.take(i as int)).len() >= 1,
            pieces(content@.take(i as int)).last() == content@.subrange(start as int, i as int),
            strings_view(out@) == entries_of(pieces(content@.take(i as int)).drop_last()),
        decreases n - i,
    {
        let ghost p = pieces(content@.take(i as int));
        let ghost ob = out@;
        assert(content@.take(i + 1).drop_last() =~= content@.take(i as int));
        assert(content@.take(i + 1).last() == content@[i as int]);
        if content.get_char(i) == '\n' {
            let line = trimmed_range(content, start, i);
            assert(pieces(content@.take(i + 1)).drop_last() =~= p);
            assert(p.drop_last().push(p.last()) =~= p);
            if line.unicode_len() > 0 && line.as_str().get_char(0) != '#' {
                out.push(line);
                assert(strings_view(out@) =~= strings_view(ob).push(out@.last()@));
            }
            start = i + 1;
            assert(content@.subrange(start as int, i + 1) =~= seq![]);
        } else {
            assert(pieces(content@.take(i + 1)).drop_last() =~= p.drop_last());
            assert(content@.subrange(start as int, i + 1) =~= content@.subrange(start as int, i as int).push(
                content@[i as int],
            ));
        }
        i += 1;
        proof {
            lemma_pieces_nonempty(content@.take(i as int));
        }
    }
    assert(content@.take(n as int) =~= content@);
    let ghost p = pieces(content@);
    let ghost ob = out@;
    let line = trimmed_range(content, start, n);
    assert(p.drop_last().push(p.last()) =~= p);
    if line.unicode_len() > 0 && line.as_str().get_char(0) != '#' {
        out.push(line);
        assert(strings_view(out@) =~= strings_view(ob).push(out@.last()@));
    }
    out
}

} // verus!
