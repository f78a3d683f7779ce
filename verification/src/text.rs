//! Text primitives of the annotation grammar: comparing names, quoting keys
//! and joining fragments with a separator.

use vstd::prelude::*;
use vstd::string::*;
use vstd::utf8::*;

verus! {

/// Whether two strings hold the same characters.
pub fn same_text(a: &str, b: &str) -> (same: bool)
    ensures
        same == (a@ == b@),
{
    let x = a.as_bytes();
    let y = b.as_bytes();
    proof {
        encode_utf8_decode_utf8(a@);
        encode_utf8_decode_utf8(b@);
    }
    if x.len() != y.len() {
        return false;
    }
    let mut i: usize = 0;
    while i < x.len()
        invariant
            i <= x.len(),
            x.len() == y.len(),
            x@ == a.spec_bytes(),
            y@ == b.spec_bytes(),
            forall|k: int| 0 <= k < i ==> x@[k] == y@[k],
        decreases x.len() - i,
    {
        if x[i] != y[i] {
            return false;
        }
        i += 1;
    }
    assert(x@ =~= y@);
    true
}

/// The characters that stand for `c` inside a quoted key: a backslash goes in
/// front of a double quote and of a backslash, every other character stands
/// for itself.
pub open spec fn escaped_char(c: char) -> Seq<char> {
    if c == '"' || c == '\\' {
        seq!['\\', c]
    } else {
        seq![c]
    }
}

/// The characters of `s`, each replaced by `escaped_char` of it.
pub open spec fn escaped(s: Seq<char>) -> Seq<char>
    decreases s.len(),
{
    if s.len() == 0 {
        Seq::empty()
    } else {
        escaped(s.drop_last()) + escaped_char(s.last())
    }
}

/// A name as it appears as a key or a tag in an annotation: escaped and
/// enclosed in double quotes.
pub open spec fn quoted(s: Seq<char>) -> Seq<char> {
    seq!['"'] + escaped(s) + seq!['"']
}

/// Escaping loses nothing: two texts that escape to the same text are the
/// same text.
pub proof fn lemma_escaped_injective(a: Seq<char>, b: Seq<char>)
    requires
        escaped(a) == escaped(b),
    ensures
        a == b,
    decreases a.len(),
{
    if a.len() == 0 || b.len() == 0 {
        if a.len() > 0 {
            assert(escaped(a).len() >= escaped_char(a.last()).len());
        }
        if b.len() > 0 {
            assert(escaped(b).len() >= escaped_char(b.last()).len());
        }
        assert(a =~= b);
    } else {
        let x = escaped(a.drop_last());
        let y = escaped(b.drop_last());
        let p = escaped_char(a.last());
        let q = escaped_char(b.last());
        assert((x + p).last() == a.last());
        assert((y + q).last() == b.last());
        assert(p == q);
        assert(x =~= (x + p).subrange(0, x.len() as int));
        assert(y =~= (y + q).subrange(0, y.len() as int));
        lemma_escaped_injective(a.drop_last(), b.drop_last());
        assert(a =~= a.drop_last().push(a.last()));
        assert(b =~= b.drop_last().push(b.last()));
    }
}

/// Different names give different keys.
pub proof fn lemma_quoted_injective(a: Seq<char>, b: Seq<char>)
    requires
        quoted(a) == quoted(b),
    ensures
        a == b,
{
    assert(escaped(a) =~= quoted(a).subrange(1, quoted(a).len() - 1));
    assert(escaped(b) =~= quoted(b).subrange(1, quoted(b).len() - 1));
    lemma_escaped_injective(a, b);
}

/// Renders `name` as a quoted key.
pub fn quote_name(name: &str) -> (out: String)
    ensures
        out@ == quoted(name@),
{
    let n = name.unicode_len();
    let mut out = String::from_str("\"");
    proof {
        reveal_strlit("\"");
        reveal_strlit("\\");
        assert(out@ =~= seq!['"'] + escaped(name@.take(0)));
    }
    let mut i: usize = 0;
    while i < n
        invariant
            i <= n,
            n == name@.len(),
            out@ == seq!['"'] + escaped(name@.take(i as int)),
            "\\"@ == seq!['\\'],
        decreases n - i,
    {
        let c = name.get_char(i);
        let piece = name.substring_char(i, i + 1);
        proof {
            assert(piece@ =~= seq![c]);
            assert(name@.take(i as int + 1).drop_last() =~= name@.take(i as int));
            assert(name@.take(i as int + 1).last() == c);
        }
        if c == '"' || c == '\\' {
            out.append("\\");
        }
        out.append(piece);
        proof {
            assert(out@ =~= seq!['"'] + escaped(name@.take(i as int + 1)));
        }
        i += 1;
    }
    proof {
        assert(name@.take(n as int) =~= name@);
    }
    out.append("\"");
    out
}

/// The texts of `parts`, in order, with `sep` between neighbours.
pub open spec fn joined(parts: Seq<Seq<char>>, sep: Seq<char>) -> Seq<char>
    decreases parts.len(),
{
    if parts.len() == 0 {
        Seq::empty()
    } else if parts.len() == 1 {
        parts[0]
    } else {
        joined(parts.drop_last(), sep) + sep + parts.last()
    }
}

/// The view of each string of a list.
pub open spec fn texts(parts: Seq<String>) -> Seq<Seq<char>> {
    parts.map_values(|s: String| s@)
}

/// Joins `parts` with `sep` between neighbours.
pub fn join(parts: &Vec<String>, sep: &str) -> (out: String)
    ensures
        out@ == joined(texts(parts@), sep@),
{
    let mut out = String::new();
    let ghost all = texts(parts@);
    let mut i: usize = 0;
    while i < parts.len()
        invariant
            i <= parts.len(),
            all == texts(parts@),
            out@ == joined(all.take(i as int), sep@),
        decreases parts.len() - i,
    {
        proof {
            assert(all.take(i as int + 1).drop_last() =~= all.take(i as int));
            assert(all.take(i as int + 1).last() == parts@[i as int]@);
        }
        if i > 0 {
            out.append(sep);
        }
        out.append(parts[i].as_str());
        proof {
            if i == 0 {
                assert(out@ =~= parts@[0]@);
            }
        }
        i += 1;
    }
    proof {
        assert(all.take(parts.len() as int) =~= all);
    }
    out
}

/// Where the part at `i` begins in the joined text: at the start for the
/// first part, else after the first `i` parts, joined, and one separator.
pub open spec fn part_start(parts: Seq<Seq<char>>, sep: Seq<char>, i: int) -> int {
    if i <= 0 {
        0
    } else {
        (joined(parts.take(i), sep).len() + sep.len()) as int
    }
}

/// The first `k` parts, joined, are the beginning of all parts, joined.
pub proof fn lemma_joined_prefix(parts: Seq<Seq<char>>, sep: Seq<char>, k: int)
    requires
        0 <= k <= parts.len(),
    ensures
        joined(parts.take(k), sep).len() <= joined(parts, sep).len(),
        joined(parts, sep).subrange(0, joined(parts.take(k), sep).len() as int) == joined(
            parts.take(k),
            sep,
        ),
    decreases parts.len() - k,
{
    let whole = joined(parts, sep);
    if k == parts.len() {
        assert(parts.take(k) =~= parts);
        assert(whole.subrange(0, whole.len() as int) =~= whole);
    } else {
        lemma_joined_prefix(parts, sep, k + 1);
        let shorter = joined(parts.take(k), sep);
        let longer = joined(parts.take(k + 1), sep);
        assert(parts.take(k + 1).drop_last() =~= parts.take(k));
        assert(shorter.len() <= longer.len() && longer.subrange(0, shorter.len() as int)
            =~= shorter);
        assert(whole.subrange(0, shorter.len() as int) =~= whole.subrange(
            0,
            longer.len() as int,
        ).subrange(0, shorter.len() as int));
    }
}

/// Every part stands in the joined text, unchanged, at its `part_start`.
pub proof fn lemma_joined_part(parts: Seq<Seq<char>>, sep: Seq<char>, i: int)
    requires
        0 <= i < parts.len(),
    ensures
        part_start(parts, sep, i) + parts[i].len() <= joined(parts, sep).len(),
        joined(parts, sep).subrange(
            part_start(parts, sep, i),
            part_start(parts, sep, i) + parts[i].len(),
        ) == parts[i],
{
    let whole = joined(parts, sep);
    let upto = joined(parts.take(i + 1), sep);
    let start = part_start(parts, sep, i);
    lemma_joined_prefix(parts, sep, i + 1);
    assert(parts.take(i + 1).drop_last() =~= parts.take(i));
    assert(parts.take(i + 1).last() == parts[i]);
    assert(upto.len() == start + parts[i].len());
    assert(upto.subrange(start, start + parts[i].len()) =~= parts[i]);
    assert(whole.subrange(start, start + parts[i].len()) =~= whole.subrange(
        0,
        upto.len() as int,
    ).subrange(start, start + parts[i].len()));
}

/// A part that comes earlier in the list ends in the joined text, a
/// separator follows, and only then a later part begins.
pub proof fn lemma_joined_order(parts: Seq<Seq<char>>, sep: Seq<char>, i: int, j: int)
    requires
        0 <= i < j < parts.len(),
    ensures
        part_start(parts, sep, i) + parts[i].len() + sep.len() <= part_start(parts, sep, j),
{
    let before_j = parts.take(j);
    lemma_joined_prefix(before_j, sep, i + 1);
    assert(before_j.take(i + 1) =~= parts.take(i + 1));
    assert(parts.take(i + 1).drop_last() =~= parts.take(i));
    assert(parts.take(i + 1).last() == parts[i]);
}

} // verus!
