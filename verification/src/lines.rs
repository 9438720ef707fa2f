//! Splitting a text into lines at `'\n'`, the way the viewer lays out the
//! log text: segments between newline characters, with an empty final
//! segment when the text ends in a newline (and a single empty segment for
//! the empty text).

use vstd::prelude::*;

verus! {

/// The segments of `s` between `'\n'` characters. Always at least one
/// segment; none of the segments contains `'\n'`.
pub open spec fn split_lines(s: Seq<char>) -> Seq<Seq<char>>
    decreases s.len(),
{
    if s.len() == 0 {
        seq![Seq::<char>::empty()]
    } else if s[0] == '\n' {
        seq![Seq::<char>::empty()] + split_lines(s.skip(1))
    } else {
        let rest = split_lines(s.skip(1));
        seq![seq![s[0]] + rest[0]] + rest.skip(1)
    }
}

/// Splitting always yields at least one segment.
pub proof fn lemma_split_lines_len(s: Seq<char>)
    ensures
        split_lines(s).len() >= 1,
    decreases s.len(),
{
    if s.len() == 0 {
    } else if s[0] == '\n' {
        lemma_split_lines_len(s.skip(1));
    } else {
        lemma_split_lines_len(s.skip(1));
    }
}

/// If the first `'\n'` of `s` stands at `j`, the first segment is `s.take(j)`
/// and the rest is the split of what follows it; if `s` has no `'\n'` at all
/// (`j == s.len()`), `s` is its own single segment.
pub proof fn lemma_split_lines_chunk(s: Seq<char>, j: int)
    requires
        0 <= j <= s.len(),
        forall|i: int| 0 <= i < j ==> s[i] != '\n',
        j < s.len() ==> s[j] == '\n',
    ensures
        j == s.len() ==> split_lines(s) == seq![s],
        j < s.len() ==> split_lines(s) == seq![s.take(j)] + split_lines(s.skip(j + 1)),
    decreases j,
{
    lemma_split_lines_len(s.skip(1));
    if j == 0 {
        if s.len() == 0 {
            assert(split_lines(s) =~~= seq![s]);
        } else {
            assert(s[0] == '\n');
            assert(s.take(0) =~= Seq::<char>::empty());
            assert(split_lines(s) =~~= seq![s.take(0)] + split_lines(s.skip(1)));
        }
    } else {
        assert(s[0] != '\n');
        let t = s.skip(1);
        assert(forall|i: int| 0 <= i < j - 1 ==> t[i] == s[i + 1] && t[i] != '\n');
        lemma_split_lines_chunk(t, j - 1);
        let rest = split_lines(t);
        if j == s.len() {
            assert(rest == seq![t]);
            assert(seq![s[0]] + rest[0] =~= s);
            assert(rest.skip(1) =~~= Seq::<Seq<char>>::empty());
            assert(split_lines(s) =~~= seq![s]);
        } else {
            assert(rest == seq![t.take(j - 1)] + split_lines(t.skip(j)));
            assert(rest[0] == t.take(j - 1));
            assert(seq![s[0]] + rest[0] =~= s.take(j));
            assert(rest.skip(1) =~~= split_lines(t.skip(j)));
            assert(t.skip(j) =~= s.skip(j + 1));
            assert(split_lines(s) =~~= seq![s.take(j)] + split_lines(s.skip(j + 1)));
        }
    }
}

/// The views of a sequence of strings.
pub open spec fn views_of(v: Seq<String>) -> Seq<Seq<char>> {
    v.map_values(|t: String| t@)
}

/// Splits `s` into its lines at `'\n'`, as `split_lines` describes.
pub fn split_lines_exec(s: &str) -> (r: Vec<String>)
    ensures
        views_of(r@) == split_lines(s@),
{
    let len = s.unicode_len();
    let mut result: Vec<String> = Vec::new();
    let mut pos: usize = 0;
    proof {
        assert(s@.skip(0) =~= s@);
    }
    loop
        invariant
            pos <= len,
            len == s@.len(),
            split_lines(s@) =~~= views_of(result@) + split_lines(s@.skip(pos as int)),
        decreases len - pos,
    {
        // scan for the next newline at or after pos
        let mut j: usize = pos;
        let mut found = false;
        while !found && j < len
            invariant
                pos <= j <= len,
                len == s@.len(),
                forall|i: int| pos <= i < j ==> s@[i] != '\n',
                found ==> j < len && s@[j as int] == '\n',
            decreases len - j, (if found { 0int } else { 1int }),
        {
            if s.get_char(j) == '\n' {
                found = true;
            } else {
                j += 1;
            }
        }
        let seg = s.substring_char(pos, j);
        let ghost tail = s@.skip(pos as int);
        proof {
            assert(forall|i: int| 0 <= i < j - pos ==> tail[i] == s@[i + pos] && tail[i] != '\n');
            if j < len {
                assert(tail[j - pos] == s@[j as int]);
            }
            lemma_split_lines_chunk(tail, j - pos);
            assert(tail.take(j - pos) =~= s@.subrange(pos as int, j as int));
        }
        let mut line = String::new();
        line.append(seg);
        result.push(line);
        if j == len {
            proof {
                assert(tail =~= s@.subrange(pos as int, j as int));
                assert(split_lines(tail) == seq![tail]);
                assert(views_of(result@) =~~= views_of(result@.drop_last()) + seq![tail]);
                assert(split_lines(s@) =~~= views_of(result@));
            }
            return result;
        }
        proof {
            assert(tail.skip(j - pos + 1) =~= s@.skip(j + 1));
            assert(views_of(result@) =~~= views_of(result@.drop_last()) + seq![tail.take(j - pos)]);
            assert(split_lines(s@) =~~= views_of(result@) + split_lines(s@.skip(j + 1)));
        }
        pos = j + 1;
    }
}

} // verus!
