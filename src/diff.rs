use vstd::prelude::*;

use crate::text::{chars_of, push_char};
use vstd::seq_lib::lemma_flatten_concat;

verus! {

/// The text that opens the section of one file in a unified diff.
pub open spec fn header_marker() -> Seq<char> {
    seq!['d', 'i', 'f', 'f', ' ', '-', '-', 'g', 'i', 't']
}

/// A line that opens the section of a new file.
pub open spec fn is_header(line: Seq<char>) -> bool {
    line.len() >= header_marker().len() && line.take(header_marker().len() as int)
        == header_marker()
}

/// The position of the first newline of `s`, or the length of `s` when it has none.
pub open spec fn newline_index(s: Seq<char>) -> nat
    decreases s.len(),
{
    if s.len() == 0 {
        0
    } else if s[0] == '\n' {
        0
    } else {
        1 + newline_index(s.drop_first())
    }
}

/// A line without the carriage return that ended it, if any.
pub open spec fn strip_cr(line: Seq<char>) -> Seq<char> {
    if line.len() > 0 && line.last() == '\r' {
        line.drop_last()
    } else {
        line
    }
}

/// The lines of a text: it is cut at each newline (a carriage return just before
/// the newline belongs to the line ending), and a final newline opens no empty line.
pub open spec fn lines(s: Seq<char>) -> Seq<Seq<char>>
    decreases s.len(),
{
    if s.len() == 0 {
        seq![]
    } else {
        let i = newline_index(s);
        if i < s.len() {
            seq![strip_cr(s.take(i as int))] + lines(s.skip((i + 1) as int))
        } else {
            seq![s]
        }
    }
}

/// The lines `ls` gathered into chunks, `cur` being the chunk in progress: every
/// line is added with a newline, and a header line closes a non-empty chunk
/// before it.
pub open spec fn group(ls: Seq<Seq<char>>, cur: Seq<char>) -> Seq<Seq<char>>
    decreases ls.len(),
{
    if ls.len() == 0 {
        if cur.len() > 0 {
            seq![cur]
        } else {
            seq![]
        }
    } else if is_header(ls[0]) && cur.len() > 0 {
        seq![cur] + group(ls.drop_first(), ls[0].push('\n'))
    } else {
        group(ls.drop_first(), cur + ls[0].push('\n'))
    }
}

/// The per-file chunks of a unified diff.
pub open spec fn diff_chunks(s: Seq<char>) -> Seq<Seq<char>> {
    group(lines(s), seq![])
}

/// The text of each string, in order.
pub open spec fn views(v: Seq<String>) -> Seq<Seq<char>> {
    v.map_values(|s: String| s@)
}

proof fn lemma_newline_index(s: Seq<char>, j: int)
    requires
        0 <= j <= s.len(),
        forall|k: int| 0 <= k < j ==> s[k] != '\n',
        j == s.len() || s[j] == '\n',
    ensures
        newline_index(s) == j,
    decreases j,
{
    if j > 0 {
        lemma_newline_index(s.drop_first(), j - 1);
    }
}

/// Whether the characters `cs[start..end]` form a header line.
fn is_header_at(cs: &Vec<char>, start: usize, end: usize, marker: &Vec<char>) -> (r: bool)
    requires
        start <= end <= cs@.len(),
        marker@ == header_marker(),
    ensures
        r == is_header(cs@.subrange(start as int, end as int)),
{
    let m = marker.len();
    if end - start < m {
        return false;
    }
    let mut k: usize = 0;
    while k < m
        invariant
            m == marker@.len(),
            marker@ == header_marker(),
            start + m <= end <= cs@.len(),
            k <= m,
            forall|i: int| 0 <= i < k ==> cs@[start + i] == marker@[i],
        decreases m - k,
    {
        if cs[start + k] != marker[k] {
            assert(cs@.subrange(start as int, end as int).take(m as int)[k as int] != marker@[k as int]);
            assert(cs@.subrange(start as int, end as int).take(m as int) != marker@);
            return false;
        }
        k = k + 1;
    }
    assert(cs@.subrange(start as int, end as int).take(m as int) =~= marker@);
    true
}

/// Splits a unified diff into one chunk per file. Each line of the input goes,
/// followed by a newline, into the current chunk; a line that starts with
/// `diff --git` first closes the current chunk, if it is not empty.
pub fn split_diff_into_files(content: &str) -> (r: Vec<String>)
    ensures
        views(r@) == diff_chunks(content@),
{
    let cs = chars_of(content);
    let marker: Vec<char> = vec!['d', 'i', 'f', 'f', ' ', '-', '-', 'g', 'i', 't'];
    let n = cs.len();
    let mut file_diffs: Vec<String> = Vec::new();
    let mut current = String::new();
    let mut start: usize = 0;
    assert(cs@.skip(0) =~= cs@);
    assert(views(file_diffs@) + diff_chunks(content@) =~= diff_chunks(content@));
    while start < n
        invariant
            n == cs@.len(),
            cs@ == content@,
            marker@ == header_marker(),
            start <= n,
            views(file_diffs@) + group(lines(cs@.skip(start as int)), current@) == diff_chunks(
                content@,
            ),
        decreases n - start,
    {
        let ghost rest = cs@.skip(start as int);
        let mut j: usize = start;
        while j < n && cs[j] != '\n'
            invariant
                n == cs@.len(),
                start <= j <= n,
                forall|k: int| start <= k < j ==> cs@[k] != '\n',
            decreases n - j,
        {
            j = j + 1;
        }
        proof {
            lemma_newline_index(rest, j - start);
        }
        let end = if j < n && j > start && cs[j - 1] == '\r' {
            j - 1
        } else {
            j
        };
        let ghost line = cs@.subrange(start as int, end as int);
        let ghost next = if j < n {
            (j + 1) as int
        } else {
            n as int
        };
        proof {
            if j < n {
                assert(rest.take(j - start) =~= cs@.subrange(start as int, j as int));
                assert(strip_cr(rest.take(j - start)) =~= line);
                assert(rest.skip(j - start + 1) =~= cs@.skip(next));
                assert(lines(rest) == seq![line] + lines(cs@.skip(next)));
            } else {
                assert(rest =~= line);
                assert(cs@.skip(next) =~= Seq::<char>::empty());
                assert(lines(rest) == seq![line]);
                assert(lines(cs@.skip(next)) =~= Seq::<Seq<char>>::empty());
                assert(lines(rest) =~= seq![line] + lines(cs@.skip(next)));
            }
        }
        let ghost ls = lines(rest);
        assert(ls[0] == line);
        assert(ls.drop_first() =~= lines(cs@.skip(next)));
        let header = is_header_at(&cs, start, end, &marker);
        if header && !current.as_str().is_empty() {
            assert(views(file_diffs@.push(current)) =~= views(file_diffs@) + seq![current@]);
            file_diffs.push(current);
            current = String::new();
        }
        let ghost base = current@;
        let mut k: usize = start;
        while k < end
            invariant
                n == cs@.len(),
                start <= k <= end <= n,
                current@ == base + cs@.subrange(start as int, k as int),
            decreases end - k,
        {
            assert(cs@.subrange(start as int, k + 1) =~= cs@.subrange(start as int, k as int).push(
                cs@[k as int],
            ));
            push_char(&mut current, cs[k]);
            k = k + 1;
        }
        push_char(&mut current, '\n');
        assert(current@ =~= base + line.push('\n'));
        start = if j < n {
            j + 1
        } else {
            n
        };
    }
    assert(cs@.skip(start as int) =~= Seq::<char>::empty());
    if !current.as_str().is_empty() {
        assert(views(file_diffs@.push(current)) =~= views(file_diffs@) + seq![current@]);
        file_diffs.push(current);
    } else {
        assert(views(file_diffs@) + Seq::<Seq<char>>::empty() =~= views(file_diffs@));
    }
    file_diffs
}

/// The text of the lines of `s`, each followed by a newline.
pub open spec fn joined_lines(s: Seq<char>) -> Seq<char> {
    newline_each(lines(s))
}

/// The lines `ls`, each followed by a newline, in one text.
pub open spec fn newline_each(ls: Seq<Seq<char>>) -> Seq<char> {
    ls.map_values(|l: Seq<char>| l.push('\n')).flatten()
}

/// The number of header lines among `ls`.
pub open spec fn header_count(ls: Seq<Seq<char>>) -> nat
    decreases ls.len(),
{
    if ls.len() == 0 {
        0
    } else {
        (if is_header(ls[0]) {
            1nat
        } else {
            0nat
        }) + header_count(ls.drop_first())
    }
}

proof fn lemma_newline_each_unfold(ls: Seq<Seq<char>>)
    requires
        ls.len() > 0,
    ensures
        newline_each(ls) == ls[0].push('\n') + newline_each(ls.drop_first()),
{
    let m = ls.map_values(|l: Seq<char>| l.push('\n'));
    assert(m.drop_first() =~= ls.drop_first().map_values(|l: Seq<char>| l.push('\n')));
}

proof fn lemma_group_flatten(ls: Seq<Seq<char>>, cur: Seq<char>)
    ensures
        group(ls, cur).flatten() == cur + newline_each(ls),
    decreases ls.len(),
{
    if ls.len() == 0 {
        assert(ls.map_values(|l: Seq<char>| l.push('\n')) =~= Seq::<Seq<char>>::empty());
        if cur.len() > 0 {
            seq![cur].lemma_flatten_one_element();
        }
        assert(cur + Seq::<char>::empty() =~= cur);
    } else {
        lemma_newline_each_unfold(ls);
        let l = ls[0].push('\n');
        if is_header(ls[0]) && cur.len() > 0 {
            lemma_group_flatten(ls.drop_first(), l);
            lemma_flatten_concat(seq![cur], group(ls.drop_first(), l));
            seq![cur].lemma_flatten_one_element();
            assert(cur + (l + newline_each(ls.drop_first())) =~= cur + newline_each(ls));
        } else {
            lemma_group_flatten(ls.drop_first(), cur + l);
            assert(cur + l + newline_each(ls.drop_first()) =~= cur + newline_each(ls));
        }
    }
}

/// The chunks of a diff, concatenated in order, give back its lines, each
/// followed by a newline.
pub proof fn lemma_chunks_concatenate_to_lines(s: Seq<char>)
    ensures
        diff_chunks(s).flatten() == joined_lines(s),
{
    lemma_group_flatten(lines(s), seq![]);
    assert(Seq::<char>::empty() + joined_lines(s) =~= joined_lines(s));
}

proof fn lemma_group_no_header(ls: Seq<Seq<char>>, cur: Seq<char>)
    requires
        cur.len() > 0 || ls.len() > 0,
        forall|i: int| 0 <= i < ls.len() ==> !is_header(#[trigger] ls[i]),
    ensures
        group(ls, cur) == seq![cur + newline_each(ls)],
    decreases ls.len(),
{
    if ls.len() == 0 {
        assert(ls.map_values(|l: Seq<char>| l.push('\n')) =~= Seq::<Seq<char>>::empty());
        assert(cur + Seq::<char>::empty() =~= cur);
    } else {
        lemma_newline_each_unfold(ls);
        assert(!is_header(ls[0]));
        lemma_group_no_header(ls.drop_first(), cur + ls[0].push('\n'));
        assert(cur + ls[0].push('\n') + newline_each(ls.drop_first()) =~= cur + newline_each(ls));
    }
}

/// An empty diff has no chunks; a non-empty one with no header line is a
/// single chunk, its lines each followed by a newline.
pub proof fn lemma_chunks_without_header(s: Seq<char>)
    ensures
        s.len() == 0 ==> diff_chunks(s) == Seq::<Seq<char>>::empty(),
        s.len() > 0 && (forall|i: int| 0 <= i < lines(s).len() ==> !is_header(#[trigger] lines(s)[i]))
            ==> diff_chunks(s) == seq![joined_lines(s)],
{
    if s.len() > 0 && (forall|i: int| 0 <= i < lines(s).len() ==> !is_header(#[trigger] lines(s)[i])) {
        assert(lines(s).len() > 0);
        lemma_group_no_header(lines(s), seq![]);
        assert(Seq::<char>::empty() + joined_lines(s) =~= joined_lines(s));
    }
}

proof fn lemma_group_count(ls: Seq<Seq<char>>, cur: Seq<char>)
    requires
        cur.len() > 0,
    ensures
        group(ls, cur).len() == 1 + header_count(ls),
    decreases ls.len(),
{
    if ls.len() > 0 {
        if is_header(ls[0]) {
            lemma_group_count(ls.drop_first(), ls[0].push('\n'));
        } else {
            lemma_group_count(ls.drop_first(), cur + ls[0].push('\n'));
        }
    }
}

/// A diff whose first line is a header has exactly one chunk per header line.
pub proof fn lemma_one_chunk_per_header(s: Seq<char>)
    requires
        lines(s).len() > 0,
        is_header(lines(s)[0]),
    ensures
        diff_chunks(s).len() == header_count(lines(s)),
{
    let ls = lines(s);
    lemma_group_count(ls.drop_first(), ls[0].push('\n'));
}

proof fn lemma_newline_index_facts(s: Seq<char>)
    ensures
        newline_index(s) <= s.len(),
        newline_index(s) < s.len() ==> s[newline_index(s) as int] == '\n',
        forall|k: int| 0 <= k < newline_index(s) ==> s[k] != '\n',
    decreases s.len(),
{
    if s.len() > 0 && s[0] != '\n' {
        let t = s.drop_first();
        lemma_newline_index_facts(t);
        assert forall|k: int| 0 <= k < newline_index(s) implies s[k] != '\n' by {
            if k > 0 {
                assert(s[k] == t[k - 1]);
            }
        }
    }
}

/// A text with no carriage return that is empty or ends in a newline is
/// exactly its lines, each followed by a newline.
pub proof fn lemma_joined_lines_exact(s: Seq<char>)
    requires
        forall|i: int| 0 <= i < s.len() ==> s[i] != '\r',
        s.len() == 0 || s.last() == '\n',
    ensures
        joined_lines(s) == s,
    decreases s.len(),
{
    if s.len() == 0 {
        assert(lines(s).map_values(|l: Seq<char>| l.push('\n')) =~= Seq::<Seq<char>>::empty());
    } else {
        lemma_newline_index_facts(s);
        let i = newline_index(s) as int;
        assert(i < s.len());
        let t = s.skip(i + 1);
        assert(lines(s) == seq![strip_cr(s.take(i))] + lines(t));
        assert(strip_cr(s.take(i)) == s.take(i));
        lemma_newline_each_unfold(lines(s));
        assert(lines(s).drop_first() =~= lines(t));
        assert forall|k: int| 0 <= k < t.len() implies t[k] != '\r' by {
            assert(t[k] == s[k + i + 1]);
        }
        assert(t.len() == 0 || t.last() == s.last());
        lemma_joined_lines_exact(t);
        assert(s.take(i).push('\n') + t =~= s);
    }
}

/// A diff with no carriage return that ends in a newline is given back
/// exactly by its chunks, concatenated in order.
pub proof fn lemma_chunks_concatenate_exactly(s: Seq<char>)
    requires
        forall|i: int| 0 <= i < s.len() ==> s[i] != '\r',
        s.len() == 0 || s.last() == '\n',
    ensures
        diff_chunks(s).flatten() == s,
{
    lemma_chunks_concatenate_to_lines(s);
    lemma_joined_lines_exact(s);
}

/// A non-empty text with no header line, no carriage return, and a final
/// newline is a single chunk equal to the text.
pub proof fn lemma_headerless_text_is_one_chunk(s: Seq<char>)
    requires
        s.len() > 0,
        s.last() == '\n',
        forall|i: int| 0 <= i < s.len() ==> s[i] != '\r',
        forall|i: int| 0 <= i < lines(s).len() ==> !is_header(#[trigger] lines(s)[i]),
    ensures
        diff_chunks(s) == seq![s],
{
    lemma_chunks_without_header(s);
    lemma_joined_lines_exact(s);
}

} // verus!
