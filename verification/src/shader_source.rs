//! Shader source text: inserting preprocessor defines.
use vstd::prelude::*;

verus! {

/// The line without the carriage return that ends it, if one does.
pub open spec fn strip_cr(line: Seq<char>) -> Seq<char> {
    if line.len() > 0 && line.last() == '\r' {
        line.drop_last()
    } else {
        line
    }
}

/// The lines of `s`, where `cur` is the part of the current line already read: lines end at
/// `\n` (a `\r` just before it is dropped); a last line without `\n` counts if it is not empty.
pub open spec fn lines_after(s: Seq<char>, cur: Seq<char>) -> Seq<Seq<char>>
    decreases s.len(),
{
    if s.len() == 0 {
        if cur.len() == 0 {
            seq![]
        } else {
            seq![cur]
        }
    } else if s[0] == '\n' {
        seq![strip_cr(cur)] + lines_after(s.drop_first(), seq![])
    } else {
        lines_after(s.drop_first(), cur.push(s[0]))
    }
}

/// The lines of a text, as Rust's `str::lines` splits it.
pub open spec fn text_lines(s: Seq<char>) -> Seq<Seq<char>> {
    lines_after(s, seq![])
}

/// The lines joined into one text, with `\n` between two lines.
pub open spec fn join_lines(lines: Seq<Seq<char>>) -> Seq<char>
    decreases lines.len(),
{
    if lines.len() == 0 {
        seq![]
    } else if lines.len() == 1 {
        lines[0]
    } else {
        join_lines(lines.drop_last()) + seq!['\n'] + lines.last()
    }
}

/// The preprocessor directive that names the GLSL version.
pub open spec fn version_directive() -> Seq<char> {
    seq!['#', 'v', 'e', 'r', 's', 'i', 'o', 'n']
}

/// `line` begins with `prefix`.
pub open spec fn starts_with(line: Seq<char>, prefix: Seq<char>) -> bool {
    prefix.len() <= line.len() && line.subrange(0, prefix.len() as int) == prefix
}

/// `k` is the first line that starts with `#version`.
pub open spec fn is_first_version_line(lines: Seq<Seq<char>>, k: int) -> bool {
    &&& 0 <= k < lines.len()
    &&& starts_with(lines[k], version_directive())
    &&& forall|j: int| 0 <= j < k ==> !starts_with(#[trigger] lines[j], version_directive())
}

/// Where the defines go: right after the first `#version` line, else first.
pub open spec fn defines_position(lines: Seq<Seq<char>>, pos: int) -> bool {
    ||| exists|k: int| is_first_version_line(lines, k) && pos == k + 1
    ||| (forall|j: int| 0 <= j < lines.len() ==> !starts_with(#[trigger] lines[j], version_directive()))
        && pos == 0
}

/// One `#define` line per define, joined into a block.
pub open spec fn defines_block(defines: Seq<Seq<char>>) -> Seq<char> {
    join_lines(defines.map_values(|d: Seq<char>| "#define "@ + d))
}

/// The place of the defines is determined by the source: it is one line past the first
/// `#version` line, or the top when no line starts with `#version`.
pub proof fn law_defines_position_is_unique(lines: Seq<Seq<char>>, p1: int, p2: int)
    requires
        defines_position(lines, p1),
        defines_position(lines, p2),
    ensures
        p1 == p2,
{
    if exists|k: int| is_first_version_line(lines, k) {
        let k = choose|k: int| is_first_version_line(lines, k);
        assert forall|kk: int| is_first_version_line(lines, kk) implies kk == k by {
            if kk < k {
                assert(!starts_with(lines[kk], version_directive()));
            } else if k < kk {
                assert(!starts_with(lines[k], version_directive()));
            }
        }
        assert(!(forall|j: int|
            0 <= j < lines.len() ==> !starts_with(#[trigger] lines[j], version_directive())));
    }
}

/// The `#version` line keeps its place before every other line: the lines up to and
/// including the first `#version` line are unchanged, and the defines come right after it.
pub proof fn law_version_line_stays_first(
    lines: Seq<Seq<char>>,
    block: Seq<char>,
    pos: int,
    k: int,
)
    requires
        defines_position(lines, pos),
        is_first_version_line(lines, k),
    ensures
        pos == k + 1,
        lines.insert(pos, block).take(k + 1) == lines.take(k + 1),
        lines.insert(pos, block)[k + 1] == block,
{
    law_defines_position_is_unique(lines, pos, k + 1);
    assert(lines.insert(pos, block).take(k + 1) =~= lines.take(k + 1));
}

proof fn lemma_join_step(lines: Seq<Seq<char>>, j: int)
    requires
        0 <= j < lines.len(),
    ensures
        join_lines(lines.take(j + 1)) == if j == 0 {
            lines[0]
        } else {
            join_lines(lines.take(j)) + seq!['\n'] + lines[j]
        },
{
    assert(lines.take(j + 1).drop_last() =~= lines.take(j));
    if j == 0 {
        assert(lines.take(1).len() == 1);
    }
}

proof fn lemma_lines_step(s: Seq<char>, i: int, start: int)
    requires
        0 <= start <= i < s.len(),
    ensures
        s[i] == '\n' ==> lines_after(s.skip(i), s.subrange(start, i)) == seq![
            strip_cr(s.subrange(start, i)),
        ] + lines_after(s.skip(i + 1), s.subrange(i + 1, i + 1)),
        s[i] != '\n' ==> lines_after(s.skip(i), s.subrange(start, i)) == lines_after(
            s.skip(i + 1),
            s.subrange(start, i + 1),
        ),
{
    assert(s.skip(i).drop_first() =~= s.skip(i + 1));
    assert(s.skip(i)[0] == s[i]);
    assert(s.subrange(i + 1, i + 1) =~= Seq::<char>::empty());
    assert(s.subrange(start, i).push(s[i]) =~= s.subrange(start, i + 1));
}

fn chars_of(s: &str) -> (r: Vec<char>)
    ensures
        r@ == s@,
{
    let mut v: Vec<char> = Vec::new();
    for c in it: s.chars()
        invariant
            v@ == it.seq().take(it.index() as int),
    {
        v.push(c);
    }
    v
}

/// Each line is the text between the bounds of the range at its index.
spec fn ranges_match(lines: Seq<Seq<char>>, chars: Seq<char>, ranges: Seq<(usize, usize)>) -> bool {
    &&& ranges.len() == lines.len()
    &&& forall|q: int|
        0 <= q < ranges.len() ==> ranges[q].0 <= ranges[q].1 <= chars.len() && #[trigger] lines[q]
            == chars.subrange(ranges[q].0 as int, ranges[q].1 as int)
}

/// The lines of a text as ranges of character positions.
fn line_ranges(chars: &Vec<char>) -> (r: Vec<(usize, usize)>)
    ensures
        ranges_match(text_lines(chars@), chars@, r@),
{
    let n = chars.len();
    let mut ranges: Vec<(usize, usize)> = Vec::new();
    let mut start: usize = 0;
    assert(chars@.skip(0) =~= chars@);
    assert(chars@.subrange(0, 0) =~= Seq::<char>::empty());
    for i in 0..n
        invariant
            n == chars@.len(),
            start <= i,
            text_lines(chars@) == ranges@.map_values(
                |r: (usize, usize)| chars@.subrange(r.0 as int, r.1 as int),
            ) + lines_after(chars@.skip(i as int), chars@.subrange(start as int, i as int)),
            forall|k: int|
                #![trigger ranges@[k]]
                0 <= k < ranges@.len() ==> ranges@[k].0 <= ranges@[k].1 && ranges@[k].1 <= n,
    {
        proof {
            lemma_lines_step(chars@, i as int, start as int);
        }
        if chars[i] == '\n' {
            let end = if i > start && chars[i - 1] == '\r' {
                i - 1
            } else {
                i
            };
            let ghost before = ranges@;
            assert(strip_cr(chars@.subrange(start as int, i as int)) =~= chars@.subrange(
                start as int,
                end as int,
            ));
            ranges.push((start, end));
            assert(ranges@.map_values(|r: (usize, usize)| chars@.subrange(r.0 as int, r.1 as int))
                =~= before.map_values(
                |r: (usize, usize)| chars@.subrange(r.0 as int, r.1 as int),
            ).push(chars@.subrange(start as int, end as int)));
            assert forall|k: int|
                #![trigger ranges@[k]]
                0 <= k < ranges@.len() implies ranges@[k].0 <= ranges@[k].1 && ranges@[k].1 <= n by {
                if k < before.len() {
                    assert(ranges@[k] == before[k]);
                }
            }
            start = i + 1;
        }
    }
    let ghost before = ranges@;
    assert(chars@.skip(n as int) =~= Seq::<char>::empty());
    if start < n {
        ranges.push((start, n));
        assert(ranges@.map_values(|r: (usize, usize)| chars@.subrange(r.0 as int, r.1 as int))
            =~= before.map_values(|r: (usize, usize)| chars@.subrange(r.0 as int, r.1 as int)).push(
            chars@.subrange(start as int, n as int),
        ));
    }
    assert(text_lines(chars@) =~= ranges@.map_values(
        |r: (usize, usize)| chars@.subrange(r.0 as int, r.1 as int),
    ));
    ranges
}

/// Whether the characters from `start` to `end` begin with `#version`.
fn range_starts_with_version(chars: &Vec<char>, start: usize, end: usize) -> (r: bool)
    requires
        start <= end <= chars@.len(),
    ensures
        r == starts_with(chars@.subrange(start as int, end as int), version_directive()),
{
    let directive: [char; 8] = ['#', 'v', 'e', 'r', 's', 'i', 'o', 'n'];
    assert(directive@ =~= version_directive());
    if end - start < 8 {
        return false;
    }
    let ghost line = chars@.subrange(start as int, end as int);
    for t in 0..8usize
        invariant
            start + 8 <= end <= chars@.len(),
            directive@ == version_directive(),
            line == chars@.subrange(start as int, end as int),
            forall|u: int| 0 <= u < t ==> line[u] == version_directive()[u],
    {
        if chars[start + t] != directive[t] {
            return false;
        }
    }
    assert(line.subrange(0, 8) =~= version_directive());
    true
}

/// The `#define` block for the given defines.
fn defines_text(defines: &[String]) -> (r: String)
    ensures
        r@ == defines_block(defines@.map_values(|d: String| d@)),
{
    let ghost block_lines = defines@.map_values(|d: String| d@).map_values(
        |d: Seq<char>| "#define "@ + d,
    );
    let mut text = String::new();
    let m = defines.len();
    for j in 0..m
        invariant
            m == defines@.len(),
            block_lines.len() == m,
            forall|k: int| 0 <= k < m ==> #[trigger] block_lines[k] == "#define "@ + defines@[k]@,
            text@ == join_lines(block_lines.take(j as int)),
    {
        proof {
            lemma_join_step(block_lines, j as int);
        }
        if j > 0 {
            text.append("\n");
            proof {
                reveal_strlit("\n");
            }
        }
        text.append("#define ");
        text.append(defines[j].as_str());
        assert(text@ =~= join_lines(block_lines.take(j + 1)));
    }
    assert(block_lines.take(m as int) =~= block_lines);
    text
}

/// The shader source with a `#define` line for each define inserted right after the first
/// line that starts with `#version`, or before the first line when there is none. The
/// result holds the source's lines joined by `\n`.
pub fn add_defines(source: &str, defines: &[String]) -> (r: String)
    ensures
        exists|pos: int|
            defines_position(text_lines(source@), pos) && r@ == join_lines(
                text_lines(source@).insert(pos, defines_block(defines@.map_values(|d: String| d@))),
            ),
{
    let block = defines_text(defines);
    let chars = chars_of(source);
    let ranges = line_ranges(&chars);
    let ghost lines = text_lines(source@);
    let n = ranges.len();
    assert(ranges_match(lines, chars@, ranges@));

    let mut pos: usize = 0;
    let mut found = false;
    for k in 0..n
        invariant
            n == lines.len(),
            n == ranges@.len(),
            chars@ == source@,
            lines == text_lines(chars@),
            ranges_match(lines, chars@, ranges@),
            !found ==> pos == 0 && forall|j: int| 0 <= j < k ==> !starts_with(#[trigger] lines[j], version_directive()),
            found ==> pos <= n && exists|kk: int| is_first_version_line(lines, kk) && pos == kk + 1,
    {
        if !found {
            let (start, end) = ranges[k];
            assert(lines[k as int] == chars@.subrange(start as int, end as int));
            if range_starts_with_version(&chars, start, end) {
                found = true;
                pos = k + 1;
                assert(is_first_version_line(lines, k as int));
            }
        }
    }
    proof {
        if !found {
            assert(defines_position(lines, 0));
        }
    }
    assert(defines_position(lines, pos as int));
    let ghost out = lines.insert(pos as int, block@);

    let mut result = String::new();
    let ghost mut emitted: int = 0;
    for k in 0..n
        invariant
            n == lines.len(),
            n == ranges@.len(),
            pos <= n,
            out == lines.insert(pos as int, block@),
            chars@ == source@,
            ranges_match(lines, chars@, ranges@),
            emitted == k + if pos < k { 1int } else { 0int },
            result@ == join_lines(out.take(emitted)),
    {
        if k == pos {
            proof {
                lemma_join_step(out, emitted);
            }
            if k > 0 {
                result.append("\n");
                proof {
                    reveal_strlit("\n");
                }
            }
            result.append(block.as_str());
            assert(out[emitted] == block@);
            assert(result@ =~= join_lines(out.take(emitted + 1)));
            proof {
                emitted = emitted + 1;
            }
        }
        proof {
            lemma_join_step(out, emitted);
        }
        if k > 0 || k == pos {
            result.append("\n");
            proof {
                reveal_strlit("\n");
            }
        }
        let (start, end) = ranges[k];
        let piece = source.substring_char(start, end);
        result.append(piece);
        assert(out[emitted] == lines[k as int]);
        assert(result@ =~= join_lines(out.take(emitted + 1)));
        proof {
            emitted = emitted + 1;
        }
    }
    if pos == n {
        proof {
            lemma_join_step(out, emitted);
        }
        if n > 0 {
            result.append("\n");
            proof {
                reveal_strlit("\n");
            }
        }
        result.append(block.as_str());
        assert(out[emitted] == block@);
        assert(result@ =~= join_lines(out.take(emitted + 1)));
        proof {
            emitted = emitted + 1;
        }
    }
    assert(emitted == n + 1);
    assert(out.take(n + 1) =~= out);
    result
}

} // verus!
