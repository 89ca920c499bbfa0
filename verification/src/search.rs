//! Literal substring search over the bytes of a line, and the line filter
//! built on it.

use vstd::prelude::*;

verus! {

/// The pattern occurs in `text` starting at position `i`.
pub open spec fn matches_at(text: Seq<u8>, pattern: Seq<u8>, i: int) -> bool {
    &&& 0 <= i
    &&& i + pattern.len() <= text.len()
    &&& text.subrange(i, i + pattern.len()) == pattern
}

/// The pattern occurs somewhere in `text` as a contiguous run of bytes.  The
/// empty pattern occurs in every text.
pub open spec fn contains_pattern(text: Seq<u8>, pattern: Seq<u8>) -> bool {
    exists|i: int| matches_at(text, pattern, i)
}

/// Whether the pattern occurs in `text` starting at position `start`.
fn matches_at_position(text: &Vec<u8>, pattern: &Vec<u8>, start: usize) -> (matched: bool)
    requires
        start + pattern@.len() <= text@.len(),
    ensures
        matched == matches_at(text@, pattern@, start as int),
{
    let text_len = text.len();
    let pattern_len = pattern.len();
    let mut compared: usize = 0;
    while compared < pattern_len
        invariant
            text_len == text@.len(),
            pattern_len == pattern@.len(),
            start + pattern_len <= text_len,
            compared <= pattern_len,
            forall|k: int| 0 <= k < compared ==> text@[start + k] == #[trigger] pattern@[k],
        decreases pattern_len - compared,
    {
        if text[start + compared] != pattern[compared] {
            proof {
                assert(text@.subrange(start as int, start + pattern@.len())[compared as int]
                    == text@[start + compared]);
            }
            return false;
        }
        compared = compared + 1;
    }
    proof {
        assert(text@.subrange(start as int, start + pattern@.len()) =~= pattern@);
    }
    true
}

/// Whether `text` contains `pattern` as a literal, case-sensitive run of
/// bytes.  The scan is a plain linear pass; the empty pattern is found in
/// every text, including the empty one.
pub fn line_contains(text: &Vec<u8>, pattern: &Vec<u8>) -> (found: bool)
    ensures
        found == contains_pattern(text@, pattern@),
{
    if pattern.len() == 0 {
        proof {
            assert(text@.subrange(0, 0) =~= pattern@);
            assert(matches_at(text@, pattern@, 0));
        }
        return true;
    }
    if pattern.len() > text.len() {
        proof {
            assert(forall|i: int| !matches_at(text@, pattern@, i));
        }
        return false;
    }
    let text_len = text.len();
    let last_start = text_len - pattern.len();
    let mut start: usize = 0;
    while start <= last_start
        invariant
            text_len == text@.len(),
            1 <= pattern@.len() <= text@.len(),
            last_start == text@.len() - pattern@.len(),
            start <= last_start + 1,
            forall|j: int| 0 <= j < start ==> !matches_at(text@, pattern@, j),
        decreases last_start + 1 - start,
    {
        if matches_at_position(text, pattern, start) {
            return true;
        }
        start = start + 1;
    }
    proof {
        assert(forall|i: int| !matches_at(text@, pattern@, i)) by {
            assert(forall|i: int| i > last_start ==> !matches_at(text@, pattern@, i));
        }
    }
    false
}

/// Copy the bytes of one line.
fn copy_line(line: &Vec<u8>) -> (copy: Vec<u8>)
    ensures
        copy@ == line@,
{
    let line_len = line.len();
    let mut copy: Vec<u8> = Vec::new();
    let mut taken: usize = 0;
    while taken < line_len
        invariant
            line_len == line@.len(),
            taken <= line_len,
            copy@ == line@.subrange(0, taken as int),
        decreases line_len - taken,
    {
        copy.push(line[taken]);
        proof {
            assert(copy@ =~= line@.subrange(0, taken + 1));
        }
        taken = taken + 1;
    }
    proof {
        assert(line@.subrange(0, line@.len() as int) =~= line@);
    }
    copy
}

/// The lines of `lines` that contain `pattern`, in their original order and
/// verbatim: exactly the lines containing the pattern, nothing else, nothing
/// reordered.
pub fn filter_matching_lines(lines: &Vec<Vec<u8>>, pattern: &Vec<u8>) -> (matching: Vec<
    Vec<u8>,
>)
    ensures
        matching.deep_view() == lines.deep_view().filter(
            |line: Seq<u8>| contains_pattern(line, pattern@),
        ),
{
    let ghost selected = |line: Seq<u8>| contains_pattern(line, pattern@);
    let ghost all_lines = lines.deep_view();
    let lines_len = lines.len();
    let mut matching: Vec<Vec<u8>> = Vec::new();
    let mut scanned: usize = 0;
    while scanned < lines_len
        invariant
            lines_len == lines@.len(),
            all_lines == lines.deep_view(),
            selected == (|line: Seq<u8>| contains_pattern(line, pattern@)),
            scanned <= lines_len,
            matching.deep_view() == all_lines.subrange(0, scanned as int).filter(selected),
        decreases lines_len - scanned,
    {
        let ghost matched_so_far = matching.deep_view();
        let line = &lines[scanned];
        let found = line_contains(line, pattern);
        proof {
            reveal(Seq::filter);
            let prefix = all_lines.subrange(0, scanned as int);
            let extended = all_lines.subrange(0, scanned + 1);
            assert(extended.drop_last() =~= prefix);
            assert(extended.last() == all_lines[scanned as int]);
            assert(all_lines[scanned as int] =~= line@);
        }
        if found {
            let kept = copy_line(line);
            matching.push(kept);
            proof {
                assert(kept.deep_view() =~= line@);
                assert(matching.deep_view() =~= matched_so_far.push(
                    all_lines[scanned as int],
                ));
            }
        }
        scanned = scanned + 1;
    }
    proof {
        assert(all_lines.subrange(0, all_lines.len() as int) =~= all_lines);
    }
    matching
}

} // verus!
