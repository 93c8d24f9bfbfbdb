//! Pure text machinery shared by the detectors: substring search over
//! character sequences, splitting a file into lines, and the "nearby
//! source-text window" heuristic.

use vstd::prelude::*;
use vstd::string::StrSliceExecFns;
use vstd::string::StringExecFns;

verus! {

/// `b` subtracted from `a`, floored at zero.
pub open spec fn cap_sub(a: int, b: int) -> int {
    if a >= b {
        a - b
    } else {
        0
    }
}

/// The smaller of `a` and `b`.
pub open spec fn min_int(a: int, b: int) -> int {
    if a <= b {
        a
    } else {
        b
    }
}

/// Pattern `pat` occurs in `text` starting exactly at position `i`.
pub open spec fn is_match_at(text: Seq<char>, pat: Seq<char>, i: int) -> bool {
    &&& 0 <= i
    &&& i + pat.len() <= text.len()
    &&& forall|j: int| 0 <= j < pat.len() ==> text[i + j] == pat[j]
}

/// Pattern `pat` occurs somewhere within `text[lo..hi]`, entirely inside that
/// range.
pub open spec fn range_contains(text: Seq<char>, pat: Seq<char>, lo: int, hi: int) -> bool {
    exists|i: int| lo <= i && i + pat.len() <= hi && is_match_at(text, pat, i)
}

/// Pattern `pat` occurs somewhere in `text`.
pub open spec fn text_contains(text: Seq<char>, pat: Seq<char>) -> bool {
    range_contains(text, pat, 0, text.len() as int)
}

/// `i` is the first position at which `pat` occurs in `text`.
pub open spec fn found_first_at(text: Seq<char>, pat: Seq<char>, i: int) -> bool {
    &&& is_match_at(text, pat, i)
    &&& forall|k: int| 0 <= k < i ==> !is_match_at(text, pat, k)
}

/// Whether `pat` occurs in `text` starting exactly at `i`.
fn match_at(text: &Vec<char>, pat: &Vec<char>, i: usize) -> (r: bool)
    requires
        i + pat@.len() <= text@.len(),
    ensures
        r == is_match_at(text@, pat@, i as int),
{
    let n = text.len();
    let mut j: usize = 0;
    while j < pat.len()
        invariant
            n == text@.len(),
            i + pat@.len() <= text@.len(),
            j <= pat@.len(),
            forall|k: int| 0 <= k < j ==> text@[i + k] == pat@[k],
        decreases pat@.len() - j,
    {
        if text[i + j] != pat[j] {
            assert(text@[i + j as int] != pat@[j as int]);
            return false;
        }
        j += 1;
    }
    true
}

/// Whether `pat` occurs entirely within `text[lo..hi]`.
pub fn contains_in_range(text: &Vec<char>, pat: &Vec<char>, lo: usize, hi: usize) -> (r: bool)
    requires
        lo <= hi,
        hi <= text@.len(),
    ensures
        r == range_contains(text@, pat@, lo as int, hi as int),
{
    let mut i: usize = lo;
    while i <= hi && pat.len() <= hi - i
        invariant
            lo <= i,
            i <= hi + 1,
            hi <= text@.len(),
            forall|k: int| lo <= k < i ==> !is_match_at(text@, pat@, k),
        decreases hi - i,
    {
        if match_at(text, pat, i) {
            return true;
        }
        i += 1;
    }
    assert(forall|k: int|
        lo <= k && k + pat@.len() <= hi as int ==> !is_match_at(text@, pat@, k));
    false
}

/// Whether `pat` occurs anywhere in `text`.
pub fn contains_pattern(text: &Vec<char>, pat: &Vec<char>) -> (r: bool)
    ensures
        r == text_contains(text@, pat@),
{
    contains_in_range(text, pat, 0, text.len())
}

/// The first position at which `pat` occurs in `text`, if any.
pub fn find_first(text: &Vec<char>, pat: &Vec<char>) -> (r: Option<usize>)
    ensures
        match r {
            Option::Some(i) => found_first_at(text@, pat@, i as int),
            Option::None => !text_contains(text@, pat@),
        },
{
    let mut i: usize = 0;
    while i <= text.len() && pat.len() <= text.len() - i
        invariant
            i <= text@.len() + 1,
            forall|k: int| 0 <= k < i ==> !is_match_at(text@, pat@, k),
        decreases text@.len() - i,
    {
        if match_at(text, pat, i) {
            return Some(i);
        }
        i += 1;
    }
    assert(forall|k: int|
        0 <= k && k + pat@.len() <= text@.len() ==> !is_match_at(text@, pat@, k));
    None
}

/// A first occurrence is unique.
pub proof fn lemma_found_first_unique(text: Seq<char>, pat: Seq<char>, i: int, j: int)
    requires
        found_first_at(text, pat, i),
        found_first_at(text, pat, j),
    ensures
        i == j,
{
    if i < j {
        assert(!is_match_at(text, pat, i));
    } else if j < i {
        assert(!is_match_at(text, pat, j));
    }
}

/// The characters `text[lo..hi]`, copied out.
pub fn copy_range(text: &Vec<char>, lo: usize, hi: usize) -> (v: Vec<char>)
    requires
        lo <= hi,
        hi <= text@.len(),
    ensures
        v@ == text@.subrange(lo as int, hi as int),
{
    let mut v: Vec<char> = Vec::new();
    let mut i = lo;
    proof {
        assert(v@ =~= text@.subrange(lo as int, lo as int));
    }
    while i < hi
        invariant
            lo <= i <= hi,
            hi <= text@.len(),
            v@ == text@.subrange(lo as int, i as int),
        decreases hi - i,
    {
        let c = text[i];
        v.push(c);
        proof {
            assert(v@ =~= text@.subrange(lo as int, i as int + 1));
        }
        i += 1;
    }
    v
}

/// The needle that locates a function declaration by name in raw text.
pub open spec fn spec_fn_needle(fn_name: Seq<char>) -> Seq<char> {
    "fn "@ + fn_name
}

/// The raw-text window of the function named `fn_name`: from the first
/// occurrence of its declaration needle, extended up to `span` characters;
/// `None` when the needle does not occur in `text`.
pub open spec fn spec_fn_window(text: Seq<char>, fn_name: Seq<char>, span: int) -> Option<
    Seq<char>,
> {
    if text_contains(text, spec_fn_needle(fn_name)) {
        let i = choose|i: int| found_first_at(text, spec_fn_needle(fn_name), i);
        Option::Some(text.subrange(i, min_int(i + span, text.len() as int)))
    } else {
        Option::None
    }
}

/// The raw-text window of the function named `fn_name`, up to `span`
/// characters from the first occurrence of its declaration.
pub fn fn_window(text: &Vec<char>, fn_name: &String, span: usize) -> (r: Option<Vec<char>>)
    ensures
        match r {
            Option::Some(w) => spec_fn_window(text@, fn_name@, span as int) == Option::Some(w@),
            Option::None => spec_fn_window(text@, fn_name@, span as int) is None,
        },
{
    let mut needle_s: String = "fn ".to_owned();
    needle_s.append(fn_name.as_str());
    let needle = str_chars(needle_s.as_str());
    proof {
        assert(needle@ == spec_fn_needle(fn_name@));
    }
    match find_first(text, &needle) {
        Option::Some(i) => {
            let end = if text.len() - i >= span {
                i + span
            } else {
                text.len()
            };
            let w = copy_range(text, i, end);
            proof {
                assert(is_match_at(text@, needle@, i as int));
                assert(text_contains(text@, needle@));
                let c = choose|k: int| found_first_at(text@, needle@, k);
                lemma_found_first_unique(text@, needle@, i as int, c);
                assert(end as int == min_int(i as int + span as int, text@.len() as int));
            }
            Option::Some(w)
        },
        Option::None => Option::None,
    }
}

/// The characters of `s`, one by one.
pub fn str_chars(s: &str) -> (v: Vec<char>)
    ensures
        v@ == s@,
{
    let n = s.unicode_len();
    let mut v: Vec<char> = Vec::new();
    let mut i: usize = 0;
    while i < n
        invariant
            n == s@.len(),
            i <= n,
            v@ == s@.subrange(0, i as int),
        decreases n - i,
    {
        let c = s.get_char(i);
        v.push(c);
        proof {
            assert(v@ =~= s@.subrange(0, i as int + 1));
        }
        i += 1;
    }
    proof {
        assert(v@ =~= s@);
    }
    v
}

/// Whether the owned string `a` reads exactly as `b`.
pub fn string_eq(a: &String, b: &str) -> (r: bool)
    ensures
        r == (a@ == b@),
{
    let bs: String = b.to_owned();
    *a == bs
}

/// The views of a sequence of owned character vectors, element by element.
pub open spec fn line_views(s: Seq<Vec<char>>) -> Seq<Seq<char>> {
    s.map_values(|l: Vec<char>| l@)
}

/// `text` split at every newline character. A file always has one more line
/// than it has newlines; a trailing newline therefore yields a final empty
/// line.
pub open spec fn spec_lines(text: Seq<char>) -> Seq<Seq<char>>
    decreases text.len(),
{
    if text.len() == 0 {
        seq![Seq::<char>::empty()]
    } else if text[0] == '\n' {
        seq![Seq::<char>::empty()] + spec_lines(text.drop_first())
    } else {
        let rest = spec_lines(text.drop_first());
        seq![seq![text[0]] + rest[0]] + rest.drop_first()
    }
}

/// Splitting yields at least one line.
pub proof fn lemma_spec_lines_nonempty(text: Seq<char>)
    ensures
        spec_lines(text).len() >= 1,
    decreases text.len(),
{
    if text.len() > 0 {
        lemma_spec_lines_nonempty(text.drop_first());
    }
}

/// `text` split at every newline character.
pub fn split_lines(text: &Vec<char>) -> (lines: Vec<Vec<char>>)
    ensures
        line_views(lines@) == spec_lines(text@),
{
    let mut done: Vec<Vec<char>> = Vec::new();
    let mut cur: Vec<char> = Vec::new();
    let mut i: usize = 0;
    proof {
        lemma_spec_lines_nonempty(text@);
        assert(text@.subrange(0, text@.len() as int) =~= text@);
    }
    while i < text.len()
        invariant
            i <= text@.len(),
            spec_lines(text@) == line_views(done@) + ({
                let rest = spec_lines(text@.subrange(i as int, text@.len() as int));
                seq![cur@ + rest[0]] + rest.drop_first()
            }),
        decreases text@.len() - i,
    {
        let ghost suffix = text@.subrange(i as int, text@.len() as int);
        let ghost suffix1 = text@.subrange(i as int + 1, text@.len() as int);
        let ghost done_old = done@;
        let ghost cur_old = cur@;
        proof {
            assert(suffix.len() > 0);
            assert(suffix[0] == text@[i as int]);
            assert(suffix.drop_first() =~= suffix1);
            lemma_spec_lines_nonempty(suffix1);
        }
        let c = text[i];
        if c == '\n' {
            proof {
                assert(spec_lines(suffix) =~~= seq![Seq::<char>::empty()] + spec_lines(suffix1));
            }
            done.push(cur);
            cur = Vec::new();
            proof {
                let rest = spec_lines(suffix1);
                let or = spec_lines(suffix);
                assert(or[0] =~= Seq::<char>::empty());
                assert(or.drop_first() =~~= rest);
                assert(cur_old + or[0] =~= cur_old);
                assert(line_views(done@) =~~= line_views(done_old).push(cur_old));
                assert(seq![cur_old + or[0]] + or.drop_first() =~~= seq![cur_old] + rest);
                assert(rest =~~= seq![rest[0]] + rest.drop_first());
                assert(cur@ + rest[0] =~= rest[0]);
                assert(line_views(done@) + (seq![cur@ + rest[0]] + rest.drop_first())
                    =~~= line_views(done_old) + (seq![cur_old + or[0]] + or.drop_first()));
                assert(line_views(done@) + (seq![cur@ + rest[0]] + rest.drop_first())
                    == spec_lines(text@));
            }
        } else {
            proof {
                let rest = spec_lines(suffix1);
                assert(spec_lines(suffix) =~~= seq![seq![suffix[0]] + rest[0]] + rest.drop_first());
            }
            cur.push(c);
            proof {
                let rest = spec_lines(suffix1);
                let or = spec_lines(suffix);
                assert(or[0] =~= seq![text@[i as int]] + rest[0]);
                assert(or.drop_first() =~~= rest.drop_first());
                assert(cur@ =~= cur_old.push(text@[i as int]));
                assert(cur@ + rest[0] =~= cur_old + or[0]);
                assert(line_views(done@) + (seq![cur@ + rest[0]] + rest.drop_first())
                    =~~= line_views(done_old) + (seq![cur_old + or[0]] + or.drop_first()));
                assert(line_views(done@) + (seq![cur@ + rest[0]] + rest.drop_first())
                    == spec_lines(text@));
            }
        }
        i += 1;
    }
    let ghost done_old = done@;
    let ghost cur_old = cur@;
    proof {
        let suffix = text@.subrange(i as int, text@.len() as int);
        assert(suffix.len() == 0);
        assert(spec_lines(suffix) =~~= seq![Seq::<char>::empty()]);
        assert(cur_old + Seq::<char>::empty() =~= cur_old);
        let r = spec_lines(suffix);
        assert(seq![cur_old + r[0]] + r.drop_first() =~~= seq![cur_old]);
        assert(spec_lines(text@) =~~= line_views(done_old) + seq![cur_old]);
    }
    done.push(cur);
    proof {
        assert(line_views(done@) =~~= line_views(done_old).push(cur_old));
        assert(line_views(done@) =~~= spec_lines(text@));
        assert(line_views(done@) == spec_lines(text@));
    }
    done
}

/// The lines joined back together with single newline separators.
pub open spec fn spec_join_lines(ls: Seq<Seq<char>>) -> Seq<char>
    decreases ls.len(),
{
    if ls.len() == 0 {
        Seq::empty()
    } else if ls.len() == 1 {
        ls[0]
    } else {
        spec_join_lines(ls.drop_last()) + seq!['\n'] + ls.last()
    }
}

/// The joined window of lines around the 1-based `anchor_line`: from
/// `lookback` lines above it through `lookahead` lines at or below it,
/// clamped to the file. This is the one place every "nearby source text"
/// heuristic gets its span from.
pub open spec fn spec_window(
    lines: Seq<Seq<char>>,
    anchor_line: int,
    lookback: int,
    lookahead: int,
) -> Seq<char> {
    let lo = min_int(cap_sub(anchor_line, lookback), lines.len() as int);
    let hi = min_int(anchor_line + lookahead, lines.len() as int);
    if lo <= hi {
        spec_join_lines(lines.subrange(lo, hi))
    } else {
        Seq::empty()
    }
}

/// The joined window of lines around the 1-based `anchor_line`.
pub fn window(lines: &Vec<Vec<char>>, anchor_line: usize, lookback: usize, lookahead: usize) -> (w:
    Vec<char>)
    ensures
        w@ == spec_window(line_views(lines@), anchor_line as int, lookback as int, lookahead as int),
{
    let n = lines.len();
    let lo_raw = if anchor_line >= lookback {
        anchor_line - lookback
    } else {
        0
    };
    let lo = if lo_raw <= n {
        lo_raw
    } else {
        n
    };
    let hi = if anchor_line >= n {
        n
    } else if lookahead >= n - anchor_line {
        n
    } else {
        anchor_line + lookahead
    };
    let mut w: Vec<char> = Vec::new();
    if hi < lo {
        return w;
    }
    let ghost ls = line_views(lines@);
    let mut i: usize = lo;
    proof {
        assert(ls.subrange(lo as int, lo as int) =~= Seq::<Seq<char>>::empty());
    }
    while i < hi
        invariant
            lo <= i,
            i <= hi,
            hi <= lines@.len(),
            ls == line_views(lines@),
            w@ == spec_join_lines(ls.subrange(lo as int, i as int)),
        decreases hi - i,
    {
        proof {
            let pre = ls.subrange(lo as int, i as int);
            let post = ls.subrange(lo as int, i as int + 1);
            assert(post.drop_last() =~= pre);
            assert(post.last() == ls[i as int]);
        }
        if i > lo {
            w.push('\n');
        }
        let line = &lines[i];
        let mut j: usize = 0;
        let ghost w_before = w@;
        while j < line.len()
            invariant
                j <= line@.len(),
                w@ == w_before + line@.subrange(0, j as int),
            decreases line@.len() - j,
        {
            let c = line[j];
            w.push(c);
            proof {
                assert(w@ =~= w_before + line@.subrange(0, j as int + 1));
            }
            j += 1;
        }
        proof {
            assert(line@.subrange(0, line@.len() as int) =~= line@);
            assert(w@ =~= spec_join_lines(ls.subrange(lo as int, i as int + 1)));
        }
        i += 1;
    }
    w
}

} // verus!
