//! The regular-expression engine, as far as the library uses it.
//!
//! What a pattern matches is the engine's business. The library asks it where
//! the matches lie and does the rewriting itself, so that what is rewritten,
//! and what is left alone, is proved.

use regex::Regex;
use vstd::prelude::*;
use vstd::utf8::*;
use crate::text::on_boundary;
use crate::text::segment;
use crate::text::segment_whole;
use crate::text::piece;
use crate::text::rest_from;
use crate::text::views;

verus! {

/// A placeholder: two `|` and between them anything but a `|`. Capture group
/// 1 is what stands between the two.
pub const PLACEHOLDER: &'static str = r"\|([^|]*)\|";

/// A markup tag: `<`, then at least one character that is no `>`, then `>`.
pub const TAG: &'static str = r"<[^>]+>";

/// One match of a pattern: the byte offsets at which it starts and ends in the
/// haystack, and those of one of its capture groups, if that group took part.
#[derive(Debug, Clone, Copy, PartialEq, Eq)]
pub struct Capture {
    pub start: usize,
    pub end: usize,
    pub group: Option<(usize, usize)>,
}

/// The matches that the engine finds for `pattern` in `haystack`, in order,
/// each with its capture group number `group`; `None` where the engine does
/// not accept the pattern.
pub uninterp spec fn pattern_captures(pattern: Seq<char>, group: usize, haystack: Seq<char>) -> Option<Seq<Capture>>;

/// Whether `caps` lie in `haystack` as matches do: each within the haystack,
/// each offset on a character boundary, one after the other without overlap.
pub open spec fn captures_fit(haystack: Seq<char>, caps: Seq<Capture>) -> bool {
    &&& forall|i: int|
        0 <= i < caps.len() ==> {
            &&& (#[trigger] caps[i]).start <= caps[i].end
            &&& on_boundary(haystack, caps[i].start as int)
            &&& on_boundary(haystack, caps[i].end as int)
            &&& (caps[i].group matches Some(g) ==> {
                &&& g.0 <= g.1
                &&& on_boundary(haystack, g.0 as int)
                &&& on_boundary(haystack, g.1 as int)
            })
        }
    &&& forall|i: int, j: int|
        0 <= i < j < caps.len() ==> (#[trigger] caps[i]).end <= (#[trigger] caps[j]).start
}

/// Compiles `pattern` with `Regex::new` and walks `haystack` with
/// `Regex::captures_iter`, taking from each match the offsets of the whole
/// match and of capture group `group`.
///
/// Believed, not proved: the answer depends on the pattern, the group and the
/// haystack alone; it is `None` exactly where the pattern does not compile;
/// the two patterns of this library do compile, being well formed by the
/// engine's syntax; and the matches come as the engine documents them, in
/// order, without overlap, with `start <= end` and every offset on a
/// character boundary of the haystack.
#[verifier::external_body]
pub(crate) fn find_captures(pattern: &str, group: usize, haystack: &str) -> (found: Option<Vec<Capture>>)
    ensures
        match found {
            Some(caps) => pattern_captures(pattern@, group, haystack@) == Some(caps@),
            None => pattern_captures(pattern@, group, haystack@) is None,
        },
        found matches Some(caps) ==> captures_fit(haystack@, caps@),
        pattern@ == PLACEHOLDER@ || pattern@ == TAG@ ==> found is Some,
{
    let re = Regex::new(pattern).ok()?;
    let caps = re.captures_iter(haystack).map(|c| {
        let whole = c.get_match();
        let group = c.get(group).map(|g| (g.start(), g.end()));
        Capture { start: whole.start(), end: whole.end(), group }
    });
    Some(caps.collect())
}

/// The offset at which the text before match `k` starts: where match `k - 1`
/// ends, or the start of the haystack.
pub open spec fn gap_start(caps: Seq<Capture>, k: int) -> int {
    if k <= 0 {
        0
    } else {
        caps[k - 1].end as int
    }
}

/// The text between match `k - 1` and match `k`; for `k == caps.len()`, the
/// text after the last match.
pub open spec fn gap(haystack: Seq<char>, caps: Seq<Capture>, k: int) -> Seq<char> {
    if k < caps.len() {
        segment(haystack, gap_start(caps, k), caps[k].start as int)
    } else {
        segment(haystack, gap_start(caps, k), encode_utf8(haystack).len() as int)
    }
}

/// The result of a replacement as far as the first `k` matches determine it:
/// each gap as it stands, each match replaced.
pub open spec fn spliced_head(
    haystack: Seq<char>,
    caps: Seq<Capture>,
    reps: Seq<Seq<char>>,
    k: int,
) -> Seq<char>
    decreases k,
{
    if k <= 0 {
        Seq::<char>::empty()
    } else {
        spliced_head(haystack, caps, reps, k - 1) + gap(haystack, caps, k - 1) + reps[k - 1]
    }
}

/// `haystack` with match `k` replaced by `reps[k]`, for every `k`.
pub open spec fn spliced(haystack: Seq<char>, caps: Seq<Capture>, reps: Seq<Seq<char>>) -> Seq<char> {
    spliced_head(haystack, caps, reps, caps.len() as int) + gap(
        haystack,
        caps,
        caps.len() as int,
    )
}

/// Replaces each match by its replacement and keeps the text between them.
pub fn splice(text: &str, caps: &Vec<Capture>, reps: &Vec<String>) -> (r: String)
    requires
        captures_fit(text@, caps@),
        reps.len() == caps.len(),
    ensures
        r@ == spliced(text@, caps@, views(reps@)),
{
    broadcast use group_utf8_lib;

    let mut out = String::new();
    let mut last: usize = 0;
    let mut i: usize = 0;
    proof {
        assert(valid_utf8(encode_utf8(text@)));
    }
    while i < caps.len()
        invariant
            i <= caps.len(),
            reps.len() == caps.len(),
            captures_fit(text@, caps@),
            last == gap_start(caps@, i as int),
            on_boundary(text@, last as int),
            out@ == spliced_head(text@, caps@, views(reps@), i as int),
        decreases caps.len() - i,
    {
        let cap = caps[i];
        assert(cap == caps@[i as int]);
        assert(i > 0 ==> caps@[i as int - 1].end <= caps@[i as int].start);
        let before = piece(text, last, cap.start);
        out.append(before);
        out.append(reps[i].as_str());
        last = cap.end;
        i = i + 1;
    }
    let after = rest_from(text, last);
    out.append(after);
    out
}

/// What the first `k` matches determine of a result is the start of what the
/// first `n` determine, for `k <= n`.
proof fn head_grows(haystack: Seq<char>, caps: Seq<Capture>, reps: Seq<Seq<char>>, k: int, n: int)
    requires
        0 <= k <= n,
    ensures
        spliced_head(haystack, caps, reps, k).len() <= spliced_head(haystack, caps, reps, n).len(),
        spliced_head(haystack, caps, reps, n).subrange(
            0,
            spliced_head(haystack, caps, reps, k).len() as int,
        ) == spliced_head(haystack, caps, reps, k),
    decreases n - k,
{
    let short = spliced_head(haystack, caps, reps, k);
    if k == n {
        assert(short.subrange(0, short.len() as int) =~= short);
    } else {
        head_grows(haystack, caps, reps, k, n - 1);
        let mid = spliced_head(haystack, caps, reps, n - 1);
        let long = spliced_head(haystack, caps, reps, n);
        assert(long == mid + gap(haystack, caps, n - 1) + reps[n - 1]);
        assert(long.subrange(0, short.len() as int) =~= mid.subrange(0, short.len() as int));
    }
}

/// The text between two matches stands in the result as it stood in the
/// haystack, behind what the earlier gaps and replacements take up. So does
/// the text before the first match, and the text after the last.
pub proof fn gap_stays(haystack: Seq<char>, caps: Seq<Capture>, reps: Seq<Seq<char>>, k: int)
    requires
        0 <= k <= caps.len(),
    ensures
        ({
            let at = spliced_head(haystack, caps, reps, k).len() as int;
            let kept = gap(haystack, caps, k);
            &&& at + kept.len() <= spliced(haystack, caps, reps).len()
            &&& spliced(haystack, caps, reps).subrange(at, at + kept.len()) == kept
        }),
{
    let n = caps.len() as int;
    let before = spliced_head(haystack, caps, reps, k);
    let kept = gap(haystack, caps, k);
    let all = spliced(haystack, caps, reps);
    let at = before.len() as int;
    if k == n {
        assert(all.subrange(at, at + kept.len()) =~= kept);
    } else {
        head_grows(haystack, caps, reps, k + 1, n);
        let next = spliced_head(haystack, caps, reps, k + 1);
        assert(next == before + kept + reps[k]);
        let full = spliced_head(haystack, caps, reps, n);
        assert(full.subrange(0, next.len() as int) == next);
        assert(all.subrange(at, at + kept.len()) =~= next.subrange(at, at + kept.len()));
        assert(next.subrange(at, at + kept.len()) =~= kept);
    }
}

/// The replacement of a match stands in the result right behind the text
/// that came before the match.
pub proof fn replacement_stands(
    haystack: Seq<char>,
    caps: Seq<Capture>,
    reps: Seq<Seq<char>>,
    k: int,
)
    requires
        0 <= k < caps.len(),
    ensures
        ({
            let at = (spliced_head(haystack, caps, reps, k).len() + gap(haystack, caps, k).len()) as int;
            &&& at + reps[k].len() <= spliced(haystack, caps, reps).len()
            &&& spliced(haystack, caps, reps).subrange(at, at + reps[k].len()) == reps[k]
        }),
{
    let n = caps.len() as int;
    let before = spliced_head(haystack, caps, reps, k);
    let kept = gap(haystack, caps, k);
    let all = spliced(haystack, caps, reps);
    let at = (before.len() + kept.len()) as int;
    head_grows(haystack, caps, reps, k + 1, n);
    let next = spliced_head(haystack, caps, reps, k + 1);
    assert(next == before + kept + reps[k]);
    let full = spliced_head(haystack, caps, reps, n);
    assert(full.subrange(0, next.len() as int) == next);
    assert(all.subrange(at, at + reps[k].len()) =~= next.subrange(at, at + reps[k].len()));
    assert(next.subrange(at, at + reps[k].len()) =~= reps[k]);
}

/// Where nothing matches, the result is the haystack.
pub proof fn spliced_without_matches(haystack: Seq<char>, reps: Seq<Seq<char>>)
    ensures
        spliced(haystack, Seq::<Capture>::empty(), reps) == haystack,
{
    segment_whole(haystack);
    assert(spliced(haystack, Seq::<Capture>::empty(), reps) =~= haystack);
}

/// Two haystacks with as many matches and the same text around them give
/// the same result under the same replacements.
pub proof fn same_gaps_same_result(
    first: Seq<char>,
    first_caps: Seq<Capture>,
    second: Seq<char>,
    second_caps: Seq<Capture>,
    reps: Seq<Seq<char>>,
)
    requires
        first_caps.len() == second_caps.len(),
        forall|k: int|
            0 <= k <= first_caps.len() ==> #[trigger] gap(first, first_caps, k) == gap(
                second,
                second_caps,
                k,
            ),
    ensures
        spliced(first, first_caps, reps) == spliced(second, second_caps, reps),
{
    same_gaps_same_head(first, first_caps, second, second_caps, reps, first_caps.len() as int);
}

proof fn same_gaps_same_head(
    first: Seq<char>,
    first_caps: Seq<Capture>,
    second: Seq<char>,
    second_caps: Seq<Capture>,
    reps: Seq<Seq<char>>,
    k: int,
)
    requires
        0 <= k <= first_caps.len(),
        first_caps.len() == second_caps.len(),
        forall|j: int|
            0 <= j <= first_caps.len() ==> #[trigger] gap(first, first_caps, j) == gap(
                second,
                second_caps,
                j,
            ),
    ensures
        spliced_head(first, first_caps, reps, k) == spliced_head(second, second_caps, reps, k),
    decreases k,
{
    if k > 0 {
        same_gaps_same_head(first, first_caps, second, second_caps, reps, k - 1);
        assert(gap(first, first_caps, k - 1) == gap(second, second_caps, k - 1));
    }
}

} // verus!
