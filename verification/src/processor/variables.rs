//! Placeholders and the markup caught inside them.
//!
//! A placeholder is a stretch `|...|` with no `|` inside. Word processors
//! scatter markup through such a stretch; `remove_xml_in_variables` takes the
//! markup out again and leaves everything outside the placeholders as it is.

use vstd::prelude::*;
use vstd::string::*;
use crate::processor::pattern::Capture;
use crate::processor::pattern::captures_fit;
use crate::processor::pattern::find_captures;
use crate::processor::pattern::gap;
use crate::processor::pattern::gap_stays;
use crate::processor::pattern::replacement_stands;
use crate::processor::pattern::same_gaps_same_result;
use crate::processor::pattern::spliced_without_matches;
use crate::processor::pattern::pattern_captures;
use crate::processor::pattern::splice;
use crate::processor::pattern::spliced;
use crate::processor::pattern::spliced_head;
use crate::processor::pattern::PLACEHOLDER;
use crate::processor::pattern::TAG;
use crate::text::piece;
use crate::text::segment;
use crate::text::views;

verus! {

/// As many empty replacements as there are matches.
pub open spec fn nothing(n: nat) -> Seq<Seq<char>> {
    Seq::new(n, |k: int| Seq::<char>::empty())
}

/// The tags that the engine finds in `content`.
pub open spec fn tags_of(content: Seq<char>) -> Seq<Capture> {
    pattern_captures(TAG@, 0, content)->0
}

/// The placeholders that the engine finds in `buf`, each with what stands
/// between its delimiters as its group.
pub open spec fn placeholders_of(buf: Seq<char>) -> Seq<Capture> {
    pattern_captures(PLACEHOLDER@, 1, buf)->0
}

/// `content` without the tags that the engine finds in it.
pub open spec fn stripped(content: Seq<char>) -> Seq<char> {
    spliced(content, tags_of(content), nothing(tags_of(content).len()))
}

/// What stands between the delimiters of a placeholder.
pub open spec fn inside(buf: Seq<char>, placeholder: Capture) -> Seq<char> {
    match placeholder.group {
        Some(g) => segment(buf, g.0 as int, g.1 as int),
        None => Seq::<char>::empty(),
    }
}

/// What a placeholder is replaced by: its content without tags, between two
/// `|`.
pub open spec fn rewritten(buf: Seq<char>, placeholder: Capture) -> Seq<char> {
    "|"@ + stripped(inside(buf, placeholder)) + "|"@
}

/// The replacements of all placeholders.
pub open spec fn replacements(buf: Seq<char>, found: Seq<Capture>) -> Seq<Seq<char>> {
    Seq::new(found.len(), |k: int| rewritten(buf, found[k]))
}

/// `buf` with every placeholder rewritten.
pub open spec fn cleaned(buf: Seq<char>) -> Seq<char> {
    spliced(buf, placeholders_of(buf), replacements(buf, placeholders_of(buf)))
}

/// Removes every tag from the content of a placeholder.
pub fn remove_xml_in_variable_content(content: &str) -> (r: String)
    ensures
        r@ == stripped(content@),
{
    let tags = match find_captures(TAG, 0, content) {
        Some(tags) => tags,
        None => vstd::pervasive::unreached(),
    };
    let mut blanks: Vec<String> = Vec::new();
    let mut i: usize = 0;
    while i < tags.len()
        invariant
            i <= tags.len(),
            blanks.len() == i,
            forall|k: int| 0 <= k < i ==> (#[trigger] blanks@[k])@ == Seq::<char>::empty(),
        decreases tags.len() - i,
    {
        blanks.push(String::new());
        i = i + 1;
    }
    proof {
        assert(views(blanks@) =~= nothing(tags@.len()));
    }
    splice(content, &tags, &blanks)
}

/// Rewrites every placeholder of `buf`: the markup inside it goes, its two
/// delimiters and the text between the tags stay. What lies outside the
/// placeholders is not touched, markup included. A text without a
/// placeholder comes back as it is.
pub fn remove_xml_in_variables(buf: &str) -> (r: String)
    ensures
        r@ == cleaned(buf@),
{
    let found = match find_captures(PLACEHOLDER, 1, buf) {
        Some(found) => found,
        None => vstd::pervasive::unreached(),
    };
    let mut reps: Vec<String> = Vec::new();
    let mut i: usize = 0;
    while i < found.len()
        invariant
            i <= found.len(),
            reps.len() == i,
            captures_fit(buf@, found@),
            forall|k: int| 0 <= k < i ==> rewritten(buf@, #[trigger] found@[k]) == reps@[k]@,
        decreases found.len() - i,
    {
        let placeholder = found[i];
        assert(placeholder == found@[i as int]);
        let content = match placeholder.group {
            Some(g) => piece(buf, g.0, g.1),
            None => "",
        };
        proof {
            if placeholder.group is None {
                reveal_strlit("");
                assert(content@ =~= Seq::<char>::empty());
            }
            assert(content@ == inside(buf@, placeholder));
        }
        let inner = remove_xml_in_variable_content(content);
        let mut rep = String::from_str("|");
        rep.append(inner.as_str());
        rep.append("|");
        reps.push(rep);
        i = i + 1;
    }
    proof {
        assert(views(reps@) =~= replacements(buf@, found@));
    }
    splice(buf, &found, &reps)
}

/// A text in which the engine finds no placeholder is its own cleaning.
pub proof fn unchanged_without_placeholders(buf: Seq<char>)
    requires
        placeholders_of(buf).len() == 0,
    ensures
        cleaned(buf) == buf,
{
    let found = placeholders_of(buf);
    assert(found =~= Seq::<Capture>::empty());
    spliced_without_matches(buf, replacements(buf, found));
}

/// A content in which the engine finds no tag is its own stripping.
pub proof fn unchanged_without_tags(content: Seq<char>)
    requires
        tags_of(content).len() == 0,
    ensures
        stripped(content) == content,
{
    assert(tags_of(content) =~= Seq::<Capture>::empty());
    spliced_without_matches(content, nothing(0));
}

/// What lies outside the placeholders stands in the cleaned text as it stood
/// in `buf`: the text before the first placeholder, between each two, and
/// after the last, markup included.
pub proof fn text_outside_placeholders_stays(buf: Seq<char>, k: int)
    requires
        0 <= k <= placeholders_of(buf).len(),
    ensures
        ({
            let found = placeholders_of(buf);
            let at = spliced_head(buf, found, replacements(buf, found), k).len() as int;
            let kept = gap(buf, found, k);
            &&& at + kept.len() <= cleaned(buf).len()
            &&& cleaned(buf).subrange(at, at + kept.len()) == kept
        }),
{
    let found = placeholders_of(buf);
    gap_stays(buf, found, replacements(buf, found), k);
}

/// In place of each placeholder the cleaned text has its two delimiters and
/// between them the placeholder's content without its tags.
pub proof fn placeholder_keeps_delimiters(buf: Seq<char>, k: int)
    requires
        0 <= k < placeholders_of(buf).len(),
    ensures
        ({
            let found = placeholders_of(buf);
            let out = cleaned(buf);
            let reps = replacements(buf, found);
            let at = (spliced_head(buf, found, reps, k).len() + gap(buf, found, k).len()) as int;
            let inner = stripped(inside(buf, found[k]));
            let n = inner.len() as int;
            &&& at + n + 2 <= out.len()
            &&& out[at] == '|'
            &&& out.subrange(at + 1, at + 1 + n) == inner
            &&& out[at + 1 + n] == '|'
        }),
{
    let found = placeholders_of(buf);
    let out = cleaned(buf);
    let reps = replacements(buf, found);
    let at = (spliced_head(buf, found, reps, k).len() + gap(buf, found, k).len()) as int;
    let inner = stripped(inside(buf, found[k]));
    let n = inner.len() as int;
    replacement_stands(buf, found, reps, k);
    reveal_strlit("|");
    let rep = reps[k];
    assert(rep == "|"@ + inner + "|"@);
    assert(rep.len() == n + 2);
    let placed = out.subrange(at, at + n + 2);
    assert(placed == rep);
    assert(out[at] == placed[0]);
    assert(rep[0] == '|');
    assert(out[at + 1 + n] == placed[1 + n]);
    assert(rep[1 + n] == '|');
    assert(out.subrange(at + 1, at + 1 + n) =~= rep.subrange(1, 1 + n));
    assert(rep.subrange(1, 1 + n) =~= inner);
}

/// Stripping keeps what stands between the tags: the text before the first
/// tag, between each two, and after the last, one right behind the other.
pub proof fn text_between_tags_stays(content: Seq<char>, k: int)
    requires
        0 <= k <= tags_of(content).len(),
    ensures
        ({
            let tags = tags_of(content);
            let out = stripped(content);
            let at = spliced_head(content, tags, nothing(tags.len()), k).len() as int;
            let kept = gap(content, tags, k);
            &&& at + kept.len() <= out.len()
            &&& out.subrange(at, at + kept.len()) == kept
            &&& k < tags.len() ==> spliced_head(content, tags, nothing(tags.len()), k + 1).len()
                == at + kept.len()
        }),
{
    let tags = tags_of(content);
    gap_stays(content, tags, nothing(tags.len()), k);
}

/// Cleaning a cleaned text changes nothing, wherever the engine finds in the
/// cleaned text what the cleaning left there: as many placeholders, the text
/// around them as it was, their contents as they were stripped, and no tag in
/// those contents.
///
/// What the engine finds in a text is not this library's to prove, so the
/// law is stated under these conditions and no further.
pub proof fn cleaning_again_changes_nothing(buf: Seq<char>)
    requires
        ({
            let found = placeholders_of(buf);
            let again = placeholders_of(cleaned(buf));
            &&& again.len() == found.len()
            &&& forall|k: int|
                0 <= k <= found.len() ==> #[trigger] gap(cleaned(buf), again, k) == gap(
                    buf,
                    found,
                    k,
                )
            &&& forall|k: int|
                0 <= k < found.len() ==> {
                    let inner = stripped(inside(buf, found[k]));
                    &&& #[trigger] inside(cleaned(buf), again[k]) == inner
                    &&& tags_of(inner).len() == 0
                }
        }),
    ensures
        cleaned(cleaned(buf)) == cleaned(buf),
{
    let found = placeholders_of(buf);
    let out = cleaned(buf);
    let again = placeholders_of(out);
    let reps = replacements(buf, found);
    assert forall|k: int| 0 <= k < again.len() implies #[trigger] rewritten(out, again[k])
        == reps[k] by {
        let inner = stripped(inside(buf, found[k]));
        assert(inside(out, again[k]) == inner);
        unchanged_without_tags(inner);
    }
    assert(replacements(out, again) =~= reps);
    same_gaps_same_result(out, again, buf, found, reps);
}

} // verus!
