//! Text extraction from a markup document.
//!
//! The document is read event by event. The text events are cleaned (see
//! `variables`) and written out one per line; all other events are dropped.

use vstd::prelude::*;
use vstd::string::*;
use crate::processor::markup::next_event;
use crate::processor::markup::open_reader;
use crate::processor::markup::MarkupEvent;
use crate::processor::markup::MarkupFault;
use crate::processor::markup::Reading;
use crate::processor::markup::document_readings;
use crate::processor::markup::pending;
use crate::processor::variables::cleaned;
use crate::processor::variables::remove_xml_in_variables;
use crate::text::join;
use crate::text::joined;
use crate::text::views;

pub mod markup;
pub mod pattern;
pub mod variables;

verus! {

/// Why a document could not be processed.
#[derive(Debug, Clone, PartialEq, Eq)]
pub enum ProcessError {
    /// The reader gave up on the document.
    Malformed(MarkupFault),
    /// The readings at hand came to no end: none of them is a fault or the
    /// end of the document.
    Endless,
}

/// Where a pass over a document stands.
pub enum Pass {
    /// Under way, with the cleaned texts so far.
    Running(Seq<Seq<char>>),
    /// At the document's end, with all its cleaned texts.
    Finished(Seq<Seq<char>>),
    /// Broken off.
    Failed(ProcessError),
}

/// A pass that is under way with `texts`, after one more reading.
pub open spec fn step(texts: Seq<Seq<char>>, reading: Reading) -> Pass {
    match reading {
        Err(fault) => Pass::Failed(ProcessError::Malformed(fault)),
        Ok(MarkupEvent::Eof) => Pass::Finished(texts),
        Ok(MarkupEvent::Other) => Pass::Running(texts),
        Ok(MarkupEvent::Text(text)) => Pass::Running(texts.push(cleaned(text@))),
    }
}

/// Where a pass stands after `readings`. Once it has finished or failed, it
/// looks at no further reading.
pub open spec fn after(readings: Seq<Reading>) -> Pass
    decreases readings.len(),
{
    if readings.len() == 0 {
        Pass::Running(Seq::empty())
    } else {
        match after(readings.drop_last()) {
            Pass::Running(texts) => step(texts, readings.last()),
            ended => ended,
        }
    }
}

/// What a pass over `readings` gives: the cleaned texts, one per line, where
/// the readings led to the document's end.
pub open spec fn outcome(readings: Seq<Reading>) -> Result<Seq<char>, ProcessError> {
    match after(readings) {
        Pass::Finished(texts) => Ok(joined(texts, "\n"@)),
        Pass::Failed(e) => Err(e),
        Pass::Running(_) => Err(ProcessError::Endless),
    }
}

/// All the answers of the reader for the document `content`: those before
/// the document's end, and the end.
pub open spec fn whole(content: Seq<char>) -> Seq<Reading> {
    document_readings(content).push(Ok(MarkupEvent::Eof))
}

/// Takes one reading into a pass that is under way. Tells whether the pass
/// has finished.
fn take(texts: &mut Vec<String>, reading: &Reading) -> (r: Result<bool, ProcessError>)
    ensures
        match r {
            Ok(finished) => if finished {
                step(views(old(texts)@), *reading) == Pass::Finished(views(final(texts)@))
            } else {
                step(views(old(texts)@), *reading) == Pass::Running(views(final(texts)@))
            },
            Err(e) => step(views(old(texts)@), *reading) == Pass::Failed(e),
        },
{
    match reading {
        Err(fault) => Err(
            ProcessError::Malformed(
                MarkupFault { position: fault.position, message: fault.message.clone() },
            ),
        ),
        Ok(MarkupEvent::Eof) => Ok(true),
        Ok(MarkupEvent::Other) => Ok(false),
        Ok(MarkupEvent::Text(text)) => {
            let clean = remove_xml_in_variables(text.as_str());
            proof {
                assert(views(texts@.push(clean)) =~= views(texts@).push(clean@));
            }
            texts.push(clean);
            Ok(false)
        },
    }
}

/// The pass over a document whose readings are at hand: cleans each text,
/// drops every other event, stops at the first fault and at the document's
/// end, and writes the cleaned texts one per line.
pub fn pass_over(readings: &Vec<Reading>) -> (r: Result<String, ProcessError>)
    ensures
        match r {
            Ok(text) => outcome(readings@) == Ok::<Seq<char>, ProcessError>(text@),
            Err(e) => outcome(readings@) == Err::<Seq<char>, ProcessError>(e),
        },
{
    let mut texts: Vec<String> = Vec::new();
    let mut k: usize = 0;
    assert(views(texts@) =~= Seq::<Seq<char>>::empty());
    assert(readings@.take(0) =~= Seq::<Reading>::empty());
    while k < readings.len()
        invariant
            k <= readings.len(),
            after(readings@.take(k as int)) == Pass::Running(views(texts@)),
        decreases readings.len() - k,
    {
        proof {
            let seen = readings@.take(k as int + 1);
            assert(seen.drop_last() =~= readings@.take(k as int));
            assert(seen.last() == readings@[k as int]);
        }
        match take(&mut texts, &readings[k]) {
            Ok(finished) => {
                if finished {
                    proof {
                        ended_stays(readings@, k as int + 1);
                    }
                    return Ok(join(&texts, "\n"));
                }
            },
            Err(e) => {
                proof {
                    ended_stays(readings@, k as int + 1);
                }
                return Err(e);
            },
        }
        k = k + 1;
    }
    proof {
        assert(readings@.take(k as int) =~= readings@);
    }
    Err(ProcessError::Endless)
}

/// A pass that has ended after the first `k` readings stands there after all
/// of them.
proof fn ended_stays(readings: Seq<Reading>, k: int)
    requires
        0 <= k <= readings.len(),
        !(after(readings.take(k)) is Running),
    ensures
        after(readings) == after(readings.take(k)),
    decreases readings.len() - k,
{
    if k == readings.len() {
        assert(readings.take(k) =~= readings);
    } else {
        let longer = readings.take(k + 1);
        assert(longer.drop_last() =~= readings.take(k));
        ended_stays(readings, k + 1);
    }
}

/// Settings for processing a document.
pub struct DocumentProcessor {
    highlight_variables: bool,
    set_variable_size: Option<u8>,
    left_align_variable_cells: bool,
    unlock_regions: bool,
}

impl DocumentProcessor {
    /// Whether placeholders are to be highlighted.
    pub closed spec fn highlights_variables(&self) -> bool {
        self.highlight_variables
    }

    /// The size to set placeholders in, if one is set.
    pub closed spec fn variable_size(&self) -> Option<u8> {
        self.set_variable_size
    }

    /// Whether table cells that hold a placeholder are to be aligned left.
    pub closed spec fn left_aligns_variable_cells(&self) -> bool {
        self.left_align_variable_cells
    }

    /// Whether locked regions are to be unlocked.
    pub closed spec fn unlocks_regions(&self) -> bool {
        self.unlock_regions
    }

    /// A processor with the given settings.
    pub fn new(
        highlight_variables: bool,
        set_variable_size: Option<u8>,
        left_align_variable_cells: bool,
        unlock_regions: bool,
    ) -> (r: DocumentProcessor)
        ensures
            r.highlights_variables() == highlight_variables,
            r.variable_size() == set_variable_size,
            r.left_aligns_variable_cells() == left_align_variable_cells,
            r.unlocks_regions() == unlock_regions,
    {
        DocumentProcessor {
            highlight_variables,
            set_variable_size,
            left_align_variable_cells,
            unlock_regions,
        }
    }

    /// Reads `content` as markup and gives its text: each text event
    /// cleaned, one per line, everything else dropped. The settings have no
    /// part in it.
    ///
    /// The result is the outcome of a pass over the answers that the reader
    /// gives for `content`, up to the document's end or the first fault.
    pub fn process(&self, content: &str) -> (r: Result<String, ProcessError>)
        ensures
            match r {
                Ok(text) => outcome(whole(content@)) == Ok::<Seq<char>, ProcessError>(text@),
                Err(e) => outcome(whole(content@)) == Err::<Seq<char>, ProcessError>(e),
            },
    {
        let mut reader = open_reader(content);
        let mut texts: Vec<String> = Vec::new();
        let ghost all = whole(content@);
        let ghost mut seen: Seq<Reading> = Seq::empty();
        proof {
            assert(views(texts@) =~= Seq::<Seq<char>>::empty());
            assert(seen + pending(reader) =~= document_readings(content@));
        }
        loop
            invariant
                all == whole(content@),
                seen + pending(reader) == document_readings(content@),
                after(seen) == Pass::Running(views(texts@)),
            decreases pending(reader).len(),
        {
            let ghost waiting = pending(reader);
            let reading = next_event(&mut reader);
            proof {
                assert(seen.push(reading).drop_last() =~= seen);
                assert(seen.push(reading).last() == reading);
                if waiting.len() > 0 {
                    assert(seen.push(reading) + waiting.drop_first() =~= seen + waiting);
                    assert(all.take(seen.len() as int + 1) =~= seen.push(reading));
                } else {
                    assert(seen =~= document_readings(content@));
                    assert(all =~= seen.push(reading));
                    assert(all.take(seen.len() as int + 1) =~= all);
                }
                seen = seen.push(reading);
            }
            match take(&mut texts, &reading) {
                Ok(finished) => {
                    if finished {
                        proof {
                            ended_stays(all, seen.len() as int);
                        }
                        return Ok(join(&texts, "\n"));
                    }
                },
                Err(e) => {
                    proof {
                        ended_stays(all, seen.len() as int);
                    }
                    return Err(e);
                },
            }
        }
    }
}

} // verus!
