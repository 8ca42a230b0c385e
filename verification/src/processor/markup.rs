//! The markup reader, as far as the library uses it: one event at a time.

use quick_xml::events::Event;
use quick_xml::Reader;
use vstd::prelude::*;

verus! {

/// The reader of the markup crate. The library owns one while it walks a
/// document and sees nothing of what is inside it.
#[verifier::external_type_specification]
#[verifier::external_body]
#[verifier::reject_recursive_types(R)]
pub struct ExReader<R>(Reader<R>);

/// What the reader found next in the document.
#[derive(Debug, Clone, PartialEq, Eq)]
pub enum MarkupEvent {
    /// Character data between tags, decoded.
    Text(String),
    /// Anything else: a tag, a comment, a declaration, a reference.
    Other,
    /// The end of the document.
    Eof,
}

/// Why the reader gave up on a document.
#[derive(Debug, Clone, PartialEq, Eq)]
pub struct MarkupFault {
    /// The byte offset that the reader reports for the fault.
    pub position: u64,
    /// The reader's own description of it.
    pub message: String,
}

/// What the reader answers when it is asked for an event.
pub type Reading = Result<MarkupEvent, MarkupFault>;

/// The answers that a reader gives for the document `content`, with the
/// white space around text trimmed, in the order in which it is asked, up to
/// the document's end and without it.
pub uninterp spec fn document_readings(content: Seq<char>) -> Seq<Reading>;

/// The answers that a reader has yet to give before it is at its document's
/// end.
pub uninterp spec fn pending(reader: Reader<&[u8]>) -> Seq<Reading>;

/// Makes a reader for `content` with `Reader::from_str` and tells it, with
/// `Config::trim_text`, to trim the white space around text.
///
/// Believed, not proved: what the reader will answer before its document's
/// end depends on the document alone.
#[verifier::external_body]
pub(crate) fn open_reader<'a>(content: &'a str) -> (reader: Reader<&'a [u8]>)
    ensures
        pending(reader) == document_readings(content@),
{
    let mut reader = Reader::from_str(content);
    reader.config_mut().trim_text(true);
    reader
}

/// Asks the reader for its next event with `Reader::read_event` and decodes
/// the text of a text event with `BytesText::decode`.
///
/// Believed, not proved: while answers are pending, the reader gives the
/// first of them and has the others yet to give; with none pending it is at
/// its document's end, says so, and stays as it is.
#[verifier::external_body]
pub(crate) fn next_event<'a>(reader: &mut Reader<&'a [u8]>) -> (reading: Reading)
    ensures
        pending(*old(reader)).len() > 0 ==> reading == pending(*old(reader))[0] && pending(
            *final(reader),
        ) == pending(*old(reader)).drop_first(),
        pending(*old(reader)).len() == 0 ==> (reading matches Ok(MarkupEvent::Eof)) && pending(
            *final(reader),
        ) == pending(*old(reader)),
{
    match reader.read_event() {
        Ok(Event::Text(text)) => match text.decode() {
            Ok(decoded) => Ok(MarkupEvent::Text(decoded.into_owned())),
            Err(e) => Err(MarkupFault { position: reader.buffer_position(), message: format!("{:?}", e) }),
        },
        Ok(Event::Eof) => Ok(MarkupEvent::Eof),
        Ok(_) => Ok(MarkupEvent::Other),
        Err(e) => Err(MarkupFault { position: reader.error_position(), message: format!("{:?}", e) }),
    }
}

} // verus!
