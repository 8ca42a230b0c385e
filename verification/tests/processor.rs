use scripts::processor::markup::MarkupEvent;
use scripts::processor::markup::MarkupFault;
use scripts::processor::pass_over;
use scripts::processor::DocumentProcessor;
use scripts::processor::ProcessError;

fn plain() -> DocumentProcessor {
    DocumentProcessor::new(false, None, false, false)
}

fn text(s: &str) -> Result<MarkupEvent, MarkupFault> {
    Ok(MarkupEvent::Text(s.to_string()))
}

#[test]
fn text_of_a_table_row_is_its_placeholder() {
    let input = r#"
    <table:table-row>
     <table:table-cell table:style-name="Table1.A2" office:value-type="string">
      <text:p text:style-name="Standard">|VariableName|</text:p>
     </table:table-cell>
    </table:table-row>
        "#;
    assert_eq!(plain().process(input), Ok("|VariableName|".to_string()));
}

#[test]
fn text_events_come_one_per_line() {
    let input = "<doc><a>one</a><b> two </b><c/>three</doc>";
    assert_eq!(plain().process(input), Ok("one\ntwo\nthree".to_string()));
}

#[test]
fn markup_inside_a_placeholder_splits_its_text() {
    let input = "<p>|Var<x>iable</x>Name|</p>";
    assert_eq!(plain().process(input), Ok("|Var\niable\nName|".to_string()));
}

#[test]
fn document_without_text_gives_nothing() {
    assert_eq!(plain().process("<a><b/></a>"), Ok(String::new()));
    assert_eq!(plain().process(""), Ok(String::new()));
}

#[test]
fn comments_and_instructions_are_dropped() {
    let input = "<?xml version=\"1.0\"?><!-- |x<y>| --><a>|v| t</a><?pi |z|?>";
    assert_eq!(plain().process(input), Ok("|v| t".to_string()));
}

#[test]
fn unclosed_tag_is_a_fault() {
    match plain().process("<a>text</a><b") {
        Err(ProcessError::Malformed(fault)) => {
            assert_eq!(fault.position, 11);
            assert!(!fault.message.is_empty());
        }
        other => panic!("expected a fault, got {:?}", other),
    }
}

#[test]
fn settings_do_not_change_the_text() {
    let input = "<a>|v| and |w|</a>";
    let other = DocumentProcessor::new(true, Some(12), true, true);
    assert_eq!(plain().process(input), other.process(input));
}

#[test]
fn pass_cleans_texts_and_drops_the_rest() {
    let readings = vec![
        Ok(MarkupEvent::Other),
        text("<b>|v<i>1</i>|</b>"),
        Ok(MarkupEvent::Other),
        text("x"),
        Ok(MarkupEvent::Eof),
    ];
    assert_eq!(pass_over(&readings), Ok("<b>|v1|</b>\nx".to_string()));
}

#[test]
fn pass_stops_at_the_end_of_the_document() {
    let readings = vec![text("a"), Ok(MarkupEvent::Eof), text("b"), Ok(MarkupEvent::Eof)];
    assert_eq!(pass_over(&readings), Ok("a".to_string()));
}

#[test]
fn pass_stops_at_the_first_fault() {
    let fault = MarkupFault { position: 7, message: "broken".to_string() };
    let readings = vec![text("a"), Err(fault.clone()), Ok(MarkupEvent::Eof)];
    assert_eq!(pass_over(&readings), Err(ProcessError::Malformed(fault)));
}

#[test]
fn pass_without_an_end_is_endless() {
    assert_eq!(pass_over(&vec![]), Err(ProcessError::Endless));
    assert_eq!(pass_over(&vec![text("a"), Ok(MarkupEvent::Other)]), Err(ProcessError::Endless));
}

#[test]
fn pass_over_the_end_alone_is_empty() {
    assert_eq!(pass_over(&vec![Ok(MarkupEvent::Eof)]), Ok(String::new()));
}

#[test]
fn process_gives_what_a_pass_over_its_events_gives() {
    // A start tag, a text, an end tag, then the end of the document.
    let readings = vec![
        Ok(MarkupEvent::Other),
        text("|a| c"),
        Ok(MarkupEvent::Other),
        Ok(MarkupEvent::Eof),
    ];
    assert_eq!(plain().process("<p>  |a| c  </p>"), pass_over(&readings));
    assert_eq!(plain().process("<p>  |a| c  </p>"), Ok("|a| c".to_string()));
}

#[test]
fn long_documents_are_read_to_their_end() {
    let mut input = String::new();
    for k in 0..200 {
        input.push_str(&format!("<r><c>|v{}|</c></r>", k));
    }
    let lines: Vec<String> = (0..200).map(|k| format!("|v{}|", k)).collect();
    assert_eq!(plain().process(&input), Ok(lines.join("\n")));
}

#[test]
fn one_byte_documents_end_in_time() {
    assert_eq!(plain().process("x"), Ok("x".to_string()));
    assert_eq!(plain().process(" "), Ok(String::new()));
}
