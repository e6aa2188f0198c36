use usfx_to_tsv::parser::convert as convert_with;
use usfx_to_tsv::{ParserError, UsfxConfig, UsfxConfigBuilder, UsfxParser};

fn convert(xml: &str) -> String {
    let (result, output) = convert_with(xml.as_bytes(), UsfxConfig::default());
    result.unwrap();
    output
}

fn untrimmed() -> UsfxConfig {
    UsfxConfigBuilder::new().trim_text(false).build()
}

#[test]
fn test_basic_parsing() {
    let xml = "<book id=\"GEN\"><p><v id=\"1\" bcv=\"GEN.1.1\"/><w>In</w> <w>the</w> <w>beginning</w><ve/></p></book>";
    assert_eq!(convert(xml), "GEN\t1\t1\tIn the beginning\n");
}

#[test]
fn word_tokens_are_joined_with_single_spaces() {
    let xml = "<v bcv=\"GEN.1.1\"/><w>In</w> <w>the</w> <w>beginning</w><ve/>";
    assert_eq!(convert(xml), "GEN\t1\t1\tIn the beginning\n");
}

#[test]
fn word_directly_after_word_is_a_continuation() {
    let xml = "<v bcv=\"GEN.1.1\"/><w>In</w><w>the</w><ve/>";
    assert_eq!(convert(xml), "GEN\t1\t1\tIn\n");
}

#[test]
fn empty_document_writes_nothing() {
    assert_eq!(convert(""), "");
}

#[test]
fn reference_prefix_starts_the_line() {
    let output = convert("<v bcv=\"EXO.20.13\"/><w>You</w><ve/>");
    assert!(output.starts_with("EXO\t20\t13\t"));
    assert_eq!(output, "EXO\t20\t13\tYou\n");
}

#[test]
fn reference_with_empty_components_is_well_formed() {
    assert_eq!(convert("<v bcv=\"..\"/><ve/>"), "\t\t\t\n");
    assert_eq!(convert("<v bcv=\"GEN..1\"/><ve/>"), "GEN\t\t1\t\n");
}

#[test]
fn reference_of_two_components_is_skipped() {
    let (result, output) = convert_with(
        b"<v bcv=\"GEN.1\"/><w>In</w><v bcv=\"GEN.1.2\"/><w>And</w><ve/>",
        UsfxConfig::default(),
    );
    assert!(result.is_ok());
    assert_eq!(output, "GEN\t1\t2\tAnd\n");
}

#[test]
fn reference_of_four_components_is_skipped() {
    assert_eq!(convert("<v bcv=\"GEN.1.1.1\"/><w>In</w>"), "");
}

#[test]
fn reference_of_one_component_is_skipped() {
    assert_eq!(convert("<v bcv=\"GEN\"/><w>In</w>"), "");
    assert_eq!(convert("<v bcv=\"\"/><w>In</w>"), "");
}

#[test]
fn skipped_verse_leaves_no_line() {
    for value in ["", "GEN", "GEN.1", "GEN.1.1.2", "GEN 1 1", "...."] {
        for body in ["", "In the beginning", "<w>In</w> <w>the</w>", "<v>In the</v> <w>beginning</w>\n"] {
            for trim_text in [true, false] {
                let xml = format!("<v bcv=\"{value}\"/>{body}<ve/>");
                let config = UsfxConfigBuilder::new().trim_text(trim_text).build();
                let (result, output) = convert_with(xml.as_bytes(), config);
                assert!(result.is_ok(), "{xml}");
                assert_eq!(output, "", "{xml}");
            }
        }
    }
}

#[test]
fn skipped_verse_between_two_verses_leaves_no_line() {
    let xml = "<v bcv=\"GEN.1.1\"/><w>a</w><ve/><v bcv=\"GEN.1\"/><w>b</w><ve/><v bcv=\"GEN.1.3\"/><w>c</w><ve/>";
    assert_eq!(convert(xml), "GEN\t1\t1\ta\nGEN\t1\t3\tc\n");
}

#[test]
fn verse_end_without_a_verse_start_writes_nothing() {
    assert_eq!(convert("<ve/>"), "");
    assert_eq!(convert("<ve/><ve/>"), "");
    assert_eq!(convert("<w>In</w><ve/><p>text</p><ve/>"), "");
    assert_eq!(convert("<v bcv=\"GEN.1.1\"/><w>a</w><ve/><ve/><ve/>"), "GEN\t1\t1\ta\n");
}

#[test]
fn section_heading_inside_a_verse_does_not_lose_the_line_end() {
    assert_eq!(convert("<v bcv=\"GEN.1.1\"/><s>Heading</s><ve/>"), "GEN\t1\t1\t\n");
}

#[test]
fn lines_are_the_well_formed_verses() {
    let references = ["GEN.1.1", "GEN.1", "GEN.1.2", "GEN", "GEN.1.3.4", "EXO.2.3", ""];
    let bodies = ["<w>a</w>", "<w>b</w> <f>n</f>", "<x>r</x><w>c</w>", "text", "<w>e</w>", "<w>f</w> <w>g</w>", ""];
    for take in 0..=references.len() {
        let mut xml = String::new();
        let mut prefixes = Vec::new();
        for (reference, body) in references.iter().zip(bodies).take(take) {
            xml.push_str(&format!("<v bcv=\"{reference}\"/>{body}<ve/>"));
            let parts: Vec<&str> = reference.split('.').collect();
            if parts.len() == 3 {
                prefixes.push(format!("{}\t{}\t{}\t", parts[0], parts[1], parts[2]));
            }
        }
        let output = convert(&xml);
        assert_eq!(output.matches('\n').count(), prefixes.len(), "{xml}");
        if prefixes.is_empty() {
            assert_eq!(output, "", "{xml}");
        } else {
            assert!(output.ends_with('\n'), "{xml}");
        }
        let lines: Vec<&str> = output.lines().collect();
        assert_eq!(lines.len(), prefixes.len());
        for (line, prefix) in lines.iter().zip(&prefixes) {
            assert!(line.starts_with(prefix.as_str()), "{line:?} {prefix:?}");
        }
    }
    let only_skipped = "<v bcv=\"GEN\"/><w>a</w><ve/><v bcv=\"GEN.1\"/><w>b</w><ve/>";
    assert_eq!(convert(only_skipped), "");
}

#[test]
fn verse_marker_without_reference_does_nothing() {
    assert_eq!(convert("<v id=\"1\"/><w>In</w>"), "");
}

#[test]
fn other_attributes_around_the_reference_are_passed_over() {
    let xml = "<v id=\"1\" bcv=\"GEN.1.1\" style=\"x\"/><w>In</w><ve/>";
    assert_eq!(convert(xml), "GEN\t1\t1\tIn\n");
}

#[test]
fn two_verses_give_two_lines() {
    let xml = "<p><v bcv=\"GEN.1.1\"/><w>a</w><ve/>\n<v bcv=\"GEN.1.2\"/><w>b</w><ve/></p>";
    assert_eq!(convert(xml), "GEN\t1\t1\ta\nGEN\t1\t2\tb\n");
}

#[test]
fn line_count_is_the_number_of_verse_pairs() {
    let xml = "<book><v bcv=\"GEN.1.1\"/><w>a</w> <w>b</w><ve/>\n\
               <v bcv=\"GEN.1.2\"/><w>c</w><f>note</f><ve/>\n\
               <s>Heading</s>\n\
               <v bcv=\"GEN.1.3\"/><w>d</w><ve/></book>";
    let output = convert(xml);
    assert_eq!(output.matches('\n').count(), 3);
    assert_eq!(output, "GEN\t1\t1\ta b\nGEN\t1\t2\tc\nGEN\t1\t3\td\n");
}

#[test]
fn text_after_verse_end_is_not_written() {
    let xml = "<v bcv=\"GEN.1.1\"/><w>a</w><ve/><w>b</w> <v>c</v>";
    assert_eq!(convert(xml), "GEN\t1\t1\ta\n");
}

#[test]
fn footnote_text_is_suppressed() {
    let xml = "<v bcv=\"GEN.1.1\"/><w>In</w> <f>a note</f><ve/>";
    assert_eq!(convert(xml), "GEN\t1\t1\tIn\n");
}

#[test]
fn cross_reference_text_is_suppressed() {
    let xml = "<v bcv=\"GEN.1.1\"/><w>In</w> <x>Joh 1:1</x><ve/>";
    assert_eq!(convert(xml), "GEN\t1\t1\tIn\n");
}

#[test]
fn section_heading_is_suppressed_and_disables_content() {
    let xml = "<v bcv=\"GEN.1.1\"/><w>a</w><s>Heading</s><w>b</w><ve/>";
    assert_eq!(convert(xml), "GEN\t1\t1\ta\n");
}

#[test]
fn words_inside_a_footnote_are_suppressed() {
    let xml = "<v bcv=\"GEN.1.1\"/><w>In</w> <f>note <w>word</w> more</f> <w>the</w><ve/>";
    assert_eq!(convert(xml), "GEN\t1\t1\tInthe\n");
}

#[test]
fn nested_regions_stay_suppressed_until_the_outer_one_ends() {
    let xml = "<v bcv=\"GEN.1.1\"/><f>a<x>b</x><w>c</w><v>d</v></f><v>e</v><ve/>";
    assert_eq!(convert(xml), "GEN\t1\t1\te\n");
}

#[test]
fn verse_marker_inside_a_region_still_writes_its_prefix() {
    let xml = "<f><v bcv=\"GEN.1.1\"/><v>hidden</v></f><v>shown</v><ve/>";
    assert_eq!(convert(xml), "GEN\t1\t1\tshown\n");
}

#[test]
fn book_text_is_never_written() {
    let xml = "<book>Genesis<v bcv=\"GEN.1.1\"/>still the book<w>In</w><ve/></book>";
    assert_eq!(convert(xml), "GEN\t1\t1\t In\n");
}

#[test]
fn paired_verse_form_writes_its_text_verbatim() {
    let xml = "<v bcv=\"GEN.1.1\"/><v>In the beginning</v><ve/>";
    assert_eq!(convert(xml), "GEN\t1\t1\tIn the beginning\n");
}

#[test]
fn paired_verse_form_starts_no_record() {
    assert_eq!(convert("<v bcv=\"GEN.1.1\">In the beginning</v><ve/>"), "");
}

#[test]
fn paired_verse_end_writes_no_terminator() {
    let xml = "<v bcv=\"GEN.1.1\"/><w>a</w><ve>x</ve><w>b</w>";
    assert_eq!(convert(xml), "GEN\t1\t1\ta b");
}

#[test]
fn unknown_tags_are_ignored() {
    let xml = "<usfx><p><v bcv=\"GEN.1.1\"/><q><w>In</w></q> <add><w>the</w></add><ve/></p></usfx>";
    assert_eq!(convert(xml), "GEN\t1\t1\tIn the\n");
}

#[test]
fn comments_declarations_and_cdata_are_ignored() {
    let xml = "<?xml version=\"1.0\"?><!DOCTYPE usfx><!-- c --><v bcv=\"GEN.1.1\"/><w>a</w><![CDATA[zzz]]><?pi x?><ve/>";
    assert_eq!(convert(xml), "GEN\t1\t1\ta\n");
}

#[test]
fn entities_are_resolved() {
    let xml = "<v bcv=\"GEN.1.1\"/><w>a &amp; b &lt;c&gt; &#65;&#x42;</w><ve/>";
    assert_eq!(convert(xml), "GEN\t1\t1\ta & b <c> AB\n");
}

#[test]
fn reference_value_is_not_unescaped() {
    assert_eq!(convert("<v bcv=\"A&amp;B.1.1\"/><ve/>"), "A&amp;B\t1\t1\t\n");
}

#[test]
fn text_is_trimmed_by_default() {
    let xml = "<v bcv=\"GEN.1.1\"/><v>  In the beginning \n</v><ve/>";
    assert_eq!(convert(xml), "GEN\t1\t1\tIn the beginning\n");
}

#[test]
fn text_is_kept_as_it_is_without_trimming() {
    let (result, output) = convert_with(
        b"<v bcv=\"GEN.1.1\"/><v>  In the beginning </v><ve/>",
        untrimmed(),
    );
    assert!(result.is_ok());
    assert_eq!(output, "GEN\t1\t1\t  In the beginning \n");
}

#[test]
fn unicode_white_space_is_trimmed() {
    let xml = "<v bcv=\"GEN.1.1\"/><v>\u{a0}\u{2003}In\u{3000}\u{85}</v><ve/>";
    assert_eq!(convert(xml), "GEN\t1\t1\tIn\n");
}

#[test]
fn lone_newline_in_the_verse_body_becomes_a_marker() {
    let (result, output) = convert_with(
        b"<v bcv=\"GEN.1.1\"/><w>a</w>\n<w>b</w><ve/>",
        untrimmed(),
    );
    assert!(result.is_ok());
    assert_eq!(output, "GEN\t1\t1\ta^ b\n");
}

#[test]
fn lone_newline_is_trimmed_away_by_default() {
    assert_eq!(convert("<v bcv=\"GEN.1.1\"/><w>a</w>\n<w>b</w><ve/>"), "GEN\t1\t1\ta b\n");
}

#[test]
fn newline_inside_longer_text_is_kept() {
    let (result, output) = convert_with(b"<v bcv=\"GEN.1.1\"/><v>a\nb</v><v>\n\n</v><ve/>", untrimmed());
    assert!(result.is_ok());
    assert_eq!(output, "GEN\t1\t1\ta\nb\n\n\n");
}

#[test]
fn mismatched_end_tag_is_a_markup_error() {
    let (result, output) = convert_with(b"<v bcv=\"GEN.1.1\"/><w>In</w></x><w>the</w>", UsfxConfig::default());
    assert!(matches!(result, Err(ParserError::XmlError(_))));
    assert_eq!(output, "GEN\t1\t1\tIn");
}

#[test]
fn unclosed_tag_is_a_markup_error() {
    let (result, output) = convert_with(b"<v bcv=\"GEN.1.1\"/><w", UsfxConfig::default());
    assert!(matches!(result, Err(ParserError::XmlError(_))));
    assert_eq!(output, "GEN\t1\t1\t");
}

#[test]
fn unknown_entity_in_written_text_is_an_encoding_error() {
    let (result, output) = convert_with(b"<v bcv=\"GEN.1.1\"/><w>a</w> <w>&bogus;</w><ve/>", UsfxConfig::default());
    assert!(matches!(result, Err(ParserError::ParseError(_))));
    assert_eq!(output, "GEN\t1\t1\ta");
}

#[test]
fn unknown_entity_in_text_that_is_not_looked_at_is_no_error() {
    assert_eq!(convert("<p>&bogus;</p><f>&bogus;</f><v bcv=\"GEN.1.1\"/><f>&bogus;</f><ve/>"), "GEN\t1\t1\t\n");
    assert_eq!(convert("<book><v bcv=\"GEN.1.1\"/>&bogus;<ve/></book>"), "GEN\t1\t1\t\n");
}

#[test]
fn unknown_entity_in_accepted_text_that_writes_nothing_is_an_error() {
    let (result, output) = convert_with(b"<v bcv=\"GEN.1.1\"/>&bogus;<ve/>", UsfxConfig::default());
    assert!(matches!(result, Err(ParserError::ParseError(_))));
    assert_eq!(output, "GEN\t1\t1\t");
}

#[test]
fn text_that_is_not_utf8_is_an_encoding_error() {
    let (result, output) = convert_with(b"<v bcv=\"GEN.1.1\"/><w>\xff\xfe</w><ve/>", UsfxConfig::default());
    assert!(matches!(result, Err(ParserError::ParseError(_))));
    assert_eq!(output, "GEN\t1\t1\t");
}

#[test]
fn malformed_attribute_of_a_verse_marker_is_an_encoding_error() {
    let (result, output) = convert_with(b"<v bcv=\"GEN.1.1\" bad/><w>In</w>", UsfxConfig::default());
    assert!(matches!(result, Err(ParserError::ParseError(_))));
    assert_eq!(output, "GEN\t1\t1\t");
    let (result, output) = convert_with(b"<v bad bcv=\"GEN.1.1\"/><w>In</w>", UsfxConfig::default());
    assert!(matches!(result, Err(ParserError::ParseError(_))));
    assert_eq!(output, "");
}

#[test]
fn repeated_reference_is_an_encoding_error_after_the_first() {
    let (result, output) = convert_with(b"<v bcv=\"A.1.1\" bcv=\"B.1.1\"/>", UsfxConfig::default());
    assert!(matches!(result, Err(ParserError::ParseError(_))));
    assert_eq!(output, "A\t1\t1\t");
}

#[test]
fn malformed_attribute_of_another_element_is_ignored() {
    assert_eq!(convert("<p bad><v bcv=\"GEN.1.1\"/><w bad=1>In</w><q bad/><ve/></p>"), "GEN\t1\t1\tIn\n");
}

#[test]
fn attribute_bytes_that_are_not_utf8_are_an_encoding_error() {
    let (result, output) = convert_with(b"<v bcv=\"GEN.\xff.1\"/>", UsfxConfig::default());
    assert!(matches!(result, Err(ParserError::ParseError(_))));
    assert_eq!(output, "");
    let (result, _) = convert_with(b"<v i\xffd=\"1\" bcv=\"GEN.1.1\"/>", UsfxConfig::default());
    assert!(matches!(result, Err(ParserError::ParseError(_))));
}

#[test]
fn value_of_another_attribute_need_not_be_utf8() {
    let (result, output) = convert_with(b"<v id=\"\xff\" bcv=\"GEN.1.1\"/><ve/>", UsfxConfig::default());
    assert!(result.is_ok());
    assert_eq!(output, "GEN\t1\t1\t\n");
}

#[test]
fn reference_may_hold_any_utf8_text() {
    assert_eq!(convert("<v bcv=\"Γένεσις.α.β\"/><ve/>"), "Γένεσις\tα\tβ\t\n");
}

#[test]
fn same_input_gives_same_output() {
    let xml = "<book><v bcv=\"GEN.1.1\"/><w>In</w> <w>the</w> <f>n</f><ve/><v bcv=\"GEN.1\"/><s>x</s></book>";
    let first = convert_with(xml.as_bytes(), UsfxConfig::default());
    let second = convert_with(xml.as_bytes(), UsfxConfig::default());
    assert_eq!(first.1, second.1);
    assert!(first.0.is_ok() && second.0.is_ok());
    let broken = b"<v bcv=\"GEN.1.1\"/><w>In</w></v>";
    let first = convert_with(broken, UsfxConfig::default());
    let second = convert_with(broken, UsfxConfig::default());
    assert_eq!(first.1, second.1);
    assert!(matches!(first.0, Err(ParserError::XmlError(_))));
    assert!(matches!(second.0, Err(ParserError::XmlError(_))));
}

#[test]
fn second_parse_finds_nothing_left() {
    let mut parser = UsfxParser::new(b"<v bcv=\"GEN.1.1\"/><w>In</w><ve/>", UsfxConfig::default());
    parser.parse().unwrap();
    assert_eq!(parser.output(), "GEN\t1\t1\tIn\n");
    parser.parse().unwrap();
    assert_eq!(parser.output(), "GEN\t1\t1\tIn\n");
}

#[test]
fn buffer_size_and_debug_output_do_not_change_the_records() {
    let config = UsfxConfigBuilder::new().buffer_size(1).debug_output(true).build();
    let (result, output) = convert_with(b"<v bcv=\"GEN.1.1\"/><w>In</w><ve/>", config);
    assert!(result.is_ok());
    assert_eq!(output, "GEN\t1\t1\tIn\n");
}

#[test]
fn events_can_be_taken_one_at_a_time() {
    let mut parser = UsfxParser::new(b"<v bcv=\"GEN.1.1\"/><w>In</w> <w>the</w><ve/>tail", UsfxConfig::default());
    let mut pieces = Vec::new();
    while parser.parse_next().unwrap() {
        pieces.push(parser.take_output());
        assert_eq!(parser.output(), "");
    }
    assert_eq!(
        pieces,
        vec!["GEN\t1\t1\t", "", "In", "", "", "", " the", "", "\n", ""]
    );
    assert!(!parser.parse_next().unwrap());
    assert_eq!(parser.take_output(), "");
}

#[test]
fn failure_keeps_what_the_event_wrote_before_it() {
    let mut parser = UsfxParser::new(b"<v bcv=\"GEN.1.1\" bad/><w>In</w>", UsfxConfig::default());
    assert!(matches!(parser.parse_next(), Err(ParserError::ParseError(_))));
    assert_eq!(parser.take_output(), "GEN\t1\t1\t");
}

#[test]
fn markup_error_writes_nothing() {
    let mut parser = UsfxParser::new(b"<w>In</v>", UsfxConfig::default());
    assert!(parser.parse_next().unwrap());
    assert!(parser.parse_next().unwrap());
    assert!(matches!(parser.parse_next(), Err(ParserError::XmlError(_))));
    assert_eq!(parser.take_output(), "");
}

#[test]
fn one_event_at_a_time_agrees_with_the_whole_parse() {
    let xml = "<book><p><v bcv=\"GEN.1.1\"/><w>In</w> <w>the</w> <f>n<w>x</w></f><ve/>\n<s>H</s><v bcv=\"GEN.1\"/><v bcv=\"GEN.1.2\"/><v>a &amp; b</v><ve/></p></book>";
    let whole = convert(xml);
    let mut parser = UsfxParser::new(xml.as_bytes(), UsfxConfig::default());
    let mut streamed = String::new();
    while parser.parse_next().unwrap() {
        streamed.push_str(&parser.take_output());
    }
    assert_eq!(streamed, whole);
    assert_eq!(whole, "GEN\t1\t1\tIn the\nGEN\t1\t2\ta & b\n");
}

#[test]
fn conversion_in_one_call_agrees_with_the_parser() {
    for xml in [
        &b"<v bcv=\"GEN.1.1\"/><w>In</w> <w>the</w><ve/>"[..],
        &b"<v bcv=\"GEN.1.1\"/><w>In</w></p>"[..],
        &b"<v bcv=\"GEN.1.1\"/>&x;"[..],
        &b""[..],
    ] {
        let (result, output) = convert_with(xml, UsfxConfig::default());
        let mut parser = UsfxParser::new(xml, UsfxConfig::default());
        let parsed = parser.parse();
        assert_eq!(output, parser.output());
        assert_eq!(result.is_ok(), parsed.is_ok());
    }
}
