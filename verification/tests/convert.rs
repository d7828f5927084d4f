use stack_browser::html::from_html;
use stack_browser::html::take_lines_joined;
use stack_browser::stack::to_display_record;
use stack_browser::stack::QuestionDto;

#[test]
fn take_lines_joined_first_three() {
    assert_eq!(take_lines_joined("a\nb\nc\nd", 3), "a. b. c");
}

#[test]
fn take_lines_joined_fewer_lines_than_asked() {
    assert_eq!(take_lines_joined("only", 3), "only");
}

#[test]
fn take_lines_joined_empty_input() {
    assert_eq!(take_lines_joined("", 3), "");
}

#[test]
fn take_lines_joined_keeps_empty_lines() {
    assert_eq!(take_lines_joined("a\n\nb", 3), "a. . b");
}

#[test]
fn take_lines_joined_strips_carriage_returns() {
    assert_eq!(take_lines_joined("a\r\nb", 2), "a. b");
}

#[test]
fn take_lines_joined_ignores_trailing_newline() {
    assert_eq!(take_lines_joined("a\nb\n", 3), "a. b");
}

#[test]
fn from_html_renders_paragraphs_as_lines() {
    let text = from_html("<p>A</p><p>B</p>");
    let lines: Vec<&str> = text.lines().collect();
    assert!(lines.contains(&"A"), "rendered text {:?} should hold line A", text);
    assert!(lines.contains(&"B"), "rendered text {:?} should hold line B", text);
}

#[test]
fn to_display_record_renders_body_and_description() {
    let dto = QuestionDto {
        title: "How?".to_string(),
        link: "https://stackoverflow.com/q/1".to_string(),
        tags: vec!["rust".to_string(), "python".to_string()],
        answer_count: 4,
        body: "<p>A</p><p>B</p>".to_string(),
    };
    let record = to_display_record(dto);
    assert_eq!(record.title, "How?");
    assert_eq!(record.link, "https://stackoverflow.com/q/1");
    assert_eq!(record.tags, vec!["rust".to_string(), "python".to_string()]);
    assert_eq!(record.answer_count, 4);
    assert!(!record.show_body);
    // The body holds the two paragraphs as separated plain-text lines.
    let lines: Vec<&str> = record.body.lines().collect();
    assert!(lines.contains(&"A"), "body {:?} should hold line A", record.body);
    assert!(lines.contains(&"B"), "body {:?} should hold line B", record.body);
    // The description joins up to three body lines with a period-space
    // separator.
    let expected: String = record
        .body
        .lines()
        .take(3)
        .collect::<Vec<&str>>()
        .join(". ");
    assert_eq!(record.description, expected);
}

#[test]
fn to_display_record_description_of_short_body() {
    let dto = QuestionDto {
        title: "t".to_string(),
        link: "l".to_string(),
        tags: Vec::new(),
        answer_count: 0,
        body: "<p>Only one</p>".to_string(),
    };
    let record = to_display_record(dto);
    let expected: String = record
        .body
        .lines()
        .take(3)
        .collect::<Vec<&str>>()
        .join(". ");
    assert_eq!(record.description, expected);
}

#[test]
fn from_html_renders_overly_nested_markup_as_empty() {
    // Each nested block narrows the rendering width; past the display width
    // the renderer reports an error and the converter renders empty text.
    let mut html = String::new();
    for _ in 0..64 {
        html.push_str("<blockquote>");
    }
    html.push_str("word");
    for _ in 0..64 {
        html.push_str("</blockquote>");
    }
    let text = from_html(&html);
    assert_eq!(text, "");
}
