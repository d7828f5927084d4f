use stack_browser::app::Question;
use stack_browser::app::StatefulList;
use stack_browser::app::UnansweredQuestionsView;
use stack_browser::stack::parse_envelope;
use stack_browser::stack::parse_page;
use stack_browser::stack::PipelineError;
use stack_browser::stack::StackOverflowClient;

const VALID_ENVELOPE: &str = r#"{
  "items": [
    {
      "title": "First",
      "link": "https://stackoverflow.com/q/1",
      "tags": ["rust", "tui"],
      "answer_count": 2,
      "body": "<p>A</p><p>B</p>"
    },
    {
      "title": "Second",
      "link": "https://stackoverflow.com/q/2",
      "tags": [],
      "answer_count": 0,
      "body": "<p>Hello</p>"
    }
  ],
  "has_more": true,
  "quota_max": 300,
  "quota_remaining": 283
}"#;

fn sample_question(title: &str) -> Question {
    Question {
        title: title.to_string(),
        link: "https://stackoverflow.com/q/0".to_string(),
        body: "body".to_string(),
        tags: vec!["rust".to_string()],
        answer_count: 0,
        description: "desc".to_string(),
        show_body: false,
    }
}

fn offline_view(records: usize) -> UnansweredQuestionsView {
    let mut items = Vec::new();
    for i in 0..records {
        items.push(sample_question(&format!("q{}", i)));
    }
    UnansweredQuestionsView {
        questions: StatefulList::with_items(items),
        question_page: 1,
        // Nothing listens here, so every fetch fails like a dead network.
        stack_overflow_client: StackOverflowClient::new("http://127.0.0.1:9/".to_string()),
    }
}

#[test]
fn parse_envelope_reads_items_and_metadata() {
    let dto = parse_envelope(VALID_ENVELOPE).expect("envelope should decode");
    assert_eq!(dto.items.len(), 2);
    assert_eq!(dto.items[0].title, "First");
    assert_eq!(dto.items[0].tags, vec!["rust".to_string(), "tui".to_string()]);
    assert_eq!(dto.items[0].answer_count, 2);
    assert_eq!(dto.items[1].title, "Second");
    assert!(dto.has_more);
    assert_eq!(dto.quota_max, 300);
    assert_eq!(dto.quota_remaining, 283);
}

#[test]
fn parse_page_converts_items() {
    let records = parse_page(VALID_ENVELOPE).expect("page should decode");
    assert_eq!(records.len(), 2);
    assert_eq!(records[0].title, "First");
    assert_eq!(records[0].link, "https://stackoverflow.com/q/1");
    assert!(!records[0].show_body);
    let lines: Vec<&str> = records[0].body.lines().collect();
    assert!(lines.contains(&"A"));
    assert!(lines.contains(&"B"));
    let expected: String = records[0]
        .body
        .lines()
        .take(3)
        .collect::<Vec<&str>>()
        .join(". ");
    assert_eq!(records[0].description, expected);
}

#[test]
fn parse_page_rejects_bad_json() {
    assert_eq!(parse_page("not json at all {").err(), Some(PipelineError::Parse));
}

#[test]
fn parse_page_rejects_missing_items() {
    assert_eq!(
        parse_page(r#"{"has_more": false, "quota_max": 1, "quota_remaining": 1}"#).err(),
        Some(PipelineError::Parse)
    );
}

#[test]
fn parse_page_rejects_missing_metadata() {
    // `has_more` is informational but still a required member of the envelope.
    assert_eq!(parse_page(r#"{"items": []}"#).err(), Some(PipelineError::Parse));
}

#[test]
fn parse_page_rejects_out_of_range_answer_count() {
    let content = r#"{
      "items": [
        {"title": "t", "link": "l", "tags": [], "answer_count": 5000000000, "body": "b"}
      ],
      "has_more": false,
      "quota_max": 1,
      "quota_remaining": 1
    }"#;
    assert_eq!(parse_page(content).err(), Some(PipelineError::Parse));
}

#[test]
fn parse_page_rejects_item_missing_field() {
    let content = r#"{
      "items": [ {"title": "t", "tags": [], "answer_count": 1, "body": "b"} ],
      "has_more": false,
      "quota_max": 1,
      "quota_remaining": 1
    }"#;
    assert_eq!(parse_page(content).err(), Some(PipelineError::Parse));
}

#[test]
fn parse_page_accepts_empty_item_list() {
    let content = r#"{"items": [], "has_more": false, "quota_max": 1, "quota_remaining": 1}"#;
    let records = parse_page(content).expect("empty page should decode");
    assert!(records.is_empty());
}

#[test]
fn refresh_failure_keeps_records() {
    let mut view = offline_view(3);
    view.questions.next();
    view.questions.next();
    assert_eq!(view.questions.selected, Some(1));
    let before: Vec<String> = view.questions.items.iter().map(|q| q.title.clone()).collect();
    let result = view.refresh_unanswered_questions();
    assert_eq!(result, Err(PipelineError::Fetch));
    // The prior records and selection are exactly as before the call.
    let after: Vec<String> = view.questions.items.iter().map(|q| q.title.clone()).collect();
    assert_eq!(before, after);
    assert_eq!(view.questions.selected, Some(1));
    assert_eq!(view.question_page, 1);
}

#[test]
fn previous_page_at_first_page_skips_fetch() {
    // The client points at a dead endpoint, so any fetch would surface as an
    // error; a clean no-op shows the fetch client was never invoked.
    let mut view = offline_view(2);
    let result = view.previous_question_page();
    assert_eq!(result, Ok(()));
    assert_eq!(view.question_page, 1);
    assert_eq!(view.questions.items.len(), 2);
}

#[test]
fn next_page_failure_keeps_records() {
    let mut view = offline_view(2);
    let result = view.next_question_page();
    assert_eq!(result, Err(PipelineError::Fetch));
    assert_eq!(view.question_page, 2);
    assert_eq!(view.questions.items.len(), 2);
}

#[test]
fn build_page_url_names_page_number() {
    let url = stack_browser::stack::build_page_url("https://api.stackexchange.com/", 42);
    assert_eq!(
        url,
        "https://api.stackexchange.com/2.3/questions/unanswered?order=desc&sort=activity&site=stackoverflow&filter=!6VCr095Ee9eW)AbNMHD5dNZ4Q&page=42"
    );
}

#[test]
fn build_page_url_single_digit_page() {
    let url = stack_browser::stack::build_page_url("http://x/", 7);
    assert!(url.ends_with("&page=7"));
    assert!(url.starts_with("http://x/"));
}

#[test]
fn build_page_url_three_digit_page() {
    let url = stack_browser::stack::build_page_url("http://x/", 255);
    assert!(url.ends_with("&page=255"));
}
