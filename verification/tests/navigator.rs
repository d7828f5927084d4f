use stack_browser::app::Question;
use stack_browser::app::StatefulList;

fn sample_question(title: &str) -> Question {
    Question {
        title: title.to_string(),
        link: format!("https://stackoverflow.com/q/{}", title),
        body: "body".to_string(),
        tags: vec!["rust".to_string()],
        answer_count: 0,
        description: "desc".to_string(),
        show_body: false,
    }
}

fn sample_list(n: usize) -> StatefulList<Question> {
    let mut items = Vec::new();
    for i in 0..n {
        items.push(sample_question(&format!("q{}", i)));
    }
    StatefulList::with_items(items)
}

#[test]
fn with_items_starts_unselected() {
    let list = sample_list(3);
    assert_eq!(list.selected, None);
    assert_eq!(list.items.len(), 3);
}

#[test]
fn select_next_cycles_back() {
    let mut list = sample_list(3);
    list.next();
    assert_eq!(list.selected, Some(0));
    // One step per item returns the selection to where it started.
    list.next();
    list.next();
    list.next();
    assert_eq!(list.selected, Some(0));
}

#[test]
fn select_previous_cycles_back() {
    let mut list = sample_list(3);
    list.next();
    assert_eq!(list.selected, Some(0));
    list.previous();
    assert_eq!(list.selected, Some(2));
    list.previous();
    list.previous();
    assert_eq!(list.selected, Some(0));
}

#[test]
fn select_next_wraps_at_end() {
    let mut list = sample_list(2);
    list.next();
    list.next();
    assert_eq!(list.selected, Some(1));
    list.next();
    assert_eq!(list.selected, Some(0));
}

#[test]
fn select_on_empty_list_is_noop() {
    let mut list: StatefulList<Question> = StatefulList::with_items(Vec::new());
    list.next();
    assert_eq!(list.selected, None);
    list.previous();
    assert_eq!(list.selected, None);
}
