use stack_browser::app::App;
use stack_browser::app::Command;
use stack_browser::app::CommandEffect;
use stack_browser::app::CurrentApp;
use stack_browser::app::StatefulList;

#[test]
fn default_state_is_list_view() {
    let app = App::default();
    assert!(app.running);
    assert_eq!(app.current_app, CurrentApp::UnansweredQuestionsView);
    assert_eq!(app.unanswered_questions_view.question_page, 1);
    assert_eq!(app.unanswered_questions_view.questions.items.len(), 3);
    assert_eq!(app.unanswered_questions_view.questions.selected, None);
    assert!(app.question_reader_view.question.is_none());
}

#[test]
fn quit_command_stops_the_app() {
    let mut app = App::default();
    let effect = app.handle_command(Command::Quit);
    assert_eq!(effect, Ok(CommandEffect::Nothing));
    assert!(!app.running);
}

#[test]
fn enter_detail_without_selection_is_noop() {
    let mut app = App::default();
    app.unanswered_questions_view.questions = StatefulList::with_items(Vec::new());
    let effect = app.handle_command(Command::EnterDetail);
    assert_eq!(effect, Ok(CommandEffect::Nothing));
    // The view mode stays on the list.
    assert_eq!(app.current_app, CurrentApp::UnansweredQuestionsView);
    assert!(app.question_reader_view.question.is_none());
}

#[test]
fn enter_and_exit_detail_keeps_navigator_state() {
    let mut app = App::default();
    // Three records; one cyclic pass returns the selection to record 0.
    app.handle_command(Command::SelectNext).unwrap();
    assert_eq!(app.unanswered_questions_view.questions.selected, Some(0));
    app.handle_command(Command::SelectNext).unwrap();
    app.handle_command(Command::SelectNext).unwrap();
    app.handle_command(Command::SelectNext).unwrap();
    assert_eq!(app.unanswered_questions_view.questions.selected, Some(0));

    let page_before = app.unanswered_questions_view.question_page;
    let titles_before: Vec<String> = app
        .unanswered_questions_view
        .questions
        .items
        .iter()
        .map(|q| q.title.clone())
        .collect();

    let effect = app.handle_command(Command::EnterDetail);
    assert_eq!(effect, Ok(CommandEffect::Nothing));
    assert_eq!(app.current_app, CurrentApp::QuestionDetailView);
    let loaded = app.question_reader_view.question.as_ref().expect("record loaded");
    assert_eq!(loaded.title, titles_before[0]);

    let effect = app.handle_command(Command::ExitDetail);
    assert_eq!(effect, Ok(CommandEffect::Nothing));
    assert_eq!(app.current_app, CurrentApp::UnansweredQuestionsView);
    // Navigator state is unchanged by the round trip.
    assert_eq!(app.unanswered_questions_view.question_page, page_before);
    let titles_after: Vec<String> = app
        .unanswered_questions_view
        .questions
        .items
        .iter()
        .map(|q| q.title.clone())
        .collect();
    assert_eq!(titles_after, titles_before);
    assert_eq!(app.unanswered_questions_view.questions.selected, Some(0));
}

#[test]
fn scroll_commands_saturate_at_top() {
    let mut app = App::default();
    app.handle_command(Command::SelectNext).unwrap();
    app.handle_command(Command::EnterDetail).unwrap();
    assert_eq!(app.question_reader_view.vertical_scroll_state, 0);
    app.handle_command(Command::ScrollDown).unwrap();
    app.handle_command(Command::ScrollDown).unwrap();
    assert_eq!(app.question_reader_view.vertical_scroll_state, 2);
    app.handle_command(Command::ScrollUp).unwrap();
    app.handle_command(Command::ScrollUp).unwrap();
    app.handle_command(Command::ScrollUp).unwrap();
    assert_eq!(app.question_reader_view.vertical_scroll_state, 0);
}

#[test]
fn entering_detail_resets_scroll() {
    let mut app = App::default();
    app.handle_command(Command::SelectNext).unwrap();
    app.handle_command(Command::EnterDetail).unwrap();
    app.handle_command(Command::ScrollDown).unwrap();
    assert_eq!(app.question_reader_view.vertical_scroll_state, 1);
    app.handle_command(Command::ExitDetail).unwrap();
    app.handle_command(Command::EnterDetail).unwrap();
    assert_eq!(app.question_reader_view.vertical_scroll_state, 0);
}

#[test]
fn toggle_body_flips_selected_record() {
    let mut app = App::default();
    app.handle_command(Command::SelectNext).unwrap();
    assert!(!app.unanswered_questions_view.questions.items[0].show_body);
    app.handle_command(Command::ToggleBody).unwrap();
    assert!(app.unanswered_questions_view.questions.items[0].show_body);
    app.handle_command(Command::ToggleBody).unwrap();
    assert!(!app.unanswered_questions_view.questions.items[0].show_body);
}

#[test]
fn toggle_body_without_selection_is_noop() {
    let mut app = App::default();
    app.handle_command(Command::ToggleBody).unwrap();
    assert!(app.unanswered_questions_view.questions.items.iter().all(|q| !q.show_body));
}

#[test]
fn open_link_names_selected_url() {
    let mut app = App::default();
    app.handle_command(Command::SelectNext).unwrap();
    let link = app.unanswered_questions_view.questions.items[0].link.clone();
    let effect = app.handle_command(Command::OpenLink);
    assert_eq!(effect, Ok(CommandEffect::OpenUrl(link)));
    assert_eq!(app.current_app, CurrentApp::UnansweredQuestionsView);
}

#[test]
fn open_link_without_selection_is_noop() {
    let mut app = App::default();
    let effect = app.handle_command(Command::OpenLink);
    assert_eq!(effect, Ok(CommandEffect::Nothing));
}

#[test]
fn open_link_in_detail_names_loaded_url() {
    let mut app = App::default();
    app.handle_command(Command::SelectNext).unwrap();
    app.handle_command(Command::EnterDetail).unwrap();
    let link = app.question_reader_view.question.as_ref().unwrap().link.clone();
    let effect = app.handle_command(Command::OpenLink);
    assert_eq!(effect, Ok(CommandEffect::OpenUrl(link)));
}

#[test]
fn reader_commands_are_noops_in_list_view() {
    let mut app = App::default();
    app.handle_command(Command::SelectNext).unwrap();
    let effect = app.handle_command(Command::ScrollDown);
    assert_eq!(effect, Ok(CommandEffect::Nothing));
    assert_eq!(app.question_reader_view.vertical_scroll_state, 0);
    let effect = app.handle_command(Command::ExitDetail);
    assert_eq!(effect, Ok(CommandEffect::Nothing));
    assert_eq!(app.current_app, CurrentApp::UnansweredQuestionsView);
}

#[test]
fn list_commands_are_noops_in_detail_view() {
    let mut app = App::default();
    app.handle_command(Command::SelectNext).unwrap();
    app.handle_command(Command::EnterDetail).unwrap();
    let effect = app.handle_command(Command::SelectNext);
    assert_eq!(effect, Ok(CommandEffect::Nothing));
    assert_eq!(app.unanswered_questions_view.questions.selected, Some(0));
    let effect = app.handle_command(Command::NextPage);
    assert_eq!(effect, Ok(CommandEffect::Nothing));
    assert_eq!(app.unanswered_questions_view.question_page, 1);
    assert_eq!(app.current_app, CurrentApp::QuestionDetailView);
}
