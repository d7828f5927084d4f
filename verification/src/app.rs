use vstd::prelude::*;

verus! {

use crate::html::description_of;
use crate::html::rendered_of;

/// A display-ready record for one remote question.
#[derive(Debug, Clone)]
pub struct Question {
    pub title: String,
    pub link: String,
    pub body: String,
    pub tags: Vec<String>,
    pub answer_count: u32,
    pub description: String,
    pub show_body: bool,
}

/// A record as the converter produces it: the body is a rendering of some
/// markup, the description derives from the body, and the body starts hidden.
pub open spec fn is_display_record(q: Question) -> bool {
    &&& q.show_body == false
    &&& q.description@ == description_of(q.body@)
    &&& exists|raw: Seq<char>| q.body@ == #[trigger] rendered_of(raw)
}

/// Model for a scrollable list: an ordered sequence of items plus an optional
/// selection, which is a valid index whenever it is set.
#[derive(Debug)]
pub struct StatefulList<T> {
    pub items: Vec<T>,
    pub selected: Option<usize>,
}

/// Selection after one cyclic step forward over `len` items: wraps from the
/// last item to the first and is a no-op on an empty list.
pub open spec fn spec_next_selection(sel: Option<usize>, len: nat) -> Option<usize> {
    if len == 0 {
        sel
    } else {
        match sel {
            None => Some(0usize),
            Some(i) => if i + 1 >= len {
                Some(0usize)
            } else {
                Some((i + 1) as usize)
            },
        }
    }
}

/// Selection after one cyclic step backward over `len` items: wraps from the
/// first item to the last and is a no-op on an empty list.
pub open spec fn spec_previous_selection(sel: Option<usize>, len: nat) -> Option<usize> {
    if len == 0 {
        sel
    } else {
        match sel {
            None => Some(0usize),
            Some(i) => if i == 0 {
                Some((len - 1) as usize)
            } else {
                Some((i - 1) as usize)
            },
        }
    }
}

/// `k` cyclic steps forward from `sel`.
pub open spec fn repeat_next(sel: Option<usize>, len: nat, k: nat) -> Option<usize>
    decreases k,
{
    if k == 0 {
        sel
    } else {
        spec_next_selection(repeat_next(sel, len, (k - 1) as nat), len)
    }
}

/// `k` cyclic steps backward from `sel`.
pub open spec fn repeat_previous(sel: Option<usize>, len: nat, k: nat) -> Option<usize>
    decreases k,
{
    if k == 0 {
        sel
    } else {
        spec_previous_selection(repeat_previous(sel, len, (k - 1) as nat), len)
    }
}

proof fn lemma_repeat_next_offset(i: usize, len: nat, k: nat)
    requires
        i < len,
        k <= len,
        len <= usize::MAX,
    ensures
        repeat_next(Some(i), len, k) == Some(
            if i + k < len {
                (i + k) as usize
            } else {
                (i + k - len) as usize
            },
        ),
    decreases k,
{
    if k > 0 {
        lemma_repeat_next_offset(i, len, (k - 1) as nat);
    }
}

proof fn lemma_repeat_previous_offset(i: usize, len: nat, k: nat)
    requires
        i < len,
        k <= len,
        len <= usize::MAX,
    ensures
        repeat_previous(Some(i), len, k) == Some(
            if i >= k {
                (i - k) as usize
            } else {
                (i + len - k) as usize
            },
        ),
    decreases k,
{
    if k > 0 {
        lemma_repeat_previous_offset(i, len, (k - 1) as nat);
    }
}

/// Cyclic law: over a non-empty list, stepping the selection forward once per
/// item returns it to its starting value.
pub proof fn lemma_select_next_cycle(i: usize, len: nat)
    requires
        len > 0,
        i < len,
        len <= usize::MAX,
    ensures
        repeat_next(Some(i), len, len) == Some(i),
{
    lemma_repeat_next_offset(i, len, len);
}

/// Cyclic law: over a non-empty list, stepping the selection backward once per
/// item returns it to its starting value.
pub proof fn lemma_select_previous_cycle(i: usize, len: nat)
    requires
        len > 0,
        i < len,
        len <= usize::MAX,
    ensures
        repeat_previous(Some(i), len, len) == Some(i),
{
    lemma_repeat_previous_offset(i, len, len);
}

impl<T> StatefulList<T> {
    /// The selection, when set, is a valid index.
    pub open spec fn wf(self) -> bool {
        self.selected is Some ==> self.selected.unwrap() < self.items.len()
    }

    pub fn with_items(items: Vec<T>) -> (l: StatefulList<T>)
        ensures
            l.items == items,
            l.selected is None,
            l.wf(),
    {
        StatefulList { items, selected: None }
    }

    /// Cyclic step to the next item; selects the first item when nothing is
    /// selected yet; no-op on an empty list.
    pub fn next(&mut self)
        requires
            old(self).wf(),
        ensures
            final(self).wf(),
            final(self).items == old(self).items,
            final(self).selected == spec_next_selection(
                old(self).selected,
                old(self).items.len() as nat,
            ),
    {
        if self.items.len() == 0 {
            return ;
        }
        let i = match self.selected {
            Some(i) => {
                if i >= self.items.len() - 1 {
                    0
                } else {
                    i + 1
                }
            },
            None => 0,
        };
        self.selected = Some(i);
    }

    /// Cyclic step to the previous item; selects the first item when nothing
    /// is selected yet; no-op on an empty list.
    pub fn previous(&mut self)
        requires
            old(self).wf(),
        ensures
            final(self).wf(),
            final(self).items == old(self).items,
            final(self).selected == spec_previous_selection(
                old(self).selected,
                old(self).items.len() as nat,
            ),
    {
        if self.items.len() == 0 {
            return ;
        }
        let i = match self.selected {
            Some(i) => {
                if i == 0 {
                    self.items.len() - 1
                } else {
                    i - 1
                }
            },
            None => 0,
        };
        self.selected = Some(i);
    }
}

} // verus!

verus! {

use crate::stack::PipelineError;
use crate::stack::StackOverflowClient;
use crate::stack::page_url;
use crate::stack::records_match;
use crate::stack::spec_page_envelope;

/// The two top-level screens.
#[derive(Debug, Clone, Copy, PartialEq, Eq, Structural)]
pub enum CurrentApp {
    UnansweredQuestionsView,
    QuestionDetailView,
}

/// The records are equal field by field (the tag lists compared element-wise).
pub open spec fn same_question(a: Question, b: Question) -> bool {
    &&& a.title == b.title
    &&& a.link == b.link
    &&& a.body == b.body
    &&& a.tags@ == b.tags@
    &&& a.answer_count == b.answer_count
    &&& a.description == b.description
    &&& a.show_body == b.show_body
}

/// The same record with the body shown or hidden.
pub open spec fn with_show_body(q: Question, b: bool) -> Question {
    Question {
        title: q.title,
        link: q.link,
        body: q.body,
        tags: q.tags,
        answer_count: q.answer_count,
        description: q.description,
        show_body: b,
    }
}

/// A field-by-field copy whose contents provably match the original.
pub fn clone_question(q: &Question) -> (r: Question)
    ensures
        same_question(*q, r),
{
    let mut tags: Vec<String> = Vec::new();
    let mut i: usize = 0;
    while i < q.tags.len()
        invariant
            i <= q.tags.len(),
            tags@.len() == i,
            forall|j: int| 0 <= j < i ==> tags@[j] == q.tags@[j],
        decreases q.tags.len() - i,
    {
        tags.push(q.tags[i].clone());
        i = i + 1;
    }
    proof {
        assert(tags@ =~= q.tags@);
    }
    Question {
        title: q.title.clone(),
        link: q.link.clone(),
        body: q.body.clone(),
        tags,
        answer_count: q.answer_count,
        description: q.description.clone(),
        show_body: q.show_body,
    }
}

/// Selection after the records are replaced: kept when still valid, clamped to
/// the last record when past the end, unset when the new list is empty.
pub open spec fn clamped_selection(sel: Option<usize>, new_len: nat) -> Option<usize> {
    if new_len == 0 {
        None
    } else {
        match sel {
            None => None,
            Some(i) => if i < new_len {
                Some(i)
            } else {
                Some((new_len - 1) as usize)
            },
        }
    }
}

/// The fetched page stands: the raw response for the view's current page is
/// resident in the client's cache, it decodes as the envelope, and the
/// records are its items mapped through the converter, in order.
pub open spec fn holds_fetched_page(v: UnansweredQuestionsView) -> bool {
    let url = page_url(v.stack_overflow_client.base_url@, v.question_page);
    &&& v.stack_overflow_client.cache@.contains_key(url)
    &&& (spec_page_envelope(v.stack_overflow_client.cache@[url].0) matches Some(m)
        && records_match(v.questions.items@, m.items))
}

/// Everything a successful refresh guarantees: the fetched page's records are
/// in place, each one display-ready, and the selection is clamped into the
/// new list.
pub open spec fn refresh_outcome(old_sel: Option<usize>, v: UnansweredQuestionsView) -> bool {
    &&& v.questions.selected == clamped_selection(old_sel, v.questions.items@.len() as nat)
    &&& (forall|i: int|
        0 <= i < v.questions.items@.len() ==> is_display_record(#[trigger] v.questions.items@[i]))
    &&& holds_fetched_page(v)
}

/// The list screen: the fetched records, the current page, and the client
/// that (re)fetches pages through its response cache.
pub struct UnansweredQuestionsView {
    pub questions: StatefulList<Question>,
    pub question_page: u8,
    pub stack_overflow_client: StackOverflowClient,
}

impl UnansweredQuestionsView {
    pub open spec fn wf(self) -> bool {
        &&& self.questions.wf()
        &&& self.stack_overflow_client.wf()
        &&& self.question_page >= 1
    }

    /// Replaces the records with the freshly fetched current page, clamping
    /// the selection into the new list; a pipeline failure leaves records and
    /// selection exactly as they were and is surfaced to the caller.
    pub fn refresh_unanswered_questions(&mut self) -> (r: Result<(), PipelineError>)
        requires
            old(self).wf(),
        ensures
            final(self).wf(),
            final(self).question_page == old(self).question_page,
            r is Err ==> final(self).questions == old(self).questions,
            r is Ok ==> refresh_outcome(old(self).questions.selected, *final(self)),
    {
        match self.stack_overflow_client.get_unanswered_questions(self.question_page) {
            Ok(qs) => {
                let new_sel: Option<usize> = if qs.len() == 0 {
                    None
                } else {
                    match self.questions.selected {
                        None => None,
                        Some(i) => if i < qs.len() {
                            Some(i)
                        } else {
                            Some(qs.len() - 1)
                        },
                    }
                };
                self.questions = StatefulList { items: qs, selected: new_sel };
                Ok(())
            },
            Err(e) => Err(e),
        }
    }

    /// Advances to the next page and refetches it.
    pub fn next_question_page(&mut self) -> (r: Result<(), PipelineError>)
        requires
            old(self).wf(),
            old(self).question_page < u8::MAX,
        ensures
            final(self).wf(),
            final(self).question_page == old(self).question_page + 1,
            r is Err ==> final(self).questions == old(self).questions,
            r is Ok ==> refresh_outcome(old(self).questions.selected, *final(self)),
    {
        self.question_page = self.question_page + 1;
        self.refresh_unanswered_questions()
    }

    /// Goes back one page and refetches it; on the first page this is a
    /// complete no-op: the page stays, and no fetch is attempted.
    pub fn previous_question_page(&mut self) -> (r: Result<(), PipelineError>)
        requires
            old(self).wf(),
        ensures
            final(self).wf(),
            old(self).question_page == 1 ==> *final(self) == *old(self) && r is Ok,
            old(self).question_page > 1 ==> final(self).question_page == old(self).question_page
                - 1 && (r is Err ==> final(self).questions == old(self).questions),
            old(self).question_page > 1 && r is Ok ==> refresh_outcome(
                old(self).questions.selected,
                *final(self),
            ),
    {
        if self.question_page > 1 {
            self.question_page = self.question_page - 1;
            self.refresh_unanswered_questions()
        } else {
            Ok(())
        }
    }

    /// Cyclic step to the next record.
    pub fn next_unanswered_question(&mut self)
        requires
            old(self).wf(),
        ensures
            final(self).wf(),
            final(self).question_page == old(self).question_page,
            final(self).stack_overflow_client == old(self).stack_overflow_client,
            final(self).questions.items == old(self).questions.items,
            final(self).questions.selected == spec_next_selection(
                old(self).questions.selected,
                old(self).questions.items@.len() as nat,
            ),
    {
        self.questions.next();
    }

    /// Cyclic step to the previous record.
    pub fn previous_unanswered_question(&mut self)
        requires
            old(self).wf(),
        ensures
            final(self).wf(),
            final(self).question_page == old(self).question_page,
            final(self).stack_overflow_client == old(self).stack_overflow_client,
            final(self).questions.items == old(self).questions.items,
            final(self).questions.selected == spec_previous_selection(
                old(self).questions.selected,
                old(self).questions.items@.len() as nat,
            ),
    {
        self.questions.previous();
    }

    /// A copy of the selected record.
    pub fn get_selected_question(&self) -> (q: Question)
        requires
            self.wf(),
            self.questions.selected is Some,
        ensures
            same_question(q, self.questions.items@[self.questions.selected.unwrap() as int]),
    {
        let i = match self.questions.selected {
            Some(i) => i,
            None => 0,
        };
        clone_question(&self.questions.items[i])
    }

    /// A copy of the selected record, if any record is selected.
    pub fn selected_record(&self) -> (r: Option<Question>)
        requires
            self.wf(),
        ensures
            r is Some <==> self.questions.selected is Some,
            r matches Some(q) ==> same_question(
                q,
                self.questions.items@[self.questions.selected.unwrap() as int],
            ),
    {
        match self.questions.selected {
            Some(i) => Some(clone_question(&self.questions.items[i])),
            None => None,
        }
    }

    /// Flips whether the selected record shows its full body; a no-op when
    /// nothing is selected.
    pub fn toggle_selected_body(&mut self)
        requires
            old(self).wf(),
        ensures
            final(self).wf(),
            final(self).question_page == old(self).question_page,
            final(self).stack_overflow_client == old(self).stack_overflow_client,
            final(self).questions.selected == old(self).questions.selected,
            old(self).questions.selected is None ==> final(self).questions == old(self).questions,
            old(self).questions.selected matches Some(i) ==> final(self).questions.items@ =~= old(
                self,
            ).questions.items@.update(
                i as int,
                with_show_body(
                    old(self).questions.items@[i as int],
                    !old(self).questions.items@[i as int].show_body,
                ),
            ),
    {
        let i = match self.questions.selected {
            Some(i) => i,
            None => return ,
        };
        let mut q = self.questions.items.remove(i);
        q.show_body = !q.show_body;
        self.questions.items.insert(i, q);
        proof {
            assert(final(self).questions.items@ =~= old(self).questions.items@.update(
                i as int,
                with_show_body(
                    old(self).questions.items@[i as int],
                    !old(self).questions.items@[i as int].show_body,
                ),
            ));
        }
    }
}

/// The detail screen: at most one record, a scroll offset, and the view to
/// return to.
pub struct QuestionReaderView {
    pub question: Option<Question>,
    pub vertical_scroll_state: u16,
    pub parent: CurrentApp,
}

impl QuestionReaderView {
    /// Loads a record into the reader, resets the scroll to the top, and
    /// remembers the view to return to.
    pub fn set_question(&mut self, question: Question, parent: CurrentApp)
        ensures
            final(self).question == Some(question),
            final(self).vertical_scroll_state == 0u16,
            final(self).parent == parent,
    {
        self.parent = parent;
        self.question = Some(question);
        self.vertical_scroll_state = 0;
    }

    /// The view to return to when this reader closes.
    pub fn get_parent(&self) -> (p: CurrentApp)
        ensures
            p == self.parent,
    {
        self.parent
    }

    /// Scrolls down one line, saturating at the top of the numeric range.
    pub fn next_line(&mut self)
        ensures
            final(self).question == old(self).question,
            final(self).parent == old(self).parent,
            final(self).vertical_scroll_state == if old(self).vertical_scroll_state == u16::MAX {
                u16::MAX
            } else {
                (old(self).vertical_scroll_state + 1) as u16
            },
    {
        if self.vertical_scroll_state < u16::MAX {
            self.vertical_scroll_state = self.vertical_scroll_state + 1;
        }
    }

    /// Scrolls up one line, saturating at zero.
    pub fn previous_line(&mut self)
        ensures
            final(self).question == old(self).question,
            final(self).parent == old(self).parent,
            final(self).vertical_scroll_state == if old(self).vertical_scroll_state == 0u16 {
                0u16
            } else {
                (old(self).vertical_scroll_state - 1) as u16
            },
    {
        if self.vertical_scroll_state > 0 {
            self.vertical_scroll_state = self.vertical_scroll_state - 1;
        }
    }
}

} // verus!

verus! {

/// The abstract command set the coordinator accepts; raw input is mapped to
/// these outside the core.
#[derive(Debug, Clone, Copy, PartialEq, Eq, Structural)]
pub enum Command {
    SelectNext,
    SelectPrevious,
    NextPage,
    PreviousPage,
    Refresh,
    ToggleBody,
    EnterDetail,
    ExitDetail,
    ScrollUp,
    ScrollDown,
    OpenLink,
    Quit,
}

/// What the caller must still do after a command: nothing, or open a link in
/// the external browser (the one capability the core cannot perform itself).
#[derive(Debug, Clone, PartialEq, Eq)]
pub enum CommandEffect {
    Nothing,
    OpenUrl(String),
}

/// The application: the two screens, the mode switch between them, and the
/// running flag.
pub struct App {
    /// Is the application running?
    pub running: bool,
    pub unanswered_questions_view: UnansweredQuestionsView,
    pub question_reader_view: QuestionReaderView,
    pub current_app: CurrentApp,
}

impl App {
    /// The list screen is well formed, and in detail mode a record is loaded.
    pub open spec fn wf(self) -> bool {
        &&& self.unanswered_questions_view.wf()
        &&& (self.current_app == CurrentApp::QuestionDetailView
            ==> self.question_reader_view.question is Some)
    }
}

impl Default for App {
    /// The initial state: running, on page one of the list view with three
    /// placeholder records, nothing selected, and an empty reader.
    fn default() -> (a: Self)
        ensures
            a.wf(),
            a.running,
            a.current_app == CurrentApp::UnansweredQuestionsView,
            a.unanswered_questions_view.question_page == 1,
            a.unanswered_questions_view.questions.selected is None,
            a.unanswered_questions_view.questions.items@.len() == 3,
            forall|i: int|
                0 <= i < a.unanswered_questions_view.questions.items@.len() ==> (
                #[trigger] a.unanswered_questions_view.questions.items@[i]).show_body == false,
            a.question_reader_view.question is None,
            a.question_reader_view.vertical_scroll_state == 0u16,
            a.question_reader_view.parent == CurrentApp::UnansweredQuestionsView,
    {
        let placeholders = vec![
            Question {
                title: "How to do X?".to_owned(),
                link: "https://stackoverflow.com/questions/12345".to_owned(),
                tags: vec!["rust".to_owned(), "python".to_owned()],
                body: crate::html::from_html(
                    "<p>The problem is how to open and close the details and summary tag according to array index in svelte js. I want that details will be closed when clicked on another details element.</p>\n<p>I tried binding open attribute of details element but it will toggle all the details elements which are created with each loop in svelte. I am expecting it will open and close according to its array index.</p>\n",
                ),
                answer_count: 1,
                description: "This is a description".to_owned(),
                show_body: false,
            },
            Question {
                title: "How to do Y?".to_owned(),
                link: "https://stackoverflow.com/questions/12345".to_owned(),
                tags: vec!["rust".to_owned(), "python".to_owned()],
                body: "<p>I have those two datasets:</p>\n<ol>\n<li>about 800 values from past three days with timestamps during those days</li>\n<li>3 values from past three days with timestamp at midnight</li>\n</ol>\n".to_owned(),
                answer_count: 0,
                description: "This is a description".to_owned(),
                show_body: false,
            },
            Question {
                title: "How to do Z?".to_owned(),
                link: "https://stackoverflow.com/questions/12345".to_owned(),
                tags: vec!["rust".to_owned(), "python".to_owned()],
                body: "This is a description".to_owned(),
                answer_count: 0,
                description: "This is a description".to_owned(),
                show_body: false,
            },
        ];
        App {
            running: true,
            unanswered_questions_view: UnansweredQuestionsView {
                questions: StatefulList::with_items(placeholders),
                question_page: 1,
                stack_overflow_client: StackOverflowClient::default(),
            },
            question_reader_view: QuestionReaderView {
                question: None,
                vertical_scroll_state: 0,
                parent: CurrentApp::UnansweredQuestionsView,
            },
            current_app: CurrentApp::UnansweredQuestionsView,
        }
    }
}

impl App {
    /// Constructs the app and attempts a first refresh; when that first fetch
    /// fails the placeholder records are kept.
    pub fn new() -> (a: App)
        ensures
            a.wf(),
            a.running,
            a.current_app == CurrentApp::UnansweredQuestionsView,
    {
        let mut a = App::default();
        let _ = a.unanswered_questions_view.refresh_unanswered_questions();
        a
    }

    /// Handles the tick event of the terminal.
    pub fn tick(&self) {
    }

    /// Stops the application.
    pub fn quit(&mut self)
        ensures
            final(self).running == false,
            final(self).unanswered_questions_view == old(self).unanswered_questions_view,
            final(self).question_reader_view == old(self).question_reader_view,
            final(self).current_app == old(self).current_app,
    {
        self.running = false;
    }
}

} // verus!

verus! {

/// The command completed with nothing left for the caller to do.
pub open spec fn ok_nothing(r: Result<CommandEffect, PipelineError>) -> bool {
    r matches Ok(e) && e == CommandEffect::Nothing
}

impl App {
    /// Routes one command to the active screen. List commands act only in the
    /// list view and reader commands only in the detail view; anything else is
    /// a no-op. Entering the detail view copies the selected record, and is a
    /// no-op when nothing is selected. The result surfaces a pipeline failure,
    /// or names the link the caller should open externally.
    pub fn handle_command(&mut self, cmd: Command) -> (r: Result<CommandEffect, PipelineError>)
        requires
            old(self).wf(),
        ensures
            final(self).wf(),
            r is Err ==> (cmd == Command::Refresh || cmd == Command::NextPage || cmd
                == Command::PreviousPage),
            cmd == Command::Quit ==> final(self).running == false && final(self).current_app == old(
                self,
            ).current_app && final(self).unanswered_questions_view == old(
                self,
            ).unanswered_questions_view && final(self).question_reader_view == old(
                self,
            ).question_reader_view && ok_nothing(r),
            old(self).current_app == CurrentApp::UnansweredQuestionsView && (cmd
                == Command::ScrollUp || cmd == Command::ScrollDown || cmd == Command::ExitDetail)
                ==> *final(self) == *old(self) && ok_nothing(r),
            old(self).current_app == CurrentApp::QuestionDetailView && (cmd == Command::SelectNext
                || cmd == Command::SelectPrevious || cmd == Command::NextPage || cmd
                == Command::PreviousPage || cmd == Command::Refresh || cmd == Command::ToggleBody
                || cmd == Command::EnterDetail) ==> *final(self) == *old(self) && ok_nothing(r),
            old(self).current_app == CurrentApp::UnansweredQuestionsView && (cmd
                == Command::SelectNext || cmd == Command::SelectPrevious) ==> ok_nothing(r)
                && final(self).running == old(self).running && final(self).current_app == old(
                self,
            ).current_app && final(self).question_reader_view == old(self).question_reader_view
                && final(self).unanswered_questions_view.question_page == old(
                self,
            ).unanswered_questions_view.question_page
                && final(self).unanswered_questions_view.stack_overflow_client == old(
                self,
            ).unanswered_questions_view.stack_overflow_client
                && final(self).unanswered_questions_view.questions.items == old(
                self,
            ).unanswered_questions_view.questions.items,
            old(self).current_app == CurrentApp::UnansweredQuestionsView && cmd
                == Command::SelectNext ==> final(self).unanswered_questions_view.questions.selected
                == spec_next_selection(
                old(self).unanswered_questions_view.questions.selected,
                old(self).unanswered_questions_view.questions.items@.len() as nat,
            ),
            old(self).current_app == CurrentApp::UnansweredQuestionsView && cmd
                == Command::SelectPrevious
                ==> final(self).unanswered_questions_view.questions.selected
                == spec_previous_selection(
                old(self).unanswered_questions_view.questions.selected,
                old(self).unanswered_questions_view.questions.items@.len() as nat,
            ),
            old(self).current_app == CurrentApp::UnansweredQuestionsView && (cmd == Command::Refresh
                || cmd == Command::NextPage || cmd == Command::PreviousPage) ==> final(self).running == old(self).running && final(self).current_app == old(self).current_app
                && final(self).question_reader_view == old(self).question_reader_view && (
            r is Err ==> final(self).unanswered_questions_view.questions == old(
                self,
            ).unanswered_questions_view.questions
                && final(self).unanswered_questions_view.question_page == (if cmd
                == Command::NextPage && old(self).unanswered_questions_view.question_page
                < u8::MAX {
                (old(self).unanswered_questions_view.question_page + 1) as u8
            } else if cmd == Command::PreviousPage && old(
                self,
            ).unanswered_questions_view.question_page > 1 {
                (old(self).unanswered_questions_view.question_page - 1) as u8
            } else {
                old(self).unanswered_questions_view.question_page
            })),
            old(self).current_app == CurrentApp::UnansweredQuestionsView && cmd == Command::Refresh
                ==> final(self).unanswered_questions_view.question_page == old(
                self,
            ).unanswered_questions_view.question_page,
            old(self).current_app == CurrentApp::UnansweredQuestionsView && cmd == Command::Refresh
                && r is Ok ==> refresh_outcome(
                old(self).unanswered_questions_view.questions.selected,
                final(self).unanswered_questions_view,
            ),
            old(self).current_app == CurrentApp::UnansweredQuestionsView && cmd == Command::NextPage
                && old(self).unanswered_questions_view.question_page < u8::MAX && r is Ok
                ==> refresh_outcome(
                old(self).unanswered_questions_view.questions.selected,
                final(self).unanswered_questions_view,
            ),
            old(self).current_app == CurrentApp::UnansweredQuestionsView && cmd
                == Command::PreviousPage && old(self).unanswered_questions_view.question_page > 1
                && r is Ok ==> refresh_outcome(
                old(self).unanswered_questions_view.questions.selected,
                final(self).unanswered_questions_view,
            ),
            old(self).current_app == CurrentApp::UnansweredQuestionsView && cmd == Command::NextPage
                && old(self).unanswered_questions_view.question_page == u8::MAX ==> *final(self)
                == *old(self) && ok_nothing(r),
            old(self).current_app == CurrentApp::UnansweredQuestionsView && cmd == Command::NextPage
                && old(self).unanswered_questions_view.question_page < u8::MAX ==> final(self).unanswered_questions_view.question_page == old(
                self,
            ).unanswered_questions_view.question_page + 1,
            old(self).current_app == CurrentApp::UnansweredQuestionsView && cmd
                == Command::PreviousPage && old(self).unanswered_questions_view.question_page == 1
                ==> *final(self) == *old(self) && ok_nothing(r),
            old(self).current_app == CurrentApp::UnansweredQuestionsView && cmd
                == Command::PreviousPage && old(self).unanswered_questions_view.question_page > 1
                ==> final(self).unanswered_questions_view.question_page == old(
                self,
            ).unanswered_questions_view.question_page - 1,
            old(self).current_app == CurrentApp::UnansweredQuestionsView && cmd
                == Command::ToggleBody ==> ok_nothing(r) && final(self).running == old(self).running
                && final(self).current_app == old(self).current_app && final(self).question_reader_view == old(self).question_reader_view && final(self).unanswered_questions_view.question_page == old(
                self,
            ).unanswered_questions_view.question_page
                && final(self).unanswered_questions_view.questions.selected == old(
                self,
            ).unanswered_questions_view.questions.selected && (old(
                self,
            ).unanswered_questions_view.questions.selected is None ==> final(self).unanswered_questions_view.questions == old(self).unanswered_questions_view.questions)
                && (old(self).unanswered_questions_view.questions.selected matches Some(i) ==> final(self).unanswered_questions_view.questions.items@ =~= old(
                self,
            ).unanswered_questions_view.questions.items@.update(
                i as int,
                with_show_body(
                    old(self).unanswered_questions_view.questions.items@[i as int],
                    !old(self).unanswered_questions_view.questions.items@[i as int].show_body,
                ),
            )),
            old(self).current_app == CurrentApp::UnansweredQuestionsView && cmd
                == Command::EnterDetail && old(self).unanswered_questions_view.questions.selected
                is None ==> *final(self) == *old(self) && ok_nothing(r),
            old(self).current_app == CurrentApp::UnansweredQuestionsView && cmd
                == Command::EnterDetail && old(self).unanswered_questions_view.questions.selected
                is Some ==> ok_nothing(r) && final(self).running == old(self).running
                && final(self).current_app == CurrentApp::QuestionDetailView && final(self).unanswered_questions_view == old(self).unanswered_questions_view && final(self).question_reader_view.vertical_scroll_state == 0u16 && final(self).question_reader_view.parent == CurrentApp::UnansweredQuestionsView && (final(self).question_reader_view.question matches Some(q) && same_question(
                q,
                old(self).unanswered_questions_view.questions.items@[old(
                    self,
                ).unanswered_questions_view.questions.selected.unwrap() as int],
            )),
            old(self).current_app == CurrentApp::QuestionDetailView && cmd == Command::ExitDetail
                ==> ok_nothing(r) && final(self).running == old(self).running && final(self).current_app == old(self).question_reader_view.parent && final(self).unanswered_questions_view == old(self).unanswered_questions_view && final(self).question_reader_view == old(self).question_reader_view,
            old(self).current_app == CurrentApp::QuestionDetailView && (cmd == Command::ScrollDown
                || cmd == Command::ScrollUp) ==> ok_nothing(r) && final(self).running == old(
                self,
            ).running && final(self).current_app == old(self).current_app && final(self).unanswered_questions_view == old(self).unanswered_questions_view && final(self).question_reader_view.question == old(self).question_reader_view.question && final(self).question_reader_view.parent == old(self).question_reader_view.parent,
            old(self).current_app == CurrentApp::QuestionDetailView && cmd == Command::ScrollDown
                ==> final(self).question_reader_view.vertical_scroll_state == (if old(
                self,
            ).question_reader_view.vertical_scroll_state == u16::MAX {
                u16::MAX
            } else {
                (old(self).question_reader_view.vertical_scroll_state + 1) as u16
            }),
            old(self).current_app == CurrentApp::QuestionDetailView && cmd == Command::ScrollUp
                ==> final(self).question_reader_view.vertical_scroll_state == (if old(
                self,
            ).question_reader_view.vertical_scroll_state == 0u16 {
                0u16
            } else {
                (old(self).question_reader_view.vertical_scroll_state - 1) as u16
            }),
            cmd == Command::OpenLink ==> *final(self) == *old(self),
            old(self).current_app == CurrentApp::UnansweredQuestionsView && cmd == Command::OpenLink
                && old(self).unanswered_questions_view.questions.selected is None ==> ok_nothing(r),
            old(self).current_app == CurrentApp::UnansweredQuestionsView && cmd
                == Command::OpenLink && old(self).unanswered_questions_view.questions.selected
                is Some ==> (
            r matches Ok(e) && e matches CommandEffect::OpenUrl(u) && u == old(
                self,
            ).unanswered_questions_view.questions.items@[old(
                self,
            ).unanswered_questions_view.questions.selected.unwrap() as int].link),
            old(self).current_app == CurrentApp::QuestionDetailView && cmd == Command::OpenLink ==> (
            r matches Ok(e) && e matches CommandEffect::OpenUrl(u) && u == old(
                self,
            ).question_reader_view.question.unwrap().link),
    {
        match cmd {
            Command::Quit => {
                self.quit();
                Ok(CommandEffect::Nothing)
            },
            Command::SelectNext => {
                if self.current_app == CurrentApp::UnansweredQuestionsView {
                    self.unanswered_questions_view.next_unanswered_question();
                }
                Ok(CommandEffect::Nothing)
            },
            Command::SelectPrevious => {
                if self.current_app == CurrentApp::UnansweredQuestionsView {
                    self.unanswered_questions_view.previous_unanswered_question();
                }
                Ok(CommandEffect::Nothing)
            },
            Command::Refresh => {
                if self.current_app == CurrentApp::UnansweredQuestionsView {
                    match self.unanswered_questions_view.refresh_unanswered_questions() {
                        Ok(_) => Ok(CommandEffect::Nothing),
                        Err(e) => Err(e),
                    }
                } else {
                    Ok(CommandEffect::Nothing)
                }
            },
            Command::NextPage => {
                if self.current_app == CurrentApp::UnansweredQuestionsView
                    && self.unanswered_questions_view.question_page < u8::MAX {
                    match self.unanswered_questions_view.next_question_page() {
                        Ok(_) => Ok(CommandEffect::Nothing),
                        Err(e) => Err(e),
                    }
                } else {
                    Ok(CommandEffect::Nothing)
                }
            },
            Command::PreviousPage => {
                if self.current_app == CurrentApp::UnansweredQuestionsView {
                    match self.unanswered_questions_view.previous_question_page() {
                        Ok(_) => Ok(CommandEffect::Nothing),
                        Err(e) => Err(e),
                    }
                } else {
                    Ok(CommandEffect::Nothing)
                }
            },
            Command::ToggleBody => {
                if self.current_app == CurrentApp::UnansweredQuestionsView {
                    self.unanswered_questions_view.toggle_selected_body();
                }
                Ok(CommandEffect::Nothing)
            },
            Command::EnterDetail => {
                if self.current_app == CurrentApp::UnansweredQuestionsView {
                    match self.unanswered_questions_view.selected_record() {
                        Some(q) => {
                            self.question_reader_view.set_question(q, self.current_app);
                            self.current_app = CurrentApp::QuestionDetailView;
                        },
                        None => {},
                    }
                }
                Ok(CommandEffect::Nothing)
            },
            Command::ExitDetail => {
                if self.current_app == CurrentApp::QuestionDetailView {
                    self.current_app = self.question_reader_view.get_parent();
                }
                Ok(CommandEffect::Nothing)
            },
            Command::ScrollDown => {
                if self.current_app == CurrentApp::QuestionDetailView {
                    self.question_reader_view.next_line();
                }
                Ok(CommandEffect::Nothing)
            },
            Command::ScrollUp => {
                if self.current_app == CurrentApp::QuestionDetailView {
                    self.question_reader_view.previous_line();
                }
                Ok(CommandEffect::Nothing)
            },
            Command::OpenLink => {
                if self.current_app == CurrentApp::UnansweredQuestionsView {
                    match self.unanswered_questions_view.selected_record() {
                        Some(q) => Ok(CommandEffect::OpenUrl(q.link)),
                        None => Ok(CommandEffect::Nothing),
                    }
                } else {
                    match &self.question_reader_view.question {
                        Some(q) => Ok(CommandEffect::OpenUrl(q.link.clone())),
                        None => Ok(CommandEffect::Nothing),
                    }
                }
            },
        }
    }
}

} // verus!
