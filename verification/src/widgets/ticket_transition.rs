use vstd::prelude::*;
use tui::widgets::ListState;
use crate::config::KeyConfig;
use crate::event::key::Key;
use crate::jira::error::SchemaError;
use crate::jira::transitions::last_selectable;
use crate::jira::transitions::lemma_last_selectable;
use crate::jira::transitions::CustomFieldAllowedValues;
use crate::jira::transitions::TicketTransition;
use crate::jira::transitions::TicketTransitions;
use crate::widgets::selection::in_range;
use crate::widgets::selection::list_selected;
use crate::widgets::selection::move_down;
use crate::widgets::selection::move_to_bottom;
use crate::widgets::selection::move_to_top;
use crate::widgets::selection::move_up;
use crate::widgets::selection::moved_down;
use crate::widgets::selection::moved_to_bottom;
use crate::widgets::selection::moved_to_top;
use crate::widgets::selection::moved_up;
use crate::widgets::centered;
use crate::widgets::centered_area;
use crate::widgets::Area;
use crate::widgets::EventState;
use crate::widgets::InputMode;

verus! {

/// Lets the operator pick a workflow transition for the selected ticket and,
/// where the transition asks for it, resolve one more field on a floating
/// screen before the transition is submitted.
#[derive(Debug)]
pub struct TransitionWidget {
    draw_list_float_screen: bool,
    float_screen_list_state: ListState,
    float_screen_list: Option<Vec<CustomFieldAllowedValues>>,
    key_config: KeyConfig,
    state: ListState,
    comment_float_screen: String,
    push_transition: bool,
    push_transition_reason: Option<String>,
    transitions: Vec<TicketTransition>,
    input_mode: InputMode,
}

/// What the application sends to the service once a transition is ready.
#[derive(Clone, Debug, PartialEq, Eq)]
pub struct TransitionRequest {
    pub transition_id: String,
    /// The value picked on the floating screen, if the transition had one.
    pub reason: Option<String>,
    /// The comment typed on the floating screen, if any.
    pub comment: Option<String>,
}

/// The state of a `TransitionWidget` as the state machine sees it.
pub struct TransitionView {
    pub key_config: KeyConfig,
    pub transitions: Seq<TicketTransition>,
    /// The cursor in the transition list.
    pub selected: Option<usize>,
    /// Whether the floating screen is active.
    pub floating: bool,
    /// The values offered on the floating screen.
    pub reasons: Option<Seq<CustomFieldAllowedValues>>,
    /// The cursor in the list of offered values.
    pub reason_selected: Option<usize>,
    pub comment: Seq<char>,
    pub input_mode: InputMode,
    /// Whether a transition is ready for submission.
    pub push_transition: bool,
    /// The value that resolved the field of the floating screen.
    pub push_transition_reason: Option<String>,
}

impl TransitionView {
    /// The state in which the widget starts on a list of transitions: browsing
    /// the list, with the first transition selected if there is one.
    pub open spec fn initial(transitions: Seq<TicketTransition>, key_config: KeyConfig) -> Self {
        TransitionView {
            key_config,
            transitions,
            selected: if transitions.len() > 0 {
                Some(0usize)
            } else {
                None
            },
            floating: false,
            reasons: None,
            reason_selected: None,
            comment: Seq::empty(),
            input_mode: InputMode::Normal,
            push_transition: false,
            push_transition_reason: None,
        }
    }

    /// The cursor of the list is absent or points at a transition. While the
    /// floating screen is open it has its values and a cursor, which points
    /// at a value where there is one; once it is closed nothing of it is
    /// left.
    pub open spec fn wf(self) -> bool {
        &&& self.transitions.len() <= usize::MAX
        &&& in_range(self.selected, self.transitions.len() as usize)
        &&& self.floating ==> {
            &&& self.reasons is Some
            &&& self.reasons->0.len() <= usize::MAX
            &&& self.reason_selected is Some
            &&& self.reasons->0.len() > 0 ==> in_range(
                self.reason_selected,
                self.reasons->0.len() as usize,
            )
        }
        &&& !self.floating ==> {
            &&& self.reasons is None
            &&& self.reason_selected is None
            &&& self.input_mode == InputMode::Normal
        }
    }

    pub open spec fn selected_transition(self) -> Option<TicketTransition> {
        match self.selected {
            Some(i) if i < self.transitions.len() => Some(self.transitions[i as int]),
            _ => None,
        }
    }

    pub open spec fn reason_count(self) -> usize {
        match self.reasons {
            Some(r) => r.len() as usize,
            None => 0usize,
        }
    }

    pub open spec fn selected_reason(self) -> Option<CustomFieldAllowedValues> {
        match (self.reasons, self.reason_selected) {
            (Some(r), Some(i)) if i < r.len() => Some(r[i as int]),
            _ => None,
        }
    }

    pub open spec fn next(self, line: usize) -> Self {
        TransitionView {
            selected: moved_down(self.selected, line, self.transitions.len() as usize),
            ..self
        }
    }

    pub open spec fn previous(self, line: usize) -> Self {
        TransitionView {
            selected: moved_up(self.selected, line, self.transitions.len() as usize),
            ..self
        }
    }

    pub open spec fn go_to_top(self) -> Self {
        TransitionView {
            selected: moved_to_top(self.selected, self.transitions.len() as usize),
            ..self
        }
    }

    pub open spec fn go_to_bottom(self) -> Self {
        TransitionView {
            selected: moved_to_bottom(self.selected, self.transitions.len() as usize),
            ..self
        }
    }

    pub open spec fn next_reason(self, line: usize) -> Self {
        TransitionView {
            reason_selected: moved_down(self.reason_selected, line, self.reason_count()),
            ..self
        }
    }

    pub open spec fn previous_reason(self, line: usize) -> Self {
        TransitionView {
            reason_selected: moved_up(self.reason_selected, line, self.reason_count()),
            ..self
        }
    }

    pub open spec fn go_to_top_reason(self) -> Self {
        TransitionView {
            reason_selected: moved_to_top(self.reason_selected, self.reason_count()),
            ..self
        }
    }

    pub open spec fn go_to_bottom_reason(self) -> Self {
        TransitionView {
            reason_selected: moved_to_bottom(self.reason_selected, self.reason_count()),
            ..self
        }
    }

    /// The floating screen, opened on the given values with the cursor on the
    /// first row.
    pub open spec fn opened(self, values: Seq<CustomFieldAllowedValues>) -> Self {
        TransitionView {
            floating: true,
            reasons: Some(values),
            reason_selected: Some(0usize),
            input_mode: InputMode::Normal,
            ..self
        }
    }

    /// Confirming in the transition list. With nothing selected there is
    /// nothing to confirm. A transition without a screen is ready at once. One
    /// with a screen opens the floating screen on the values of its select
    /// field, or reports the schema that has none and changes nothing.
    pub open spec fn check_transition_floating_screen(self) -> (Self, Result<bool, SchemaError>) {
        match self.selected_transition() {
            None => (self, Ok(false)),
            Some(t) => if t.needs_screen() {
                match t.screen_values_spec() {
                    Ok(values) => (self.opened(values), Ok(true)),
                    Err(e) => (self, Err(e)),
                }
            } else {
                (self, Ok(false))
            },
        }
    }

    pub open spec fn confirm(self) -> (Self, Result<EventState, SchemaError>) {
        match self.check_transition_floating_screen() {
            (next, Ok(true)) => (next, Ok(EventState::Consumed)),
            (_, Ok(false)) => (
                TransitionView {
                    push_transition: self.push_transition || self.selected_transition() is Some,
                    ..self
                },
                Ok(EventState::Consumed),
            ),
            (_, Err(e)) => (self, Err(e)),
        }
    }

    /// The floating screen closed and everything of it dropped.
    pub open spec fn closed(self) -> Self {
        TransitionView {
            floating: false,
            reasons: None,
            reason_selected: None,
            input_mode: InputMode::Normal,
            ..self
        }
    }

    /// Leaving the floating screen without an answer: the screen closes and
    /// the comment typed so far is discarded.
    pub open spec fn cancel(self) -> Self {
        TransitionView { comment: Seq::empty(), ..self.closed() }
    }

    /// Confirming on the floating screen. Without a selected value nothing
    /// happens. With one, its content becomes the resolved field, the screen
    /// closes, the comment stays for the submission, and the transition is
    /// ready.
    pub open spec fn confirm_reason(self) -> Self {
        match self.selected_reason() {
            None => self,
            Some(v) => TransitionView {
                push_transition: true,
                push_transition_reason: Some(v.value),
                ..self.closed()
            },
        }
    }

    /// A key on the floating screen. While the comment is edited, characters
    /// go into it, backspace takes its last one and escape ends the editing;
    /// every other key acts as it does while browsing the values.
    pub open spec fn float_screen_event(self, key: Key) -> (Self, EventState) {
        let c = self.key_config;
        if self.input_mode == InputMode::Editing && key is Char {
            (TransitionView { comment: self.comment.push(key->Char_0), ..self }, EventState::Consumed)
        } else if self.input_mode == InputMode::Editing && key == Key::Backspace {
            (
                TransitionView {
                    comment: if self.comment.len() > 0 {
                        self.comment.drop_last()
                    } else {
                        self.comment
                    },
                    ..self
                },
                EventState::Consumed,
            )
        } else if self.input_mode == InputMode::Editing && key == Key::Esc {
            (TransitionView { input_mode: InputMode::Normal, ..self }, EventState::Consumed)
        } else if key == c.scroll_down {
            (self.next_reason(1), EventState::Consumed)
        } else if key == c.scroll_up {
            (self.previous_reason(1), EventState::Consumed)
        } else if key == c.scroll_down_multiple_lines {
            (self.next_reason(10), EventState::Consumed)
        } else if key == c.scroll_up_multiple_lines {
            (self.previous_reason(10), EventState::Consumed)
        } else if key == c.scroll_to_bottom {
            (self.go_to_bottom_reason(), EventState::Consumed)
        } else if key == c.scroll_to_top {
            (self.go_to_top_reason(), EventState::Consumed)
        } else if key == c.esc {
            (self.cancel(), EventState::Consumed)
        } else if key == c.next {
            (TransitionView { input_mode: InputMode::Editing, ..self }, EventState::Consumed)
        } else if key == c.enter {
            (self.confirm_reason(), EventState::Consumed)
        } else {
            (self, EventState::NotConsumed)
        }
    }

    /// A key while browsing the transition list.
    pub open spec fn list_event(self, key: Key) -> (Self, Result<EventState, SchemaError>) {
        let c = self.key_config;
        if key == c.scroll_down {
            (self.next(1), Ok(EventState::Consumed))
        } else if key == c.scroll_up {
            (self.previous(1), Ok(EventState::Consumed))
        } else if key == c.scroll_down_multiple_lines {
            (self.next(10), Ok(EventState::Consumed))
        } else if key == c.scroll_up_multiple_lines {
            (self.previous(10), Ok(EventState::Consumed))
        } else if key == c.scroll_to_bottom {
            (self.go_to_bottom(), Ok(EventState::Consumed))
        } else if key == c.scroll_to_top {
            (self.go_to_top(), Ok(EventState::Consumed))
        } else if key == c.enter {
            self.confirm()
        } else {
            (self, Ok(EventState::NotConsumed))
        }
    }

    /// The state machine: what one key does to the widget, and what the
    /// widget answers.
    pub open spec fn event(self, key: Key) -> (Self, Result<EventState, SchemaError>) {
        if self.floating {
            let (next, state) = self.float_screen_event(key);
            (next, Ok(state))
        } else {
            self.list_event(key)
        }
    }

    /// Whether a transition is ready and selected, so that a request can be
    /// made of it.
    pub open spec fn ready(self) -> bool {
        self.push_transition && self.selected_transition() is Some
    }

    /// Whether `request` is the request that this state amounts to: the
    /// selected transition, the resolved field if there is one, and the
    /// comment unless it is empty.
    pub open spec fn submits(self, request: TransitionRequest) -> bool {
        &&& self.ready()
        &&& request.transition_id == self.selected_transition()->0.id
        &&& request.reason == self.push_transition_reason
        &&& match request.comment {
            Some(c) => c@ == self.comment && self.comment.len() > 0,
            None => self.comment.len() == 0,
        }
    }

    /// The state after a submission was handed out.
    pub open spec fn submitted(self) -> Self {
        TransitionView {
            push_transition: false,
            push_transition_reason: None,
            comment: Seq::empty(),
            ..self
        }
    }
}

/// The names of the transitions that have one, in the order of the
/// transitions.
pub open spec fn transition_names(transitions: Seq<TicketTransition>) -> Seq<String> {
    transitions.filter_map(|t: TicketTransition| t.name)
}

impl View for TransitionWidget {
    type V = TransitionView;

    closed spec fn view(&self) -> TransitionView {
        TransitionView {
            key_config: self.key_config,
            transitions: self.transitions@,
            selected: list_selected(self.state),
            floating: self.draw_list_float_screen,
            reasons: match self.float_screen_list {
                Some(l) => Some(l@),
                None => None,
            },
            reason_selected: list_selected(self.float_screen_list_state),
            comment: self.comment_float_screen@,
            input_mode: self.input_mode,
            push_transition: self.push_transition,
            push_transition_reason: self.push_transition_reason,
        }
    }
}

impl TransitionWidget {
    /// A widget on the given transitions, browsing the list, with the first
    /// transition selected if there is one.
    pub fn new(transitions: Vec<TicketTransition>, key_config: KeyConfig) -> (r: Self)
        ensures
            r@ == TransitionView::initial(transitions@, key_config),
            r@.wf(),
    {
        let mut state = ListState::default();
        if transitions.len() > 0 {
            state.select(Some(0));
        }
        TransitionWidget {
            draw_list_float_screen: false,
            comment_float_screen: String::new(),
            float_screen_list_state: ListState::default(),
            float_screen_list: None,
            input_mode: InputMode::Normal,
            key_config,
            push_transition: false,
            push_transition_reason: None,
            state,
            transitions,
        }
    }

    fn reason_len(&self) -> (r: usize)
        ensures
            r == self@.reason_count(),
    {
        match &self.float_screen_list {
            Some(l) => l.len(),
            None => 0,
        }
    }

    /// Moves the cursor `line` transitions down, at most to the last one.
    pub fn next(&mut self, line: usize)
        ensures
            final(self)@ == old(self)@.next(line),
    {
        let i = move_down(self.state.selected(), line, self.transitions.len());
        self.state.select(i);
    }

    /// Moves the cursor `line` transitions up, at most to the first one.
    pub fn previous(&mut self, line: usize)
        ensures
            final(self)@ == old(self)@.previous(line),
    {
        let i = move_up(self.state.selected(), line, self.transitions.len());
        self.state.select(i);
    }

    pub fn go_to_top(&mut self)
        ensures
            final(self)@ == old(self)@.go_to_top(),
    {
        let i = move_to_top(self.state.selected(), self.transitions.len());
        self.state.select(i);
    }

    pub fn go_to_bottom(&mut self)
        ensures
            final(self)@ == old(self)@.go_to_bottom(),
    {
        let i = move_to_bottom(self.state.selected(), self.transitions.len());
        self.state.select(i);
    }

    /// The transition under the cursor.
    pub fn selected_transition(&self) -> (r: Option<&TicketTransition>)
        ensures
            match r {
                Some(t) => self@.selected_transition() == Some(*t),
                None => self@.selected_transition() is None,
            },
    {
        match self.state.selected() {
            Some(i) => if i < self.transitions.len() {
                Some(&self.transitions[i])
            } else {
                None
            },
            None => None,
        }
    }

    /// Starts over on the transitions of another ticket.
    pub fn update(&mut self, transitions: TicketTransitions)
        ensures
            final(self)@ == TransitionView::initial(
                transitions.transitions@,
                old(self)@.key_config,
            ),
            final(self)@.wf(),
    {
        self.transitions = transitions.transitions;
        if self.transitions.len() > 0 {
            self.state.select(Some(0));
        } else {
            self.state.select(None);
        }
        self.close_float_screen();
        self.comment_float_screen.clear();
        self.push_transition = false;
        self.push_transition_reason = None;
    }

    fn close_float_screen(&mut self)
        ensures
            final(self)@ == old(self)@.closed(),
    {
        self.draw_list_float_screen = false;
        self.float_screen_list = None;
        self.float_screen_list_state.select(None);
        self.input_mode = InputMode::Normal;
    }

    /// Opens the floating screen if the selected transition asks for one, and
    /// says whether it did. A transition that asks for a screen without
    /// offering a select field is reported, and nothing changes.
    pub fn check_transition_floating_screen(&mut self) -> (r: Result<bool, SchemaError>)
        ensures
            (final(self)@, r) == old(self)@.check_transition_floating_screen(),
            r is Err ==> *final(self) == *old(self),
    {
        let values = match self.selected_transition() {
            None => {
                return Ok(false);
            },
            Some(t) => {
                if !t.check_has_screen() {
                    return Ok(false);
                }
                t.screen_values()?
            },
        };
        self.draw_list_float_screen = true;
        self.float_screen_list = Some(values);
        self.float_screen_list_state.select(Some(0));
        self.input_mode = InputMode::Normal;
        Ok(true)
    }

    pub fn next_reason(&mut self, line: usize)
        ensures
            final(self)@ == old(self)@.next_reason(line),
    {
        let i = move_down(self.float_screen_list_state.selected(), line, self.reason_len());
        self.float_screen_list_state.select(i);
    }

    pub fn previous_reason(&mut self, line: usize)
        ensures
            final(self)@ == old(self)@.previous_reason(line),
    {
        let i = move_up(self.float_screen_list_state.selected(), line, self.reason_len());
        self.float_screen_list_state.select(i);
    }

    pub fn go_to_top_reason(&mut self)
        ensures
            final(self)@ == old(self)@.go_to_top_reason(),
    {
        let i = move_to_top(self.float_screen_list_state.selected(), self.reason_len());
        self.float_screen_list_state.select(i);
    }

    pub fn go_to_bottom_reason(&mut self)
        ensures
            final(self)@ == old(self)@.go_to_bottom_reason(),
    {
        let i = move_to_bottom(self.float_screen_list_state.selected(), self.reason_len());
        self.float_screen_list_state.select(i);
    }

    /// The value under the cursor of the floating screen.
    pub fn selected_transition_reason(&self) -> (r: Option<&CustomFieldAllowedValues>)
        ensures
            match r {
                Some(v) => self@.selected_reason() == Some(*v),
                None => self@.selected_reason() is None,
            },
    {
        match (&self.float_screen_list, self.float_screen_list_state.selected()) {
            (Some(list), Some(i)) => if i < list.len() {
                Some(&list[i])
            } else {
                None
            },
            _ => None,
        }
    }

    fn confirm_reason(&mut self)
        ensures
            final(self)@ == old(self)@.confirm_reason(),
    {
        let reason = match self.selected_transition_reason() {
            Some(v) => v.value.clone(),
            None => {
                return ;
            },
        };
        self.push_transition_reason = Some(reason);
        self.push_transition = true;
        self.close_float_screen();
    }

    fn float_screen_event(&mut self, key: Key) -> (r: EventState)
        ensures
            (final(self)@, r) == old(self)@.float_screen_event(key),
    {
        if self.input_mode == InputMode::Editing {
            match key {
                Key::Char(c) => {
                    self.comment_float_screen.push(c);
                    return EventState::Consumed;
                },
                Key::Backspace => {
                    self.comment_float_screen.pop();
                    return EventState::Consumed;
                },
                Key::Esc => {
                    self.input_mode = InputMode::Normal;
                    return EventState::Consumed;
                },
                _ => {},
            }
        }
        if key == self.key_config.scroll_down {
            self.next_reason(1);
        } else if key == self.key_config.scroll_up {
            self.previous_reason(1);
        } else if key == self.key_config.scroll_down_multiple_lines {
            self.next_reason(10);
        } else if key == self.key_config.scroll_up_multiple_lines {
            self.previous_reason(10);
        } else if key == self.key_config.scroll_to_bottom {
            self.go_to_bottom_reason();
        } else if key == self.key_config.scroll_to_top {
            self.go_to_top_reason();
        } else if key == self.key_config.esc {
            self.close_float_screen();
            self.comment_float_screen.clear();
        } else if key == self.key_config.next {
            self.input_mode = InputMode::Editing;
        } else if key == self.key_config.enter {
            self.confirm_reason();
        } else {
            return EventState::NotConsumed;
        }
        EventState::Consumed
    }

    /// Hands out the request of a ready transition and clears what led to it:
    /// the ready flag, the resolved field and the comment. Where no
    /// transition is ready, or none is selected, nothing changes.
    pub fn take_submission(&mut self) -> (r: Option<TransitionRequest>)
        ensures
            match r {
                Some(request) => old(self)@.submits(request) && final(self)@ == old(
                    self,
                )@.submitted(),
                None => !old(self)@.ready() && *final(self) == *old(self),
            },
    {
        if !self.push_transition {
            return None;
        }
        let transition_id = match self.selected_transition() {
            Some(t) => t.id.clone(),
            None => {
                return None;
            },
        };
        let mut text = String::new();
        std::mem::swap(&mut text, &mut self.comment_float_screen);
        let mut reason: Option<String> = None;
        std::mem::swap(&mut reason, &mut self.push_transition_reason);
        self.push_transition = false;
        let comment = if text.as_str().is_empty() {
            None
        } else {
            Some(text)
        };
        Some(TransitionRequest { transition_id, reason, comment })
    }

    /// The names to show in the list: those of the transitions that have
    /// one, in the order of the transitions.
    pub fn names(&self) -> (r: Vec<String>)
        ensures
            r@ == transition_names(self@.transitions),
    {
        let mut names: Vec<String> = Vec::new();
        let mut i: usize = 0;
        while i < self.transitions.len()
            invariant
                i <= self.transitions@.len(),
                names@ == transition_names(self.transitions@.take(i as int)),
            decreases self.transitions@.len() - i,
        {
            proof {
                let next = self.transitions@.take(i + 1);
                assert(next.drop_last() =~= self.transitions@.take(i as int));
                assert(next.last() == self.transitions@[i as int]);
            }
            let ghost before = names@;
            if let Some(name) = &self.transitions[i].name {
                names.push(name.clone());
                assert(names@ =~= before + seq![*name]);
            }
            i += 1;
        }
        proof {
            assert(self.transitions@.take(i as int) =~= self.transitions@);
        }
        names
    }

    /// Where the list is drawn: in the middle of the frame, 80 by 20 cells
    /// where the frame has the room.
    pub fn popup_area(frame_width: u16, frame_height: u16) -> (r: Area)
        ensures
            r == centered(frame_width, frame_height, 80, 20),
    {
        centered_area(frame_width, frame_height, 80, 20)
    }

    /// The transitions on offer.
    pub fn transitions(&self) -> (r: &Vec<TicketTransition>)
        ensures
            r@ == self@.transitions,
    {
        &self.transitions
    }

    /// The position of the cursor in the transition list.
    pub fn selected_index(&self) -> (r: Option<usize>)
        ensures
            r == self@.selected,
    {
        self.state.selected()
    }

    /// Whether the floating screen is open.
    pub fn is_float_screen_open(&self) -> (r: bool)
        ensures
            r == self@.floating,
    {
        self.draw_list_float_screen
    }

    /// The values offered on the floating screen.
    pub fn float_screen_list(&self) -> (r: Option<&Vec<CustomFieldAllowedValues>>)
        ensures
            match r {
                Some(l) => self@.reasons == Some(l@),
                None => self@.reasons is None,
            },
    {
        match &self.float_screen_list {
            Some(l) => Some(l),
            None => None,
        }
    }

    /// The position of the cursor on the floating screen.
    pub fn selected_reason_index(&self) -> (r: Option<usize>)
        ensures
            r == self@.reason_selected,
    {
        self.float_screen_list_state.selected()
    }

    /// The comment typed on the floating screen so far.
    pub fn comment_float_screen(&self) -> (r: &String)
        ensures
            r@ == self@.comment,
    {
        &self.comment_float_screen
    }

    pub fn input_mode(&self) -> (r: InputMode)
        ensures
            r == self@.input_mode,
    {
        self.input_mode
    }

    /// Whether a transition is ready for submission.
    pub fn push_transition(&self) -> (r: bool)
        ensures
            r == self@.push_transition,
    {
        self.push_transition
    }

    /// The value that resolved the field of the floating screen.
    pub fn push_transition_reason(&self) -> (r: Option<&String>)
        ensures
            match r {
                Some(s) => self@.push_transition_reason == Some(*s),
                None => self@.push_transition_reason is None,
            },
    {
        match &self.push_transition_reason {
            Some(s) => Some(s),
            None => None,
        }
    }

    /// The cursor of the transition list, for the renderer to scroll by.
    pub fn list_state(&mut self) -> (r: &mut ListState)
        ensures
            list_selected(*r) == old(self)@.selected,
            final(self)@ == (TransitionView {
                selected: list_selected(*final(r)),
                ..old(self)@
            }),
    {
        &mut self.state
    }

    /// The cursor of the floating screen, for the renderer to scroll by.
    pub fn float_screen_list_state(&mut self) -> (r: &mut ListState)
        ensures
            list_selected(*r) == old(self)@.reason_selected,
            final(self)@ == (TransitionView {
                reason_selected: list_selected(*final(r)),
                ..old(self)@
            }),
    {
        &mut self.float_screen_list_state
    }

    /// Handles one key: on the floating screen while it is open, in the
    /// transition list otherwise. An error leaves the widget as it was.
    pub fn event(&mut self, key: Key) -> (r: Result<EventState, SchemaError>)
        ensures
            (final(self)@, r) == old(self)@.event(key),
            r is Err ==> *final(self) == *old(self),
    {
        if self.draw_list_float_screen {
            return Ok(self.float_screen_event(key));
        }
        if key == self.key_config.scroll_down {
            self.next(1);
        } else if key == self.key_config.scroll_up {
            self.previous(1);
        } else if key == self.key_config.scroll_down_multiple_lines {
            self.next(10);
        } else if key == self.key_config.scroll_up_multiple_lines {
            self.previous(10);
        } else if key == self.key_config.scroll_to_bottom {
            self.go_to_bottom();
        } else if key == self.key_config.scroll_to_top {
            self.go_to_top();
        } else if key == self.key_config.enter {
            let opened = self.check_transition_floating_screen()?;
            if !opened && self.selected_transition().is_some() {
                self.push_transition = true;
            }
        } else {
            return Ok(EventState::NotConsumed);
        }
        Ok(EventState::Consumed)
    }
}

/// Every key leaves a well-formed widget well-formed.
pub proof fn lemma_event_keeps_wf(v: TransitionView, key: Key)
    requires
        v.wf(),
    ensures
        v.event(key).0.wf(),
{
    if !v.floating && v.selected_transition() is Some {
        let t = v.selected_transition()->0;
        if t.fields is Some {
            lemma_last_selectable(t.fields->0.values@);
            if last_selectable(t.fields->0.values@) is Some {
                let i = last_selectable(t.fields->0.values@)->0;
                let values = t.fields->0.values@[i].1.allowed_values->0;
                assert(values@.len() == values.len());
            }
        }
    }
}

/// A failed event changes nothing.
pub proof fn lemma_error_changes_nothing(v: TransitionView, key: Key)
    ensures
        v.event(key).1 is Err ==> v.event(key).0 == v,
{
}

/// On an empty transition list the four movements are no-ops, and so is
/// every key while the list is browsed; none of them is an error.
pub proof fn lemma_empty_list_is_inert(v: TransitionView, line: usize, key: Key)
    requires
        v.transitions.len() == 0,
    ensures
        v.next(line) == v,
        v.previous(line) == v,
        v.go_to_top() == v,
        v.go_to_bottom() == v,
        !v.floating ==> v.event(key).0 == v && v.event(key).1 is Ok,
{
}

/// On a floating screen without values the four movements are no-ops.
pub proof fn lemma_empty_reasons_are_inert(v: TransitionView, line: usize)
    requires
        v.reason_count() == 0,
    ensures
        v.next_reason(line) == v,
        v.previous_reason(line) == v,
        v.go_to_top_reason() == v,
        v.go_to_bottom_reason() == v,
{
}

/// Confirming a transition that asks for a screen, where field `i` of its
/// schema is a select field with allowed values and no later field is one,
/// opens the floating screen with exactly those values and the cursor on the
/// first row; nothing else changes.
pub proof fn lemma_confirm_opens_screen(v: TransitionView, key: Key, i: int)
    requires
        !v.floating,
        v.key_config.confirms(key),
        v.selected_transition() is Some,
        v.selected_transition()->0.needs_screen(),
        v.selected_transition()->0.fields is Some,
        0 <= i < v.selected_transition()->0.fields->0.values@.len(),
        v.selected_transition()->0.fields->0.values@[i].1.selectable(),
        forall|j: int|
            i < j < v.selected_transition()->0.fields->0.values@.len() ==> !(
            #[trigger] v.selected_transition()->0.fields->0.values@[j]).1.selectable(),
    ensures
        v.event(key).1 == Ok::<EventState, SchemaError>(EventState::Consumed),
        v.event(key).0 == v.opened(
            v.selected_transition()->0.fields->0.values@[i].1.allowed_values->0@,
        ),
        v.event(key).0.floating,
        v.event(key).0.reason_selected == Some(0usize),
        v.event(key).0.push_transition == v.push_transition,
{
    lemma_last_selectable(v.selected_transition()->0.fields->0.values@);
}

/// Confirming a transition that asks for a screen without offering a select
/// field with allowed values is an error, and the widget stays as it was.
pub proof fn lemma_confirm_reports_schema(v: TransitionView, key: Key)
    requires
        !v.floating,
        v.key_config.confirms(key),
        v.selected_transition() is Some,
        v.selected_transition()->0.needs_screen(),
        v.selected_transition()->0.fields is Some ==> forall|j: int|
            0 <= j < v.selected_transition()->0.fields->0.values@.len() ==> !(
            #[trigger] v.selected_transition()->0.fields->0.values@[j]).1.selectable(),
    ensures
        v.event(key).1 is Err,
        v.event(key).0 == v,
{
    if v.selected_transition()->0.fields is Some {
        lemma_last_selectable(v.selected_transition()->0.fields->0.values@);
    }
}

/// Confirming a transition that asks for no screen marks it ready at once
/// and opens nothing.
pub proof fn lemma_confirm_without_screen(v: TransitionView, key: Key)
    requires
        !v.floating,
        v.key_config.confirms(key),
        v.selected_transition() is Some,
        !v.selected_transition()->0.needs_screen(),
    ensures
        v.event(key).1 == Ok::<EventState, SchemaError>(EventState::Consumed),
        v.event(key).0 == (TransitionView { push_transition: true, ..v }),
        !v.event(key).0.floating,
{
}

/// Confirming on the floating screen with no value under the cursor changes
/// nothing: the screen stays open and the ready flag is as it was.
pub proof fn lemma_confirm_without_reason(v: TransitionView, key: Key)
    requires
        v.floating,
        v.key_config.confirms(key),
        key != v.key_config.esc,
        key != v.key_config.next,
        v.input_mode == InputMode::Editing ==> !(key is Char) && key != Key::Backspace && key
            != Key::Esc,
        v.selected_reason() is None,
    ensures
        v.event(key).0 == v,
        v.event(key).1 == Ok::<EventState, SchemaError>(EventState::Consumed),
{
}

/// Confirming on the floating screen with a value under the cursor makes its
/// content the resolved field, closes the screen and marks the transition
/// ready; the comment is kept for the submission.
pub proof fn lemma_confirm_with_reason(v: TransitionView, key: Key)
    requires
        v.floating,
        v.key_config.confirms(key),
        key != v.key_config.esc,
        key != v.key_config.next,
        v.input_mode == InputMode::Editing ==> !(key is Char) && key != Key::Backspace && key
            != Key::Esc,
        v.selected_reason() is Some,
    ensures
        v.event(key).1 == Ok::<EventState, SchemaError>(EventState::Consumed),
        v.event(key).0.push_transition,
        v.event(key).0.push_transition_reason == Some(v.selected_reason()->0.value),
        !v.event(key).0.floating,
        v.event(key).0.reasons is None,
        v.event(key).0.reason_selected is None,
        v.event(key).0.input_mode == InputMode::Normal,
        v.event(key).0.comment == v.comment,
        v.event(key).0.transitions == v.transitions,
        v.event(key).0.selected == v.selected,
{
}

/// Leaving the floating screen closes it, discards the comment and marks
/// nothing ready that was not ready before.
pub proof fn lemma_cancel_discards(v: TransitionView, key: Key)
    requires
        v.floating,
        v.input_mode == InputMode::Normal,
        key == v.key_config.esc,
        !v.key_config.scrolls(key),
    ensures
        v.event(key).0 == v.cancel(),
        !v.event(key).0.floating,
        v.event(key).0.comment.len() == 0,
        v.event(key).0.push_transition == v.push_transition,
        v.event(key).0.push_transition_reason == v.push_transition_reason,
{
}

/// While the comment is edited, a character key appends its character,
/// backspace takes the last one away, and escape ends the editing with the
/// comment untouched.
pub proof fn lemma_editing_keys(v: TransitionView, c: char)
    requires
        v.floating,
        v.input_mode == InputMode::Editing,
    ensures
        v.event(Key::Char(c)).0 == (TransitionView { comment: v.comment.push(c), ..v }),
        v.comment.len() > 0 ==> v.event(Key::Backspace).0 == (TransitionView {
            comment: v.comment.drop_last(),
            ..v
        }),
        v.comment.len() == 0 ==> v.event(Key::Backspace).0 == v,
        v.event(Key::Esc).0 == (TransitionView { input_mode: InputMode::Normal, ..v }),
{
}

} // verus!
