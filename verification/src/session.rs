//! The running session: the state behind the screen and the one function
//! that every keypress goes through.

use crate::method::Method;
use crate::model::completed;
use crate::model::initial;
use crate::model::reaction;
use crate::model::step;
use crate::model::Key;
use crate::model::OptionsMode;
use crate::model::Reaction;
use crate::model::SessionView;
use crate::request::outcome_text;
use crate::request::response_text;
use crate::request::RequestPlan;
use std::collections::HashMap;
use vstd::prelude::*;

verus! {

/// What the caller is to do after a key.
#[derive(Clone, Debug, PartialEq, Eq)]
pub enum Action {
    /// Go on with the loop.
    Continue,
    /// Leave the loop.
    Quit,
    /// Carry out the request, then hand its outcome to
    /// [`Session::complete_request`].
    Send(RequestPlan),
}

impl View for Action {
    type V = Reaction;

    open spec fn view(&self) -> Reaction {
        match self {
            Action::Continue => Reaction::Continue,
            Action::Quit => Reaction::Quit,
            Action::Send(plan) => Reaction::Send(plan@),
        }
    }
}

/// All the state of one interactive session.
pub struct Session {
    input: String,
    selected: Method,
    headers: HashMap<String, String>,
    params: HashMap<String, String>,
    body: String,
    mode: OptionsMode,
    response: String,
}

impl View for Session {
    type V = SessionView;

    closed spec fn view(&self) -> SessionView {
        SessionView {
            input: self.input@,
            selected: self.selected,
            headers: self.headers@,
            params: self.params@,
            body: self.body@,
            mode: self.mode,
            response: self.response@,
        }
    }
}

impl Session {
    /// A session with no headers, no params and an empty body.
    pub fn new() -> (session: Session)
        ensures
            session@ == initial(Map::empty(), Map::empty(), Seq::empty()),
    {
        Session::with_request_data(HashMap::new(), HashMap::new(), String::new())
    }

    /// A session over the given request data. No key changes these data.
    pub fn with_request_data(
        headers: HashMap<String, String>,
        params: HashMap<String, String>,
        body: String,
    ) -> (session: Session)
        ensures
            session@ == initial(headers@, params@, body@),
    {
        Session {
            input: String::new(),
            selected: Method::Get,
            headers,
            params,
            body,
            mode: OptionsMode::Headers,
            response: "Response will appear here...".to_owned(),
        }
    }

    /// Takes one key: moves the state on as [`step`] says and tells the
    /// caller what to do as [`reaction`] says.
    pub fn handle_key(&mut self, key: Key) -> (action: Action)
        ensures
            final(self)@ == step(old(self)@, key),
            action@ == reaction(old(self)@, key),
    {
        match key {
            Key::Esc => Action::Quit,
            Key::Up => {
                self.selected = self.selected.previous();
                Action::Continue
            },
            Key::Down => {
                self.selected = self.selected.next();
                Action::Continue
            },
            Key::Enter => {
                if self.input.as_str().is_empty() {
                    Action::Continue
                } else {
                    Action::Send(
                        RequestPlan::new(
                            self.selected,
                            self.input.as_str(),
                            &self.headers,
                            self.body.as_str(),
                        ),
                    )
                }
            },
            Key::Char(c) => {
                if c == 'H' {
                    self.mode = OptionsMode::Headers;
                } else if c == 'B' {
                    self.mode = OptionsMode::Body;
                } else if c == 'P' {
                    self.mode = OptionsMode::Params;
                } else {
                    self.input.push(c);
                }
                Action::Continue
            },
            Key::Backspace => {
                self.input.pop();
                Action::Continue
            },
            Key::Other => Action::Continue,
        }
    }

    /// Takes the outcome of the request that the last submit asked for: the
    /// text it reduces to replaces the response, and nothing else changes.
    pub fn complete_request<E>(&mut self, outcome: Result<String, E>)
        ensures
            final(self)@ == completed(old(self)@, outcome_text(outcome)),
    {
        self.response = response_text(outcome);
    }

    /// The URL typed so far.
    pub fn input(&self) -> (input: &str)
        ensures
            input@ == self@.input,
    {
        self.input.as_str()
    }

    /// The method under the cursor.
    pub fn selected_method(&self) -> (method: Method)
        ensures
            method == self@.selected,
    {
        self.selected
    }

    /// The headers that every request carries.
    pub fn headers(&self) -> (headers: &HashMap<String, String>)
        ensures
            headers@ == self@.headers,
    {
        &self.headers
    }

    /// The params on display in params mode.
    pub fn params(&self) -> (params: &HashMap<String, String>)
        ensures
            params@ == self@.params,
    {
        &self.params
    }

    /// The body text that every request but a `GET` carries.
    pub fn body(&self) -> (body: &str)
        ensures
            body@ == self@.body,
    {
        self.body.as_str()
    }

    /// Which of the request's data the options pane displays.
    pub fn options_mode(&self) -> (mode: OptionsMode)
        ensures
            mode == self@.mode,
    {
        self.mode
    }

    /// The response on display.
    pub fn response(&self) -> (response: &str)
        ensures
            response@ == self@.response,
    {
        self.response.as_str()
    }
}

} // verus!
