//! What a frame shows: the content of each pane, computed from the state.

use crate::method::Method;
use crate::method::METHOD_COUNT;
use crate::model::OptionsMode;
use crate::session::Session;
use std::collections::HashMap;
use vstd::prelude::*;
use vstd::string::StringExecFns;

verus! {

/// One line of the method list.
#[derive(Clone, Copy, Debug, PartialEq, Eq, Structural)]
pub struct MethodEntry {
    pub method: Method,
    /// Whether the cursor is on this line.
    pub highlighted: bool,
}

/// The content of the panes of one frame.
#[derive(Clone, Debug, PartialEq, Eq)]
pub struct Screen {
    /// The method list, top to bottom.
    pub methods: Vec<MethodEntry>,
    /// The URL field.
    pub url: String,
    /// The options pane.
    pub options: String,
    /// The response pane.
    pub response: String,
}

/// The label that opens the text of the options pane.
pub open spec fn options_label(mode: OptionsMode) -> Seq<char> {
    match mode {
        OptionsMode::Headers => "Headers: "@,
        OptionsMode::Body => "Body: "@,
        OptionsMode::Params => "Params: "@,
    }
}

/// The method list as drawn when the cursor is on `selected`: the five
/// methods in their order, and the one under the cursor highlighted.
pub open spec fn lists_methods(methods: Seq<MethodEntry>, selected: Method) -> bool {
    &&& methods.len() == METHOD_COUNT
    &&& forall|i: int|
        0 <= i < methods.len() ==> Method::at(i) == Some((#[trigger] methods[i]).method)
            && methods[i].highlighted == (methods[i].method == selected)
}

/// std's `Debug` rendering of a map, as `format!` with `{:?}` produces it.
/// The text lists the entries in the order in which the map is walked, which
/// differs from one process to the next, so nothing is claimed of it.
#[verifier::external_body]
fn debug_text(map: &HashMap<String, String>) -> (text: String) {
    format!("{:?}", map)
}

/// The text of the options pane in the given mode over the given content.
pub fn labelled(mode: OptionsMode, content: &str) -> (text: String)
    ensures
        text@ == options_label(mode) + content@,
{
    let label = match mode {
        OptionsMode::Headers => "Headers: ",
        OptionsMode::Body => "Body: ",
        OptionsMode::Params => "Params: ",
    };
    String::from_str(label).concat(content)
}

/// The method list for a cursor on `selected`.
pub fn method_entries(selected: Method) -> (methods: Vec<MethodEntry>)
    ensures
        lists_methods(methods@, selected),
{
    let mut methods: Vec<MethodEntry> = Vec::new();
    let mut i: usize = 0;
    while i < METHOD_COUNT
        invariant
            i <= METHOD_COUNT,
            methods@.len() == i,
            forall|j: int|
                0 <= j < i ==> Method::at(j) == Some((#[trigger] methods@[j]).method)
                    && methods@[j].highlighted == (methods@[j].method == selected),
        decreases METHOD_COUNT - i,
    {
        match Method::from_position(i) {
            Some(method) => {
                methods.push(MethodEntry { method, highlighted: method == selected });
            },
            None => {},
        }
        i += 1;
    }
    methods
}

impl Session {
    /// The text of the options pane: the label of the mode on display, then
    /// the body text in body mode, and in the other two modes a rendering of
    /// the headers or of the params.
    pub fn options_text(&self) -> (text: String)
        ensures
            self@.mode is Body ==> text@ == options_label(self@.mode) + self@.body,
            exists|content: Seq<char>| text@ == options_label(self@.mode) + content,
    {
        let mode = self.options_mode();
        match mode {
            OptionsMode::Headers => {
                let rendering = debug_text(self.headers());
                labelled(mode, rendering.as_str())
            },
            OptionsMode::Body => labelled(mode, self.body()),
            OptionsMode::Params => {
                let rendering = debug_text(self.params());
                labelled(mode, rendering.as_str())
            },
        }
    }

    /// What the next frame shows.
    pub fn screen(&self) -> (screen: Screen)
        ensures
            lists_methods(screen.methods@, self@.selected),
            screen.url@ == self@.input,
            screen.response@ == self@.response,
            self@.mode is Body ==> screen.options@ == options_label(self@.mode) + self@.body,
            exists|content: Seq<char>| screen.options@ == options_label(self@.mode) + content,
    {
        Screen {
            methods: method_entries(self.selected_method()),
            url: self.input().to_owned(),
            options: self.options_text(),
            response: self.response().to_owned(),
        }
    }
}

} // verus!
