//! The session as a transition system: its state as mathematical values,
//! the keys that drive it, and what each key does to the state.

use crate::method::Method;
use crate::method::METHOD_COUNT;
use crate::request::planned;
use crate::request::RequestPlanView;
use vstd::prelude::*;

verus! {

/// A keyboard event, reduced to what the session tells apart.
#[derive(Clone, Copy, Debug, PartialEq, Eq, Structural)]
pub enum Key {
    Esc,
    Up,
    Down,
    Enter,
    Backspace,
    /// A character key, with the character it produces.
    Char(char),
    /// Any other key.
    Other,
}

/// Which of the request's data the options pane displays.
#[derive(Clone, Copy, Debug, PartialEq, Eq, Structural)]
pub enum OptionsMode {
    Headers,
    Body,
    Params,
}

/// The state of a session.
pub struct SessionView {
    /// The URL typed so far.
    pub input: Seq<char>,
    /// The method under the cursor.
    pub selected: Method,
    pub headers: Map<String, String>,
    pub params: Map<String, String>,
    pub body: Seq<char>,
    pub mode: OptionsMode,
    /// The response on display.
    pub response: Seq<char>,
}

/// What the caller is to do after a key.
pub enum Reaction {
    /// Go on with the loop.
    Continue,
    /// Leave the loop.
    Quit,
    /// Carry out the request, then hand its outcome to the session.
    Send(RequestPlanView),
}

/// The text in the response pane before any request has completed.
pub open spec fn placeholder_text() -> Seq<char> {
    "Response will appear here..."@
}

/// The state in which a session over the given request data starts.
pub open spec fn initial(
    headers: Map<String, String>,
    params: Map<String, String>,
    body: Seq<char>,
) -> SessionView {
    SessionView {
        input: Seq::empty(),
        selected: Method::Get,
        headers,
        params,
        body,
        mode: OptionsMode::Headers,
        response: placeholder_text(),
    }
}

/// The options mode that a character selects, if it selects one. These
/// characters never reach the URL.
pub open spec fn mode_of(c: char) -> Option<OptionsMode> {
    if c == 'H' {
        Some(OptionsMode::Headers)
    } else if c == 'B' {
        Some(OptionsMode::Body)
    } else if c == 'P' {
        Some(OptionsMode::Params)
    } else {
        None
    }
}

/// The state after a key.
pub open spec fn step(s: SessionView, key: Key) -> SessionView {
    match key {
        Key::Up => SessionView { selected: s.selected.before(), ..s },
        Key::Down => SessionView { selected: s.selected.after(), ..s },
        Key::Char(c) => match mode_of(c) {
            Some(mode) => SessionView { mode, ..s },
            None => SessionView { input: s.input.push(c), ..s },
        },
        Key::Backspace => if s.input.len() > 0 {
            SessionView { input: s.input.drop_last(), ..s }
        } else {
            s
        },
        Key::Esc | Key::Enter | Key::Other => s,
    }
}

/// The request that a submit in this state describes.
pub open spec fn submitted(s: SessionView) -> RequestPlanView {
    planned(s.selected, s.input, s.headers, s.body)
}

/// What a key in this state asks of the caller: Escape ends the loop, Enter
/// over a non-empty URL sends the request, and everything else goes on.
pub open spec fn reaction(s: SessionView, key: Key) -> Reaction {
    match key {
        Key::Esc => Reaction::Quit,
        Key::Enter => if s.input.len() > 0 {
            Reaction::Send(submitted(s))
        } else {
            Reaction::Continue
        },
        _ => Reaction::Continue,
    }
}

/// The state after a completed request: the response is replaced whole.
pub open spec fn completed(s: SessionView, response: Seq<char>) -> SessionView {
    SessionView { response, ..s }
}

/// The state after a run of keys, none of whose requests has completed.
pub open spec fn run(s: SessionView, keys: Seq<Key>) -> SessionView
    decreases keys.len(),
{
    if keys.len() == 0 {
        s
    } else {
        step(run(s, keys.drop_last()), keys.last())
    }
}

/// Down moves the selection one place down the list and Up one place up;
/// at the last place Down changes nothing, and at the first Up changes
/// nothing. Neither key touches anything but the selection.
pub proof fn lemma_arrows_move_selection(s: SessionView)
    ensures
        step(s, Key::Down).selected.index() == if s.selected.index() < METHOD_COUNT - 1 {
            s.selected.index() + 1
        } else {
            s.selected.index()
        },
        step(s, Key::Up).selected.index() == if s.selected.index() > 0 {
            s.selected.index() - 1
        } else {
            s.selected.index()
        },
        s.selected.index() == METHOD_COUNT - 1 ==> step(s, Key::Down) == s,
        s.selected.index() == 0 ==> step(s, Key::Up) == s,
        step(s, Key::Down) == (SessionView { selected: step(s, Key::Down).selected, ..s }),
        step(s, Key::Up) == (SessionView { selected: step(s, Key::Up).selected, ..s }),
        reaction(s, Key::Down) is Continue,
        reaction(s, Key::Up) is Continue,
{
}

/// Typing characters, none of which selects an options mode, appends them
/// to the URL in the order typed and changes nothing else. `keys` are the
/// keypresses and `chars` the characters that they produce.
pub proof fn lemma_typing_appends(s: SessionView, keys: Seq<Key>, chars: Seq<char>)
    requires
        keys.len() == chars.len(),
        forall|i: int| 0 <= i < keys.len() ==> #[trigger] keys[i] == Key::Char(chars[i]),
        forall|i: int| 0 <= i < chars.len() ==> mode_of(#[trigger] chars[i]) is None,
    ensures
        run(s, keys) == (SessionView { input: s.input + chars, ..s }),
    decreases keys.len(),
{
    if keys.len() == 0 {
        assert(s.input + chars =~= s.input);
    } else {
        lemma_typing_appends(s, keys.drop_last(), chars.drop_last());
        assert(keys.last() == Key::Char(chars.last()));
        assert((s.input + chars.drop_last()).push(chars.last()) =~= s.input + chars);
    }
}

/// Backspace removes exactly the last character of the URL, and is a no-op
/// on an empty URL; so it undoes the character typed just before it.
pub proof fn lemma_backspace_removes_last(s: SessionView, c: char)
    ensures
        s.input.len() > 0 ==> step(s, Key::Backspace) == (SessionView {
            input: s.input.drop_last(),
            ..s
        }),
        s.input.len() == 0 ==> step(s, Key::Backspace) == s,
        mode_of(c) is None ==> step(step(s, Key::Char(c)), Key::Backspace) == s,
        reaction(s, Key::Backspace) is Continue,
{
    assert(s.input.push(c).drop_last() =~= s.input);
}

/// Enter over an empty URL sends nothing and changes nothing; over a
/// non-empty URL it sends the request that the state describes, and the
/// state, the response with it, stays as it is until the outcome arrives.
pub proof fn lemma_submit(s: SessionView)
    ensures
        step(s, Key::Enter) == s,
        s.input.len() == 0 ==> reaction(s, Key::Enter) is Continue,
        s.input.len() > 0 ==> reaction(s, Key::Enter) == Reaction::Send(submitted(s)),
{
}

/// Only a submit over a non-empty URL asks for a request.
pub proof fn lemma_send_only_on_submit(s: SessionView, key: Key)
    ensures
        reaction(s, key) is Send <==> key is Enter && s.input.len() > 0,
{
}

/// Escape ends the loop in every state, no other key does, and Escape
/// leaves the state as it is.
pub proof fn lemma_escape_quits(s: SessionView, key: Key)
    ensures
        reaction(s, key) is Quit <==> key is Esc,
        step(s, Key::Esc) == s,
{
}

/// Whether a key is one of the three that select an options mode.
pub open spec fn selects_mode(key: Key) -> bool {
    key matches Key::Char(c) && mode_of(c) is Some
}

/// A run of mode keys, in any order, changes the options mode and nothing
/// else: the URL, the selection, the response and the request data stay,
/// and the mode is the one that the last key selects.
pub proof fn lemma_mode_keys_change_only_mode(s: SessionView, keys: Seq<Key>)
    requires
        forall|i: int| 0 <= i < keys.len() ==> selects_mode(#[trigger] keys[i]),
    ensures
        run(s, keys) == (SessionView { mode: run(s, keys).mode, ..s }),
        keys.len() > 0 ==> Some(run(s, keys).mode) == mode_of(keys.last()->Char_0),
        keys.len() == 0 ==> run(s, keys).mode == s.mode,
    decreases keys.len(),
{
    if keys.len() > 0 {
        let front = keys.drop_last();
        assert forall|i: int| 0 <= i < front.len() implies selects_mode(#[trigger] front[i]) by {
            assert(front[i] == keys[i]);
        }
        lemma_mode_keys_change_only_mode(s, front);
        assert(selects_mode(keys[keys.len() - 1]));
    }
}

/// No run of keys and no completed request changes the headers, the params
/// or the body.
pub proof fn lemma_request_data_is_fixed(s: SessionView, keys: Seq<Key>, response: Seq<char>)
    ensures
        run(s, keys).headers == s.headers,
        run(s, keys).params == s.params,
        run(s, keys).body == s.body,
        completed(s, response).headers == s.headers,
        completed(s, response).params == s.params,
        completed(s, response).body == s.body,
    decreases keys.len(),
{
    if keys.len() > 0 {
        lemma_request_data_is_fixed(s, keys.drop_last(), response);
    }
}

/// Which options mode is on display has no part in the request that a
/// submit describes.
pub proof fn lemma_mode_does_not_gate_request(s: SessionView, mode: OptionsMode)
    ensures
        submitted(SessionView { mode, ..s }) == submitted(s),
{
}

} // verus!
