use lazycurl::method::Method;
use lazycurl::model::Key;
use lazycurl::model::OptionsMode;
use lazycurl::screen::labelled;
use lazycurl::screen::method_entries;
use lazycurl::screen::MethodEntry;
use lazycurl::session::Session;
use std::collections::HashMap;

fn one_entry(name: &str, value: &str) -> HashMap<String, String> {
    let mut map = HashMap::new();
    map.insert(name.to_string(), value.to_string());
    map
}

#[test]
fn labels_of_the_options_pane() {
    assert_eq!(labelled(OptionsMode::Headers, "{}"), "Headers: {}");
    assert_eq!(labelled(OptionsMode::Body, "{\"x\":1}"), "Body: {\"x\":1}");
    assert_eq!(labelled(OptionsMode::Params, "{}"), "Params: {}");
    assert_eq!(labelled(OptionsMode::Body, ""), "Body: ");
}

#[test]
fn method_list_is_in_order_with_one_highlight() {
    for selected in 0..5 {
        let cursor = Method::from_position(selected).unwrap();
        let entries = method_entries(cursor);
        assert_eq!(entries.len(), 5);
        for (index, entry) in entries.iter().enumerate() {
            assert_eq!(entry.method.position(), index);
            assert_eq!(entry.highlighted, index == selected);
        }
    }
}

#[test]
fn method_list_of_a_new_session() {
    let screen = Session::new().screen();
    assert_eq!(
        screen.methods,
        vec![
            MethodEntry { method: Method::Get, highlighted: true },
            MethodEntry { method: Method::Post, highlighted: false },
            MethodEntry { method: Method::Put, highlighted: false },
            MethodEntry { method: Method::Delete, highlighted: false },
            MethodEntry { method: Method::Patch, highlighted: false },
        ]
    );
}

#[test]
fn first_frame_of_a_new_session() {
    let screen = Session::new().screen();
    assert_eq!(screen.url, "");
    assert_eq!(screen.options, "Headers: {}");
    assert_eq!(screen.response, "Response will appear here...");
}

#[test]
fn the_highlight_follows_the_cursor() {
    let mut session = Session::new();
    session.handle_key(Key::Down);
    session.handle_key(Key::Down);
    let screen = session.screen();
    let highlighted: Vec<Method> =
        screen.methods.iter().filter(|entry| entry.highlighted).map(|entry| entry.method).collect();
    assert_eq!(highlighted, vec![Method::Put]);
}

#[test]
fn the_frame_shows_the_url_and_the_response() {
    let mut session = Session::new();
    for c in "http://x/".chars() {
        session.handle_key(Key::Char(c));
    }
    let outcome: Result<String, ()> = Ok("hello\nworld".to_string());
    session.complete_request(outcome);
    let screen = session.screen();
    assert_eq!(screen.url, "http://x/");
    assert_eq!(screen.response, "hello\nworld");
}

#[test]
fn body_mode_shows_the_body_text() {
    let mut session =
        Session::with_request_data(HashMap::new(), HashMap::new(), "{\"x\":1}".to_string());
    session.handle_key(Key::Char('B'));
    assert_eq!(session.options_text(), "Body: {\"x\":1}");
    assert_eq!(session.screen().options, "Body: {\"x\":1}");
}

#[test]
fn body_mode_over_an_empty_body() {
    let mut session = Session::new();
    session.handle_key(Key::Char('B'));
    assert_eq!(session.options_text(), "Body: ");
}

#[test]
fn headers_and_params_modes_show_the_map() {
    let mut session = Session::with_request_data(
        one_entry("Accept", "text/plain"),
        one_entry("page", "2"),
        "body".to_string(),
    );
    assert_eq!(session.options_text(), "Headers: {\"Accept\": \"text/plain\"}");
    session.handle_key(Key::Char('P'));
    assert_eq!(session.options_text(), "Params: {\"page\": \"2\"}");
    session.handle_key(Key::Char('H'));
    assert_eq!(session.screen().options, "Headers: {\"Accept\": \"text/plain\"}");
}

#[test]
fn params_mode_over_no_params() {
    let mut session = Session::new();
    session.handle_key(Key::Char('P'));
    assert_eq!(session.options_text(), "Params: {}");
}

#[test]
fn switching_modes_changes_only_the_options_pane() {
    let mut session = Session::with_request_data(
        one_entry("A", "b"),
        one_entry("c", "d"),
        "text".to_string(),
    );
    session.handle_key(Key::Char('u'));
    let first = session.screen();
    session.handle_key(Key::Char('B'));
    let second = session.screen();
    assert_eq!(first.methods, second.methods);
    assert_eq!(first.url, second.url);
    assert_eq!(first.response, second.response);
    assert_eq!(first.options, "Headers: {\"A\": \"b\"}");
    assert_eq!(second.options, "Body: text");
}
