use create_rust_plugin::context::Context;
use create_rust_plugin::filepicker_requests::{FilePickerRequests, PipeMessage};

fn answer(payload: Option<&str>, id: Option<&str>) -> PipeMessage {
    PipeMessage {
        name: "filepicker_result".to_string(),
        payload: payload.map(|p| p.to_string()),
        args: match id {
            Some(id) => Context::single("request_id".to_string(), id.to_string()),
            None => Context::new(),
        },
    }
}

fn is_uuid_v4(s: &str) -> bool {
    let b: Vec<char> = s.chars().collect();
    b.len() == 36
        && b.iter().enumerate().all(|(i, c)| {
            if [8, 13, 18, 23].contains(&i) {
                *c == '-'
            } else {
                c.is_ascii_hexdigit() && !c.is_ascii_uppercase()
            }
        })
        && b[14] == '4'
        && "89ab".contains(b[19])
}

#[test]
fn request_carries_a_fresh_id() {
    let mut requests = FilePickerRequests::default();
    let message = requests.send_filepicker_request();
    assert_eq!(message.message_name, "filepicker");
    assert_eq!(message.plugin_url, Some("filepicker".to_string()));
    assert_eq!(
        message.new_plugin_pane_title,
        Some("Select a a folder in which to create the new plugin...".to_string())
    );
    let id = message.message_args.get("request_id").unwrap();
    assert_eq!(message.plugin_config.get("request_id"), Some(id.clone()));
    assert!(is_uuid_v4(&id), "{}", id);
    let second = requests.send_filepicker_request();
    assert_ne!(second.message_args.get("request_id").unwrap(), id);
}

#[test]
fn answer_with_waiting_id_yields_folder_once() {
    let mut requests = FilePickerRequests::new();
    let message = requests.send_filepicker_request();
    let id = message.message_args.get("request_id").unwrap();
    let folder = requests.handle_filepicker_response(answer(Some("/home/aram/code"), Some(&id)));
    assert_eq!(folder, Some("/home/aram/code".to_string()));
    let again = requests.handle_filepicker_response(answer(Some("/home/aram/code"), Some(&id)));
    assert_eq!(again, None);
}

#[test]
fn answers_without_payload_or_known_id_yield_nothing() {
    let mut requests = FilePickerRequests::new();
    let message = requests.send_filepicker_request();
    let id = message.message_args.get("request_id").unwrap();
    assert_eq!(requests.handle_filepicker_response(answer(None, Some(&id))), None);
    assert_eq!(requests.handle_filepicker_response(answer(Some("/x"), None)), None);
    assert_eq!(requests.handle_filepicker_response(answer(Some("/x"), Some("other"))), None);
    // the question still waits
    assert_eq!(
        requests.handle_filepicker_response(answer(Some("/x"), Some(&id))),
        Some("/x".to_string())
    );
}

#[test]
fn two_questions_are_answered_in_any_order() {
    let mut requests = FilePickerRequests::new();
    let first = requests.send_filepicker_request().message_args.get("request_id").unwrap();
    let second = requests.send_filepicker_request().message_args.get("request_id").unwrap();
    assert_eq!(requests.handle_filepicker_response(answer(Some("/b"), Some(&second))), Some("/b".to_string()));
    assert_eq!(requests.handle_filepicker_response(answer(Some("/a"), Some(&first))), Some("/a".to_string()));
    assert_eq!(requests.handle_filepicker_response(answer(Some("/a"), Some(&first))), None);
}

#[test]
fn a_question_is_answered_at_most_once() {
    let mut requests = FilePickerRequests::new();
    let id = requests.send_filepicker_request().message_args.get("request_id").unwrap();
    let mut folders = 0;
    for _ in 0..3 {
        if requests.handle_filepicker_response(answer(Some("/tmp/projects"), Some(&id))).is_some() {
            folders += 1;
        }
    }
    assert_eq!(folders, 1);
}
