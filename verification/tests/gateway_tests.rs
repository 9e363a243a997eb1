use paste_gateway::gateway::{
    config_flow, edit_flow, view_on_increment, view_on_lookup, view_on_views, ConfigResult,
    EditResult, ViewResult, ViewStep,
};
use paste_gateway::model::{Paste, PasteMetadata, PasteViewQuery};
use paste_gateway::render::render_content;

fn paste(url: &str, content: &str, title: &str, view_password: &str) -> Paste {
    Paste {
        url: String::from(url),
        content: String::from(content),
        metadata: PasteMetadata {
            title: String::from(title),
            view_password: String::from(view_password),
        },
    }
}

fn query(view_password: &str) -> PasteViewQuery {
    PasteViewQuery { view_password: String::from(view_password) }
}

#[test]
fn open_paste_is_rendered_with_identifier_title() {
    // An unprotected paste, feature flag off: look up, increment, read.
    let step = view_on_lookup(Ok(paste("abc", "# Hi", "", "")));
    let p = match step {
        ViewStep::Increment { paste } => paste,
        _ => panic!("expected an increment request"),
    };
    let step = view_on_increment(p, Ok(()), &query(""), false);
    let p = match step {
        ViewStep::ReadViews { paste } => paste,
        _ => panic!("expected a view-count read"),
    };
    match view_on_views(p, 1) {
        ViewResult::Viewed { rendered, title, views, .. } => {
            assert!(rendered.contains("<h1"));
            assert_eq!(title, String::from("abc"));
            assert_eq!(views, 1);
        }
        _ => panic!("expected a rendered view"),
    }
}

#[test]
fn missing_credential_is_challenged() {
    let step = view_on_lookup(Ok(paste("x", "content", "", "s3cret")));
    let p = match step {
        ViewStep::Increment { paste } => paste,
        _ => panic!("expected an increment request"),
    };
    match view_on_increment(p, Ok(()), &query(""), true) {
        ViewStep::Done { result: ViewResult::PasswordChallenge { paste } } => {
            assert_eq!(paste.url, String::from("x"));
        }
        _ => panic!("expected a password challenge"),
    }
}

#[test]
fn correct_credential_is_viewed_with_count() {
    let step = view_on_lookup(Ok(paste("x", "content", "", "s3cret")));
    let p = match step {
        ViewStep::Increment { paste } => paste,
        _ => panic!("expected an increment request"),
    };
    let step = view_on_increment(p, Ok(()), &query("s3cret"), true);
    let p = match step {
        ViewStep::ReadViews { paste } => paste,
        _ => panic!("expected a view-count read"),
    };
    let expected = render_content(&String::from("content"));
    match view_on_views(p, 7) {
        ViewResult::Viewed { rendered, views, .. } => {
            assert_eq!(rendered, expected);
            assert_eq!(views, 7);
        }
        _ => panic!("expected a rendered view"),
    }
}

#[test]
fn wrong_credential_is_challenged_not_error() {
    let step = view_on_lookup(Ok(paste("x", "content", "", "s3cret")));
    let p = match step {
        ViewStep::Increment { paste } => paste,
        _ => panic!("expected an increment request"),
    };
    match view_on_increment(p, Ok(()), &query("wrong"), true) {
        ViewStep::Done { result } => {
            assert!(matches!(result, ViewResult::PasswordChallenge { .. }));
            assert!(!matches!(result, ViewResult::Error { .. }));
        }
        _ => panic!("expected a finished flow"),
    }
}

#[test]
fn failed_lookup_is_terminal() {
    match view_on_lookup(Err(String::from("store unavailable"))) {
        ViewStep::Done { result: ViewResult::Error { message } } => {
            assert_eq!(message, String::from("store unavailable"));
        }
        _ => panic!("a failed lookup must end the flow"),
    }
}

#[test]
fn failed_increment_is_terminal_even_when_allowed() {
    // The paste is unprotected, so access would have been allowed.
    let p = paste("abc", "# Hi", "", "");
    match view_on_increment(p, Err(String::from("counter unavailable")), &query(""), false) {
        ViewStep::Done { result: ViewResult::Error { message } } => {
            assert_eq!(message, String::from("counter unavailable"));
        }
        _ => panic!("a failed increment must end the flow"),
    }
}

#[test]
fn edit_flow_returns_raw_source() {
    match edit_flow(Ok(paste("abc", "# Hi", "", "")), &query(""), false) {
        EditResult::EditForm { paste } => {
            assert_eq!(paste.content, String::from("# Hi"));
        }
        _ => panic!("expected the edit form"),
    }
}

#[test]
fn edit_flow_challenges_and_errors() {
    match edit_flow(Ok(paste("x", "content", "", "s3cret")), &query(""), true) {
        EditResult::PasswordChallenge { .. } => {}
        _ => panic!("expected a password challenge"),
    }
    match edit_flow(Err(String::from("store unavailable")), &query(""), true) {
        EditResult::Error { message } => {
            assert_eq!(message, String::from("store unavailable"));
        }
        _ => panic!("expected an error"),
    }
}

#[test]
fn config_flow_carries_encoded_metadata() {
    match config_flow(Ok(paste("abc", "# Hi", "Custom", "")), &query(""), false) {
        ConfigResult::ConfigForm { paste, paste_metadata } => {
            assert_eq!(paste.url, String::from("abc"));
            assert_eq!(
                paste_metadata,
                String::from("{\"title\":\"Custom\",\"view_password\":\"\"}")
            );
        }
        _ => panic!("expected the config form"),
    }
}

#[test]
fn config_flow_challenges_and_errors() {
    match config_flow(Ok(paste("x", "content", "", "s3cret")), &query("wrong"), true) {
        ConfigResult::PasswordChallenge { .. } => {}
        _ => panic!("expected a password challenge"),
    }
    match config_flow(Err(String::from("store unavailable")), &query(""), true) {
        ConfigResult::Error { message } => {
            assert_eq!(message, String::from("store unavailable"));
        }
        _ => panic!("expected an error"),
    }
}
