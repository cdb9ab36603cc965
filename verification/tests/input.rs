use login_form::{
    Action, AuthError, ConfirmPolicy, Credentials, InputController, InputMode, KeyInput, Login, Token,
};

fn type_text(controller: &InputController, state: &mut Login, text: &str) {
    for c in text.chars() {
        assert_eq!(controller.handle(state, KeyInput::Char(c)), Action::Continue);
    }
}

#[test]
fn new_form_is_empty_with_username_active() {
    let state = Login::default();
    assert_eq!(state.username(), "");
    assert_eq!(state.password(), "");
    assert_eq!(state.input_mode(), InputMode::Username);
    assert_eq!(state.status_message(), None);
    assert!(state.active_is_empty());
}

#[test]
fn typing_in_username_field_appends_in_order() {
    let controller = InputController::new(ConfirmPolicy::Authenticate);
    let mut state = Login::default();
    type_text(&controller, &mut state, "alice");
    assert_eq!(state.username(), "alice");
    assert_eq!(state.password(), "");
    assert_eq!(state.input_mode(), InputMode::Username);
    assert_eq!(state.status_message(), None);
    type_text(&controller, &mut state, " B\u{e9}");
    assert_eq!(state.username(), "alice B\u{e9}");
    assert_eq!(state.password(), "");
}

#[test]
fn typing_in_password_field_leaves_username() {
    let controller = InputController::new(ConfirmPolicy::Authenticate);
    let mut state = Login::default();
    type_text(&controller, &mut state, "bob");
    assert_eq!(controller.handle(&mut state, KeyInput::Confirm), Action::Continue);
    type_text(&controller, &mut state, "s3cret");
    assert_eq!(state.username(), "bob");
    assert_eq!(state.password(), "s3cret");
    assert_eq!(state.input_mode(), InputMode::Password);
}

#[test]
fn delete_last_on_empty_buffer_does_nothing() {
    let controller = InputController::new(ConfirmPolicy::Authenticate);
    let mut state = Login::default();
    assert_eq!(controller.handle(&mut state, KeyInput::DeleteLast), Action::Continue);
    assert_eq!(state.username(), "");
    assert_eq!(state.username().len(), 0);
    assert_eq!(state.password(), "");
    assert_eq!(state.input_mode(), InputMode::Username);

    type_text(&controller, &mut state, "u");
    controller.handle(&mut state, KeyInput::Confirm);
    assert_eq!(controller.handle(&mut state, KeyInput::DeleteLast), Action::Continue);
    assert_eq!(state.password(), "");
    assert_eq!(state.username(), "u");
    assert_eq!(state.input_mode(), InputMode::Password);
}

#[test]
fn delete_last_removes_one_character_of_active_buffer() {
    let controller = InputController::new(ConfirmPolicy::Authenticate);
    let mut state = Login::default();
    type_text(&controller, &mut state, "abc");
    assert_eq!(controller.handle(&mut state, KeyInput::DeleteLast), Action::Continue);
    assert_eq!(state.username(), "ab");
    controller.handle(&mut state, KeyInput::Confirm);
    type_text(&controller, &mut state, "xy\u{fc}");
    assert_eq!(controller.handle(&mut state, KeyInput::DeleteLast), Action::Continue);
    assert_eq!(state.password(), "xy");
    assert_eq!(state.username(), "ab");
    controller.handle(&mut state, KeyInput::DeleteLast);
    controller.handle(&mut state, KeyInput::DeleteLast);
    controller.handle(&mut state, KeyInput::DeleteLast);
    assert_eq!(state.password(), "");
    assert_eq!(state.username(), "ab");
}

#[test]
fn cancel_on_empty_buffer_ends_session() {
    let controller = InputController::new(ConfirmPolicy::Authenticate);
    let mut state = Login::default();
    assert_eq!(controller.handle(&mut state, KeyInput::Cancel), Action::Terminate);
    assert_eq!(state.username(), "");
    assert_eq!(state.input_mode(), InputMode::Username);

    let mut state = Login::default();
    type_text(&controller, &mut state, "carol");
    controller.handle(&mut state, KeyInput::Confirm);
    assert_eq!(controller.handle(&mut state, KeyInput::Cancel), Action::Terminate);
    assert_eq!(state.username(), "carol");
    assert_eq!(state.password(), "");
    assert_eq!(state.input_mode(), InputMode::Password);
}

#[test]
fn cancel_on_non_empty_buffer_clears_it() {
    let controller = InputController::new(ConfirmPolicy::Authenticate);
    let mut state = Login::default();
    type_text(&controller, &mut state, "carol");
    assert_eq!(controller.handle(&mut state, KeyInput::Cancel), Action::Continue);
    assert_eq!(state.username(), "");
    assert_eq!(state.username().len(), 0);
    assert_eq!(state.input_mode(), InputMode::Username);

    type_text(&controller, &mut state, "dave");
    controller.handle(&mut state, KeyInput::Confirm);
    type_text(&controller, &mut state, "pw");
    assert_eq!(controller.handle(&mut state, KeyInput::Cancel), Action::Continue);
    assert_eq!(state.password(), "");
    assert_eq!(state.username(), "dave");
    assert_eq!(state.input_mode(), InputMode::Password);
    assert_eq!(controller.handle(&mut state, KeyInput::Cancel), Action::Terminate);
}

#[test]
fn confirm_in_username_field_moves_to_password() {
    for policy in [ConfirmPolicy::Authenticate, ConfirmPolicy::ReturnToUsername] {
        let controller = InputController::new(policy);
        let mut state = Login::default();
        assert_eq!(controller.handle(&mut state, KeyInput::Confirm), Action::Continue);
        assert_eq!(state.input_mode(), InputMode::Password);
        assert_eq!(state.username(), "");
        assert_eq!(state.password(), "");

        let mut state = Login::default();
        type_text(&controller, &mut state, "erin");
        assert_eq!(controller.handle(&mut state, KeyInput::Confirm), Action::Continue);
        assert_eq!(state.input_mode(), InputMode::Password);
        assert_eq!(state.username(), "erin");
        assert_eq!(state.password(), "");
    }
}

#[test]
fn confirm_in_password_field_asks_for_exchange() {
    let controller = InputController::new(ConfirmPolicy::Authenticate);
    let mut state = Login::default();
    type_text(&controller, &mut state, "alice");
    controller.handle(&mut state, KeyInput::Confirm);
    type_text(&controller, &mut state, "correct-pw");
    assert_eq!(
        controller.handle(&mut state, KeyInput::Confirm),
        Action::Authenticate(Credentials {
            username: "alice".to_string(),
            password: "correct-pw".to_string(),
        })
    );
    assert_eq!(state.username(), "alice");
    assert_eq!(state.password(), "correct-pw");
    assert_eq!(state.input_mode(), InputMode::Password);
    assert_eq!(state.status_message(), None);
}

#[test]
fn confirm_in_password_field_can_return_to_username() {
    let controller = InputController::new(ConfirmPolicy::ReturnToUsername);
    let mut state = Login::default();
    type_text(&controller, &mut state, "alice");
    controller.handle(&mut state, KeyInput::Confirm);
    type_text(&controller, &mut state, "pw");
    assert_eq!(controller.handle(&mut state, KeyInput::Confirm), Action::Continue);
    assert_eq!(state.input_mode(), InputMode::Username);
    assert_eq!(state.username(), "alice");
    assert_eq!(state.password(), "pw");
    assert_eq!(state.status_message(), None);
    type_text(&controller, &mut state, "!");
    assert_eq!(state.username(), "alice!");
}

#[test]
fn confirm_with_empty_password_still_asks_for_exchange() {
    let controller = InputController::new(ConfirmPolicy::Authenticate);
    let mut state = Login::default();
    controller.handle(&mut state, KeyInput::Confirm);
    assert_eq!(
        controller.handle(&mut state, KeyInput::Confirm),
        Action::Authenticate(Credentials { username: String::new(), password: String::new() })
    );
    assert_eq!(state.input_mode(), InputMode::Password);
}

#[test]
fn credentials_copy_both_buffers() {
    let controller = InputController::new(ConfirmPolicy::ReturnToUsername);
    let mut state = Login::default();
    type_text(&controller, &mut state, "gil");
    controller.handle(&mut state, KeyInput::Confirm);
    type_text(&controller, &mut state, "hunter2");
    assert_eq!(
        state.credentials(),
        Credentials { username: "gil".to_string(), password: "hunter2".to_string() }
    );
    assert_eq!(state.username(), "gil");
    assert_eq!(state.password(), "hunter2");
}

#[test]
fn other_keys_have_no_effect() {
    let controller = InputController::new(ConfirmPolicy::Authenticate);
    let mut state = Login::default();
    assert_eq!(controller.handle(&mut state, KeyInput::Other), Action::Continue);
    assert_eq!(state.username(), "");
    type_text(&controller, &mut state, "f");
    controller.handle(&mut state, KeyInput::Confirm);
    type_text(&controller, &mut state, "g");
    assert_eq!(controller.handle(&mut state, KeyInput::Other), Action::Continue);
    assert_eq!(state.username(), "f");
    assert_eq!(state.password(), "g");
    assert_eq!(state.input_mode(), InputMode::Password);
    assert_eq!(state.status_message(), None);
}

#[test]
fn end_to_end_typing_confirm_and_cancel() {
    let keys = [
        KeyInput::Char('a'),
        KeyInput::Char('b'),
        KeyInput::Confirm,
        KeyInput::Char('x'),
        KeyInput::Cancel,
    ];
    let controller = InputController::new(ConfirmPolicy::Authenticate);
    let mut state = Login::default();
    for key in keys {
        assert_ne!(controller.handle(&mut state, key), Action::Terminate);
    }
    assert_eq!(state.username(), "ab");
    assert_eq!(state.password(), "");
    assert_eq!(state.input_mode(), InputMode::Password);

    let mut state = Login::default();
    assert_eq!(controller.feed(&mut state, &keys), (5, Action::Continue));
    assert_eq!(state.username(), "ab");
    assert_eq!(state.password(), "");
    assert_eq!(state.input_mode(), InputMode::Password);
    assert_eq!(state.status_message(), None);
}

#[test]
fn feed_stops_at_first_key_that_is_not_continue() {
    let controller = InputController::new(ConfirmPolicy::Authenticate);
    let mut state = Login::default();
    let keys = [
        KeyInput::Char('u'),
        KeyInput::Confirm,
        KeyInput::Char('p'),
        KeyInput::Confirm,
        KeyInput::Char('q'),
        KeyInput::Cancel,
    ];
    assert_eq!(
        controller.feed(&mut state, &keys),
        (
            4,
            Action::Authenticate(Credentials {
                username: "u".to_string(),
                password: "p".to_string(),
            })
        )
    );
    assert_eq!(state.username(), "u");
    assert_eq!(state.password(), "p");
    assert_eq!(state.input_mode(), InputMode::Password);

    let mut state = Login::default();
    let keys = [KeyInput::Other, KeyInput::Cancel, KeyInput::Char('z')];
    assert_eq!(controller.feed(&mut state, &keys), (2, Action::Terminate));
    assert_eq!(state.username(), "");

    let mut state = Login::default();
    assert_eq!(controller.feed(&mut state, &[]), (0, Action::Continue));
    assert_eq!(state.username(), "");
    assert_eq!(state.input_mode(), InputMode::Username);
}

#[test]
fn completed_exchange_writes_status_message() {
    let controller = InputController::new(ConfirmPolicy::Authenticate);
    let mut state = Login::default();
    type_text(&controller, &mut state, "alice");
    controller.handle(&mut state, KeyInput::Confirm);
    type_text(&controller, &mut state, "pw");
    assert!(matches!(controller.handle(&mut state, KeyInput::Confirm), Action::Authenticate(_)));

    assert_eq!(
        controller.complete_exchange(&mut state, &Err(AuthError::InvalidCredentials)),
        Action::Continue
    );
    assert_eq!(state.status_message(), Some("Unable to log in with the provided credentials"));
    assert_eq!(state.username(), "alice");
    assert_eq!(state.password(), "pw");
    assert_eq!(state.input_mode(), InputMode::Password);

    controller.complete_exchange(
        &mut state,
        &Err(AuthError::TransportError("connection refused".to_string())),
    );
    assert_eq!(state.status_message(), Some("connection refused"));

    controller.complete_exchange(
        &mut state,
        &Err(AuthError::DeserializationError("missing field `token`".to_string())),
    );
    assert_eq!(state.status_message(), Some("missing field `token`"));

    assert_eq!(
        controller.complete_exchange(&mut state, &Ok(Token("abc123".to_string()))),
        Action::Continue
    );
    assert_eq!(state.status_message(), Some("abc123"));
    assert_eq!(state.username(), "alice");
    assert_eq!(state.password(), "pw");
    assert_eq!(state.input_mode(), InputMode::Password);
}

#[test]
fn keys_leave_status_message_alone() {
    let controller = InputController::new(ConfirmPolicy::Authenticate);
    let mut state = Login::default();
    controller.complete_exchange(&mut state, &Ok(Token("tok".to_string())));
    let keys = [
        KeyInput::Char('a'),
        KeyInput::DeleteLast,
        KeyInput::DeleteLast,
        KeyInput::Char('b'),
        KeyInput::Cancel,
        KeyInput::Other,
        KeyInput::Confirm,
        KeyInput::Char('c'),
        KeyInput::Confirm,
        KeyInput::Cancel,
        KeyInput::Cancel,
    ];
    for key in keys {
        controller.handle(&mut state, key);
        assert_eq!(state.status_message(), Some("tok"));
    }
}

#[test]
fn controller_keeps_its_policy() {
    assert_eq!(InputController::new(ConfirmPolicy::Authenticate).policy, ConfirmPolicy::Authenticate);
    assert_eq!(
        InputController::new(ConfirmPolicy::ReturnToUsername).policy,
        ConfirmPolicy::ReturnToUsername
    );
}
