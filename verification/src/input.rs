//! The input state machine: one key at a time, it edits the form, asks for a
//! credential exchange, or signals that the session is over.
//!
//! The machine performs no exchange itself. When a key calls for one,
//! [`InputController::handle`] answers [`Action::Authenticate`] with the
//! credentials to exchange; the caller carries the exchange out and reports
//! its result through [`InputController::complete_exchange`].

use vstd::prelude::*;
use crate::exchange::{
    status_text, status_text_spec, AuthError, Credentials, CredentialsView, Token,
};
use crate::form::{InputMode, Login, LoginView};

verus! {

/// A key event, classified.
#[derive(Clone, Copy, Debug, PartialEq, Eq, Structural)]
pub enum KeyInput {
    /// A printable character.
    Char(char),
    /// Delete the last character (Backspace).
    DeleteLast,
    /// Confirm the field (Enter).
    Confirm,
    /// Cancel (Esc).
    Cancel,
    /// Any other key.
    Other,
}

/// The mathematical value of an [`Action`].
#[verifier::ext_equal]
pub enum ActionView {
    Continue,
    Authenticate(CredentialsView),
    Terminate,
}

/// What the caller is to do after a key was handled.
#[derive(Debug, PartialEq, Eq)]
pub enum Action {
    /// Go on with the next key.
    Continue,
    /// Exchange these credentials for a token, report the result, then go on
    /// with the next key.
    Authenticate(Credentials),
    /// End the session.
    Terminate,
}

impl View for Action {
    type V = ActionView;

    open spec fn view(&self) -> ActionView {
        match self {
            Action::Continue => ActionView::Continue,
            Action::Authenticate(credentials) => ActionView::Authenticate(credentials@),
            Action::Terminate => ActionView::Terminate,
        }
    }
}

/// What confirming the password field does.
#[derive(Clone, Copy, Debug, PartialEq, Eq, Structural)]
pub enum ConfirmPolicy {
    /// Ask for an exchange of the form's username and password, and stay in
    /// the password field.
    Authenticate,
    /// Go back to the username field without any exchange.
    ReturnToUsername,
}

/// The form after a key, and what the caller is to do.
#[verifier::ext_equal]
pub struct Transition {
    pub state: LoginView,
    pub action: ActionView,
}

/// The effect of one key on a form, under a policy for confirming the
/// password field.
pub open spec fn step(s: LoginView, policy: ConfirmPolicy, key: KeyInput) -> Transition {
    match key {
        KeyInput::Char(c) => Transition {
            state: s.with_active(s.active().push(c)),
            action: ActionView::Continue,
        },
        KeyInput::DeleteLast => Transition {
            state: if s.active().len() == 0 {
                s
            } else {
                s.with_active(s.active().drop_last())
            },
            action: ActionView::Continue,
        },
        KeyInput::Confirm => match s.input_mode {
            InputMode::Username => Transition {
                state: s.with_mode(InputMode::Password),
                action: ActionView::Continue,
            },
            InputMode::Password => match policy {
                ConfirmPolicy::Authenticate => Transition {
                    state: s,
                    action: ActionView::Authenticate(
                        CredentialsView { username: s.username, password: s.password },
                    ),
                },
                ConfirmPolicy::ReturnToUsername => Transition {
                    state: s.with_mode(InputMode::Username),
                    action: ActionView::Continue,
                },
            },
        },
        KeyInput::Cancel => if s.active().len() == 0 {
            Transition { state: s, action: ActionView::Terminate }
        } else {
            Transition { state: s.with_active(Seq::empty()), action: ActionView::Continue }
        },
        KeyInput::Other => Transition { state: s, action: ActionView::Continue },
    }
}

/// The form after a run of keys, the action that ended the run, and how many
/// keys were handled.
#[verifier::ext_equal]
pub struct Trace {
    pub state: LoginView,
    pub action: ActionView,
    pub handled: nat,
}

/// The effect of handling `keys` in order, up to and including the first key
/// that asks for anything but the next key.
pub open spec fn run(s: LoginView, policy: ConfirmPolicy, keys: Seq<KeyInput>) -> Trace
    decreases keys.len(),
{
    if keys.len() == 0 {
        Trace { state: s, action: ActionView::Continue, handled: 0 }
    } else {
        let before = run(s, policy, keys.drop_last());
        if before.action == ActionView::Continue {
            let last = step(before.state, policy, keys.last());
            Trace { state: last.state, action: last.action, handled: before.handled + 1 }
        } else {
            before
        }
    }
}

/// The characters that the character keys among `keys` carry, in order.
pub open spec fn text_of(keys: Seq<KeyInput>) -> Seq<char>
    decreases keys.len(),
{
    if keys.len() == 0 {
        Seq::empty()
    } else {
        match keys.last() {
            KeyInput::Char(c) => text_of(keys.drop_last()).push(c),
            _ => text_of(keys.drop_last()),
        }
    }
}

/// Whether every key of `keys` is a character key.
pub open spec fn all_characters(keys: Seq<KeyInput>) -> bool {
    forall|i: int| 0 <= i < keys.len() ==> keys[i] is Char
}

/// The input state machine, configured with what confirming the password
/// field does.
#[derive(Clone, Copy, Debug)]
pub struct InputController {
    pub policy: ConfirmPolicy,
}

impl InputController {
    /// A controller with the given policy.
    pub fn new(policy: ConfirmPolicy) -> (controller: InputController)
        ensures
            controller.policy == policy,
    {
        InputController { policy }
    }

    /// Handles one key.
    pub fn handle(&self, state: &mut Login, key: KeyInput) -> (action: Action)
        ensures
            final(state)@ == step(old(state)@, self.policy, key).state,
            action@ == step(old(state)@, self.policy, key).action,
    {
        match key {
            KeyInput::Char(c) => {
                state.push_char(c);
                Action::Continue
            },
            KeyInput::DeleteLast => {
                state.delete_last();
                Action::Continue
            },
            KeyInput::Confirm => match state.input_mode() {
                InputMode::Username => {
                    state.set_input_mode(InputMode::Password);
                    Action::Continue
                },
                InputMode::Password => match self.policy {
                    ConfirmPolicy::Authenticate => Action::Authenticate(state.credentials()),
                    ConfirmPolicy::ReturnToUsername => {
                        state.set_input_mode(InputMode::Username);
                        Action::Continue
                    },
                },
            },
            KeyInput::Cancel => {
                if state.active_is_empty() {
                    Action::Terminate
                } else {
                    state.clear_active();
                    Action::Continue
                }
            },
            KeyInput::Other => Action::Continue,
        }
    }

    /// Records the result of the exchange that [`Action::Authenticate`] asked
    /// for: the token, or the failure's description, replaces the status
    /// message. Buffers and active field stay as they are, and the session
    /// goes on whether the exchange succeeded or failed.
    pub fn complete_exchange(
        &self,
        state: &mut Login,
        result: &Result<Token, AuthError>,
    ) -> (action: Action)
        ensures
            final(state)@ == old(state)@.with_status(status_text_spec(*result)),
            action@ == ActionView::Continue,
    {
        state.set_status_message(status_text(result));
        Action::Continue
    }

    /// Handles `keys` in order and stops after the first one that asks for an
    /// exchange or ends the session. Returns how many keys were handled and
    /// the action of the last of them (`Continue` when there was none).
    pub fn feed(&self, state: &mut Login, keys: &[KeyInput]) -> (result: (usize, Action))
        ensures
            final(state)@ == run(old(state)@, self.policy, keys@).state,
            result.1@ == run(old(state)@, self.policy, keys@).action,
            result.0 == run(old(state)@, self.policy, keys@).handled,
            result.0 <= keys@.len(),
            result.1@ == ActionView::Continue ==> result.0 == keys@.len(),
    {
        proof {
            lemma_run_handled(old(state)@, self.policy, keys@);
        }
        let mut i: usize = 0;
        while i < keys.len()
            invariant
                i <= keys.len(),
                run(old(state)@, self.policy, keys@.take(i as int)) == (Trace {
                    state: state@,
                    action: ActionView::Continue,
                    handled: i as nat,
                }),
            decreases keys.len() - i,
        {
            let action = self.handle(state, keys[i]);
            i += 1;
            proof {
                assert(keys@.take(i as int).drop_last() == keys@.take(i - 1));
            }
            match action {
                Action::Continue => {},
                _ => {
                    proof {
                        lemma_run_stops(old(state)@, self.policy, keys@, i as int);
                    }
                    return (i, action);
                },
            }
        }
        proof {
            assert(keys@.take(i as int) == keys@);
        }
        (i, Action::Continue)
    }
}

/// Once a run has met a key that asks for an exchange or ends the session,
/// the keys behind it change nothing.
pub proof fn lemma_run_stops(s: LoginView, policy: ConfirmPolicy, keys: Seq<KeyInput>, n: int)
    requires
        0 <= n <= keys.len(),
        run(s, policy, keys.take(n)).action != ActionView::Continue,
    ensures
        run(s, policy, keys) == run(s, policy, keys.take(n)),
    decreases keys.len(),
{
    if n == keys.len() {
        assert(keys.take(n) == keys);
    } else {
        assert(keys.drop_last().take(n) == keys.take(n));
        lemma_run_stops(s, policy, keys.drop_last(), n);
    }
}

/// Typing appends, in order, to the active buffer and to nothing else: after
/// a run of character keys the active buffer is what it was, followed by the
/// characters of those keys; the other buffer, the active field and the
/// status message are unchanged, every key was handled, and none ended the
/// session. With the username field active it is the username that grows,
/// and the password stays untouched.
pub proof fn lemma_typing_appends(s: LoginView, policy: ConfirmPolicy, keys: Seq<KeyInput>)
    requires
        all_characters(keys),
    ensures
        run(s, policy, keys) == (Trace {
            state: s.with_active(s.active() + text_of(keys)),
            action: ActionView::Continue,
            handled: keys.len(),
        }),
        s.input_mode == InputMode::Username ==> {
            &&& run(s, policy, keys).state.username == s.username + text_of(keys)
            &&& run(s, policy, keys).state.password == s.password
        },
        text_of(keys).len() == keys.len(),
        forall|i: int| 0 <= i < keys.len() ==> keys[i] == KeyInput::Char(#[trigger] text_of(keys)[i]),
    decreases keys.len(),
{
    if keys.len() == 0 {
        assert(s.active() + text_of(keys) == s.active());
        assert(s.with_active(s.active()) == s);
    } else {
        let front = keys.drop_last();
        lemma_typing_appends(s, policy, front);
        let c = keys.last()->Char_0;
        let before = s.with_active(s.active() + text_of(front));
        assert(before.active() == s.active() + text_of(front));
        assert((s.active() + text_of(front)).push(c) == s.active() + text_of(keys));
        assert(before.with_active(before.active().push(c)) == s.with_active(
            s.active() + text_of(keys),
        ));
    }
}

/// Deleting from an empty active buffer changes nothing and does not end the
/// session.
pub proof fn lemma_delete_on_empty(s: LoginView, policy: ConfirmPolicy)
    requires
        s.active().len() == 0,
    ensures
        step(s, policy, KeyInput::DeleteLast) == (Transition { state: s, action: ActionView::Continue }),
{
}

/// Cancel on an empty active buffer ends the session and leaves the form as
/// it is. Cancel on a non-empty active buffer empties that buffer, leaves the
/// rest of the form as it is, and does not end the session.
pub proof fn lemma_cancel(s: LoginView, policy: ConfirmPolicy)
    ensures
        s.active().len() == 0 ==> step(s, policy, KeyInput::Cancel) == (Transition {
            state: s,
            action: ActionView::Terminate,
        }),
        s.active().len() > 0 ==> {
            &&& step(s, policy, KeyInput::Cancel).action == ActionView::Continue
            &&& step(s, policy, KeyInput::Cancel).state == s.with_active(Seq::empty())
            &&& step(s, policy, KeyInput::Cancel).state.active().len() == 0
            &&& step(s, policy, KeyInput::Cancel).state.inactive() == s.inactive()
        },
{
}

/// Confirm in the username field moves to the password field, whatever the
/// buffers hold and whatever the policy; nothing else changes and the
/// session goes on.
pub proof fn lemma_confirm_username(s: LoginView, policy: ConfirmPolicy)
    requires
        s.input_mode == InputMode::Username,
    ensures
        step(s, policy, KeyInput::Confirm) == (Transition {
            state: s.with_mode(InputMode::Password),
            action: ActionView::Continue,
        }),
        step(s, policy, KeyInput::Confirm).state.input_mode == InputMode::Password,
        step(s, policy, KeyInput::Confirm).state.username == s.username,
        step(s, policy, KeyInput::Confirm).state.password == s.password,
{
}

/// Confirm in the password field leaves the form as it is and asks for an
/// exchange of exactly the form's username and password, where the policy is
/// to authenticate; it moves to the username field, with no exchange, where
/// the policy is to return there.
pub proof fn lemma_confirm_password(s: LoginView, policy: ConfirmPolicy)
    requires
        s.input_mode == InputMode::Password,
    ensures
        policy == ConfirmPolicy::Authenticate ==> step(s, policy, KeyInput::Confirm) == (Transition {
            state: s,
            action: ActionView::Authenticate(
                CredentialsView { username: s.username, password: s.password },
            ),
        }),
        policy == ConfirmPolicy::ReturnToUsername ==> step(s, policy, KeyInput::Confirm)
            == (Transition {
            state: s.with_mode(InputMode::Username),
            action: ActionView::Continue,
        }),
{
}

/// Only confirming the password field asks for an exchange, and only under
/// the policy to authenticate.
pub proof fn lemma_exchange_only_on_confirm(s: LoginView, policy: ConfirmPolicy, key: KeyInput)
    ensures
        step(s, policy, key).action is Authenticate <==> key == KeyInput::Confirm && s.input_mode
            == InputMode::Password && policy == ConfirmPolicy::Authenticate,
{
}

/// No key writes the buffer of the field that is not active.
pub proof fn lemma_key_keeps_inactive_buffer(s: LoginView, policy: ConfirmPolicy, key: KeyInput)
    ensures
        s.input_mode == InputMode::Username ==> step(s, policy, key).state.password == s.password,
        s.input_mode == InputMode::Password ==> step(s, policy, key).state.username == s.username,
{
}

/// No key writes the status message.
pub proof fn lemma_key_keeps_status(s: LoginView, policy: ConfirmPolicy, key: KeyInput)
    ensures
        step(s, policy, key).state.status_message == s.status_message,
{
}

/// No run of keys writes the status message: only a completed exchange does.
pub proof fn lemma_run_keeps_status(s: LoginView, policy: ConfirmPolicy, keys: Seq<KeyInput>)
    ensures
        run(s, policy, keys).state.status_message == s.status_message,
    decreases keys.len(),
{
    if keys.len() > 0 {
        lemma_run_keeps_status(s, policy, keys.drop_last());
    }
}

/// A run handles at most the keys it is given, and all of them unless one
/// asked for an exchange or ended the session.
pub proof fn lemma_run_handled(s: LoginView, policy: ConfirmPolicy, keys: Seq<KeyInput>)
    ensures
        run(s, policy, keys).handled <= keys.len(),
        run(s, policy, keys).action == ActionView::Continue ==> run(s, policy, keys).handled
            == keys.len(),
    decreases keys.len(),
{
    if keys.len() > 0 {
        lemma_run_handled(s, policy, keys.drop_last());
    }
}

} // verus!
