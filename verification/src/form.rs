//! The form's state: two text buffers, the marker of the field that receives
//! input, and the message left by the last credential exchange.

use vstd::prelude::*;
use crate::exchange::{Credentials, CredentialsView};

verus! {

/// The field that currently receives character input.
#[derive(Clone, Copy, Debug, PartialEq, Eq, Structural)]
pub enum InputMode {
    Username,
    Password,
}

/// The mathematical value of a [`Login`].
#[verifier::ext_equal]
pub struct LoginView {
    pub username: Seq<char>,
    pub password: Seq<char>,
    pub input_mode: InputMode,
    pub status_message: Option<Seq<char>>,
}

impl LoginView {
    /// The form a session starts with: both buffers empty, the username field
    /// active, no message.
    pub open spec fn initial() -> LoginView {
        LoginView {
            username: Seq::empty(),
            password: Seq::empty(),
            input_mode: InputMode::Username,
            status_message: None,
        }
    }

    /// The buffer that `input_mode` selects.
    pub open spec fn active(self) -> Seq<char> {
        match self.input_mode {
            InputMode::Username => self.username,
            InputMode::Password => self.password,
        }
    }

    /// The buffer that `input_mode` does not select.
    pub open spec fn inactive(self) -> Seq<char> {
        match self.input_mode {
            InputMode::Username => self.password,
            InputMode::Password => self.username,
        }
    }

    /// This form with the active buffer replaced by `buffer`.
    pub open spec fn with_active(self, buffer: Seq<char>) -> LoginView {
        match self.input_mode {
            InputMode::Username => LoginView { username: buffer, ..self },
            InputMode::Password => LoginView { password: buffer, ..self },
        }
    }

    /// This form with `mode` as the active field.
    pub open spec fn with_mode(self, mode: InputMode) -> LoginView {
        LoginView { input_mode: mode, ..self }
    }

    /// This form with `message` as its status message.
    pub open spec fn with_status(self, message: Seq<char>) -> LoginView {
        LoginView { status_message: Some(message), ..self }
    }
}

/// A credential-entry form.
pub struct Login {
    username: String,
    password: String,
    input_mode: InputMode,
    status_message: Option<String>,
}

impl View for Login {
    type V = LoginView;

    closed spec fn view(&self) -> LoginView {
        LoginView {
            username: self.username@,
            password: self.password@,
            input_mode: self.input_mode,
            status_message: match self.status_message {
                Some(message) => Some(message@),
                None => None,
            },
        }
    }
}

impl Default for Login {
    /// The form a session starts with: empty, with the username field active.
    fn default() -> (login: Login)
        ensures
            login@ == LoginView::initial(),
    {
        Login {
            username: String::new(),
            password: String::new(),
            input_mode: InputMode::Username,
            status_message: None,
        }
    }
}

impl Login {
    /// The text in the username buffer.
    pub fn username(&self) -> (text: &str)
        ensures
            text@ == self@.username,
    {
        self.username.as_str()
    }

    /// The text in the password buffer.
    pub fn password(&self) -> (text: &str)
        ensures
            text@ == self@.password,
    {
        self.password.as_str()
    }

    /// The field that receives input.
    pub fn input_mode(&self) -> (mode: InputMode)
        ensures
            mode == self@.input_mode,
    {
        self.input_mode
    }

    /// The message left by the last completed exchange, if there was one.
    pub fn status_message(&self) -> (message: Option<&str>)
        ensures
            match message {
                Some(text) => self@.status_message == Some(text@),
                None => self@.status_message.is_none(),
            },
    {
        match &self.status_message {
            Some(text) => Some(text.as_str()),
            None => None,
        }
    }

    /// A copy of the username and the password as they stand.
    pub fn credentials(&self) -> (credentials: Credentials)
        ensures
            credentials@ == (CredentialsView {
                username: self@.username,
                password: self@.password,
            }),
    {
        Credentials { username: self.username.clone(), password: self.password.clone() }
    }

    /// Whether the active buffer holds no character.
    pub fn active_is_empty(&self) -> (empty: bool)
        ensures
            empty == (self@.active().len() == 0),
    {
        match self.input_mode {
            InputMode::Username => self.username.as_str().is_empty(),
            InputMode::Password => self.password.as_str().is_empty(),
        }
    }

    /// Appends `c` to the active buffer.
    pub(crate) fn push_char(&mut self, c: char)
        ensures
            final(self)@ == old(self)@.with_active(old(self)@.active().push(c)),
    {
        match self.input_mode {
            InputMode::Username => self.username.push(c),
            InputMode::Password => self.password.push(c),
        }
    }

    /// Removes the last character of the active buffer; an empty buffer stays
    /// as it is.
    pub(crate) fn delete_last(&mut self)
        ensures
            old(self)@.active().len() == 0 ==> final(self)@ == old(self)@,
            old(self)@.active().len() > 0 ==> final(self)@ == old(self)@.with_active(
                old(self)@.active().drop_last(),
            ),
    {
        match self.input_mode {
            InputMode::Username => {
                let _ = self.username.pop();
            },
            InputMode::Password => {
                let _ = self.password.pop();
            },
        }
    }

    /// Empties the active buffer.
    pub(crate) fn clear_active(&mut self)
        ensures
            final(self)@ == old(self)@.with_active(Seq::empty()),
    {
        match self.input_mode {
            InputMode::Username => self.username.clear(),
            InputMode::Password => self.password.clear(),
        }
    }

    /// Makes `mode` the active field.
    pub(crate) fn set_input_mode(&mut self, mode: InputMode)
        ensures
            final(self)@ == old(self)@.with_mode(mode),
    {
        self.input_mode = mode;
    }

    /// Replaces the status message by `message`.
    pub(crate) fn set_status_message(&mut self, message: String)
        ensures
            final(self)@ == old(self)@.with_status(message@),
    {
        self.status_message = Some(message);
    }
}

} // verus!
