//! A credential-entry form for a text console.
//!
//! - [`form`]: the form's state, two text buffers, the active field and a
//!   status message.
//! - [`input`]: the state machine that takes one key at a time and edits the
//!   form, asks for a credential exchange, or ends the session.
//! - [`exchange`]: the request that an exchange sends and the classification
//!   of what comes back.
//! - [`projector`]: the projection of the form onto two panels for a
//!   renderer.
//! - [`text`]: the contracts of the `String` operations that edit a buffer.
//!
//! The library reads no key, draws nothing and opens no connection: its
//! caller does, and hands over what it read or received.

pub mod exchange;
pub mod form;
pub mod input;
pub mod projector;
pub mod text;

pub use exchange::{AuthError, Credentials, Endpoint, ExchangeRequest, Method, Reply, Token};
pub use form::{InputMode, Login, LoginView};
pub use input::{Action, ConfirmPolicy, InputController, KeyInput};
pub use projector::{project, Emphasis, Layout, Panel};
