//! The orchestration core of an interactive coding assistant that can use tools.
//!
//! The core keeps the projects and their conversations, decides what a request to the model
//! holds, interprets what the model answers, lets tool calls run or wait as the tool gate
//! says, and bounds how often a conversation continues by itself. It does no input or output
//! of its own: every function takes what has arrived and returns what is left for the
//! caller to do.
//!
//! - [`state`] holds the application and its state, [`project`], [`history`] and [`message`]
//!   what a project is made of, and [`tools`] the tool kinds, tool sets and the tool gate.
//! - [`request`] builds generation requests; [`conversation`] sends and continues; [`turn`]
//!   handles the model's answers; [`event`] handles the user interface; [`event_loop`] ties
//!   the two sources together; [`effect`] names what is left to the caller.
//! - [`numeric`] reads the numbers that the user types, and [`ports`] finds a port to serve
//!   on.
//! - [`laws`] states what holds of all of this together.

pub mod conversation;
pub mod effect;
pub mod event;
pub mod event_loop;
pub mod history;
pub mod laws;
pub mod message;
pub mod numeric;
pub mod ports;
pub mod project;
pub mod request;
pub mod state;
pub mod tools;
pub mod turn;
