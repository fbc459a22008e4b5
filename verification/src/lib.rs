//! Protocol core of a paced publish/subscribe benchmark: the message
//! envelope and its wire form, the publisher's emission schedule, and the
//! subscriber's classification automaton with its run statistics.

pub mod clock;
pub mod envelope;
pub mod json;
pub mod laws;
pub mod publisher;
pub mod subscriber;
pub mod text;
