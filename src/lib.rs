//! Client library for a hosted publish/subscribe event service.
//!
//! The library plans every HTTP exchange (method, address, headers, body),
//! judges every reply, and drives the three-step wait-group protocol as a
//! state machine. Sending the requests is left to the embedding program.
pub mod admin;
pub mod client;
pub mod decimal;
pub mod envelope;
pub mod json;
pub mod laws;
pub mod request;
pub mod waitgroup;

pub use admin::{AdminClient, FilterOption, RegisterResult};
pub use client::{
    ClientView, Event, EventResponse, EventsPage, GetEventsResponse, GetOption, PublishBuilder,
    PublishResponse, SailhouseClient,
};
pub use decimal::decimal;
pub use envelope::{PublishBody, Timestamp};
pub use json::{encode_object, encode_string_map};
pub use request::{judge, Error, Expect, Method, Reply, Request, RequestView, Success};
pub use waitgroup::{
    Stage, WaitError, WaitEvent, WaitGroup, WaitGroupInstanceResponse, WaitOptions, WaitStep,
};
pub use laws::{
    lemma_envelope_fields, lemma_wait_follows_plan, lemma_wait_publish_fails,
    lemma_wait_setup_fails, lemma_wait_succeeds, lemma_wait_without_events,
};
