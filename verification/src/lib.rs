//! Task lifecycle core of an agent-to-agent task connector.
//!
//! The connector brokers tasks between software agents: it persists each
//! task as an aggregate document, records protocol events about status and
//! artifact changes, fans every event out to the task's subscribers, and
//! lets subscribers pull their pending deliveries. This crate holds the
//! verified core of that engine: the aggregate merge rules, the event
//! fan-out, the delivery queue, and the paginated-query primitive, all
//! stated over an explicit model of the relational store.

pub mod api_key;
pub mod application_user;
pub mod artifact;
pub mod debugger_history;
pub mod dequeue;
pub mod error;
pub mod event;
pub mod event_listing;
pub mod fan_out;
pub mod filters;
pub mod message;
pub mod pagination;
pub mod part;
pub mod seq_util;
pub mod store;
pub mod storage;
pub mod task_doc;
pub mod task_update;
