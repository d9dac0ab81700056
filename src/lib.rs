//! Worker core that turns queued completion jobs into upstream calls and
//! persisted task records: the lifecycle of one message, the retry policy of
//! the upstream caller, the store's record model and the broker session.

pub mod task_status;
pub mod text;
pub mod json;
pub mod llm_response;
pub mod backoff;
pub mod upstream;
pub mod retry;
pub mod store;
pub mod message;
pub mod processor;
pub mod settings;
pub mod session;
