//! Tracing conventions: field names and validated correlation ids.

pub mod correlation;

pub use correlation::{
    CorrelationId, CorrelationIdError, CORRELATION_ID_FIELD, MAX_CORRELATION_ID_LEN,
    REQUEST_ID_FIELD, TASK_ID_FIELD,
};
