//! A model of an asynchronous, multi-backend SQL query-execution layer:
//! connection options, a bounded connection pool, parameterized statement
//! binding with backend-specific placeholder syntax, result cursors with
//! four fetch modes, and typed row decoding.

mod backend;
mod connection;
mod cursor;
mod error;
mod pool;
mod row;
mod statement;
mod value;

pub use backend::BackendKind;
pub use backend::WireValue;
pub use backend::decode;
pub use backend::encode;
pub use backend::lemma_encode_decode_roundtrip;
pub use connection::ConnectOptions;
pub use connection::Connection;
pub use connection::SessionPhase;
pub use connection::lemma_ready_session_initialized;
pub use cursor::CursorEvent;
pub use cursor::CursorState;
pub use cursor::ResultCursor;
pub use cursor::StepOutcome;
pub use cursor::cursor_step;
pub use error::Error;
pub use pool::AcquireOutcome;
pub use pool::Pool;
pub use pool::lemma_pool_bounded;
pub use row::Row;
pub use row::str_equal;
pub use statement::Statement;
pub use statement::count_placeholders;
pub use value::JsonValue;
pub use value::Value;
pub use value::ValueKind;
