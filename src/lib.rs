//! Transaction simulation: decoding of base64 XDR inputs, dispatch of
//! contract invocations into an execution host, and classification of the
//! faults that the host reports.
pub mod codec;
pub mod dispatch;
pub mod fault;
pub mod pipeline;
pub mod text;
