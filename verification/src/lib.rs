//! Core logic of a small HTTP file gateway: a request's query parameter is
//! resolved to a filesystem path, the path's content (or, for a directory,
//! the concatenation of its readable regular files) becomes the response
//! body, and POST bodies are echoed back.  Everything here is pure: the
//! filesystem probe and the socket loop live outside the library and hand
//! in plain values.

pub mod content;
pub mod resolve;
pub mod response;
pub mod router;

pub use content::DirEntry;
pub use content::DirEntryView;
pub use content::FailureReason;
pub use content::FileRead;
pub use content::FileReadView;
pub use content::Outcome;
pub use content::OutcomeView;
pub use content::ResolvedTarget;
pub use content::TargetView;
pub use resolve::PathConfig;
pub use response::Body;
pub use response::BodyView;
pub use response::HttpResponse;
pub use response::ResponseView;
pub use router::Method;
pub use router::Request;
pub use router::Step;
pub use router::StepView;
