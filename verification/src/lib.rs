//! Regex matching, capture and whole-body rewriting for text that flows
//! through a caching reverse proxy, built around a bounded cache of compiled
//! patterns.

pub mod limits;
pub mod engine;
pub mod cache;
pub mod store;
pub mod captures;
pub mod rewrite;
pub mod stream;
pub mod vmod;
pub mod laws;

pub use captures::Captures;
pub use engine::Matcher;
pub use limits::clamp_i64_to_usize;
pub use rewrite::Direction;
pub use rewrite::RewriteStep;
pub use rewrite::RewriteStepRegistry;
pub use store::PatternStore;
pub use stream::Phase;
pub use stream::PullAction;
pub use stream::PullResult;
pub use stream::PushAction;
pub use stream::StreamRewriter;
pub use vmod::init;
pub use vmod::CaptureError;
pub use vmod::RegisterError;
