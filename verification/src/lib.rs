//! A request-dispatch router: it maps an incoming request path to a registered
//! handler through pattern recognition, copies the parameters captured from the
//! path into the request, and wraps every dispatch in one before-hook and one
//! after-hook.

pub mod handler;
pub mod handlers;
pub mod laws;
pub mod recognizer;
pub mod request;
pub mod response;
pub mod router;

pub use handler::AfterHook;
pub use handler::BeforeHook;
pub use handler::DispatchError;
pub use handler::DispatchResult;
pub use handler::Handler;
pub use handlers::AddHeaderAfter;
pub use handlers::FailHandler;
pub use handlers::NoOpAfter;
pub use handlers::NoOpBefore;
pub use handlers::ParamHandler;
pub use handlers::SetParamBefore;
pub use handlers::StaticHandler;
pub use request::Params;
pub use request::Request;
pub use response::Response;
pub use router::Router;
