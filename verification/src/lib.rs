//! A summarization gateway: the rules that turn a submitted text into one
//! chat-completion request, and the upstream outcome into an HTTP reply.
//!
//! The library performs no I/O. Whoever serves HTTP hands it what arrived and
//! does what it answers: [`summarize`] steps one exchange with the completion
//! API, [`index`] answers the root path, and [`startup`] decides whether the
//! process may serve at all.

pub mod config;
pub mod laws;
pub mod openai;
pub mod page;
pub mod prompt;
pub mod reply;
pub mod request;
pub mod response;
pub mod summarize;

pub use config::parse_port;
pub use config::startup;
pub use config::Settings;
pub use config::StartupError;
pub use config::DEFAULT_PORT;
pub use page::index;
pub use page::load_page;
pub use page::PageError;
pub use prompt::build_instruction;
pub use prompt::MAX_TOKENS;
pub use prompt::MODEL;
pub use prompt::PROMPT_PREFIX;
pub use reply::Reply;
pub use reply::STATUS_INTERNAL_SERVER_ERROR;
pub use reply::STATUS_OK;
pub use request::make_request;
pub use response::extract_response;
pub use response::first_content;
pub use response::ExtractError;
pub use summarize::openai_error;
pub use summarize::summarize;
pub use summarize::Action;
pub use summarize::Event;
pub use summarize::Failure;
pub use summarize::Stage;
pub use summarize::Step;
pub use summarize::SummarizeRequest;
