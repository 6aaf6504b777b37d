//! Top news headlines: the address to ask, the checks on the answer, and the
//! lines that show each headline on a terminal.
pub mod error;
pub mod fetch;
pub mod model;
pub mod render;

pub use error::{decimal_text, FetchError};
pub use fetch::{
    check_payload, check_response, error_line, finish, headlines_url, request_target, Transcript,
    NEWS_API_BASE,
};
pub use model::{Article, Articles, HeadlineView, Source};
pub use render::{link_text, render_top_headlines, source_text, title_text, Tone};
