//! A terminal API client's core: request and response models, header
//! handling, GraphQL and WebSocket message formatting, command-line request
//! building and the editor state of the interactive interface.

pub mod text;
pub mod headers;
pub mod utils;
pub mod formatter;
pub mod http;
pub mod cli;
pub mod graphql;
pub mod websocket;
pub mod tui;
pub mod storage;
