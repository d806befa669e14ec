//! Routing decisions for a development server: what to ask the routing
//! sandbox, and how to read what it answers.
//!
//! A request is turned into the arguments of one evaluation of the project's
//! routing code. The answer arrives as one JSON message or as a stream of
//! them, and is decoded into a [`RouterResult`]: pass the request through,
//! rewrite it, answer it from middleware, or report an error.

pub mod body;
pub mod config;
pub mod debug;
pub mod decoder;
pub mod json;
pub mod message;
pub mod request;

pub use config::{
    config_assets, config_module, matcher_config, middleware_files, next_configs, InnerAsset,
    VirtualModule,
};
pub use body::{body_chunk, decode_body, decode_body_chunk, BodyDecoder};
pub use decoder::{
    decode_single_shot, decode_stream_start, route_result, single_shot, stream_start,
    Evaluation, MiddlewareResponse, RouterResult,
};
pub use json::{Json, ParseError};
pub use message::{
    decode, decode_message, DecodeError, MessageKind, MiddlewareBodyResponse,
    MiddlewareHeadersResponse, RewriteResponse, RouterIncomingMessage,
};
pub use request::{
    evaluation_arguments, route, ConfigurationError, RouteEvaluation, RouterRequest,
};
