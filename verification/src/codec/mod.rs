//! Handlers that turn bytes into frames and frames into text, and back.

pub mod byte_to_message_decoder;
pub mod string_codec;
