//! Typed request and response schema for a remote text-embedding endpoint.
//!
//! The library builds embedding requests, renders them as the JSON body the
//! service expects, and names the models and usage figures of the response.
mod input;
mod json;
mod model;
mod request;
mod response;

pub use input::{input_text, lemma_many_is_array, lemma_one_is_bare_string, Input, InputView};
pub use json::{
    comma_join, decimal_text, escape_char, escape_text, hex_digit, is_plain_char, json_array_text,
    json_string_text, lemma_plain_text_unescaped,
};
pub use model::{
    lemma_model_name_plain, lemma_model_name_round_trip, model_name, model_of_name, Model,
};
pub use request::{
    dimensions_member, format_member, format_name, lemma_bare_request_members,
    lemma_dimensions_member, lemma_model_round_trip, request_text, text_contains, user_member,
    user_view, EmbeddingRequest, EncodingFormat,
};
pub use response::Usage;
