//! The embedding request: its fluent builder and its JSON body.
use vstd::prelude::*;
use vstd::string::StringExecFns;
use crate::input::{input_text, Input};
use crate::json::{
    decimal_text, json_string_text, lemma_plain_text_unescaped, push_decimal, push_json_string,
};
use crate::model::{
    lemma_model_name_plain, lemma_model_name_round_trip, model_name, model_of_name, Model,
};

verus! {

/// How the service encodes the components of the returned vectors.
#[derive(Debug, Clone, Copy, PartialEq, Eq, Structural)]
pub enum EncodingFormat {
    Base64,
    Float,
}

impl Default for EncodingFormat {
    fn default() -> (r: EncodingFormat)
        ensures
            r == EncodingFormat::Float,
    {
        EncodingFormat::Float
    }
}

/// The name under which format `f` is written in a request.
pub open spec fn format_name(f: EncodingFormat) -> Seq<char> {
    match f {
        EncodingFormat::Base64 => "Base64"@,
        EncodingFormat::Float => "Float"@,
    }
}

impl EncodingFormat {
    /// The name under which this format is written in a request.
    pub fn name(&self) -> (r: &'static str)
        ensures
            r@ == format_name(*self),
    {
        match self {
            EncodingFormat::Base64 => "Base64",
            EncodingFormat::Float => "Float",
        }
    }
}

/// A request for the embeddings of one or more texts. The optional fields
/// are left out of the body entirely when unset.
pub struct EmbeddingRequest {
    pub input: Input,
    pub model: Model,
    pub encoding_format: Option<EncodingFormat>,
    pub dimensions: Option<usize>,
    pub user: Option<String>,
}

/// The member for the encoding format, if one was set.
pub open spec fn format_member(f: Option<EncodingFormat>) -> Seq<char> {
    match f {
        Some(f) => ",\"encoding_format\":"@ + json_string_text(format_name(f)),
        None => Seq::empty(),
    }
}

/// The member for the dimension count, if one was set.
pub open spec fn dimensions_member(d: Option<usize>) -> Seq<char> {
    match d {
        Some(n) => ",\"dimensions\":"@ + decimal_text(n as nat),
        None => Seq::empty(),
    }
}

/// The member for the user identifier, if one was set.
pub open spec fn user_member(u: Option<Seq<char>>) -> Seq<char> {
    match u {
        Some(u) => ",\"user\":"@ + json_string_text(u),
        None => Seq::empty(),
    }
}

/// The user identifier of `r`, as characters.
pub open spec fn user_view(r: EmbeddingRequest) -> Option<Seq<char>> {
    match r.user {
        Some(u) => Some(u@),
        None => None,
    }
}

/// The JSON body of request `r`: the input and the model, then each optional
/// field that is set, in the order encoding format, dimensions, user.
pub open spec fn request_text(r: EmbeddingRequest) -> Seq<char> {
    "{\"input\":"@ + input_text(r.input@) + ",\"model\":"@ + json_string_text(model_name(r.model))
        + format_member(r.encoding_format) + dimensions_member(r.dimensions) + user_member(
        user_view(r),
    ) + "}"@
}

/// `pattern` occurs somewhere in `text`.
pub open spec fn text_contains(text: Seq<char>, pattern: Seq<char>) -> bool {
    exists|i: int| 0 <= i <= text.len() - pattern.len() && #[trigger] text.subrange(i, i + pattern.len()) == pattern
}

impl EmbeddingRequest {
    /// A request for the embeddings of `input` by `model`, with no optional
    /// field set.
    pub fn new<I: Into<Input>>(input: I, model: Model) -> (r: Self)
        ensures
            call_ensures(I::into, (input,), r.input),
            r.model == model,
            r.encoding_format is None,
            r.dimensions is None,
            r.user is None,
    {
        EmbeddingRequest {
            input: input.into(),
            model,
            encoding_format: None,
            dimensions: None,
            user: None,
        }
    }

    /// The same request with the encoding format set.
    pub fn encoding_format(self, encoding_format: EncodingFormat) -> (r: Self)
        ensures
            r == (EmbeddingRequest { encoding_format: Some(encoding_format), ..self }),
    {
        EmbeddingRequest { encoding_format: Some(encoding_format), ..self }
    }

    /// The same request with the dimension count set. The count is passed on
    /// unchecked: the service judges its range.
    pub fn dimensions(self, dimensions: usize) -> (r: Self)
        ensures
            r == (EmbeddingRequest { dimensions: Some(dimensions), ..self }),
    {
        EmbeddingRequest { dimensions: Some(dimensions), ..self }
    }

    /// The same request with the user identifier set.
    pub fn user(self, user: &str) -> (r: Self)
        ensures
            r.input == self.input,
            r.model == self.model,
            r.encoding_format == self.encoding_format,
            r.dimensions == self.dimensions,
            user_view(r) == Some(user@),
    {
        EmbeddingRequest { user: Some(user.to_owned()), ..self }
    }

    /// The path, relative to the service's base address, to which the
    /// request is posted.
    pub fn endpoint(&self) -> (r: &'static str)
        ensures
            r@ == "v1/embeddings"@,
    {
        "v1/embeddings"
    }

    /// The JSON body of the request.
    pub fn to_json(&self) -> (r: String)
        ensures
            r@ == request_text(*self),
    {
        let mut out = String::new();
        out.append("{\"input\":");
        self.input.push_json(&mut out);
        out.append(",\"model\":");
        push_json_string(&mut out, self.model.name());
        match self.encoding_format {
            Some(f) => {
                out.append(",\"encoding_format\":");
                push_json_string(&mut out, f.name());
            },
            None => {},
        }
        match self.dimensions {
            Some(n) => {
                out.append(",\"dimensions\":");
                push_decimal(&mut out, n);
            },
            None => {},
        }
        match &self.user {
            Some(u) => {
                out.append(",\"user\":");
                push_json_string(&mut out, u.as_str());
            },
            None => {},
        }
        out.append("}");
        assert(out@ =~= request_text(*self));
        out
    }
}

/// A request with no optional field set has exactly two members, the input
/// and the model.
pub proof fn lemma_bare_request_members(r: EmbeddingRequest)
    requires
        r.encoding_format is None,
        r.dimensions is None,
        r.user is None,
    ensures
        request_text(r) == "{\"input\":"@ + input_text(r.input@) + ",\"model\":"@
            + json_string_text(model_name(r.model)) + "}"@,
{
    assert(request_text(r) =~= "{\"input\":"@ + input_text(r.input@) + ",\"model\":"@
        + json_string_text(model_name(r.model)) + "}"@);
}

/// Setting the dimension count to `n` puts the member `"dimensions":n` in
/// the body.
pub proof fn lemma_dimensions_member(r: EmbeddingRequest, n: usize)
    ensures
        text_contains(
            request_text((EmbeddingRequest { dimensions: Some(n), ..r })),
            ",\"dimensions\":"@ + decimal_text(n as nat),
        ),
{
    let s = EmbeddingRequest { dimensions: Some(n), ..r };
    let head = "{\"input\":"@ + input_text(s.input@) + ",\"model\":"@ + json_string_text(
        model_name(s.model),
    ) + format_member(s.encoding_format);
    let member = ",\"dimensions\":"@ + decimal_text(n as nat);
    let tail = user_member(user_view(s)) + "}"@;
    assert(request_text(s) =~= head + member + tail);
    assert((head + member + tail).subrange(head.len() as int, (head.len() + member.len()) as int) =~= member);
}

/// The model of a request is written as its name between quotes, and that
/// name reads back as the same model.
pub proof fn lemma_model_round_trip(r: EmbeddingRequest)
    ensures
        text_contains(request_text(r), ",\"model\":"@ + seq!['"'] + model_name(r.model) + seq!['"']),
        model_of_name(model_name(r.model)) == Some(r.model),
{
    lemma_model_name_plain(r.model);
    lemma_plain_text_unescaped(model_name(r.model));
    lemma_model_name_round_trip(r.model);
    let head = "{\"input\":"@ + input_text(r.input@);
    let member = ",\"model\":"@ + seq!['"'] + model_name(r.model) + seq!['"'];
    let tail = format_member(r.encoding_format) + dimensions_member(r.dimensions) + user_member(
        user_view(r),
    ) + "}"@;
    assert(request_text(r) =~= head + member + tail);
    assert((head + member + tail).subrange(head.len() as int, (head.len() + member.len()) as int) =~= member);
}

} // verus!
