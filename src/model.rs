//! The embedding models that the service offers, and their wire names.
use vstd::prelude::*;

verus! {

/// An embedding model, written on the wire as its fixed name.
#[derive(Debug, Clone, Copy, PartialEq, Eq, Structural)]
pub enum Model {
    TextEmbedding3Large,
    TextEmbedding3Small,
    TextEmbeddingAda2,
}

/// The name under which the service knows model `m`.
pub open spec fn model_name(m: Model) -> Seq<char> {
    match m {
        Model::TextEmbedding3Large => "text-embedding-3-large"@,
        Model::TextEmbedding3Small => "text-embedding-3-small"@,
        Model::TextEmbeddingAda2 => "text-embedding-ada-002"@,
    }
}

/// The model whose name is `s`, if any.
pub open spec fn model_of_name(s: Seq<char>) -> Option<Model> {
    if s == model_name(Model::TextEmbedding3Large) {
        Some(Model::TextEmbedding3Large)
    } else if s == model_name(Model::TextEmbedding3Small) {
        Some(Model::TextEmbedding3Small)
    } else if s == model_name(Model::TextEmbeddingAda2) {
        Some(Model::TextEmbeddingAda2)
    } else {
        None
    }
}

/// Relies on `str`'s `==`: true exactly when both hold the same characters.
#[verifier::external_body]
fn same_text(a: &str, b: &str) -> (r: bool)
    ensures
        r == (a@ == b@),
{
    a == b
}

impl Model {
    /// The name under which the service knows this model.
    pub fn name(&self) -> (r: &'static str)
        ensures
            r@ == model_name(*self),
    {
        match self {
            Model::TextEmbedding3Large => "text-embedding-3-large",
            Model::TextEmbedding3Small => "text-embedding-3-small",
            Model::TextEmbeddingAda2 => "text-embedding-ada-002",
        }
    }

    /// The model named `s`; `None` for any text that is not exactly one of
    /// the three names.
    pub fn from_name(s: &str) -> (r: Option<Model>)
        ensures
            r == model_of_name(s@),
    {
        if same_text(s, "text-embedding-3-large") {
            Some(Model::TextEmbedding3Large)
        } else if same_text(s, "text-embedding-3-small") {
            Some(Model::TextEmbedding3Small)
        } else if same_text(s, "text-embedding-ada-002") {
            Some(Model::TextEmbeddingAda2)
        } else {
            None
        }
    }
}

/// Every character of a model name stands for itself in a JSON string.
pub proof fn lemma_model_name_plain(m: Model)
    ensures
        forall|i: int| 0 <= i < model_name(m).len() ==> crate::json::is_plain_char(
            #[trigger] model_name(m)[i],
        ),
{
    reveal_strlit("text-embedding-3-large");
    reveal_strlit("text-embedding-3-small");
    reveal_strlit("text-embedding-ada-002");
}

/// Reading back the name of a model gives that same model.
pub proof fn lemma_model_name_round_trip(m: Model)
    ensures
        model_of_name(model_name(m)) == Some(m),
{
    reveal_strlit("text-embedding-3-large");
    reveal_strlit("text-embedding-3-small");
    reveal_strlit("text-embedding-ada-002");
    assert(model_name(Model::TextEmbedding3Large)[17] != model_name(Model::TextEmbedding3Small)[17]);
    assert(model_name(Model::TextEmbedding3Large)[15] != model_name(Model::TextEmbeddingAda2)[15]);
    assert(model_name(Model::TextEmbedding3Small)[15] != model_name(Model::TextEmbeddingAda2)[15]);
}

} // verus!
