//! The tokenizer collaborator.
//!
//! Tokenization is opaque to the core: what a given tokenizer returns
//! for a given text depends on the vocabulary and rules it was built
//! with, so the trusted items below promise nothing about the token
//! ids or the decoded text.  Everything the pipeline guarantees about
//! chunk layout is proved for every possible tokenizer output.

use vstd::prelude::*;

use crate::errors::TokenizeError;

verus! {

#[verifier::external_type_specification]
#[verifier::external_body]
pub struct ExTokenizer(tokenizers::Tokenizer);

/// What the tokenizer reports for one text: the token strings, the
/// token ids, and the attention mask, as parallel sequences.
#[derive(Debug)]
pub struct TokenOutput {
    pub tokens: Vec<String>,
    pub ids: Vec<u32>,
    pub attention: Vec<u32>,
}

/// Relies on `tokenizers::Tokenizer::encode` (with special tokens
/// added) for turning text into tokens; the result depends on the
/// tokenizer's own vocabulary and rules, so nothing is promised of it.
#[verifier::external_body]
pub fn encode(tokenizer: &tokenizers::Tokenizer, text: &str) -> Result<TokenOutput, TokenizeError>
{
    let encoding = tokenizer.encode(text, true).map_err(|e| TokenizeError { message: e.to_string() })?;
    Ok(TokenOutput {
        tokens: encoding.get_tokens().to_vec(),
        ids: encoding.get_ids().to_vec(),
        attention: encoding.get_attention_mask().to_vec(),
    })
}

/// Relies on `tokenizers::Tokenizer::decode` (skipping special tokens)
/// for turning token ids back into text; the result depends on the
/// tokenizer's own vocabulary and rules, so nothing is promised of it.
#[verifier::external_body]
pub fn decode(tokenizer: &tokenizers::Tokenizer, ids: &[u32]) -> Result<String, TokenizeError>
{
    tokenizer.decode(ids, true).map_err(|e| TokenizeError { message: e.to_string() })
}

} // verus!
