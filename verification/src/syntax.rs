//! The boundary to the Rust parser: source text in, plain values out.

use vstd::prelude::*;
use quote::ToTokens;
use syn::parse::Parser;
use syn::punctuated::Punctuated;
use crate::function::FunctionDescriptor;
use crate::options::AttrArg;

verus! {

/// `syn::Error`, the complaint of the Rust parser. Nothing is known of it
/// but that it can be displayed.
#[verifier::external_type_specification]
#[verifier::external_body]
pub struct ExSyntaxError(syn::Error);

/// Reads the arguments of an attribute: lets `syn` parse `attr` as a
/// comma-separated list of `syn::Meta` items (`Punctuated::parse_terminated`
/// run through `Parser::parse_str`) and keeps of each item what the options
/// depend on. A `Meta::NameValue` gives its key where `Path::get_ident`
/// finds a single identifier, and its value where the expression is a string
/// literal, decoded by `LitStr::value`; any other item is `Other`.
///
/// Nothing is claimed of the outcome: which texts parse, and into what, is
/// up to the parser.
#[verifier::external_body]
pub(crate) fn parse_meta_list(attr: &str) -> (parsed: Result<Vec<AttrArg>, syn::Error>) {
    let metas = Punctuated::<syn::Meta, syn::token::Comma>::parse_terminated.parse_str(attr)?;
    Ok(metas.into_iter().map(|meta| match meta {
        syn::Meta::NameValue(pair) => AttrArg::NameValue {
            key: pair.path.get_ident().map(|ident| ident.to_string()),
            value: match pair.value {
                syn::Expr::Lit(syn::ExprLit { lit: syn::Lit::Str(text), .. }) => Some(text.value()),
                _ => None,
            },
        },
        syn::Meta::Path(_) => AttrArg::Other,
        syn::Meta::List(_) => AttrArg::Other,
    }).collect())
}

/// Reads a function definition: lets `syn::parse_str` parse `item` as a
/// `syn::ItemFn` and takes it apart. Attributes, visibility, signature and
/// block are written back to text through `ToTokens`; the name is the
/// signature's identifier and the flag tells whether it has an `async`
/// token.
///
/// Nothing is claimed of the outcome: which texts parse, and into what, is
/// up to the parser.
#[verifier::external_body]
pub(crate) fn parse_item_fn(item: &str) -> (parsed: Result<FunctionDescriptor, syn::Error>) {
    let function = syn::parse_str::<syn::ItemFn>(item)?;
    Ok(FunctionDescriptor {
        attributes: function.attrs.iter().map(|a| a.to_token_stream().to_string()).collect(),
        visibility: function.vis.to_token_stream().to_string(),
        signature: function.sig.to_token_stream().to_string(),
        name: function.sig.ident.to_string(),
        is_async: function.sig.asyncness.is_some(),
        body: function.block.to_token_stream().to_string(),
    })
}

} // verus!
