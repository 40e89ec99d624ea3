//! What the `syn` parser is asked: to read a declaration into the library's
//! own description of it, and to read a generated fragment as a block.
//!
//! The parser is trusted, not verified. Each function below that is marked
//! `external_body` says in its doc comment what is taken on trust. Tokens are
//! always read and printed by `proc-macro2`'s own implementation, also where
//! the compiler's is at hand, so that a text never depends on the process
//! that asks.

use vstd::prelude::*;
use quote::ToTokens;
use quote::TokenStreamExt;
use crate::config::{argument_views, Argument, ArgumentView};
use crate::declaration::{Attr, Declaration, DeclarationView, Item, Method};
use crate::failure::{Failure, FailureView};

verus! {

/// `syn::Error`: why a text was refused. It is mapped to a [`Failure`] and
/// never looked into.
#[verifier::external_type_specification]
#[verifier::external_body]
pub struct ExSynError(syn::Error);

/// `syn::ImplItem`: an item of an `impl` block, opaque to the proofs.
#[verifier::external_type_specification]
#[verifier::external_body]
pub struct ExSynImplItem(syn::ImplItem);

/// `syn::Meta`: an argument of an attribute, opaque to the proofs.
#[verifier::external_type_specification]
#[verifier::external_body]
pub struct ExSynMeta(syn::Meta);

/// The declaration that `syn` reads from a source text, or `None` where the
/// text is not an `impl` block.
pub uninterp spec fn declaration_of(source: Seq<char>) -> Option<DeclarationView>;

/// The statements of the block that `syn` reads from a text, printed as
/// tokens, or `None` where the text is not a block.
pub uninterp spec fn block_statements(text: Seq<char>) -> Option<Seq<char>>;

/// Describes one item of an `impl` block parsed by `syn`. A function becomes a
/// [`Method`] that holds everything but its body, each attribute with its
/// style and the text of its tokens; any other item is kept as the text of
/// its tokens. Nothing is claimed of the result.
#[verifier::external_body]
fn item_from_syn(item: &syn::ImplItem) -> Item {
    let style = |a: &syn::Attribute| matches!(a.style, syn::AttrStyle::Inner(_));
    let attr = |a| Attr { inner: style(a), text: a.to_token_stream().to_string() };
    match item {
        syn::ImplItem::Fn(f) => Item::Method(Method {
            attrs: f.attrs.iter().map(attr).collect(),
            visibility: f.vis.to_token_stream().to_string(),
            is_default: f.defaultness.is_some(),
            name: f.sig.ident.to_string(),
            signature: f.sig.to_token_stream().to_string(),
        }),
        other => Item::Other(other.to_token_stream().to_string()),
    }
}

/// Calls `syn::parse_str::<syn::ItemImpl>` and describes what it read.
///
/// Trusted: that the outcome depends on the text alone, so that it can be
/// named `declaration_of`; the call fails exactly where that is `None`.
#[verifier::external_body]
pub(crate) fn parse_declaration(source: &str) -> (r: Result<Declaration, syn::Error>)
    ensures
        match r {
            Ok(decl) => declaration_of(source@) == Some(decl@),
            Err(_) => declaration_of(source@) is None,
        },
{
    proc_macro2::fallback::force();
    let parsed = syn::parse_str::<syn::ItemImpl>(source)?;
    Ok(
        Declaration {
            is_unsafe: parsed.unsafety.is_some(),
            generics: parsed.generics.to_token_stream().to_string(),
            interface: parsed.trait_.as_ref().map(|t| t.1.to_token_stream().to_string()),
            self_type: parsed.self_ty.to_token_stream().to_string(),
            where_clause: parsed.generics.where_clause.to_token_stream().to_string(),
            items: parsed.items.iter().map(item_from_syn).collect(),
        },
    )
}

/// Calls `syn::parse_str::<syn::Block>` and prints the statements it read.
///
/// Trusted: that the outcome depends on the text alone, so that it can be
/// named `block_statements`; the call fails exactly where that is `None`.
#[verifier::external_body]
pub(crate) fn parse_block(text: &str) -> (r: Result<String, syn::Error>)
    ensures
        match r {
            Ok(statements) => block_statements(text@) == Some(statements@),
            Err(_) => block_statements(text@) is None,
        },
{
    proc_macro2::fallback::force();
    let block = syn::parse_str::<syn::Block>(text)?;
    let mut tokens = proc_macro2::TokenStream::new();
    tokens.append_all(&block.stmts);
    Ok(tokens.to_string())
}

/// The arguments that `syn` reads from a text as a list of attribute
/// arguments separated by commas, or `None` where the text is no such list.
pub uninterp spec fn arguments_of(source: Seq<char>) -> Option<Seq<ArgumentView>>;

/// Describes one attribute argument parsed by `syn`: its path as text, and
/// the string it is set to where it has the form `path = "string"`. Nothing
/// is claimed of the result.
#[verifier::external_body]
fn argument_from_syn(meta: &syn::Meta) -> Argument {
    match meta {
        syn::Meta::NameValue(
            syn::MetaNameValue {
                path,
                value: syn::Expr::Lit(syn::ExprLit { lit: syn::Lit::Str(text), .. }),
                ..
            },
        ) => Argument { name: path.to_token_stream().to_string(), value: Some(text.value()) },
        other => Argument { name: other.path().to_token_stream().to_string(), value: None },
    }
}

/// Calls `Punctuated::<syn::Meta, syn::token::Comma>::parse_terminated` on a
/// text and describes each argument it read.
///
/// Trusted: that the outcome depends on the text alone, so that it can be
/// named `arguments_of`; the call fails exactly where that is `None`.
#[verifier::external_body]
pub(crate) fn parse_arguments(source: &str) -> (r: Result<Vec<Argument>, syn::Error>)
    ensures
        match r {
            Ok(arguments) => arguments_of(source@) == Some(argument_views(arguments@)),
            Err(_) => arguments_of(source@) is None,
        },
{
    proc_macro2::fallback::force();
    let parsed = syn::parse::Parser::parse_str(
        syn::punctuated::Punctuated::<syn::Meta, syn::token::Comma>::parse_terminated,
        source,
    )?;
    Ok(parsed.iter().map(argument_from_syn).collect())
}

/// Reads the source text of an `impl` block.
///
/// Fails with `MalformedDeclaration` exactly where the text is no `impl`
/// block; nothing is generated for such a text.
pub fn extract(source: &str) -> (r: Result<Declaration, Failure>)
    ensures
        match r {
            Ok(decl) => declaration_of(source@) == Some(decl@),
            Err(e) => declaration_of(source@) is None && e@ == FailureView::MalformedDeclaration,
        },
{
    match parse_declaration(source) {
        Ok(decl) => Ok(decl),
        Err(_) => Err(Failure::MalformedDeclaration),
    }
}

/// Reads a list of arguments such as `model = "m", prompt = "p"`.
///
/// Fails with `MalformedArguments` exactly where the text is no such list.
pub fn extract_arguments(source: &str) -> (r: Result<Vec<Argument>, Failure>)
    ensures
        match r {
            Ok(arguments) => arguments_of(source@) == Some(argument_views(arguments@)),
            Err(e) => arguments_of(source@) is None && e@ == FailureView::MalformedArguments,
        },
{
    match parse_arguments(source) {
        Ok(arguments) => Ok(arguments),
        Err(_) => Err(Failure::MalformedArguments),
    }
}

} // verus!
