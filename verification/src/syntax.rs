//! The calls into `syn`, `proc_macro2` and std that the macros make: parsing
//! the annotated function and the attribute's arguments, lower-casing the IRQ
//! name, and turning the generated text into tokens.
//!
//! These wrappers are trusted: their contracts are believed, not proved.
//! Parsing and lexing go through `proc_macro2`, which uses the compiler's
//! lexer inside a macro and its own elsewhere; the two differ in places (the
//! compiler normalises identifiers, for one). So what a parse yields is not
//! promised as a function of the text: the verified functions that use a
//! parse take its result as an argument, and those that make the call state
//! what holds of every result.
use vstd::prelude::*;

use syn::punctuated::Punctuated;
use syn::token::Comma;
use syn::{ItemFn, Meta, NestedMeta, ReturnType, Type};

use crate::irq::{args_view, AttrArg, AttrArgView};
use crate::signature::{ParsedFn, ParsedFnView, ReturnKind, SignatureShape};

verus! {

/// `proc_macro2::TokenStream`, carried through as an opaque value.
#[verifier::external_type_specification]
#[verifier::external_body]
pub struct ExTokenStream(proc_macro2::TokenStream);

/// What `str::to_lowercase` gives for a string.
pub uninterp spec fn lowercased(s: Seq<char>) -> Seq<char>;

/// A function item as `syn` parsed it from the text `source()`, in this
/// process. Only [`parse_fn_item`] makes one, so the name and signature it
/// holds are always those of a parse of its source text.
pub struct ParsedItem {
    parsed: ParsedFn,
    source: Ghost<Seq<char>>,
}

impl ParsedItem {
    /// The text the item was parsed from.
    pub closed spec fn source(&self) -> Seq<char> {
        self.source@
    }

    /// The parsed function's name and signature.
    pub closed spec fn function(&self) -> ParsedFnView {
        self.parsed@
    }

    /// The parsed function's name and signature.
    pub fn parsed(&self) -> (r: &ParsedFn)
        ensures
            r@ == self.function(),
    {
        &self.parsed
    }
}

/// An attribute's arguments as `syn` parsed them from the text `source()`,
/// in this process. Only [`parse_attribute_args`] makes one.
pub struct ParsedArgs {
    args: Vec<AttrArg>,
    source: Ghost<Seq<char>>,
}

impl ParsedArgs {
    /// The text the arguments were parsed from.
    pub closed spec fn source(&self) -> Seq<char> {
        self.source@
    }

    /// The parsed arguments.
    pub closed spec fn arguments(&self) -> Seq<AttrArgView> {
        args_view(self.args@)
    }

    /// The parsed arguments.
    pub fn args(&self) -> (r: &[AttrArg])
        ensures
            args_view(r@) == self.arguments(),
    {
        self.args.as_slice()
    }
}

/// Parses `item` with `syn::parse_str::<syn::ItemFn>` and reads off the
/// function's name (`Ident::to_string`), its parameter count
/// (`Punctuated::len`), the form of its return type and its `async`,
/// `unsafe`, variadic and ABI markers; a parse error becomes its `to_string`
/// text. The contract says only that a result records `item` as its source:
/// which texts parse, and the name's text, depend on the lexer the process
/// uses.
#[verifier::external_body]
pub(crate) fn parse_fn_item(item: &str) -> (r: Result<ParsedItem, String>)
    ensures
        r matches Ok(p) ==> p.source() == item@,
{
    let s = match syn::parse_str::<ItemFn>(item) {
        Ok(f) => f.sig,
        Err(e) => return Err(e.to_string()),
    };
    let output = match s.output {
        ReturnType::Default => ReturnKind::Default,
        ReturnType::Type(_, t) => match *t {
            Type::Tuple(t) => ReturnKind::Tuple(t.elems.len()),
            Type::Never(_) => ReturnKind::Never,
            _ => ReturnKind::Other,
        },
    };
    let shape = SignatureShape { input_count: s.inputs.len(), output, is_async: s.asyncness.is_some(),
        is_unsafe: s.unsafety.is_some(), is_variadic: s.variadic.is_some(), has_abi: s.abi.is_some() };
    Ok(ParsedItem { parsed: ParsedFn { name: s.ident.to_string(), shape }, source: Ghost(item@) })
}

/// Parses `attr` as `syn` parses an attribute macro's arguments
/// (`Punctuated::<NestedMeta, Comma>::parse_terminated` through
/// `syn::parse::Parser::parse_str`); a bare path becomes whether it starts
/// with `::` and its segment identifiers (`Ident::to_string`), anything else
/// `AttrArg::Other`. The contract says only that a result records `attr` as
/// its source, for the reason given at `parse_fn_item`.
#[verifier::external_body]
pub(crate) fn parse_attribute_args(attr: &str) -> (r: Result<ParsedArgs, String>)
    ensures
        r matches Ok(a) ==> a.source() == attr@,
{
    let parser = Punctuated::<NestedMeta, Comma>::parse_terminated;
    let args = match syn::parse::Parser::parse_str(parser, attr) {
        Ok(a) => a,
        Err(e) => return Err(e.to_string()),
    };
    let mut out = Vec::new();
    for arg in args {
        out.push(match arg {
            NestedMeta::Meta(Meta::Path(p)) => AttrArg::Path(p.leading_colon.is_some(),
                p.segments.iter().map(|g| g.ident.to_string()).collect()),
            _ => AttrArg::Other,
        });
    }
    Ok(ParsedArgs { args: out, source: Ghost(attr@) })
}

/// `str::to_lowercase`. The contract only says that the result is the one
/// named `lowercased` for this text; the Unicode case mapping is left unsaid.
#[verifier::external_body]
pub(crate) fn to_lowercase(s: &str) -> (r: String)
    ensures
        r@ == lowercased(s@),
{
    s.to_lowercase()
}

/// A token stream together with the text it was lexed from, and, once
/// stamped, the parsed function item and attribute arguments it was
/// generated from. Only [`tokenize`] makes one, and only the stamping methods
/// below, which take the parse results themselves, record where it came from.
pub struct Tokens {
    stream: proc_macro2::TokenStream,
    source: Ghost<Seq<char>>,
    item_origin: Ghost<Option<(Seq<char>, ParsedFnView)>>,
    attr_origin: Ghost<Option<(Seq<char>, Seq<AttrArgView>)>>,
}

impl Tokens {
    /// The text these tokens were lexed from.
    pub closed spec fn source(&self) -> Seq<char> {
        self.source@
    }

    /// The text of the function item these tokens were generated from, and
    /// what the parse of that text gave.
    pub closed spec fn item_origin(&self) -> Option<(Seq<char>, ParsedFnView)> {
        self.item_origin@
    }

    /// The text of the attribute arguments these tokens were generated from,
    /// and what the parse of that text gave.
    pub closed spec fn attr_origin(&self) -> Option<(Seq<char>, Seq<AttrArgView>)> {
        self.attr_origin@
    }

    /// The token stream itself.
    pub fn into_stream(self) -> proc_macro2::TokenStream {
        self.stream
    }

    /// Records that these tokens were generated from the parsed item `p`.
    pub fn generated_from_item(self, p: &ParsedItem) -> (r: Tokens)
        ensures
            r.source() == self.source(),
            r.item_origin() == Some((p.source(), p.function())),
            r.attr_origin() == self.attr_origin(),
    {
        Tokens {
            stream: self.stream,
            source: self.source,
            item_origin: Ghost(Some((p.source(), p.function()))),
            attr_origin: self.attr_origin,
        }
    }

    /// Records that these tokens were generated from the parsed arguments `a`.
    pub fn generated_from_args(self, a: &ParsedArgs) -> (r: Tokens)
        ensures
            r.source() == self.source(),
            r.item_origin() == self.item_origin(),
            r.attr_origin() == Some((a.source(), a.arguments())),
    {
        Tokens {
            stream: self.stream,
            source: self.source,
            item_origin: self.item_origin,
            attr_origin: Ghost(Some((a.source(), a.arguments()))),
        }
    }
}

/// Why a generated text could not be split into tokens: the lexer's message,
/// and the text. Only [`tokenize`] makes one.
#[derive(Debug)]
pub struct LexError {
    message: String,
    source: String,
}

impl LexError {
    /// The text that could not be lexed.
    pub closed spec fn source(&self) -> Seq<char> {
        self.source@
    }

    /// The lexer's message.
    pub fn into_message(self) -> String {
        self.message
    }
}

/// Lexes `src` with `syn::parse_str::<proc_macro2::TokenStream>` and keeps
/// `src` as the tokens' source; an error becomes its `to_string` text, kept
/// with `src`. Which texts lex depends on the lexer the process uses, and is
/// not promised.
#[verifier::external_body]
pub fn tokenize(src: &str) -> (r: Result<Tokens, LexError>)
    ensures
        match r {
            Ok(t) => t.source() == src@ && t.item_origin() is None && t.attr_origin() is None,
            Err(e) => e.source() == src@,
        },
{
    match syn::parse_str::<proc_macro2::TokenStream>(src) {
        Ok(stream) => Ok(Tokens { stream, source: Ghost(src@), item_origin: Ghost(None), attr_origin: Ghost(None) }),
        Err(e) => Err(LexError { message: e.to_string(), source: src.to_string() }),
    }
}

} // verus!
