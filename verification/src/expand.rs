//! The two attribute macros, from their input to their output.
//!
//! `#[main]` emits the main trampoline followed by the user's function;
//! `#[handler(IRQ)]` emits the IRQ's assembly entry, its trampoline, and the
//! user's function. Each refuses a function that breaks the documented
//! signature rules, and a handler attribute that does not name a supported IRQ.
//!
//! `main` and `handler` take the parsed function (and arguments) and admit
//! only inputs that meet the rules, as the original macros stop on any other;
//! `try_main` and `try_handler` take the raw text, parse it, and report why
//! an input is refused.
use vstd::prelude::*;
use vstd::string::StringExecFns;

use crate::irq::{
    args_view, irq_of_args, irq_of_attribute_args, parse_attribute_arg_to_irq, strings_view,
    AttrArg, AttrArgView,
};
use crate::signature::{
    check_handler_function_signature, check_main_function_signature, handler_signature_error,
    handler_signature_rejection, main_signature_error, main_signature_rejection,
    valid_handler_signature, valid_main_signature, ParsedFn, ParsedFnView, Rejection,
};
use crate::syntax::{
    lowercased, parse_attribute_args, parse_fn_item, to_lowercase, tokenize, LexError, Tokens,
};
use crate::template::{
    handler_entry_source, handler_entry_text, handler_trampoline_source, handler_trampoline_text,
    main_trampoline_source, main_trampoline_text, CoreArch,
};

verus! {

/// Which piece of text failed to parse.
#[derive(Clone, Copy, Debug, PartialEq, Eq, Structural)]
pub enum SyntaxSite {
    /// The annotated item is not a function.
    Item,
    /// The attribute's arguments are not a list of meta items.
    Attribute,
    /// The generated code could not be split into tokens.
    Expansion,
}

/// Why a macro invocation produced no expansion.
#[derive(Debug, PartialEq, Eq)]
pub enum MacroError {
    /// A parse failure, with the parser's message.
    Syntax(SyntaxSite, String),
    /// The function or the attribute breaks one of the documented rules.
    Rejected(Rejection),
}

/// The mathematical value of a [`MacroError`].
pub enum MacroErrorView {
    Syntax(SyntaxSite, Seq<char>),
    Rejected(Rejection),
}

impl View for MacroError {
    type V = MacroErrorView;

    open spec fn view(&self) -> MacroErrorView {
        match self {
            MacroError::Syntax(site, m) => MacroErrorView::Syntax(*site, m@),
            MacroError::Rejected(j) => MacroErrorView::Rejected(*j),
        }
    }
}

/// The view of a generated text or of the rejection that stopped it.
pub open spec fn text_view(r: Result<String, Rejection>) -> Result<Seq<char>, Rejection> {
    match r {
        Ok(s) => Ok(s@),
        Err(j) => Err(j),
    }
}

// ----------------------------------------------------------------------
// #[main]

/// The text `#[main]` emits: the trampoline, then the user's function as
/// written.
pub open spec fn main_expansion_text(name: Seq<char>, item: Seq<char>) -> Seq<char> {
    main_trampoline_text(name) + "\n"@ + item
}

/// `#[main]` on a parsed function `f` whose text is `item`.
pub open spec fn main_expansion_spec(f: ParsedFnView, item: Seq<char>) -> Result<Seq<char>, Rejection> {
    match main_signature_rejection(f.shape) {
        Some(j) => Err(j),
        None => Ok(main_expansion_text(f.name, item)),
    }
}

/// Checks the parsed main function and builds the text `#[main]` emits.
pub fn main_expansion(parsed: &ParsedFn, item: &str) -> (r: Result<String, Rejection>)
    ensures
        text_view(r) == main_expansion_spec(parsed@, item@),
{
    match main_signature_error(&parsed.shape) {
        Some(j) => Err(j),
        None => {
            let mut s = main_trampoline_source(parsed.name.as_str());
            s.append("\n");
            s.append(item);
            Ok(s)
        },
    }
}

/// The outcome of lexing the generated text `text`: tokens lexed from it, or
/// the lexer's failure on it.
pub open spec fn lexed_from(r: Result<Tokens, LexError>, text: Seq<char>) -> bool {
    match r {
        Ok(t) => t.source() == text,
        Err(e) => e.source() == text,
    }
}

/// The `#[main]` attribute macro on the parsed function `parsed`, written as
/// `item`: the tokens of the trampoline and the function. A function breaking
/// a rule stops the macro (see `try_main`); this admits only the others. The
/// only failure is the lexer's, on exactly the generated text.
pub fn main(parsed: &ParsedFn, item: &str) -> (r: Result<Tokens, LexError>)
    requires
        valid_main_signature(parsed.shape),
    ensures
        lexed_from(r, main_expansion_text(parsed.name@, item@)),
{
    check_main_function_signature(&parsed.shape);
    let mut text = main_trampoline_source(parsed.name.as_str());
    text.append("\n");
    text.append(item);
    tokenize(text.as_str())
}

/// A successful `#[main]` on the text `item`: the tokens record the parse of
/// `item` itself, and were lexed from the expansion of that parsed function.
pub open spec fn main_tokens_ok(item: Seq<char>, t: Tokens) -> bool {
    &&& t.item_origin() is Some
    &&& t.item_origin()->Some_0.0 == item
    &&& main_expansion_spec(t.item_origin()->Some_0.1, item) == Ok::<Seq<char>, Rejection>(
        t.source(),
    )
}

/// `#[main]` on the text `item`: parses it, checks it, and gives the tokens
/// of the expansion, or why there are none. The attribute's arguments are
/// ignored. A success is the expansion of the function parsed from `item`;
/// a rejection is the first rule some parse of a function breaks (which parse
/// the process makes is not specified, so the rejection is not tied to it).
pub fn try_main(attr: &str, item: &str) -> (r: Result<Tokens, MacroError>)
    ensures
        match r {
            Ok(t) => main_tokens_ok(item@, t),
            Err(MacroError::Rejected(j)) => exists|f: ParsedFnView|
                #[trigger] main_expansion_spec(f, item@) == Err::<Seq<char>, Rejection>(j),
            Err(MacroError::Syntax(site, _)) => site != SyntaxSite::Attribute,
        },
{
    let p = match parse_fn_item(item) {
        Ok(p) => p,
        Err(m) => {
            return Err(MacroError::Syntax(SyntaxSite::Item, m));
        },
    };
    let text = match main_expansion(p.parsed(), item) {
        Ok(text) => text,
        Err(j) => {
            assert(main_expansion_spec(p.function(), item@) == Err::<Seq<char>, Rejection>(j));
            return Err(MacroError::Rejected(j));
        },
    };
    match tokenize(text.as_str()) {
        Ok(t) => Ok(t.generated_from_item(&p)),
        Err(e) => Err(MacroError::Syntax(SyntaxSite::Expansion, e.into_message())),
    }
}

// ----------------------------------------------------------------------
// #[handler(IRQ)]

/// The text `#[handler(irq)]` emits for the function `name` written as
/// `item`, where `lower` is the lower-case form of `irq`.
pub open spec fn handler_expansion_text(
    arch: CoreArch,
    irq: Seq<char>,
    lower: Seq<char>,
    name: Seq<char>,
    item: Seq<char>,
) -> Seq<char> {
    handler_entry_text(arch, irq, lower) + handler_trampoline_text(lower, name) + item
}

/// `#[handler(..)]` with arguments `args` on a parsed function `f` whose text
/// is `item`: the signature is checked first, then the IRQ argument.
pub open spec fn handler_expansion_spec(
    arch: CoreArch,
    f: ParsedFnView,
    args: Seq<AttrArgView>,
    supported: Seq<Seq<char>>,
    item: Seq<char>,
) -> Result<Seq<char>, Rejection> {
    match handler_signature_rejection(f.shape) {
        Some(j) => Err(j),
        None => match irq_of_args(args, supported) {
            Err(j) => Err(j),
            Ok(irq) => Ok(handler_expansion_text(arch, irq, lowercased(irq), f.name, item)),
        },
    }
}

/// Builds the text a handler emits once its IRQ `irq` (lower-case form
/// `lower_irq`) and its function `func_name` (written as `item`) are known.
pub fn handler_expansion_source(
    arch: CoreArch,
    irq: &str,
    lower_irq: &str,
    func_name: &str,
    item: &str,
) -> (r: String)
    ensures
        r@ == handler_expansion_text(arch, irq@, lower_irq@, func_name@, item@),
{
    let mut s = handler_entry_source(arch, irq, lower_irq);
    let trampoline = handler_trampoline_source(lower_irq, func_name);
    s.append(trampoline.as_str());
    s.append(item);
    s
}

/// Checks the parsed handler and its attribute arguments against the
/// supported IRQs, and builds the text `#[handler(..)]` emits.
pub fn handler_expansion(
    arch: CoreArch,
    parsed: &ParsedFn,
    attr_args: &[AttrArg],
    supported_irqs: &[String],
    item: &str,
) -> (r: Result<String, Rejection>)
    ensures
        text_view(r) == handler_expansion_spec(
            arch,
            parsed@,
            args_view(attr_args@),
            strings_view(supported_irqs@),
            item@,
        ),
{
    if let Some(j) = handler_signature_error(&parsed.shape) {
        return Err(j);
    }
    let irq = match irq_of_attribute_args(attr_args, supported_irqs) {
        Ok(irq) => irq,
        Err(j) => {
            return Err(j);
        },
    };
    let lower_irq = to_lowercase(irq.as_str());
    Ok(handler_expansion_source(arch, irq.as_str(), lower_irq.as_str(), parsed.name.as_str(), item))
}

/// The `#[handler(IRQ)]` attribute macro for cores of family `arch`, on the
/// parsed function `parsed` (written as `item`) and the parsed attribute
/// arguments, where `supported_irqs` lists the IRQ names of the selected MCU
/// model: the tokens of the entry, the trampoline and the function. A
/// function or attribute breaking a rule stops the macro (see `try_handler`);
/// this admits only the others. The only failure is the lexer's, on exactly
/// the generated text.
pub fn handler(
    arch: CoreArch,
    parsed: &ParsedFn,
    attr_args: &[AttrArg],
    supported_irqs: &[String],
    item: &str,
) -> (r: Result<Tokens, LexError>)
    requires
        valid_handler_signature(parsed.shape),
        irq_of_args(args_view(attr_args@), strings_view(supported_irqs@)) is Ok,
    ensures
        lexed_from(
            r,
            handler_expansion_text(
                arch,
                irq_of_args(args_view(attr_args@), strings_view(supported_irqs@))->Ok_0,
                lowercased(irq_of_args(args_view(attr_args@), strings_view(supported_irqs@))->Ok_0),
                parsed.name@,
                item@,
            ),
        ),
{
    check_handler_function_signature(&parsed.shape);
    let irq = parse_attribute_arg_to_irq(attr_args, supported_irqs);
    let lower_irq = to_lowercase(irq.as_str());
    let text = handler_expansion_source(
        arch,
        irq.as_str(),
        lower_irq.as_str(),
        parsed.name.as_str(),
        item,
    );
    tokenize(text.as_str())
}

/// A successful `#[handler(..)]` on the argument text `attr` and the function
/// text `item`: the tokens record the parses of `item` and `attr` themselves,
/// and were lexed from the expansion of those parsed values.
pub open spec fn handler_tokens_ok(
    arch: CoreArch,
    attr: Seq<char>,
    item: Seq<char>,
    supported: Seq<Seq<char>>,
    t: Tokens,
) -> bool {
    &&& t.item_origin() is Some
    &&& t.item_origin()->Some_0.0 == item
    &&& t.attr_origin() is Some
    &&& t.attr_origin()->Some_0.0 == attr
    &&& handler_expansion_spec(
        arch,
        t.item_origin()->Some_0.1,
        t.attr_origin()->Some_0.1,
        supported,
        item,
    ) == Ok::<Seq<char>, Rejection>(t.source())
}

/// `#[handler(..)]` on the argument text `attr` and the function text
/// `item`: parses both, checks them, and gives the tokens of the expansion,
/// or why there are none. A success is the expansion of the function and
/// arguments parsed from `item` and `attr`; a rejection is the first rule
/// some parsed function and arguments break, the signature before the IRQ
/// (which parse the process makes is not specified, so the rejection is not
/// tied to it).
pub fn try_handler(arch: CoreArch, attr: &str, item: &str, supported_irqs: &[String]) -> (r:
    Result<Tokens, MacroError>)
    ensures
        match r {
            Ok(t) => handler_tokens_ok(arch, attr@, item@, strings_view(supported_irqs@), t),
            Err(MacroError::Rejected(j)) => exists|f: ParsedFnView, args: Seq<AttrArgView>|
                #[trigger] handler_expansion_spec(
                    arch,
                    f,
                    args,
                    strings_view(supported_irqs@),
                    item@,
                ) == Err::<Seq<char>, Rejection>(j),
            Err(MacroError::Syntax(_, _)) => true,
        },
{
    let p = match parse_fn_item(item) {
        Ok(p) => p,
        Err(m) => {
            return Err(MacroError::Syntax(SyntaxSite::Item, m));
        },
    };
    let a = match parse_attribute_args(attr) {
        Ok(a) => a,
        Err(m) => {
            return Err(MacroError::Syntax(SyntaxSite::Attribute, m));
        },
    };
    let ghost spec = handler_expansion_spec(
        arch,
        p.function(),
        a.arguments(),
        strings_view(supported_irqs@),
        item@,
    );
    let text = match handler_expansion(arch, p.parsed(), a.args(), supported_irqs, item) {
        Ok(text) => text,
        Err(j) => {
            assert(spec == Err::<Seq<char>, Rejection>(j));
            return Err(MacroError::Rejected(j));
        },
    };
    match tokenize(text.as_str()) {
        Ok(t) => Ok(t.generated_from_item(&p).generated_from_args(&a)),
        Err(e) => Err(MacroError::Syntax(SyntaxSite::Expansion, e.into_message())),
    }
}

} // verus!
