//! Expansion logic for the `#[main]` and `#[handler(IRQ)]` attribute macros
//! of the Hopter embedded kernel.
//!
//! The macros take the text of the annotated function (and of the attribute's
//! arguments), check it against the documented entry-point rules, and emit a
//! trampoline (and, for handlers, an assembly entry sequence) followed by the
//! function itself.
pub mod expand;
pub mod irq;
pub mod laws;
pub mod signature;
pub mod syntax;
pub mod template;

pub use expand::{
    handler, handler_expansion, handler_expansion_source, main, main_expansion, try_handler,
    try_main, MacroError, SyntaxSite,
};
pub use irq::{irq_of_attribute_args, parse_attribute_arg_to_irq, AttrArg};
pub use signature::{
    check_handler_function_signature, check_main_function_signature, handler_signature_error,
    main_signature_error, ParsedFn, Rejection, ReturnKind, SignatureShape,
};
pub use syntax::{tokenize, LexError, ParsedArgs, ParsedItem, Tokens};
pub use template::{
    handler_entry_source, handler_trampoline_source, main_trampoline_source, CoreArch,
};
