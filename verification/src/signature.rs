//! The signature rules for the `#[main]` and `#[handler(..)]` entry points.
//!
//! A parsed function signature is reduced to the plain facts the rules read
//! ([`SignatureShape`]); each check either accepts it or names the first rule
//! it breaks, in the order the rules are listed in the documentation.
use vstd::prelude::*;

verus! {

/// What a signature declares after `->`, as far as the entry-point rules
/// need to tell it apart.
#[derive(Clone, Copy, Debug, PartialEq, Eq, Structural)]
pub enum ReturnKind {
    /// No return type is written.
    Default,
    /// A tuple type with the given number of elements; `()` has none.
    Tuple(usize),
    /// The never type `!`.
    Never,
    /// Any other type.
    Other,
}

/// The facts about a function signature that the entry-point rules read.
///
/// Parameter types are not among them. The main function's parameter must be
/// a `cortex_m::Peripherals`, but a macro sees only how a type is spelled, and
/// the same type has many spellings (`cortex_m::peripheral::Peripherals`, a
/// renamed import, ...). The emitted trampoline calls the function with a
/// `cortex_m::Peripherals`, so the compiler refuses any other parameter type.
#[derive(Clone, Copy, Debug, PartialEq, Eq, Structural)]
pub struct SignatureShape {
    /// Number of declared parameters.
    pub input_count: usize,
    /// The declared return type.
    pub output: ReturnKind,
    /// The function is `async`.
    pub is_async: bool,
    /// The function is `unsafe`.
    pub is_unsafe: bool,
    /// The parameter list ends in `...`.
    pub is_variadic: bool,
    /// An `extern "..."` ABI is written.
    pub has_abi: bool,
}

/// A parsed function item: its name and its signature.
pub struct ParsedFn {
    pub name: String,
    pub shape: SignatureShape,
}

/// The mathematical value of a [`ParsedFn`].
pub struct ParsedFnView {
    pub name: Seq<char>,
    pub shape: SignatureShape,
}

impl View for ParsedFn {
    type V = ParsedFnView;

    open spec fn view(&self) -> ParsedFnView {
        ParsedFnView { name: self.name@, shape: self.shape }
    }
}

/// The reasons for which an entry point is refused.
#[derive(Clone, Copy, Debug, PartialEq, Eq, Structural)]
pub enum Rejection {
    /// `#[main]` on a function without exactly one parameter.
    MainArgumentCount,
    /// A return type other than the allowed ones.
    ReturnType,
    /// `#[main]` on an `async` function.
    MainAsync,
    /// `#[main]` on an `unsafe` function.
    MainUnsafe,
    /// A variadic function.
    Variadic,
    /// `#[handler]` on a function with parameters.
    HandlerArgumentCount,
    /// `#[handler]` on a function with an explicit ABI.
    HandlerAbi,
    /// `#[handler]` on an `async` function.
    HandlerAsync,
    /// The handler attribute does not name exactly one supported IRQ.
    UnsupportedIrq,
}

/// The diagnostic reported for each rejection.
pub open spec fn rejection_message(j: Rejection) -> Seq<char> {
    match j {
        Rejection::MainArgumentCount => "Main function must receive one argument of type `cortex_m::Peripherals`."@,
        Rejection::ReturnType => "Handler's return type must be ()."@,
        Rejection::MainAsync => "Main function cannot be `async`."@,
        Rejection::MainUnsafe => "Main function must be safe."@,
        Rejection::Variadic => "Handler function cannot be variadic."@,
        Rejection::HandlerArgumentCount => "Handler function should not have any parameter."@,
        Rejection::HandlerAbi => "Handler function must have Rust ABI."@,
        Rejection::HandlerAsync => "Handler function cannot be `async`."@,
        Rejection::UnsupportedIrq => "Handler's argument must be one of the supported IRQs. Forgot to set the MCU model feature?"@,
    }
}

impl Rejection {
    /// The diagnostic text of this rejection.
    pub fn message(&self) -> (r: &'static str)
        ensures
            r@ == rejection_message(*self),
    {
        match self {
            Rejection::MainArgumentCount => "Main function must receive one argument of type `cortex_m::Peripherals`.",
            Rejection::ReturnType => "Handler's return type must be ().",
            Rejection::MainAsync => "Main function cannot be `async`.",
            Rejection::MainUnsafe => "Main function must be safe.",
            Rejection::Variadic => "Handler function cannot be variadic.",
            Rejection::HandlerArgumentCount => "Handler function should not have any parameter.",
            Rejection::HandlerAbi => "Handler function must have Rust ABI.",
            Rejection::HandlerAsync => "Handler function cannot be `async`.",
            Rejection::UnsupportedIrq => "Handler's argument must be one of the supported IRQs. Forgot to set the MCU model feature?",
        }
    }
}

/// The main function returns `()` or `!` (written or not).
pub open spec fn main_returns_ok(k: ReturnKind) -> bool {
    match k {
        ReturnKind::Default => true,
        ReturnKind::Tuple(n) => n == 0,
        ReturnKind::Never => true,
        ReturnKind::Other => false,
    }
}

/// A handler returns `()` (written or not).
pub open spec fn handler_returns_ok(k: ReturnKind) -> bool {
    match k {
        ReturnKind::Default => true,
        ReturnKind::Tuple(n) => n == 0,
        _ => false,
    }
}

/// The documented requirements on the main function, all together.
pub open spec fn valid_main_signature(s: SignatureShape) -> bool {
    &&& s.input_count == 1
    &&& main_returns_ok(s.output)
    &&& !s.is_async
    &&& !s.is_unsafe
    &&& !s.is_variadic
}

/// The documented requirements on a handler function, all together.
pub open spec fn valid_handler_signature(s: SignatureShape) -> bool {
    &&& s.input_count == 0
    &&& handler_returns_ok(s.output)
    &&& !s.has_abi
    &&& !s.is_async
    &&& !s.is_variadic
}

/// The first requirement on the main function that `s` breaks, in the order
/// parameter count, return type, `async`, `unsafe`, variadic.
pub open spec fn main_signature_rejection(s: SignatureShape) -> Option<Rejection> {
    if s.input_count != 1 {
        Some(Rejection::MainArgumentCount)
    } else if !main_returns_ok(s.output) {
        Some(Rejection::ReturnType)
    } else if s.is_async {
        Some(Rejection::MainAsync)
    } else if s.is_unsafe {
        Some(Rejection::MainUnsafe)
    } else if s.is_variadic {
        Some(Rejection::Variadic)
    } else {
        None
    }
}

/// The first requirement on a handler that `s` breaks, in the order
/// parameters, return type, ABI, `async`, variadic.
pub open spec fn handler_signature_rejection(s: SignatureShape) -> Option<Rejection> {
    if s.input_count != 0 {
        Some(Rejection::HandlerArgumentCount)
    } else if !handler_returns_ok(s.output) {
        Some(Rejection::ReturnType)
    } else if s.has_abi {
        Some(Rejection::HandlerAbi)
    } else if s.is_async {
        Some(Rejection::HandlerAsync)
    } else if s.is_variadic {
        Some(Rejection::Variadic)
    } else {
        None
    }
}

/// Finds the first documented requirement on the main function that `sig`
/// breaks, if any.
pub fn main_signature_error(sig: &SignatureShape) -> (r: Option<Rejection>)
    ensures
        r == main_signature_rejection(*sig),
        r is None <==> valid_main_signature(*sig),
{
    if sig.input_count != 1 {
        return Some(Rejection::MainArgumentCount);
    }
    match sig.output {
        ReturnKind::Default => {},
        ReturnKind::Tuple(n) => {
            if n != 0 {
                return Some(Rejection::ReturnType);
            }
        },
        ReturnKind::Never => {},
        ReturnKind::Other => {
            return Some(Rejection::ReturnType);
        },
    }
    if sig.is_async {
        return Some(Rejection::MainAsync);
    }
    if sig.is_unsafe {
        return Some(Rejection::MainUnsafe);
    }
    if sig.is_variadic {
        return Some(Rejection::Variadic);
    }
    None
}

/// Finds the first documented requirement on a handler that `sig` breaks,
/// if any.
pub fn handler_signature_error(sig: &SignatureShape) -> (r: Option<Rejection>)
    ensures
        r == handler_signature_rejection(*sig),
        r is None <==> valid_handler_signature(*sig),
{
    if sig.input_count != 0 {
        return Some(Rejection::HandlerArgumentCount);
    }
    match sig.output {
        ReturnKind::Default => {},
        ReturnKind::Tuple(n) => {
            if n != 0 {
                return Some(Rejection::ReturnType);
            }
        },
        _ => {
            return Some(Rejection::ReturnType);
        },
    }
    if sig.has_abi {
        return Some(Rejection::HandlerAbi);
    }
    if sig.is_async {
        return Some(Rejection::HandlerAsync);
    }
    if sig.is_variadic {
        return Some(Rejection::Variadic);
    }
    None
}

/// The check made on a function marked as the main task's entry. A signature
/// that breaks a requirement stops the macro with the message of
/// `main_signature_error`; this check admits only signatures that meet them
/// all, so it has nothing left to do at run time.
pub fn check_main_function_signature(sig: &SignatureShape)
    requires
        valid_main_signature(*sig),
{
}

/// The check made on a function marked as an IRQ handler. A signature that
/// breaks a requirement stops the macro with the message of
/// `handler_signature_error`; this check admits only signatures that meet them
/// all, so it has nothing left to do at run time.
pub fn check_handler_function_signature(sig: &SignatureShape)
    requires
        valid_handler_signature(*sig),
{
}

} // verus!
