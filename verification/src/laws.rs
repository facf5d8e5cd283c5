//! Properties that hold across the macros' rules and templates.
use vstd::prelude::*;

use crate::expand::{
    handler_expansion_spec, handler_expansion_text, handler_tokens_ok, lexed_from,
    main_expansion_spec, main_tokens_ok,
};
use crate::irq::{irq_of_args, AttrArgView};
use crate::signature::{
    ReturnKind,
    handler_returns_ok, handler_signature_rejection, main_returns_ok, main_signature_rejection,
    valid_handler_signature, valid_main_signature, ParsedFnView, Rejection, SignatureShape,
};
use crate::syntax::{lowercased, LexError, Tokens};
use crate::template::{
    entry_body, handler_entry_text, handler_trampoline_text, main_trampoline_text, CoreArch,
    ENTRY_EXPORT, ENTRY_SYMBOL, ENTRY_TAIL, MAIN_TRAMPOLINE_HEAD, MAIN_TRAMPOLINE_TAIL,
    TRAMPOLINE_CALL, TRAMPOLINE_HEAD, TRAMPOLINE_TAIL,
};

verus! {

/// A signature is refused exactly when it breaks one of the documented
/// requirements, for the main function and for handlers alike.
pub proof fn rejection_iff_invalid(s: SignatureShape)
    ensures
        main_signature_rejection(s) is None <==> valid_main_signature(s),
        handler_signature_rejection(s) is None <==> valid_handler_signature(s),
{
}

/// The reason a main function is refused is the first requirement it breaks,
/// in the order parameter count, return type, `async`, `unsafe`, variadic.
pub proof fn main_rejection_is_first_broken_rule(s: SignatureShape)
    ensures
        main_signature_rejection(s) == Some(Rejection::MainArgumentCount) <==> s.input_count != 1,
        main_signature_rejection(s) == Some(Rejection::ReturnType) <==> s.input_count == 1
            && !main_returns_ok(s.output),
        main_signature_rejection(s) == Some(Rejection::MainAsync) <==> s.input_count == 1
            && main_returns_ok(s.output) && s.is_async,
        main_signature_rejection(s) == Some(Rejection::MainUnsafe) <==> s.input_count == 1
            && main_returns_ok(s.output) && !s.is_async && s.is_unsafe,
        main_signature_rejection(s) == Some(Rejection::Variadic) <==> s.input_count == 1
            && main_returns_ok(s.output) && !s.is_async && !s.is_unsafe && s.is_variadic,
{
}

/// The reason a handler is refused is the first requirement it breaks, in the
/// order parameters, return type, ABI, `async`, variadic.
pub proof fn handler_rejection_is_first_broken_rule(s: SignatureShape)
    ensures
        handler_signature_rejection(s) == Some(Rejection::HandlerArgumentCount) <==> s.input_count
            != 0,
        handler_signature_rejection(s) == Some(Rejection::ReturnType) <==> s.input_count == 0
            && !handler_returns_ok(s.output),
        handler_signature_rejection(s) == Some(Rejection::HandlerAbi) <==> s.input_count == 0
            && handler_returns_ok(s.output) && s.has_abi,
        handler_signature_rejection(s) == Some(Rejection::HandlerAsync) <==> s.input_count == 0
            && handler_returns_ok(s.output) && !s.has_abi && s.is_async,
        handler_signature_rejection(s) == Some(Rejection::Variadic) <==> s.input_count == 0
            && handler_returns_ok(s.output) && !s.has_abi && !s.is_async && s.is_variadic,
{
}

/// No signature is accepted both as a handler and as the main function: a
/// handler takes no parameter, the main function exactly one.
pub proof fn handler_signature_is_never_main(s: SignatureShape)
    requires
        valid_handler_signature(s),
    ensures
        !valid_main_signature(s),
        main_signature_rejection(s) == Some(Rejection::MainArgumentCount),
{
}

/// An IRQ is accepted exactly when the attribute holds that one identifier,
/// and the identifier is one of the supported IRQ names.
pub proof fn irq_accepted_iff_single_supported_name(
    args: Seq<AttrArgView>,
    supported: Seq<Seq<char>>,
    irq: Seq<char>,
)
    ensures
        irq_of_args(args, supported) == Ok::<Seq<char>, Rejection>(irq) <==> (args =~= seq![
            AttrArgView::Path(false, seq![irq]),
        ] && supported.contains(irq)),
        irq_of_args(args, supported) is Err ==> irq_of_args(args, supported) == Err::<
            Seq<char>,
            Rejection,
        >(Rejection::UnsupportedIrq),
{
    if irq_of_args(args, supported) == Ok::<Seq<char>, Rejection>(irq) {
        if let AttrArgView::Path(_, segs) = args[0] {
            assert(segs =~= seq![irq]);
        }
    }
    if args =~= seq![AttrArgView::Path(false, seq![irq])] && supported.contains(irq) {
        assert(args[0] == AttrArgView::Path(false, seq![irq]));
    }
}

/// With no supported IRQ, every handler attribute is refused.
pub proof fn empty_irq_table_refuses_all(args: Seq<AttrArgView>)
    ensures
        irq_of_args(args, Seq::empty()) == Err::<Seq<char>, Rejection>(Rejection::UnsupportedIrq),
{
}

/// What `#[main]` emits is the trampoline calling the function by its name,
/// then the function exactly as written.
pub proof fn main_expansion_layout(f: ParsedFnView, item: Seq<char>, out: Seq<char>)
    requires
        main_expansion_spec(f, item) == Ok::<Seq<char>, Rejection>(out),
    ensures
        valid_main_signature(f.shape),
        out == main_trampoline_text(f.name) + "\n"@ + item,
        item.len() <= out.len(),
        out.subrange(out.len() - item.len(), out.len() as int) =~= item,
{
}

/// What `#[handler(..)]` emits is, in order: the entry exported under the IRQ
/// name as written and named after its lower-case form; the trampoline of
/// that lower-case name, which runs the function under the unwinding guard;
/// and the function exactly as written. The IRQ is the attribute's only
/// argument, and a supported name.
pub proof fn handler_expansion_layout(
    arch: CoreArch,
    f: ParsedFnView,
    args: Seq<AttrArgView>,
    supported: Seq<Seq<char>>,
    item: Seq<char>,
    out: Seq<char>,
)
    requires
        handler_expansion_spec(arch, f, args, supported, item) == Ok::<Seq<char>, Rejection>(out),
    ensures
        valid_handler_signature(f.shape),
        exists|irq: Seq<char>|
            {
                &&& #[trigger] supported.contains(irq)
                &&& args =~= seq![AttrArgView::Path(false, seq![irq])]
                &&& out =~= ENTRY_EXPORT@ + irq + ENTRY_SYMBOL@ + lowercased(irq) + entry_body(arch)
                    + lowercased(irq) + ENTRY_TAIL@ + TRAMPOLINE_HEAD@ + lowercased(irq)
                    + TRAMPOLINE_CALL@ + f.name + TRAMPOLINE_TAIL@ + item
            },
        item.len() <= out.len(),
        out.subrange(out.len() - item.len(), out.len() as int) =~= item,
{
    let irq = irq_of_args(args, supported)->Ok_0;
    irq_accepted_iff_single_supported_name(args, supported, irq);
    assert(out == handler_expansion_text(arch, irq, lowercased(irq), f.name, item));
}

/// A handler whose signature breaks a rule is refused for that rule, whatever
/// its attribute says: the signature is checked before the IRQ.
pub proof fn handler_signature_checked_before_irq(
    arch: CoreArch,
    f: ParsedFnView,
    args: Seq<AttrArgView>,
    supported: Seq<Seq<char>>,
    item: Seq<char>,
    j: Rejection,
)
    requires
        handler_signature_rejection(f.shape) == Some(j),
    ensures
        handler_expansion_spec(arch, f, args, supported, item) == Err::<Seq<char>, Rejection>(j),
{
}

/// The core family changes only the entry sequence: for the same IRQ and
/// function, both expansions end with the same trampoline and function text.
pub proof fn arch_changes_only_entry(
    irq: Seq<char>,
    lower: Seq<char>,
    name: Seq<char>,
    item: Seq<char>,
)
    ensures
        ({
            let a = handler_expansion_text(CoreArch::Armv6m, irq, lower, name, item);
            let b = handler_expansion_text(CoreArch::Armv7m, irq, lower, name, item);
            let rest = handler_trampoline_text(lower, name) + item;
            &&& a =~= handler_entry_text(CoreArch::Armv6m, irq, lower) + rest
            &&& b =~= handler_entry_text(CoreArch::Armv7m, irq, lower) + rest
            &&& a.skip(a.len() - rest.len()) =~= b.skip(b.len() - rest.len())
        }),
{
}

/// A successful `#[main]` on the text `item` emits the trampoline calling,
/// by its own name, the function parsed from `item` itself, and then `item`
/// unchanged; that function meets the main-function rules.
pub proof fn main_calls_the_annotated_function(item: Seq<char>, t: Tokens)
    requires
        main_tokens_ok(item, t),
    ensures
        ({
            let (src, f) = t.item_origin()->Some_0;
            &&& src == item
            &&& valid_main_signature(f.shape)
            &&& t.source() == MAIN_TRAMPOLINE_HEAD@ + f.name + MAIN_TRAMPOLINE_TAIL@ + "\n"@ + item
        }),
{
}

/// `#[main]` on a function meeting the rules fails only when the generated
/// text, the trampoline calling the function by its name followed by the
/// function, does not lex: its result is lexed from, or fails on, exactly
/// that text. A diverging or unit-returning main is never refused.
pub proof fn main_accepts_every_valid_signature(
    name: Seq<char>,
    shape: SignatureShape,
    item: Seq<char>,
    r: Result<Tokens, LexError>,
)
    requires
        valid_main_signature(shape),
        lexed_from(r, main_trampoline_text(name) + "\n"@ + item),
    ensures
        match r {
            Ok(t) => t.source() == MAIN_TRAMPOLINE_HEAD@ + name + MAIN_TRAMPOLINE_TAIL@ + "\n"@
                + item,
            Err(e) => e.source() == MAIN_TRAMPOLINE_HEAD@ + name + MAIN_TRAMPOLINE_TAIL@ + "\n"@
                + item,
        },
        shape.output == ReturnKind::Never ==> main_signature_rejection(shape) is None,
{
}

/// A successful `#[handler(..)]` emits, for the IRQ the attribute text
/// itself names (its only argument, a supported identifier): the entry
/// exported under that IRQ and named after its lower-case form, then the
/// trampoline of that lower-case name passing the function parsed from the
/// item text, by its own name, to `catch_unwind`, then the item unchanged.
pub proof fn handler_wires_the_named_irq_to_the_annotated_function(
    arch: CoreArch,
    attr: Seq<char>,
    item: Seq<char>,
    supported: Seq<Seq<char>>,
    t: Tokens,
)
    requires
        handler_tokens_ok(arch, attr, item, supported, t),
    ensures
        ({
            let (isrc, f) = t.item_origin()->Some_0;
            let (asrc, args) = t.attr_origin()->Some_0;
            &&& isrc == item
            &&& asrc == attr
            &&& valid_handler_signature(f.shape)
            &&& exists|irq: Seq<char>|
                {
                    &&& #[trigger] supported.contains(irq)
                    &&& args =~= seq![AttrArgView::Path(false, seq![irq])]
                    &&& t.source() =~= ENTRY_EXPORT@ + irq + ENTRY_SYMBOL@ + lowercased(irq)
                        + entry_body(arch) + lowercased(irq) + ENTRY_TAIL@ + TRAMPOLINE_HEAD@
                        + lowercased(irq) + TRAMPOLINE_CALL@ + f.name + TRAMPOLINE_TAIL@ + item
                }
        }),
{
    let (isrc, f) = t.item_origin()->Some_0;
    let (asrc, args) = t.attr_origin()->Some_0;
    handler_expansion_layout(arch, f, args, supported, item, t.source());
}

/// A handler with no parameter, returning nothing or `()`, without ABI,
/// `async` or variadic marker, is never refused for its signature: the only
/// possible refusal is an unsupported IRQ.
pub proof fn unit_handler_is_refused_only_for_its_irq(
    arch: CoreArch,
    f: ParsedFnView,
    args: Seq<AttrArgView>,
    supported: Seq<Seq<char>>,
    item: Seq<char>,
)
    requires
        f.shape.input_count == 0,
        f.shape.output == ReturnKind::Default || f.shape.output == ReturnKind::Tuple(0),
        !f.shape.has_abi,
        !f.shape.is_async,
        !f.shape.is_variadic,
    ensures
        handler_expansion_spec(arch, f, args, supported, item) is Ok
            || handler_expansion_spec(arch, f, args, supported, item) == Err::<Seq<char>, Rejection>(
            Rejection::UnsupportedIrq,
        ),
{
}

} // verus!
