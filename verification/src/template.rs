//! The code that the attribute macros emit, as text.
//!
//! Each piece is a fixed template with the names filled in: the main
//! trampoline, an IRQ's assembly entry sequence (one per core family), and the
//! IRQ trampoline that calls the user's handler.
use vstd::prelude::*;
use vstd::string::StringExecFns;

verus! {

/// The Cortex-M core family the IRQ entry sequence is written for.
#[derive(Clone, Copy, Debug, PartialEq, Eq, Structural)]
pub enum CoreArch {
    /// ARMv6-M cores (Cortex-M0/M0+), which lack `strd` and need write-back
    /// forms of `ldmia`/`stmia`.
    Armv6m,
    /// ARMv7-M and ARMv7E-M cores (Cortex-M3/M4/M7).
    Armv7m,
}

/// Text of the main trampoline before the name of the user's main function.
pub const MAIN_TRAMPOLINE_HEAD: &'static str = "#[no_mangle]\nextern \"Rust\" fn __main_trampoline(arg: core::sync::atomic::AtomicPtr<u8>) {\nlet arg = arg.load(core::sync::atomic::Ordering::SeqCst) as *mut cortex_m::Peripherals;\nlet arg = unsafe { alloc::boxed::Box::from_raw(arg) };\n";

/// Text of the main trampoline after the name of the user's main function.
pub const MAIN_TRAMPOLINE_TAIL: &'static str = "(*arg)\n}";

/// Start of an IRQ entry, up to the exported symbol name (the IRQ name).
pub const ENTRY_EXPORT: &'static str = "#[naked]\n#[export_name = \"";

/// Text between the exported IRQ name and the lower-case IRQ name in the entry function's own name.
pub const ENTRY_SYMBOL: &'static str = "\"]\nunsafe extern \"C\" fn __hopter_";

/// Body of the IRQ entry for ARMv6-M cores, up to the lower-case IRQ name of the trampoline symbol.
pub const ENTRY_BODY_ARMV6M: &'static str = "_entry() {\ncore::arch::asm!(\n\"ldr   r0, ={tls_mem_addr}\",\n\"ldmia r0!, {{r1-r3}}\",\n\"push  {{r1-r3, lr}}\",\n\"ldr   r0, ={tls_mem_addr}\",\n\"ldr   r1, ={cont_stk_boundary}\",\n\"movs  r2, #0\",\n\"str   r1, [r0]\",\n\"str   r2, [r0, #4]\",\n\"str   r2, [r0, #8]\",\n// Run the IRQ handler.\n\"bl    {handler_trampoline}\",\n\"pop   {{r1-r3}}\",\n\"ldr   r0, ={tls_mem_addr}\",\n\"stmia r0!, {{r1-r3}}\",\n// Exception return.\n\"pop   {{pc}}\",\ntls_mem_addr = const hopter::config::__TLS_MEM_ADDR,\ncont_stk_boundary = const hopter::config::__CONTIGUOUS_STACK_BOUNDARY,\nhandler_trampoline = sym __hopter_";

/// Body of the IRQ entry for other Cortex-M cores, up to the lower-case IRQ name of the trampoline symbol.
pub const ENTRY_BODY_ARMV7M: &'static str = "_entry() {\ncore::arch::asm!(\n\"ldr   r0, ={tls_mem_addr}\",\n\"ldmia r0, {{r1-r3}}\",\n\"push  {{r1-r3, lr}}\",\n\"ldr   r1, ={cont_stk_boundary}\",\n\"mov   r2, #0\",\n\"strd  r1, r2, [r0]\",\n\"str   r2, [r0, #8]\",\n// Run the IRQ handler.\n\"bl    {handler_trampoline}\",\n\"pop   {{r1-r3}}\",\n\"ldr   r0, ={tls_mem_addr}\",\n\"stmia r0, {{r1-r3}}\",\n// Exception return.\n\"pop   {{pc}}\",\ntls_mem_addr = const hopter::config::__TLS_MEM_ADDR,\ncont_stk_boundary = const hopter::config::__CONTIGUOUS_STACK_BOUNDARY,\nhandler_trampoline = sym __hopter_";

/// End of an IRQ entry, after the trampoline symbol's lower-case IRQ name.
pub const ENTRY_TAIL: &'static str = "_trampoline,\noptions(noreturn)\n)\n}\n";

/// Start of an IRQ trampoline, up to its lower-case IRQ name.
pub const TRAMPOLINE_HEAD: &'static str = "unsafe extern \"C\" fn __hopter_";

/// Text of an IRQ trampoline between its lower-case IRQ name and the handler's name.
pub const TRAMPOLINE_CALL: &'static str = "_trampoline() {\nlet prev_is_handler_unwinding = hopter::unwind::unwind::save_and_clear_isr_unwinding();\nlet _ = hopter::unwind::unw_catch::catch_unwind(";

/// End of an IRQ trampoline, after the handler's name.
pub const TRAMPOLINE_TAIL: &'static str = ");\nhopter::unwind::unwind::set_isr_unwinding(prev_is_handler_unwinding);\n}\n";

/// The main trampoline: takes the boxed peripherals and calls the user's main
/// function `name` with them.
pub open spec fn main_trampoline_text(name: Seq<char>) -> Seq<char> {
    MAIN_TRAMPOLINE_HEAD@ + name + MAIN_TRAMPOLINE_TAIL@
}

/// The architecture-dependent part of an IRQ entry.
pub open spec fn entry_body(arch: CoreArch) -> Seq<char> {
    match arch {
        CoreArch::Armv6m => ENTRY_BODY_ARMV6M@,
        CoreArch::Armv7m => ENTRY_BODY_ARMV7M@,
    }
}

/// The naked entry function exported under the IRQ name `irq`, named
/// `__hopter_<lower>_entry` and branching to `__hopter_<lower>_trampoline`.
pub open spec fn handler_entry_text(arch: CoreArch, irq: Seq<char>, lower: Seq<char>) -> Seq<char> {
    ENTRY_EXPORT@ + irq + ENTRY_SYMBOL@ + lower + entry_body(arch) + lower + ENTRY_TAIL@
}

/// The trampoline `__hopter_<lower>_trampoline`, which runs the handler
/// `name` under the kernel's unwinding guard.
pub open spec fn handler_trampoline_text(lower: Seq<char>, name: Seq<char>) -> Seq<char> {
    TRAMPOLINE_HEAD@ + lower + TRAMPOLINE_CALL@ + name + TRAMPOLINE_TAIL@
}

/// Builds the main trampoline for the user's main function `func_name`.
pub fn main_trampoline_source(func_name: &str) -> (r: String)
    ensures
        r@ == main_trampoline_text(func_name@),
{
    let mut s = String::from_str(MAIN_TRAMPOLINE_HEAD);
    s.append(func_name);
    s.append(MAIN_TRAMPOLINE_TAIL);
    s
}

/// Builds the assembly entry sequence of the IRQ `irq`, whose lower-case form
/// is `lower_irq`.
pub fn handler_entry_source(arch: CoreArch, irq: &str, lower_irq: &str) -> (r: String)
    ensures
        r@ == handler_entry_text(arch, irq@, lower_irq@),
{
    let body = match arch {
        CoreArch::Armv6m => ENTRY_BODY_ARMV6M,
        CoreArch::Armv7m => ENTRY_BODY_ARMV7M,
    };
    let mut s = String::from_str(ENTRY_EXPORT);
    s.append(irq);
    s.append(ENTRY_SYMBOL);
    s.append(lower_irq);
    s.append(body);
    s.append(lower_irq);
    s.append(ENTRY_TAIL);
    s
}

/// Builds the trampoline of the IRQ whose lower-case name is `lower_irq`,
/// calling the handler `func_name`.
pub fn handler_trampoline_source(lower_irq: &str, func_name: &str) -> (r: String)
    ensures
        r@ == handler_trampoline_text(lower_irq@, func_name@),
{
    let mut s = String::from_str(TRAMPOLINE_HEAD);
    s.append(lower_irq);
    s.append(TRAMPOLINE_CALL);
    s.append(func_name);
    s.append(TRAMPOLINE_TAIL);
    s
}

} // verus!
