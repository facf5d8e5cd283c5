use hopter_macros::{
    handler, handler_entry_source, handler_expansion, handler_trampoline_source, main_expansion,
    main_trampoline_source, try_handler, try_main, AttrArg, CoreArch, MacroError, ParsedFn,
    Rejection, ReturnKind, SignatureShape, SyntaxSite,
};

fn expected_main_trampoline(name: &str) -> String {
    format!("#[no_mangle]\nextern \"Rust\" fn __main_trampoline(arg: core::sync::atomic::AtomicPtr<u8>) {{\nlet arg = arg.load(core::sync::atomic::Ordering::SeqCst) as *mut cortex_m::Peripherals;\nlet arg = unsafe {{ alloc::boxed::Box::from_raw(arg) }};\n{}(*arg)\n}}", name)
}

fn expected_entry(arch: CoreArch, irq: &str, lower: &str) -> String {
    match arch {
        CoreArch::Armv6m => format!("#[naked]\n#[export_name = \"{}\"]\nunsafe extern \"C\" fn __hopter_{}_entry() {{\ncore::arch::asm!(\n\"ldr   r0, ={{tls_mem_addr}}\",\n\"ldmia r0!, {{{{r1-r3}}}}\",\n\"push  {{{{r1-r3, lr}}}}\",\n\"ldr   r0, ={{tls_mem_addr}}\",\n\"ldr   r1, ={{cont_stk_boundary}}\",\n\"movs  r2, #0\",\n\"str   r1, [r0]\",\n\"str   r2, [r0, #4]\",\n\"str   r2, [r0, #8]\",\n// Run the IRQ handler.\n\"bl    {{handler_trampoline}}\",\n\"pop   {{{{r1-r3}}}}\",\n\"ldr   r0, ={{tls_mem_addr}}\",\n\"stmia r0!, {{{{r1-r3}}}}\",\n// Exception return.\n\"pop   {{{{pc}}}}\",\ntls_mem_addr = const hopter::config::__TLS_MEM_ADDR,\ncont_stk_boundary = const hopter::config::__CONTIGUOUS_STACK_BOUNDARY,\nhandler_trampoline = sym __hopter_{}_trampoline,\noptions(noreturn)\n)\n}}\n", irq, lower, lower),
        CoreArch::Armv7m => format!("#[naked]\n#[export_name = \"{}\"]\nunsafe extern \"C\" fn __hopter_{}_entry() {{\ncore::arch::asm!(\n\"ldr   r0, ={{tls_mem_addr}}\",\n\"ldmia r0, {{{{r1-r3}}}}\",\n\"push  {{{{r1-r3, lr}}}}\",\n\"ldr   r1, ={{cont_stk_boundary}}\",\n\"mov   r2, #0\",\n\"strd  r1, r2, [r0]\",\n\"str   r2, [r0, #8]\",\n// Run the IRQ handler.\n\"bl    {{handler_trampoline}}\",\n\"pop   {{{{r1-r3}}}}\",\n\"ldr   r0, ={{tls_mem_addr}}\",\n\"stmia r0, {{{{r1-r3}}}}\",\n// Exception return.\n\"pop   {{{{pc}}}}\",\ntls_mem_addr = const hopter::config::__TLS_MEM_ADDR,\ncont_stk_boundary = const hopter::config::__CONTIGUOUS_STACK_BOUNDARY,\nhandler_trampoline = sym __hopter_{}_trampoline,\noptions(noreturn)\n)\n}}\n", irq, lower, lower),
    }
}

fn expected_trampoline(lower: &str, name: &str) -> String {
    format!("unsafe extern \"C\" fn __hopter_{}_trampoline() {{\nlet prev_is_handler_unwinding = hopter::unwind::unwind::save_and_clear_isr_unwinding();\nlet _ = hopter::unwind::unw_catch::catch_unwind({});\nhopter::unwind::unwind::set_isr_unwinding(prev_is_handler_unwinding);\n}}\n", lower, name)
}

fn tokens_text(src: &str) -> String {
    src.parse::<proc_macro2::TokenStream>().unwrap().to_string()
}

fn table() -> Vec<String> {
    vec!["TIM2".to_string(), "EXTI15_10".to_string()]
}

fn parsed(name: &str, input_count: usize) -> ParsedFn {
    ParsedFn {
        name: name.to_string(),
        shape: SignatureShape {
            input_count,
            output: ReturnKind::Default,
            is_async: false,
            is_unsafe: false,
            is_variadic: false,
            has_abi: false,
        },
    }
}

fn ident(name: &str) -> Vec<AttrArg> {
    vec![AttrArg::Path(false, vec![name.to_string()])]
}

fn main_text(name: &str, item: &str) -> String {
    format!("{}\n{}", expected_main_trampoline(name), item)
}

fn handler_text(arch: CoreArch, irq: &str, lower: &str, name: &str, item: &str) -> String {
    format!("{}{}{}", expected_entry(arch, irq, lower), expected_trampoline(lower, name), item)
}

fn main_tokens(item: &str) -> Result<String, MacroError> {
    try_main("", item).map(|t| t.into_stream().to_string())
}

fn handler_tokens(arch: CoreArch, attr: &str, item: &str, t: &[String]) -> Result<String, MacroError> {
    try_handler(arch, attr, item, t).map(|t| t.into_stream().to_string())
}

const MAIN_ITEM: &str = "fn main(cp: cortex_m::Peripherals) { let _ = cp; }";
const HANDLER_ITEM: &str = "fn tim2_handler() { work(); }";

#[test]
fn main_trampoline_calls_the_named_function() {
    let t = main_trampoline_source("app_main");
    assert_eq!(t, expected_main_trampoline("app_main"));
    assert!(t.ends_with("app_main(*arg)\n}"));
    assert!(t.starts_with("#[no_mangle]\nextern \"Rust\" fn __main_trampoline("));
}

#[test]
fn main_expansion_is_trampoline_then_function() {
    assert_eq!(main_expansion(&parsed("main", 1), MAIN_ITEM), Ok(main_text("main", MAIN_ITEM)));
    assert_eq!(main_expansion(&parsed("main", 0), MAIN_ITEM), Err(Rejection::MainArgumentCount));
}

#[test]
fn main_macro_emits_tokens_of_the_expansion() {
    let expected = tokens_text(&main_text("main", MAIN_ITEM));
    let t = hopter_macros::main(&parsed("main", 1), MAIN_ITEM).unwrap();
    assert_eq!(t.into_stream().to_string(), expected);
    assert_eq!(main_tokens(MAIN_ITEM), Ok(expected));
}

#[test]
fn main_uses_the_parsed_name() {
    let item = "fn start(p: cortex_m::Peripherals) -> ! { loop {} }";
    assert_eq!(main_tokens(item), Ok(tokens_text(&main_text("start", item))));
}

#[test]
fn main_macro_ignores_its_attribute() {
    let a = try_main("whatever, 1", MAIN_ITEM).unwrap().into_stream().to_string();
    assert_eq!(Ok(a), main_tokens(MAIN_ITEM));
}

#[test]
fn main_leaves_the_parameter_type_to_the_compiler() {
    for item in [
        "fn main(cp: Peripherals) -> () {}",
        "fn main(cp: cortex_m::peripheral::Peripherals) {}",
        "fn main(x: u32) {}",
    ] {
        assert!(try_main("", item).is_ok(), "item {:?}", item);
    }
}

#[test]
fn main_rejections_from_parsed_signatures() {
    let cases = [
        ("fn main() {}", Rejection::MainArgumentCount),
        ("fn main(a: Peripherals, b: Peripherals) {}", Rejection::MainArgumentCount),
        ("fn main(a: Peripherals) -> u32 { 0 }", Rejection::ReturnType),
        ("fn main(a: Peripherals) -> (u8, u8) { (0, 0) }", Rejection::ReturnType),
        ("async fn main(a: Peripherals) {}", Rejection::MainAsync),
        ("async fn main(a: cortex_m::peripheral::Peripherals) {}", Rejection::MainAsync),
        ("unsafe fn main(a: Peripherals) {}", Rejection::MainUnsafe),
    ];
    for (item, j) in cases {
        assert_eq!(main_tokens(item), Err(MacroError::Rejected(j)), "item {:?}", item);
    }
}

#[test]
fn main_rejects_a_non_function_item() {
    assert!(matches!(main_tokens("struct Main;"), Err(MacroError::Syntax(SyntaxSite::Item, _))));
    assert!(matches!(main_tokens("let x = 1;"), Err(MacroError::Syntax(SyntaxSite::Item, _))));
}

#[test]
fn handler_entry_exports_the_irq_and_names_lower_case_symbols() {
    let e = handler_entry_source(CoreArch::Armv7m, "TIM2", "tim2");
    assert_eq!(e, expected_entry(CoreArch::Armv7m, "TIM2", "tim2"));
    assert!(e.contains("#[export_name = \"TIM2\"]"));
    assert!(e.contains("fn __hopter_tim2_entry()"));
    assert!(e.contains("sym __hopter_tim2_trampoline,"));
    assert!(e.contains("\"strd  r1, r2, [r0]\","));
}

#[test]
fn armv6m_entry_avoids_strd() {
    let e = handler_entry_source(CoreArch::Armv6m, "TIM2", "tim2");
    assert_eq!(e, expected_entry(CoreArch::Armv6m, "TIM2", "tim2"));
    assert!(!e.contains("strd"));
    assert!(e.contains("\"ldmia r0!, {{r1-r3}}\","));
}

#[test]
fn handler_trampoline_calls_the_handler() {
    let t = handler_trampoline_source("tim2", "tim2_handler");
    assert_eq!(t, expected_trampoline("tim2", "tim2_handler"));
    assert!(t.contains("catch_unwind(tim2_handler);"));
}

#[test]
fn handler_expansion_lowercases_the_irq() {
    for arch in [CoreArch::Armv6m, CoreArch::Armv7m] {
        let out = handler_expansion(arch, &parsed("tim2_handler", 0), &ident("TIM2"), &table(), HANDLER_ITEM)
            .unwrap();
        assert_eq!(out, handler_text(arch, "TIM2", "tim2", "tim2_handler", HANDLER_ITEM));
        assert!(!out.contains("__hopter_TIM2"));
    }
}

#[test]
fn handler_expansion_with_mixed_case_irq() {
    let out = handler_expansion(CoreArch::Armv7m, &parsed("on_exti", 0), &ident("EXTI15_10"), &table(), "fn on_exti() {}")
        .unwrap();
    assert!(out.contains("#[export_name = \"EXTI15_10\"]"));
    assert!(out.contains("fn __hopter_exti15_10_entry()"));
    assert!(out.contains("fn __hopter_exti15_10_trampoline()"));
    assert!(out.ends_with("catch_unwind(on_exti);\nhopter::unwind::unwind::set_isr_unwinding(prev_is_handler_unwinding);\n}\nfn on_exti() {}"));
}

#[test]
fn architectures_differ_only_in_the_entry() {
    let p = parsed("tim2_handler", 0);
    let a = handler_expansion(CoreArch::Armv6m, &p, &ident("TIM2"), &table(), HANDLER_ITEM).unwrap();
    let b = handler_expansion(CoreArch::Armv7m, &p, &ident("TIM2"), &table(), HANDLER_ITEM).unwrap();
    let rest = format!("{}{}", expected_trampoline("tim2", "tim2_handler"), HANDLER_ITEM);
    assert!(a.ends_with(&rest));
    assert!(b.ends_with(&rest));
    assert_ne!(a, b);
}

#[test]
fn handler_macro_emits_tokens_of_the_expansion() {
    for arch in [CoreArch::Armv6m, CoreArch::Armv7m] {
        let expected = tokens_text(&handler_text(arch, "TIM2", "tim2", "tim2_handler", HANDLER_ITEM));
        let t = handler(arch, &parsed("tim2_handler", 0), &ident("TIM2"), &table(), HANDLER_ITEM).unwrap();
        assert_eq!(t.into_stream().to_string(), expected);
        assert_eq!(handler_tokens(arch, "TIM2", HANDLER_ITEM, &table()), Ok(expected));
    }
}

#[test]
fn handler_rejections_from_parsed_signatures() {
    let t = table();
    let cases = [
        ("fn h(x: u8) {}", Rejection::HandlerArgumentCount),
        ("fn h() -> ! { loop {} }", Rejection::ReturnType),
        ("extern \"C\" fn h() {}", Rejection::HandlerAbi),
        ("async fn h() {}", Rejection::HandlerAsync),
    ];
    for (item, j) in cases {
        assert_eq!(handler_tokens(CoreArch::Armv7m, "TIM2", item, &t), Err(MacroError::Rejected(j)));
    }
    assert!(handler_tokens(CoreArch::Armv7m, "TIM2", "unsafe fn h() {}", &t).is_ok());
}

#[test]
fn handler_signature_is_checked_before_the_irq() {
    assert_eq!(
        handler_tokens(CoreArch::Armv7m, "NOPE", "fn h(x: u8) {}", &table()),
        Err(MacroError::Rejected(Rejection::HandlerArgumentCount))
    );
}

#[test]
fn handler_attribute_must_name_one_supported_irq() {
    let t = table();
    for attr in ["", "TIM3", "TIM2, EXTI15_10", "\"TIM2\"", "tim2", "TIM2 = 1", "irq::TIM2", "::TIM2"] {
        assert_eq!(
            handler_tokens(CoreArch::Armv7m, attr, HANDLER_ITEM, &t),
            Err(MacroError::Rejected(Rejection::UnsupportedIrq)),
            "attribute {:?}",
            attr
        );
    }
    assert!(handler_tokens(CoreArch::Armv7m, "TIM2,", HANDLER_ITEM, &t).is_ok());
}

#[test]
fn handler_without_irq_table_rejects_every_irq() {
    assert_eq!(
        handler_tokens(CoreArch::Armv7m, "TIM2", HANDLER_ITEM, &[]),
        Err(MacroError::Rejected(Rejection::UnsupportedIrq))
    );
}

#[test]
fn handler_syntax_errors() {
    let t = table();
    assert!(matches!(
        handler_tokens(CoreArch::Armv7m, "TIM2", "const X: u8 = 0;", &t),
        Err(MacroError::Syntax(SyntaxSite::Item, _))
    ));
    assert!(matches!(
        handler_tokens(CoreArch::Armv6m, "TIM2 TIM3", HANDLER_ITEM, &t),
        Err(MacroError::Syntax(SyntaxSite::Attribute, _))
    ));
    // The item is parsed before the attribute.
    assert!(matches!(
        handler_tokens(CoreArch::Armv7m, "TIM2 TIM3", "struct S;", &t),
        Err(MacroError::Syntax(SyntaxSite::Item, _))
    ));
}
