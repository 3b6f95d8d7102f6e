use lattice::runtime::{
    get_runtime_mode, parse_launch_args, set_runtime_mode, should_exit_xr, signal_xr_exit,
    RuntimeFlags, RuntimeMode,
};
use lattice::shader_text::{
    prepare_shader_source, replace_linear_to_srgb_for_xr, sanitize_wgsl, strip_diagnostics, ShaderCreate,
};

#[test]
fn first_runtime_mode_wins() {
    let mut f = RuntimeFlags::new();
    assert_eq!(get_runtime_mode(&f), RuntimeMode::Desktop);
    set_runtime_mode(&mut f, RuntimeMode::XR);
    assert_eq!(get_runtime_mode(&f), RuntimeMode::XR);
    set_runtime_mode(&mut f, RuntimeMode::Desktop);
    assert_eq!(get_runtime_mode(&f), RuntimeMode::XR);
}

#[test]
fn xr_exit_signal_is_sticky() {
    let mut f = RuntimeFlags::new();
    assert!(!should_exit_xr(&f));
    signal_xr_exit(&mut f);
    assert!(should_exit_xr(&f));
    signal_xr_exit(&mut f);
    assert!(should_exit_xr(&f));
}

fn args(v: &[&str]) -> Vec<String> {
    v.iter().map(|s| s.to_string()).collect()
}

#[test]
fn command_line() {
    let o = parse_launch_args(&args(&["host", "--xr", "game/main.js", "--clear-db"]));
    assert!(o.xr_mode && o.clear_db);
    assert_eq!(o.script_path, "game/main.js");
    let d = parse_launch_args(&args(&["host"]));
    assert!(!d.xr_mode && !d.clear_db);
    assert_eq!(d.script_path, "js/entry.js");
    let same = parse_launch_args(&args(&["host", "host", "-v", "x.js"]));
    assert_eq!(same.script_path, "x.js");
    assert_eq!(parse_launch_args(&vec![]).script_path, "js/entry.js");
}

#[test]
fn srgb_functions_become_pass_through() {
    let src = "fn a() {}\nfn linear_to_srgb(c: vec4f) -> vec4f { if (x) { return pow(c); } return c; }\nfn b() {}";
    assert_eq!(replace_linear_to_srgb_for_xr(src),
        "fn a() {}\nfn linear_to_srgb(c: vec4f) -> vec4f { return c; }\nfn b() {}");
    let two = "fn linear_to_srgb(x: f32) { {} }fn linear_to_srgb(y) { }";
    assert_eq!(replace_linear_to_srgb_for_xr(two),
        "fn linear_to_srgb(c: vec4f) -> vec4f { return c; }fn linear_to_srgb(c: vec4f) -> vec4f { return c; }");
    assert_eq!(replace_linear_to_srgb_for_xr("fn linear_to_srgb(x) { {"), "fn linear_to_srgb(x) { {");
    assert_eq!(replace_linear_to_srgb_for_xr("fn linear_to_srgb;"), "fn linear_to_srgb;");
    assert_eq!(replace_linear_to_srgb_for_xr("no such function"), "no such function");
}

#[test]
fn diagnostic_directives_are_dropped() {
    assert_eq!(strip_diagnostics("diagnostic(off, derivative_uniformity);\nfn f() {}\n"), "fn f() {}");
    assert_eq!(strip_diagnostics("a\r\n  diagnostic(x);\r\nb"), "a\nb");
    assert_eq!(strip_diagnostics("a\n\nb\r"), "a\n\nb\r");
    assert_eq!(strip_diagnostics(""), "");
    assert_eq!(strip_diagnostics("\n"), "");
}

#[test]
fn unsigned_vector_literals_are_fixed() {
    assert_eq!(sanitize_wgsl("let v = vec2u(1i, 2i);"), "let v = vec2u(1u, 2u);");
    assert_eq!(sanitize_wgsl("let v = vec4u(1i,2i , 3i,4i);\nlet w = vec2i(1i, 2i);"),
        "let v = vec4u(1u,2u , 3u,4u);\nlet w = vec2i(1i, 2i);");
    assert_eq!(sanitize_wgsl("diagnostic(off, x);\nlet v = vec3u(7i, 8, 9i);"), "let v = vec3u(7u, 8, 9u);");
}

#[test]
fn shader_sources_in_each_mode() {
    let src = "fn linear_to_srgb(c: vec4f) -> vec4f { return pow(c, vec4f(0.4)); }";
    let desc = ShaderCreate { code: src.to_string(), label: Some("tonemap".to_string()) };
    assert_eq!(prepare_shader_source(&desc, false), src);
    assert_eq!(prepare_shader_source(&desc, true), "fn linear_to_srgb(c: vec4f) -> vec4f { return c; }");
    let with_diag = ShaderCreate { code: "diagnostic(off, x);\nlet a = vec2u(1i, 2);".to_string(), label: None };
    assert_eq!(prepare_shader_source(&with_diag, false), "let a = vec2u(1u, 2);");
}

#[test]
fn only_the_exact_function_name_is_replaced() {
    let other = "fn linear_to_srgb3(c: vec3f) -> vec3f { return pow(c, vec3f(0.45)); }";
    assert_eq!(replace_linear_to_srgb_for_xr(other), other);
    let under = "fn linear_to_srgb_fast(c: vec4f) -> vec4f { return c * c; }";
    assert_eq!(replace_linear_to_srgb_for_xr(under), under);
    let both = format!("{}\nfn linear_to_srgb(c: vec4f) -> vec4f {{ return pow(c, vec4f(0.4)); }}", other);
    assert_eq!(replace_linear_to_srgb_for_xr(&both),
        format!("{}\nfn linear_to_srgb(c: vec4f) -> vec4f {{ return c; }}", other));
}
