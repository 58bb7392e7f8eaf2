use fastly_php_runtime::setup::{
    configure_arguments, configure_exit_accepted, get_build_env, get_wasi_sdk, join_strings, locate_tool,
    WasiSdkEnv,
};

fn s(x: &str) -> String {
    x.to_string()
}

const BASE_CFLAGS: &str = "-O3 -D_WASI_EMULATED_GETPID -D_WASI_EMULATED_SIGNAL -D_WASI_EMULATED_PROCESS_CLOCKS -D_POSIX_SOURCE=1 -D_GNU_SOURCE=1 -DHAVE_FORK=0 -DWASM_WASI -fPIC";
const BASE_LDFLAGS: &str = "-lwasi-emulated-getpid -lwasi-emulated-signal -lwasi-emulated-process-clocks -static";

#[test]
fn build_env_without_tools() {
    let env = get_build_env(false, &None, &None, &None, &None, &None);
    assert_eq!(env, vec![(s("CFLAGS"), s(BASE_CFLAGS)), (s("LDFLAGS"), s(BASE_LDFLAGS))]);
}

#[test]
fn build_env_with_sysroot_debug_and_tools() {
    let env = get_build_env(
        true,
        &Some(s("/sdk/share/wasi-sysroot")),
        &Some(s("/sdk/bin/clang")),
        &Some(s("/sdk/bin/llvm-ranlib")),
        &None,
        &Some(s("/sdk/bin/llvm-nm")),
    );
    assert_eq!(
        env,
        vec![
            (s("CFLAGS"), format!("{} --sysroot=/sdk/share/wasi-sysroot -g", BASE_CFLAGS)),
            (s("LDFLAGS"), format!("{} --sysroot=/sdk/share/wasi-sysroot", BASE_LDFLAGS)),
            (s("CC"), s("/sdk/bin/clang")),
            (s("RANLIB"), s("/sdk/bin/llvm-ranlib")),
            (s("NM"), s("/sdk/bin/llvm-nm")),
        ]
    );
}

#[test]
fn tools_prefer_specific_then_general_then_sdk() {
    assert_eq!(locate_tool(&Some(s("/a")), &Some(s("/b")), &Some(s("/sdk")), "/bin/clang"), Some(s("/a")));
    assert_eq!(locate_tool(&None, &Some(s("/b")), &Some(s("/sdk")), "/bin/clang"), Some(s("/b")));
    assert_eq!(locate_tool(&None, &None, &Some(s("/sdk")), "/bin/clang"), Some(s("/sdk/bin/clang")));
    assert_eq!(locate_tool(&None, &None, &None, "/bin/clang"), None);
}

#[test]
fn wasi_sdk_from_sdk_path() {
    let env = WasiSdkEnv {
        php_wasi_sysroot: None,
        wasi_sysroot: None,
        php_wasi_compiler: Some(s("/usr/bin/my-clang")),
        wasi_sdk_compiler: None,
        php_wasi_ranlib: None,
        wasi_sdk_ranlib: Some(s("/opt/ranlib")),
        php_wasi_ar: None,
        wasi_sdk_ar: None,
        php_wasi_nm: None,
        wasi_sdk_nm: None,
        wasi_sdk_path: Some(s("/opt/wasi-sdk")),
    };
    let (sysroot, compiler, ranlib, ar, nm) = get_wasi_sdk(&env);
    assert_eq!(sysroot, Some(s("/opt/wasi-sdk/share/wasi-sysroot")));
    assert_eq!(compiler, Some(s("/usr/bin/my-clang")));
    assert_eq!(ranlib, Some(s("/opt/ranlib")));
    assert_eq!(ar, Some(s("/opt/wasi-sdk/bin/llvm-ar")));
    assert_eq!(nm, Some(s("/opt/wasi-sdk/bin/llvm-nm")));
}

#[test]
fn configure_arguments_hold_prefix() {
    let args = configure_arguments("/src/php");
    assert_eq!(args.len(), 21);
    assert_eq!(args[0], "--enable-embed=static");
    assert_eq!(args[3], "--prefix=/src/php");
    assert_eq!(args[20], "--with-pic");
    assert!(args.contains(&s("--disable-opcache")));
}

#[test]
fn configure_exit_codes() {
    assert!(configure_exit_accepted(0));
    assert!(configure_exit_accepted(77));
    assert!(!configure_exit_accepted(1));
    assert!(!configure_exit_accepted(-1));
}

#[test]
fn join_puts_separator_between() {
    assert_eq!(join_strings(&vec![s("a"), s("b"), s("c")], " "), "a b c");
    assert_eq!(join_strings(&vec![s("a")], ", "), "a");
    assert_eq!(join_strings(&vec![], " "), "");
}
