//! The build settings under which PHP is compiled to WebAssembly: where the
//! WASI SDK tools are, which flags the compiler and linker get, and how the
//! configure step is run and judged.

use vstd::prelude::*;

use crate::request::opt_text;
use crate::sapi::pair_texts;

verus! {

broadcast use vstd::string::group_string_axioms;

/// `parts` joined into one text, with `sep` between each two.
pub open spec fn join_with(parts: Seq<Seq<char>>, sep: Seq<char>) -> Seq<char>
    decreases parts.len(),
{
    if parts.len() == 0 {
        Seq::empty()
    } else if parts.len() == 1 {
        parts[0]
    } else {
        join_with(parts.drop_last(), sep) + sep + parts.last()
    }
}

/// The texts of a list of strings.
pub open spec fn texts(v: Seq<String>) -> Seq<Seq<char>> {
    v.map_values(|s: String| s@)
}

/// `parts` joined into one string, with `sep` between each two, as
/// `join` of a slice of strings does.
pub fn join_strings(parts: &Vec<String>, sep: &str) -> (joined: String)
    ensures
        joined@ == join_with(texts(parts@), sep@),
{
    let mut joined = String::new();
    let mut i: usize = 0;
    while i < parts.len()
        invariant
            i <= parts@.len(),
            joined@ == join_with(texts(parts@).take(i as int), sep@),
        decreases parts@.len() - i,
    {
        if i != 0 {
            joined.append(sep);
        }
        joined.append(parts[i].as_str());
        assert(texts(parts@).take(i + 1).drop_last() =~= texts(parts@).take(i as int));
        i += 1;
    }
    assert(texts(parts@).take(parts@.len() as int) =~= texts(parts@));
    joined
}

/// The compiler flags: the fixed ones, then the sysroot when there is one,
/// then `-g` for a debug build.
pub open spec fn cflags(php_debug: bool, sysroot: Option<Seq<char>>) -> Seq<Seq<char>> {
    let base = seq![
        "-O3"@,
        "-D_WASI_EMULATED_GETPID"@,
        "-D_WASI_EMULATED_SIGNAL"@,
        "-D_WASI_EMULATED_PROCESS_CLOCKS"@,
        "-D_POSIX_SOURCE=1"@,
        "-D_GNU_SOURCE=1"@,
        "-DHAVE_FORK=0"@,
        "-DWASM_WASI"@,
        "-fPIC"@,
    ];
    let with_sysroot = match sysroot {
        Some(s) => base.push("--sysroot="@ + s),
        None => base,
    };
    if php_debug { with_sysroot.push("-g"@) } else { with_sysroot }
}

/// The linker flags: the fixed ones, then the sysroot when there is one.
pub open spec fn ldflags(sysroot: Option<Seq<char>>) -> Seq<Seq<char>> {
    let base = seq![
        "-lwasi-emulated-getpid"@,
        "-lwasi-emulated-signal"@,
        "-lwasi-emulated-process-clocks"@,
        "-static"@,
    ];
    match sysroot {
        Some(s) => base.push("--sysroot="@ + s),
        None => base,
    }
}

/// One setting when the value is there, none when it is not.
pub open spec fn optional_setting(name: Seq<char>, value: Option<Seq<char>>) -> Seq<(Seq<char>, Seq<char>)> {
    match value {
        Some(v) => seq![(name, v)],
        None => Seq::empty(),
    }
}

/// The environment under which PHP is configured: `CFLAGS` and `LDFLAGS`,
/// then `CC`, `RANLIB`, `AR` and `NM` for each tool that is known.
pub open spec fn build_env(
    php_debug: bool,
    sysroot: Option<Seq<char>>,
    compiler: Option<Seq<char>>,
    ranlib: Option<Seq<char>>,
    ar: Option<Seq<char>>,
    nm: Option<Seq<char>>,
) -> Seq<(Seq<char>, Seq<char>)> {
    seq![
        ("CFLAGS"@, join_with(cflags(php_debug, sysroot), " "@)),
        ("LDFLAGS"@, join_with(ldflags(sysroot), " "@)),
    ] + optional_setting("CC"@, compiler) + optional_setting("RANLIB"@, ranlib)
        + optional_setting("AR"@, ar) + optional_setting("NM"@, nm)
}

/// The texts of a list of string slices.
pub open spec fn strs(items: Seq<&str>) -> Seq<Seq<char>> {
    items.map_values(|s: &str| s@)
}

/// A list of strings from string literals.
fn strings_of(items: &[&str]) -> (v: Vec<String>)
    ensures
        v@.len() == items@.len(),
        forall|i: int| 0 <= i < items@.len() ==> #[trigger] v@[i]@ == items@[i]@,
        texts(v@) == strs(items@),
{
    let mut v: Vec<String> = Vec::new();
    let mut i: usize = 0;
    while i < items.len()
        invariant
            i <= items@.len(),
            v@.len() == i,
            forall|j: int| 0 <= j < i ==> #[trigger] v@[j]@ == items@[j]@,
        decreases items@.len() - i,
    {
        v.push(String::from_str(items[i]));
        i += 1;
    }
    assert(texts(v@) =~= strs(items@));
    v
}

/// `--sysroot=` and the sysroot.
fn sysroot_flag(sysroot: &str) -> (flag: String)
    ensures
        flag@ == "--sysroot="@ + sysroot@,
{
    let mut flag = String::from_str("--sysroot=");
    flag.append(sysroot);
    flag
}

/// The build environment for PHP: see `build_env`. `php_debug` is whether
/// `PHP_DEBUG` is `1`; the tools are the paths that `get_wasi_sdk` found.
pub fn get_build_env(
    php_debug: bool,
    wasi_sdk_sysroot: &Option<String>,
    compiler: &Option<String>,
    ranlib: &Option<String>,
    ar: &Option<String>,
    nm: &Option<String>,
) -> (env: Vec<(String, String)>)
    ensures
        pair_texts(env@) == build_env(
            php_debug,
            opt_text(*wasi_sdk_sysroot),
            opt_text(*compiler),
            opt_text(*ranlib),
            opt_text(*ar),
            opt_text(*nm),
        ),
{
    let mut cflags_list = strings_of(
        &[
            "-O3",
            "-D_WASI_EMULATED_GETPID",
            "-D_WASI_EMULATED_SIGNAL",
            "-D_WASI_EMULATED_PROCESS_CLOCKS",
            "-D_POSIX_SOURCE=1",
            "-D_GNU_SOURCE=1",
            "-DHAVE_FORK=0",
            "-DWASM_WASI",
            "-fPIC",
        ],
    );
    let mut ldflags_list = strings_of(
        &["-lwasi-emulated-getpid", "-lwasi-emulated-signal", "-lwasi-emulated-process-clocks", "-static"],
    );
    let ghost c0 = cflags_list@;
    let ghost l0 = ldflags_list@;
    assert(texts(c0) =~= cflags(false, None));
    assert(texts(l0) =~= ldflags(None));
    if let Some(sysroot) = wasi_sdk_sysroot {
        cflags_list.push(sysroot_flag(sysroot.as_str()));
        ldflags_list.push(sysroot_flag(sysroot.as_str()));
        assert(texts(cflags_list@) =~= texts(c0).push("--sysroot="@ + sysroot@));
        assert(texts(ldflags_list@) =~= ldflags(opt_text(*wasi_sdk_sysroot)));
    }
    let ghost c1 = cflags_list@;
    if php_debug {
        cflags_list.push(String::from_str("-g"));
        assert(texts(cflags_list@) =~= texts(c1).push("-g"@));
    }
    assert(texts(cflags_list@) =~= cflags(php_debug, opt_text(*wasi_sdk_sysroot)));
    assert(texts(ldflags_list@) =~= ldflags(opt_text(*wasi_sdk_sysroot)));
    let mut env: Vec<(String, String)> = Vec::new();
    env.push((String::from_str("CFLAGS"), join_strings(&cflags_list, " ")));
    env.push((String::from_str("LDFLAGS"), join_strings(&ldflags_list, " ")));
    let ghost e0 = env@;
    if let Some(cc) = compiler {
        env.push((String::from_str("CC"), cc.clone()));
    }
    let ghost e1 = env@;
    if let Some(r) = ranlib {
        env.push((String::from_str("RANLIB"), r.clone()));
    }
    let ghost e2 = env@;
    if let Some(a) = ar {
        env.push((String::from_str("AR"), a.clone()));
    }
    let ghost e3 = env@;
    if let Some(n) = nm {
        env.push((String::from_str("NM"), n.clone()));
    }
    assert(pair_texts(e1) =~= pair_texts(e0) + optional_setting("CC"@, opt_text(*compiler)));
    assert(pair_texts(e2) =~= pair_texts(e1) + optional_setting("RANLIB"@, opt_text(*ranlib)));
    assert(pair_texts(e3) =~= pair_texts(e2) + optional_setting("AR"@, opt_text(*ar)));
    assert(pair_texts(env@) =~= pair_texts(e3) + optional_setting("NM"@, opt_text(*nm)));
    env
}

/// The environment variables that locate the WASI SDK, each as read, or
/// none when unset or not valid Unicode.
pub struct WasiSdkEnv {
    pub php_wasi_sysroot: Option<String>,
    pub wasi_sysroot: Option<String>,
    pub php_wasi_compiler: Option<String>,
    pub wasi_sdk_compiler: Option<String>,
    pub php_wasi_ranlib: Option<String>,
    pub wasi_sdk_ranlib: Option<String>,
    pub php_wasi_ar: Option<String>,
    pub wasi_sdk_ar: Option<String>,
    pub php_wasi_nm: Option<String>,
    pub wasi_sdk_nm: Option<String>,
    pub wasi_sdk_path: Option<String>,
}

/// Where a tool is: the PHP-specific variable if set, else the general one,
/// else the path below the SDK root, when that is set.
pub open spec fn tool_location(
    specific: Option<Seq<char>>,
    general: Option<Seq<char>>,
    sdk_path: Option<Seq<char>>,
    below_sdk: Seq<char>,
) -> Option<Seq<char>> {
    match specific {
        Some(p) => Some(p),
        None => match general {
            Some(p) => Some(p),
            None => match sdk_path {
                Some(root) => Some(root + below_sdk),
                None => None,
            },
        },
    }
}

/// Where a tool is; see `tool_location`.
pub fn locate_tool(
    specific: &Option<String>,
    general: &Option<String>,
    sdk_path: &Option<String>,
    below_sdk: &str,
) -> (location: Option<String>)
    ensures
        opt_text(location) == tool_location(opt_text(*specific), opt_text(*general), opt_text(*sdk_path), below_sdk@),
{
    match specific {
        Some(p) => Some(p.clone()),
        None => match general {
            Some(p) => Some(p.clone()),
            None => match sdk_path {
                Some(root) => {
                    let mut location = root.clone();
                    location.append(below_sdk);
                    Some(location)
                },
                None => None,
            },
        },
    }
}

/// The WASI SDK's sysroot, compiler, `ranlib`, `ar` and `nm`, each from
/// `PHP_WASI_*`, else `WASI_*`/`WASI_SDK_*`, else below `WASI_SDK_PATH`.
pub fn get_wasi_sdk(env: &WasiSdkEnv) -> (tools: (
    Option<String>,
    Option<String>,
    Option<String>,
    Option<String>,
    Option<String>,
))
    ensures
        opt_text(tools.0) == tool_location(opt_text(env.php_wasi_sysroot), opt_text(env.wasi_sysroot), opt_text(env.wasi_sdk_path), "/share/wasi-sysroot"@),
        opt_text(tools.1) == tool_location(opt_text(env.php_wasi_compiler), opt_text(env.wasi_sdk_compiler), opt_text(env.wasi_sdk_path), "/bin/clang"@),
        opt_text(tools.2) == tool_location(opt_text(env.php_wasi_ranlib), opt_text(env.wasi_sdk_ranlib), opt_text(env.wasi_sdk_path), "/bin/llvm-ranlib"@),
        opt_text(tools.3) == tool_location(opt_text(env.php_wasi_ar), opt_text(env.wasi_sdk_ar), opt_text(env.wasi_sdk_path), "/bin/llvm-ar"@),
        opt_text(tools.4) == tool_location(opt_text(env.php_wasi_nm), opt_text(env.wasi_sdk_nm), opt_text(env.wasi_sdk_path), "/bin/llvm-nm"@),
{
    let sysroot = locate_tool(&env.php_wasi_sysroot, &env.wasi_sysroot, &env.wasi_sdk_path, "/share/wasi-sysroot");
    let compiler = locate_tool(&env.php_wasi_compiler, &env.wasi_sdk_compiler, &env.wasi_sdk_path, "/bin/clang");
    let ranlib = locate_tool(&env.php_wasi_ranlib, &env.wasi_sdk_ranlib, &env.wasi_sdk_path, "/bin/llvm-ranlib");
    let ar = locate_tool(&env.php_wasi_ar, &env.wasi_sdk_ar, &env.wasi_sdk_path, "/bin/llvm-ar");
    let nm = locate_tool(&env.php_wasi_nm, &env.wasi_sdk_nm, &env.wasi_sdk_path, "/bin/llvm-nm");
    (sysroot, compiler, ranlib, ar, nm)
}

/// The arguments of PHP's `configure` step, for a source tree at `prefix`:
/// the target, the prefix, and the features that are left out or built in.
pub open spec fn configure_args(prefix: Seq<char>) -> Seq<Seq<char>> {
    strs(seq!["--enable-embed=static", "--host=wasm32-wasi", "--target=wasm32-wasi"])
        + seq!["--prefix="@ + prefix]
        + strs(
        seq![
            "--without-libxml",
            "--disable-dom",
            "--without-iconv",
            "--without-openssl",
            "--disable-simplexml",
            "--disable-xml",
            "--disable-xmlreader",
            "--disable-xmlwriter",
            "--without-pear",
            "--disable-opcache",
            "--disable-zend-signals",
            "--without-pcre-jit",
            "--without-sqlite3",
            "--without-pdo-sqlite",
            "--enable-phar=static",
            "--enable-pdo=static",
            "--with-pic",
        ],
    )
}

/// The arguments of PHP's `configure` step; `prefix` is the source tree's
/// path as text.
pub fn configure_arguments(prefix: &str) -> (args: Vec<String>)
    ensures
        texts(args@) == configure_args(prefix@),
{
    let mut args = strings_of(&["--enable-embed=static", "--host=wasm32-wasi", "--target=wasm32-wasi"]);
    let mut prefix_arg = String::from_str("--prefix=");
    prefix_arg.append(prefix);
    args.push(prefix_arg);
    let mut rest = strings_of(
        &[
            "--without-libxml",
            "--disable-dom",
            "--without-iconv",
            "--without-openssl",
            "--disable-simplexml",
            "--disable-xml",
            "--disable-xmlreader",
            "--disable-xmlwriter",
            "--without-pear",
            "--disable-opcache",
            "--disable-zend-signals",
            "--without-pcre-jit",
            "--without-sqlite3",
            "--without-pdo-sqlite",
            "--enable-phar=static",
            "--enable-pdo=static",
            "--with-pic",
        ],
    );
    let ghost head = args@;
    let ghost tail = rest@;
    args.append(&mut rest);
    assert(texts(head + tail) =~= texts(head) + texts(tail));
    args
}

/// Whether the exit code of `configure` counts as success: 0, or 77, which
/// the build accepts as well.
pub fn configure_exit_accepted(code: i32) -> (ok: bool)
    ensures
        ok == (code == 0 || code == 77),
{
    code == 77 || code == 0
}

/// The build environment names each tool that is given under its own
/// variable, after `CFLAGS` and `LDFLAGS`: `CC` for the compiler, `RANLIB`,
/// `AR` and `NM`; it holds one entry more for each tool given.
pub proof fn law_build_env_names_each_tool(
    php_debug: bool,
    sysroot: Option<Seq<char>>,
    compiler: Option<Seq<char>>,
    ranlib: Option<Seq<char>>,
    ar: Option<Seq<char>>,
    nm: Option<Seq<char>>,
)
    ensures
        ({
            let env = build_env(php_debug, sysroot, compiler, ranlib, ar, nm);
            &&& env.len() == 2 + (if compiler is Some { 1int } else { 0 }) + (if ranlib is Some { 1int } else { 0 })
                + (if ar is Some { 1int } else { 0 }) + (if nm is Some { 1int } else { 0 })
            &&& env[0].0 == "CFLAGS"@
            &&& env[1].0 == "LDFLAGS"@
            &&& (compiler matches Some(c) ==> env.contains(("CC"@, c)))
            &&& (ranlib matches Some(r) ==> env.contains(("RANLIB"@, r)))
            &&& (ar matches Some(a) ==> env.contains(("AR"@, a)))
            &&& (nm matches Some(m) ==> env.contains(("NM"@, m)))
        }),
{
    let env = build_env(php_debug, sysroot, compiler, ranlib, ar, nm);
    let base = seq![
        ("CFLAGS"@, join_with(cflags(php_debug, sysroot), " "@)),
        ("LDFLAGS"@, join_with(ldflags(sysroot), " "@)),
    ];
    let e1 = base + optional_setting("CC"@, compiler);
    let e2 = e1 + optional_setting("RANLIB"@, ranlib);
    let e3 = e2 + optional_setting("AR"@, ar);
    assert(env == e3 + optional_setting("NM"@, nm));
    if let Some(c) = compiler {
        assert(env[2] == ("CC"@, c));
    }
    if let Some(r) = ranlib {
        assert(env[e1.len() as int] == ("RANLIB"@, r));
    }
    if let Some(a) = ar {
        assert(env[e2.len() as int] == ("AR"@, a));
    }
    if let Some(m) = nm {
        assert(env[e3.len() as int] == ("NM"@, m));
    }
}

} // verus!
