//! Decisions of the script module loader: path normalisation, which modules
//! get the environment setup module injected, how `?raw` imports become
//! modules, and when an import-map failure is final.

use vstd::prelude::*;
use crate::text::{owned, chars_of, string_from_chars, str_contains, str_starts_with, str_eq,
    seq_contains, seq_starts_with, push_str};

verus! {

broadcast use vstd::string::group_string_axioms;

/// A file URL path names a Windows drive (`/C:/...`): the leading slash goes.
pub open spec fn normalized_path_spec(path: Seq<char>, windows: bool) -> Seq<char> {
    if windows && path.len() >= 3 && path[0] == '/' && path[2] == ':' {
        path.drop_first()
    } else {
        path
    }
}

/// Turns the path of a file URL into a native path; only Windows changes it.
pub fn normalize_file_path(path: &str, windows: bool) -> (r: String)
    ensures
        r@ == normalized_path_spec(path@, windows),
{
    let cs = chars_of(path);
    if windows && cs.len() >= 3 && cs[0] == '/' && cs[2] == ':' {
        let mut out: Vec<char> = Vec::new();
        let mut i: usize = 1;
        while i < cs.len()
            invariant
                1 <= i <= cs.len(),
                out@ == cs@.subrange(1, i as int),
            decreases cs.len() - i,
        {
            out.push(cs[i]);
            i = i + 1;
            assert(out@ =~= cs@.subrange(1, i as int));
        }
        assert(cs@.drop_first() =~= cs@.subrange(1, cs@.len() as int));
        string_from_chars(&out)
    } else {
        owned(path)
    }
}

/// Import statements by which a module already loads the setup module itself.
pub open spec fn imports_setup_spec(code: Seq<char>) -> bool {
    seq_contains(code, "import \"./setup.js\""@) || seq_contains(code, "import './setup.js'"@)
    || seq_contains(code, "from \"./setup.js\""@) || seq_contains(code, "from './setup.js'"@)
    || seq_contains(code, "import \"setup\""@) || seq_contains(code, "import 'setup'"@)
    || seq_contains(code, "import \"../setup.js\""@) || seq_contains(code, "import '../setup.js'"@)
    || seq_contains(code, "import \"../../setup.js\""@) || seq_contains(code, "import '../../setup.js'"@)
    || seq_contains(code, "import \"../../../setup.js\""@) || seq_contains(code, "import '../../../setup.js'"@)
    || seq_contains(code, "import \"../../../../setup.js\""@) || seq_contains(code, "import '../../../../setup.js'"@)
}

fn imports_setup(code: &str) -> (r: bool)
    ensures
        r == imports_setup_spec(code@),
{
    str_contains(code, "import \"./setup.js\"") || str_contains(code, "import './setup.js'")
    || str_contains(code, "from \"./setup.js\"") || str_contains(code, "from './setup.js'")
    || str_contains(code, "import \"setup\"") || str_contains(code, "import 'setup'")
    || str_contains(code, "import \"../setup.js\"") || str_contains(code, "import '../setup.js'")
    || str_contains(code, "import \"../../setup.js\"") || str_contains(code, "import '../../setup.js'")
    || str_contains(code, "import \"../../../setup.js\"") || str_contains(code, "import '../../../setup.js'")
    || str_contains(code, "import \"../../../../setup.js\"") || str_contains(code, "import '../../../../setup.js'")
}

/// Whether a module gets the setup module imported in front of its code:
/// only when a setup module exists, this is not it, it is not an IndexedDB
/// shim, it does not import the setup module itself, and it is not a
/// dependency (node_modules or three.js sources).
pub open spec fn inject_setup_spec(has_setup: bool, is_setup: bool, path: Seq<char>, code: Seq<char>) -> bool {
    &&& has_setup
    &&& !is_setup
    &&& !seq_contains(path, "indexDBShim"@)
    &&& !seq_contains(path, "indexedDBShim"@)
    &&& !imports_setup_spec(code)
    &&& !seq_contains(path, "node_modules"@)
    &&& !seq_contains(path, "/three/build/"@)
    &&& !seq_contains(path, "/three/src/"@)
}

/// Decides whether the setup module is injected into a module.
pub fn should_inject_setup(has_setup: bool, is_setup: bool, path: &str, code: &str) -> (r: bool)
    ensures
        r == inject_setup_spec(has_setup, is_setup, path@, code@),
{
    if !has_setup || is_setup {
        return false;
    }
    if str_contains(path, "indexDBShim") || str_contains(path, "indexedDBShim") {
        return false;
    }
    if imports_setup(code) {
        return false;
    }
    if str_contains(path, "node_modules") || str_contains(path, "/three/build/")
        || str_contains(path, "/three/src/") {
        return false;
    }
    true
}

/// The text of a `?raw` module body inside a template literal: backslashes
/// doubled, backticks escaped, and `${` escaped so nothing is interpolated.
pub open spec fn escape_raw_spec(s: Seq<char>) -> Seq<char>
    decreases s.len(),
{
    if s.len() == 0 {
        seq![]
    } else if s[0] == '\\' {
        seq!['\\', '\\'] + escape_raw_spec(s.drop_first())
    } else if s[0] == '`' {
        seq!['\\', '`'] + escape_raw_spec(s.drop_first())
    } else if s[0] == '$' && s.len() > 1 && s[1] == '{' {
        seq!['\\', '$'] + escape_raw_spec(s.drop_first())
    } else {
        seq![s[0]] + escape_raw_spec(s.drop_first())
    }
}

/// The escape of character `i - 1` of `s`; a `$` is escaped only before `{`.
spec fn escape_piece(s: Seq<char>, i: int) -> Seq<char> {
    let c = s[i - 1];
    if c == '\\' {
        seq!['\\', '\\']
    } else if c == '`' {
        seq!['\\', '`']
    } else if c == '$' && i < s.len() && s[i] == '{' {
        seq!['\\', '$']
    } else {
        seq![c]
    }
}

/// The escape of the first `i` characters of `s`.
spec fn escape_prefix(s: Seq<char>, i: int) -> Seq<char>
    decreases i,
{
    if i <= 0 {
        seq![]
    } else {
        escape_prefix(s, i - 1) + escape_piece(s, i)
    }
}

proof fn lemma_escape_prefix_full(s: Seq<char>)
    ensures
        escape_prefix(s, s.len() as int) == escape_raw_spec(s),
    decreases s.len(),
{
    if s.len() > 0 {
        let t = s.drop_first();
        lemma_escape_prefix_full(t);
        lemma_escape_prefix_shift(s, s.len() as int);
        assert(escape_piece(s, 1) == (if s[0] == '\\' {
            seq!['\\', '\\']
        } else if s[0] == '`' {
            seq!['\\', '`']
        } else if s[0] == '$' && s.len() > 1 && s[1] == '{' {
            seq!['\\', '$']
        } else {
            seq![s[0]]
        }));
    }
}

/// Escaping the first `i` characters of `s` is escaping its first character
/// and then the first `i - 1` characters of the rest.
proof fn lemma_escape_prefix_shift(s: Seq<char>, i: int)
    requires
        1 <= i <= s.len(),
    ensures
        escape_prefix(s, i) == escape_piece(s, 1) + escape_prefix(s.drop_first(), i - 1),
    decreases i,
{
    let t = s.drop_first();
    if i > 1 {
        lemma_escape_prefix_shift(s, i - 1);
        assert(t[i - 2] == s[i - 1]);
        assert(i - 1 < t.len() ==> t[i - 1] == s[i]);
        assert(escape_piece(t, i - 1) == escape_piece(s, i));
        assert(escape_prefix(s, i) == escape_prefix(s, i - 1) + escape_piece(s, i));
        assert(escape_prefix(t, i - 1) == escape_prefix(t, i - 2) + escape_piece(t, i - 1));
        assert((escape_piece(s, 1) + escape_prefix(t, i - 2)) + escape_piece(s, i)
            =~= escape_piece(s, 1) + (escape_prefix(t, i - 2) + escape_piece(s, i)));
    } else {
        assert(escape_prefix(t, 0) =~= seq![]);
        assert(escape_prefix(s, 0) =~= seq![]);
        assert(escape_prefix(s, 1) == escape_prefix(s, 0) + escape_piece(s, 1));
        assert(seq![] + escape_piece(s, 1) =~= escape_piece(s, 1));
        assert(escape_piece(s, 1) + seq![] =~= escape_piece(s, 1));
    }
}

/// What the body of a JavaScript template literal reads as, where it holds
/// only plain characters and the escapes `\\`, `\``, `\$`: `None` where the
/// text would end the literal (a bare backtick), start an interpolation (a
/// bare `${`) or use another escape.
pub open spec fn template_literal_text(t: Seq<char>) -> Option<Seq<char>>
    decreases t.len(),
{
    if t.len() == 0 {
        Some(seq![])
    } else if t[0] == '\\' {
        if t.len() > 1 && (t[1] == '\\' || t[1] == '`' || t[1] == '$') {
            match template_literal_text(t.subrange(2, t.len() as int)) {
                Some(r) => Some(seq![t[1]] + r),
                None => None,
            }
        } else {
            None
        }
    } else if t[0] == '`' || (t[0] == '$' && t.len() > 1 && t[1] == '{') {
        None
    } else {
        match template_literal_text(t.drop_first()) {
            Some(r) => Some(seq![t[0]] + r),
            None => None,
        }
    }
}

/// The escaped text of a `?raw` module reads back, inside the template
/// literal, as exactly the original text: nothing in it ends the literal or
/// is interpolated.
pub proof fn lemma_raw_text_reads_back(s: Seq<char>)
    ensures
        template_literal_text(escape_raw_spec(s)) == Some(s),
    decreases s.len(),
{
    if s.len() > 0 {
        let rest = s.drop_first();
        let e = escape_raw_spec(rest);
        lemma_raw_text_reads_back(rest);
        let t = escape_raw_spec(s);
        if rest.len() > 0 {
            assert(e[0] == '{' ==> rest[0] == '{');
        }
        if s[0] == '\\' || s[0] == '`' || (s[0] == '$' && s.len() > 1 && s[1] == '{') {
            assert(t.subrange(2, t.len() as int) =~= e);
        } else {
            assert(t.drop_first() =~= e);
            assert(t.len() > 1 ==> t[1] == e[0]);
        }
        assert(seq![s[0]] + rest =~= s);
    }
}

/// Turns the text of a file imported with `?raw` into a module whose
/// default export is that text.
pub fn wrap_raw_module(code: &str) -> (r: String)
    ensures
        r@ == "export default `"@ + escape_raw_spec(code@) + "`;"@,
{
    let cs = chars_of(code);
    let mut out: Vec<char> = Vec::new();
    push_str(&mut out, "export default `");
    let ghost head = out@;
    let mut i: usize = 0;
    while i < cs.len()
        invariant
            i <= cs.len(),
            out@ == head + escape_prefix(cs@, i as int),
        decreases cs.len() - i,
    {
        let c = cs[i];
        if c == '\\' {
            out.push('\\');
            out.push('\\');
        } else if c == '`' {
            out.push('\\');
            out.push('`');
        } else if c == '$' && i + 1 < cs.len() && cs[i + 1] == '{' {
            out.push('\\');
            out.push('$');
        } else {
            out.push(c);
        }
        i = i + 1;
        assert(out@ =~= head + escape_prefix(cs@, i as int));
    }
    proof {
        lemma_escape_prefix_full(cs@);
    }
    push_str(&mut out, "`;");
    string_from_chars(&out)
}

/// A referrer that names no module resolves against the script directory.
pub fn referrer_is_script_dir(referrer: &str) -> (r: bool)
    ensures
        r == (referrer@.len() == 0 || referrer@ == "."@),
{
    referrer.unicode_len() == 0 || str_eq(referrer, ".")
}

/// After the import map refuses a specifier, the refusal stands for
/// relative and absolute paths (and for relative-path errors); other
/// specifiers are resolved against the referrer instead.
pub open spec fn import_map_error_final_spec(err: Seq<char>, specifier: Seq<char>) -> bool {
    seq_contains(err, "Relative import path"@) || seq_starts_with(specifier, "./"@)
        || seq_starts_with(specifier, "../"@) || seq_starts_with(specifier, "/"@)
}

/// Whether an import-map refusal is final.
pub fn import_map_error_is_final(err: &str, specifier: &str) -> (r: bool)
    ensures
        r == import_map_error_final_spec(err@, specifier@),
{
    str_contains(err, "Relative import path") || str_starts_with(specifier, "./")
        || str_starts_with(specifier, "../") || str_starts_with(specifier, "/")
}

/// The import statement that loads the setup module from a module, given
/// the setup module's path relative to the module's directory: backslashes
/// become slashes and a path not starting with `.` gets `./` in front.
pub open spec fn setup_import_spec(rel: Seq<char>) -> Seq<char> {
    let p = slashes_spec(rel);
    let path = if p.len() > 0 && p[0] == '.' { p } else { "./"@ + p };
    "import \""@ + path + "\";\n"@
}

/// Backslashes replaced by slashes.
pub open spec fn slashes_spec(s: Seq<char>) -> Seq<char> {
    s.map_values(|c: char| if c == '\\' { '/' } else { c })
}

/// Builds the import statement for the setup module.
pub fn setup_import_line(rel: &str) -> (r: String)
    ensures
        r@ == setup_import_spec(rel@),
{
    let cs = chars_of(rel);
    let mut p: Vec<char> = Vec::new();
    let mut i: usize = 0;
    while i < cs.len()
        invariant
            i <= cs.len(),
            p@ == slashes_spec(cs@.take(i as int)),
        decreases cs.len() - i,
    {
        let c = cs[i];
        p.push(if c == '\\' { '/' } else { c });
        i = i + 1;
        assert(p@ =~= slashes_spec(cs@.take(i as int)));
    }
    assert(cs@.take(i as int) =~= cs@);
    let mut out: Vec<char> = Vec::new();
    push_str(&mut out, "import \"");
    if !(p.len() > 0 && p[0] == '.') {
        push_str(&mut out, "./");
    }
    let ghost before = out@;
    let mut j: usize = 0;
    while j < p.len()
        invariant
            j <= p.len(),
            out@ == before + p@.take(j as int),
        decreases p.len() - j,
    {
        out.push(p[j]);
        j = j + 1;
        assert(out@ =~= before + p@.take(j as int));
    }
    assert(p@.take(j as int) =~= p@);
    push_str(&mut out, "\";\n");
    assert(out@ =~= setup_import_spec(rel@));
    string_from_chars(&out)
}

/// What `pathdiff::diff_paths` gives for a path and a base directory,
/// rendered with `to_string_lossy`.
pub uninterp spec fn relative_path_spec(path: Seq<char>, base: Seq<char>) -> Option<Seq<char>>;

/// `pathdiff::diff_paths`: the path of `path` relative to the directory
/// `base`, when one exists; the result is named, not described.
#[verifier::external_body]
fn relative_path(path: &str, base: &str) -> (r: Option<String>)
    ensures
        match r {
            Some(s) => relative_path_spec(path@, base@) == Some(s@),
            None => relative_path_spec(path@, base@) is None,
        },
{
    pathdiff::diff_paths(path, base).map(|p| p.to_string_lossy().into_owned())
}

/// The statement importing the setup module into a module: by its path
/// relative to the module's directory when there is one, else by the
/// setup module's file URL; none when neither is known.
pub open spec fn setup_import_for_spec(setup_path: Seq<char>, module_dir: Option<Seq<char>>,
    setup_url: Option<Seq<char>>) -> Option<Seq<char>> {
    let rel = match module_dir {
        Some(d) => relative_path_spec(setup_path, d),
        None => None,
    };
    match rel {
        Some(r) => Some(setup_import_spec(r)),
        None => match setup_url {
            Some(u) => Some("import \""@ + u + "\";\n"@),
            None => None,
        },
    }
}

/// Builds the statement that imports the setup module into a module.
pub fn get_setup_import(setup_path: &str, module_dir: Option<&str>, setup_url: Option<&str>)
    -> (r: Option<String>)
    ensures
        match r {
            Some(s) => setup_import_for_spec(setup_path@, crate::gfx_map::opt_view(module_dir),
                crate::gfx_map::opt_view(setup_url)) == Some(s@),
            None => setup_import_for_spec(setup_path@, crate::gfx_map::opt_view(module_dir),
                crate::gfx_map::opt_view(setup_url)) is None,
        },
{
    let rel = match module_dir {
        Some(d) => relative_path(setup_path, d),
        None => None,
    };
    match rel {
        Some(r) => Some(setup_import_line(r.as_str())),
        None => match setup_url {
            Some(u) => {
                let mut out: Vec<char> = Vec::new();
                push_str(&mut out, "import \"");
                push_str(&mut out, u);
                push_str(&mut out, "\";\n");
                Some(string_from_chars(&out))
            },
            None => None,
        },
    }
}

} // verus!
