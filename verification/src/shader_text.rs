//! Rewrites applied to WGSL shader text before it is compiled.

use vstd::prelude::*;
use crate::text::{chars_of, string_from_chars, occurs_at, matches_at};
use crate::storage::{alphanumeric, is_alphanumeric};

verus! {

broadcast use vstd::string::group_string_axioms;

/// The declaration whose body is replaced in XR mode.
pub open spec fn srgb_fn_marker() -> Seq<char> {
    "fn linear_to_srgb"@
}

/// The pass-through body put in its place.
pub open spec fn srgb_passthrough() -> Seq<char> {
    "fn linear_to_srgb(c: vec4f) -> vec4f { return c; }"@
}

/// The first index at or after `start` where `p` occurs in `s`.
pub open spec fn find_from(s: Seq<char>, p: Seq<char>, start: int) -> Option<int>
    decreases s.len() - start,
{
    if start < 0 || start + p.len() > s.len() {
        None
    } else if occurs_at(s, p, start) {
        Some(start)
    } else if start >= s.len() {
        None
    } else {
        find_from(s, p, start + 1)
    }
}

/// A character that may continue a WGSL identifier.
pub open spec fn ident_char(c: char) -> bool {
    alphanumeric(c) || c == '_'
}

/// The name that ends at index `i` ends there: the text ends or the next
/// character cannot continue an identifier.
pub open spec fn name_ends(s: Seq<char>, i: int) -> bool {
    i >= s.len() || !ident_char(s[i])
}

/// A declaration's name ends before `(`, `:`, white space or `{`, and
/// continues into a letter, a digit or `_`.
pub proof fn lemma_name_boundaries()
    ensures
        !ident_char('(') && !ident_char(' ') && !ident_char('{') && !ident_char(':'),
        ident_char('3') && ident_char('_') && ident_char('x') && ident_char('X'),
{
}

/// The first index at or after `start` where a declaration of the function
/// named exactly `linear_to_srgb` begins; `fn linear_to_srgb3` and the like
/// do not count.
pub open spec fn find_decl(s: Seq<char>, start: int) -> Option<int>
    decreases s.len() - start,
{
    if start < 0 || start + srgb_fn_marker().len() > s.len() {
        None
    } else if occurs_at(s, srgb_fn_marker(), start) && name_ends(s, start + srgb_fn_marker().len()) {
        Some(start)
    } else if start >= s.len() {
        None
    } else {
        find_decl(s, start + 1)
    }
}

/// A found declaration lies at or after the start, inside the text, and
/// names exactly `linear_to_srgb`.
pub proof fn lemma_find_decl_bounds(s: Seq<char>, start: int)
    ensures
        find_decl(s, start) matches Some(f) ==> start <= f && f + srgb_fn_marker().len() <= s.len()
            && occurs_at(s, srgb_fn_marker(), f) && name_ends(s, f + srgb_fn_marker().len()),
    decreases s.len() - start,
{
    if !(start < 0 || start + srgb_fn_marker().len() > s.len())
        && !(occurs_at(s, srgb_fn_marker(), start) && name_ends(s, start + srgb_fn_marker().len()))
        && start < s.len() {
        lemma_find_decl_bounds(s, start + 1);
    }
}

/// Scanning from `i` with `depth` open braces, the index just past the
/// brace that closes them all; none if the text ends first.
pub open spec fn close_scan(s: Seq<char>, i: int, depth: int) -> Option<int>
    decreases s.len() - i,
{
    if depth == 0 {
        Some(i)
    } else if i < 0 || i >= s.len() {
        None
    } else {
        let d = if s[i] == '{' { depth + 1 } else if s[i] == '}' { depth - 1 } else { depth };
        close_scan(s, i + 1, d)
    }
}

/// A found occurrence lies at or after the start and inside the text.
pub proof fn lemma_find_from_bounds(s: Seq<char>, p: Seq<char>, start: int)
    ensures
        find_from(s, p, start) matches Some(f) ==> start <= f && f + p.len() <= s.len()
            && occurs_at(s, p, f),
    decreases s.len() - start,
{
    if !(start < 0 || start + p.len() > s.len()) && !occurs_at(s, p, start) && start < s.len() {
        lemma_find_from_bounds(s, p, start + 1);
    }
}

/// The scan ends at or after where it started, past it when a brace is
/// still open, and never beyond the end of the text.
pub proof fn lemma_close_scan_bounds(s: Seq<char>, i: int, depth: int)
    requires
        0 <= i,
    ensures
        close_scan(s, i, depth) matches Some(j) ==> i <= j && (j <= s.len() || j == i)
            && (depth != 0 ==> i < j),
    decreases s.len() - i,
{
    if depth != 0 && i < s.len() {
        let d = if s[i] == '{' { depth + 1 } else if s[i] == '}' { depth - 1 } else { depth };
        lemma_close_scan_bounds(s, i + 1, d);
    }
}

/// Replaces every complete declaration of the function named exactly
/// `linear_to_srgb` (`fn linear_to_srgb` not followed by an identifier
/// character), from the name
/// to its matching closing brace, by the pass-through, searching on after
/// each replacement; stops at a declaration without a body or without a
/// matching closing brace.
pub open spec fn srgb_rewrite(s: Seq<char>, start: int) -> Seq<char>
    decreases s.len() - start,
{
    if start < 0 {
        s
    } else {
        match find_decl(s, start) {
            None => s,
            Some(f) => match find_from(s, seq!['{'], f) {
                None => s,
                Some(b) => match close_scan(s, b + 1, 1) {
                    None => s,
                    Some(i) => {
                        proof {
                            lemma_find_decl_bounds(s, start);
                            lemma_find_from_bounds(s, seq!['{'], f);
                            lemma_close_scan_bounds(s, b + 1, 1);
                        }
                        srgb_rewrite(s.take(f) + srgb_passthrough() + s.skip(i), f + srgb_passthrough().len())
                    },
                },
            },
        }
    }
}

fn find_from_exec(s: &Vec<char>, p: &Vec<char>, start: usize) -> (r: Option<usize>)
    requires
        start <= s.len(),
    ensures
        match r {
            Some(f) => find_from(s@, p@, start as int) == Some(f as int),
            None => find_from(s@, p@, start as int) is None,
        },
{
    let mut k: usize = start;
    while k < s.len()
        invariant
            start <= k <= s.len(),
            find_from(s@, p@, start as int) == find_from(s@, p@, k as int),
        decreases s.len() - k,
    {
        if p.len() > s.len() - k {
            return None;
        }
        if matches_at(s.as_slice(), p.as_slice(), k) {
            return Some(k);
        }
        k = k + 1;
    }
    if p.len() == 0 {
        assert(occurs_at(s@, p@, k as int)) by {
            assert(s@.subrange(k as int, k as int) =~= p@);
        }
        return Some(k);
    }
    None
}

fn find_decl_exec(s: &Vec<char>, marker: &Vec<char>, start: usize) -> (r: Option<usize>)
    requires
        start <= s.len(),
        marker@ == srgb_fn_marker(),
        marker@.len() > 0,
    ensures
        match r {
            Some(f) => find_decl(s@, start as int) == Some(f as int),
            None => find_decl(s@, start as int) is None,
        },
{
    let mut k: usize = start;
    while k < s.len()
        invariant
            start <= k <= s.len(),
            marker@ == srgb_fn_marker(),
            marker@.len() > 0,
            find_decl(s@, start as int) == find_decl(s@, k as int),
        decreases s.len() - k,
    {
        if marker.len() > s.len() - k {
            return None;
        }
        if matches_at(s.as_slice(), marker.as_slice(), k) {
            let e = k + marker.len();
            if e >= s.len() || !(is_alphanumeric(s[e]) || s[e] == '_') {
                return Some(k);
            }
        }
        k = k + 1;
    }
    None
}

fn close_scan_exec(s: &Vec<char>, from: usize) -> (r: Option<usize>)
    requires
        from <= s.len(),
    ensures
        match r {
            Some(j) => close_scan(s@, from as int, 1) == Some(j as int),
            None => close_scan(s@, from as int, 1) is None,
        },
{
    let mut depth: u128 = 1;
    let mut i: usize = from;
    while i < s.len() && depth > 0
        invariant
            from <= i <= s.len(),
            depth <= i - from + 1,
            close_scan(s@, from as int, 1) == close_scan(s@, i as int, depth as int),
        decreases s.len() - i,
    {
        if s[i] == '{' {
            depth = depth + 1;
        } else if s[i] == '}' {
            depth = depth - 1;
        }
        i = i + 1;
    }
    if depth == 0 { Some(i) } else { None }
}

/// In XR mode the compositor applies the sRGB curve itself, so shader
/// functions that convert to sRGB are replaced by a pass-through.
pub fn replace_linear_to_srgb_for_xr(code: &str) -> (r: String)
    ensures
        r@ == srgb_rewrite(code@, 0),
{
    let mut result = chars_of(code);
    let marker = chars_of("fn linear_to_srgb");
    let brace = chars_of("{");
    let pass = chars_of("fn linear_to_srgb(c: vec4f) -> vec4f { return c; }");
    proof {
        reveal_strlit("{");
        reveal_strlit("fn linear_to_srgb");
        assert(brace@ =~= seq!['{']);
    }
    let mut search_start: usize = 0;
    loop
        invariant_except_break
            search_start <= result.len(),
            marker@ == srgb_fn_marker(),
            marker@.len() > 0,
            brace@ == seq!['{'],
            pass@ == srgb_passthrough(),
            srgb_rewrite(code@, 0) == srgb_rewrite(result@, search_start as int),
        ensures
            srgb_rewrite(code@, 0) == result@,
        decreases result.len() - search_start,
    {
        let f = match find_decl_exec(&result, &marker, search_start) {
            Some(f) => f,
            None => {
                assert(srgb_rewrite(result@, search_start as int) == result@);
                break;
            },
        };
        proof { lemma_find_decl_bounds(result@, search_start as int); }
        let b = match find_from_exec(&result, &brace, f) {
            Some(b) => b,
            None => {
                assert(srgb_rewrite(result@, search_start as int) == result@);
                break;
            },
        };
        proof { lemma_find_from_bounds(result@, brace@, f as int); }
        let i = match close_scan_exec(&result, b + 1) {
            Some(i) => i,
            None => {
                assert(srgb_rewrite(result@, search_start as int) == result@);
                break;
            },
        };
        proof { lemma_close_scan_bounds(result@, b as int + 1, 1); }
        let ghost old_result = result@;
        let mut next: Vec<char> = Vec::new();
        let mut k: usize = 0;
        while k < f
            invariant
                k <= f <= result.len(),
                next@ == result@.take(k as int),
            decreases f - k,
        {
            next.push(result[k]);
            k = k + 1;
            assert(next@ =~= result@.take(k as int));
        }
        let mut k2: usize = 0;
        while k2 < pass.len()
            invariant
                k2 <= pass.len(),
                next@ == result@.take(f as int) + pass@.take(k2 as int),
            decreases pass.len() - k2,
        {
            next.push(pass[k2]);
            k2 = k2 + 1;
            assert(next@ =~= result@.take(f as int) + pass@.take(k2 as int));
        }
        assert(pass@.take(k2 as int) =~= pass@);
        let mut k3: usize = i;
        while k3 < result.len()
            invariant
                i <= k3 <= result.len(),
                next@ == result@.take(f as int) + pass@ + result@.subrange(i as int, k3 as int),
            decreases result.len() - k3,
        {
            next.push(result[k3]);
            k3 = k3 + 1;
            assert(next@ =~= result@.take(f as int) + pass@ + result@.subrange(i as int, k3 as int));
        }
        assert(result@.subrange(i as int, result@.len() as int) =~= result@.skip(i as int));
        assert(srgb_rewrite(old_result, search_start as int)
            == srgb_rewrite(next@, f as int + srgb_passthrough().len()));
        result = next;
        search_start = f + pass.len();
    }
    string_from_chars(&result)
}

// ----------------------------------------------------------------------------
// Diagnostic directives
// ----------------------------------------------------------------------------

/// The characters with the Unicode White_Space property, which is what
/// `char::is_whitespace` tests.
pub open spec fn is_white_space(c: char) -> bool {
    ('\u{9}' <= c && c <= '\u{d}') || c == ' ' || c == '\u{85}' || c == '\u{a0}'
        || c == '\u{1680}' || ('\u{2000}' <= c && c <= '\u{200a}') || c == '\u{2028}'
        || c == '\u{2029}' || c == '\u{202f}' || c == '\u{205f}' || c == '\u{3000}'
}

fn white_space(c: char) -> (r: bool)
    ensures
        r == is_white_space(c),
{
    ('\u{9}' <= c && c <= '\u{d}') || c == ' ' || c == '\u{85}' || c == '\u{a0}'
        || c == '\u{1680}' || ('\u{2000}' <= c && c <= '\u{200a}') || c == '\u{2028}'
        || c == '\u{2029}' || c == '\u{202f}' || c == '\u{205f}' || c == '\u{3000}'
}

/// A line without its leading white space.
pub open spec fn trim_start_spec(l: Seq<char>) -> Seq<char>
    decreases l.len(),
{
    if l.len() > 0 && is_white_space(l[0]) { trim_start_spec(l.drop_first()) } else { l }
}

/// A line is dropped when, after leading white space, it starts a `diagnostic(` directive.
pub open spec fn keeps_line(l: Seq<char>) -> bool {
    !crate::text::seq_starts_with(trim_start_spec(l), "diagnostic("@)
}

/// The index of the first line feed in `s`, if any.
pub open spec fn first_lf(s: Seq<char>) -> Option<int> {
    if exists|k: int| 0 <= k < s.len() && s[k] == '\n' {
        Some(choose|k: int| 0 <= k < s.len() && s[k] == '\n' && forall|j: int| 0 <= j < k ==> s[j] != '\n')
    } else {
        None
    }
}

/// A line ended by a line feed loses one carriage return before it.
pub open spec fn strip_cr(l: Seq<char>) -> Seq<char> {
    if l.len() > 0 && l.last() == '\r' { l.drop_last() } else { l }
}

/// The lines of a text as `str::lines` yields them: split at line feeds,
/// a carriage return before a line feed dropped, no empty line after a
/// final line feed.
#[verifier::opaque]
pub open spec fn lines_spec(s: Seq<char>) -> Seq<Seq<char>>
    decreases s.len(),
{
    if s.len() == 0 {
        seq![]
    } else {
        match first_lf(s) {
            None => seq![s],
            Some(k) => {
                proof { lemma_first_lf(s); }
                seq![strip_cr(s.take(k))] + lines_spec(s.skip(k + 1))
            },
        }
    }
}

/// The first line feed is a line feed, inside the text, with none before it.
pub proof fn lemma_first_lf(s: Seq<char>)
    ensures
        first_lf(s) matches Some(k) ==> 0 <= k < s.len() && s[k] == '\n'
            && forall|j: int| 0 <= j < k ==> s[j] != '\n',
        first_lf(s) is None ==> forall|j: int| 0 <= j < s.len() ==> s[j] != '\n',
{
    if exists|k: int| 0 <= k < s.len() && s[k] == '\n' {
        let k0 = choose|k: int| 0 <= k < s.len() && s[k] == '\n';
        let m = least_lf(s, k0);
        assert(exists|k: int| 0 <= k < s.len() && s[k] == '\n' && forall|j: int| 0 <= j < k ==> s[j] != '\n') by {
            assert(0 <= m < s.len() && s[m] == '\n' && forall|j: int| 0 <= j < m ==> s[j] != '\n');
        }
    }
}

proof fn least_lf(s: Seq<char>, k: int) -> (m: int)
    requires
        0 <= k < s.len(),
        s[k] == '\n',
    ensures
        0 <= m <= k,
        s[m] == '\n',
        forall|j: int| 0 <= j < m ==> s[j] != '\n',
    decreases k,
{
    if exists|j: int| 0 <= j < k && s[j] == '\n' {
        let j = choose|j: int| 0 <= j < k && s[j] == '\n';
        least_lf(s, j)
    } else {
        k
    }
}

/// The kept lines, in order.
pub open spec fn kept_lines(ls: Seq<Seq<char>>) -> Seq<Seq<char>>
    decreases ls.len(),
{
    if ls.len() == 0 {
        seq![]
    } else if keeps_line(ls.last()) {
        kept_lines(ls.drop_last()).push(ls.last())
    } else {
        kept_lines(ls.drop_last())
    }
}

/// Lines joined with line feeds between them.
pub open spec fn join_lines(ls: Seq<Seq<char>>) -> Seq<char>
    decreases ls.len(),
{
    if ls.len() == 0 {
        seq![]
    } else if ls.len() == 1 {
        ls[0]
    } else {
        join_lines(ls.drop_last()) + seq!['\n'] + ls.last()
    }
}

/// A shader without its `diagnostic(...)` directive lines.
pub open spec fn strip_diagnostics_spec(code: Seq<char>) -> Seq<char> {
    join_lines(kept_lines(lines_spec(code)))
}

fn keeps_line_exec(l: &Vec<char>) -> (r: bool)
    ensures
        r == keeps_line(l@),
{
    let mut i: usize = 0;
    assert(l@.skip(0) =~= l@);
    while i < l.len() && white_space(l[i])
        invariant
            i <= l.len(),
            trim_start_spec(l@) == trim_start_spec(l@.skip(i as int)),
        decreases l.len() - i,
    {
        assert(l@.skip(i as int).drop_first() =~= l@.skip(i as int + 1));
        i = i + 1;
    }
    let ghost t = l@.skip(i as int);
    assert(trim_start_spec(t) == t);
    let mut rest: Vec<char> = Vec::new();
    let mut k: usize = i;
    while k < l.len()
        invariant
            i <= k <= l.len(),
            rest@ == l@.subrange(i as int, k as int),
        decreases l.len() - k,
    {
        rest.push(l[k]);
        k = k + 1;
        assert(rest@ =~= l@.subrange(i as int, k as int));
    }
    assert(rest@ =~= t);
    let d = chars_of("diagnostic(");
    !crate::text::chars_start_with(rest.as_slice(), d.as_slice())
}

/// Reads the line starting at `pos`: returns it as `str::lines` yields it
/// and where the next line starts.
fn next_line(cs: &Vec<char>, pos: usize) -> (r: (Vec<char>, usize))
    requires
        pos < cs.len(),
    ensures
        pos < r.1 <= cs.len(),
        lines_spec(cs@.skip(pos as int)) == seq![r.0@] + lines_spec(cs@.skip(r.1 as int)),
{
    let ghost rest = cs@.skip(pos as int);
    reveal(lines_spec);
    let mut line: Vec<char> = Vec::new();
    let mut k: usize = pos;
    while k < cs.len() && cs[k] != '\n'
        invariant
            pos <= k <= cs.len(),
            line@ == cs@.subrange(pos as int, k as int),
            forall|j: int| pos <= j < k ==> cs@[j] != '\n',
        decreases cs.len() - k,
    {
        line.push(cs[k]);
        k = k + 1;
        assert(line@ =~= cs@.subrange(pos as int, k as int));
    }
    proof { lemma_first_lf(rest); }
    if k < cs.len() {
        assert(first_lf(rest) == Some(k - pos)) by {
            assert(rest[k - pos] == '\n');
            match first_lf(rest) {
                Some(m) => {
                    if m < k - pos {
                        assert(rest[m] == cs@[pos + m]);
                    }
                },
                None => {},
            }
        }
        assert(rest.take(k - pos) =~= line@);
        assert(rest.skip(k - pos + 1) =~= cs@.skip(k as int + 1));
        if line.len() > 0 && line[line.len() - 1] == '\r' {
            line.pop();
        }
        (line, k + 1)
    } else {
        assert forall|j: int| 0 <= j < rest.len() implies rest[j] != '\n' by {
            assert(rest[j] == cs@[pos + j]);
        }
        assert(first_lf(rest) is None);
        assert(rest =~= line@);
        assert(cs@.skip(k as int) =~= seq![]);
        assert(lines_spec(cs@.skip(k as int)) =~= seq![]);
        assert(seq![line@] + seq![] =~= seq![line@]);
        (line, k)
    }
}

/// Adding a line to the lines read so far adds it to the kept lines when kept.
proof fn lemma_kept_push(done: Seq<Seq<char>>, l: Seq<char>)
    ensures
        kept_lines(done.push(l)) == (if keeps_line(l) { kept_lines(done).push(l) } else { kept_lines(done) }),
{
    assert(done.push(l).drop_last() =~= done);
}

/// Joining one more line appends a line feed (unless it is the first) and the line.
proof fn lemma_join_push(ls: Seq<Seq<char>>, l: Seq<char>)
    ensures
        join_lines(ls.push(l)) == (if ls.len() == 0 { l } else { join_lines(ls) + seq!['\n'] + l }),
{
    assert(ls.push(l).drop_last() =~= ls);
    if ls.len() == 0 {
        assert(ls.push(l)[0] == l);
    }
}

fn append_line(out: &mut Vec<char>, first: bool, line: &Vec<char>)
    ensures
        final(out)@ == (if first { old(out)@ + line@ } else { old(out)@ + seq!['\n'] + line@ }),
{
    if !first {
        out.push('\n');
    }
    let ghost before = out@;
    let mut j: usize = 0;
    while j < line.len()
        invariant
            j <= line.len(),
            out@ == before + line@.take(j as int),
        decreases line.len() - j,
    {
        out.push(line[j]);
        j = j + 1;
        assert(out@ =~= before + line@.take(j as int));
    }
    assert(line@.take(j as int) =~= line@);
}

/// Removes `diagnostic(...)` directive lines, which the GPU's shader
/// compiler does not accept, and rejoins the other lines with line feeds.
#[verifier::spinoff_prover]
#[verifier::rlimit(40)]
pub fn strip_diagnostics(code: &str) -> (r: String)
    ensures
        r@ == strip_diagnostics_spec(code@),
{
    let cs = chars_of(code);
    let mut out: Vec<char> = Vec::new();
    let ghost mut done: Seq<Seq<char>> = seq![];
    let mut pos: usize = 0;
    let mut any_kept = false;
    assert(cs@.skip(0) =~= cs@);
    assert(seq![] + lines_spec(cs@) =~= lines_spec(cs@));
    while pos < cs.len()
        invariant
            pos <= cs.len(),
            lines_spec(cs@) == done + lines_spec(cs@.skip(pos as int)),
            out@ == join_lines(kept_lines(done)),
            any_kept == (kept_lines(done).len() > 0),
        decreases cs.len() - pos,
    {
        let (line, next) = next_line(&cs, pos);
        let keep = keeps_line_exec(&line);
        proof {
            lemma_kept_push(done, line@);
            lemma_join_push(kept_lines(done), line@);
            assert(done + (seq![line@] + lines_spec(cs@.skip(next as int)))
                =~= done.push(line@) + lines_spec(cs@.skip(next as int)));
        }
        if keep {
            append_line(&mut out, !any_kept, &line);
            any_kept = true;
        }
        proof {
            done = done.push(line@);
        }
        pos = next;
    }
    assert(cs@.skip(pos as int) =~= seq![]);
    assert(lines_spec(cs@.skip(pos as int)) =~= seq![]) by {
        reveal(lines_spec);
    }
    assert(done + seq![] =~= done);
    string_from_chars(&out)
}

// ----------------------------------------------------------------------------
// Unsigned vector literals
// ----------------------------------------------------------------------------

#[verifier::external_type_specification]
#[verifier::external_body]
pub struct ExRegex(regex::Regex);

/// A compiled regular expression together with its source pattern. Its
/// fields are private and only `compile_pattern` builds one, so the
/// compiled expression is always the one its source compiles to.
pub struct CompiledPattern {
    source: String,
    re: regex::Regex,
}

impl CompiledPattern {
    /// The pattern this expression was compiled from.
    pub closed spec fn source_view(&self) -> Seq<char> {
        self.source@
    }
}

/// Whether `regex::Regex::new` accepts a pattern.
pub uninterp spec fn regex_compiles(pattern: Seq<char>) -> bool;

/// What `regex::Regex::replace_all` gives for a pattern, a haystack and a
/// replacement string (with `$` group references expanded).
pub uninterp spec fn regex_replaced(pattern: Seq<char>, text: Seq<char>, rep: Seq<char>) -> Seq<char>;

/// What `regex::Regex::replace_all` gives when every match of `outer` is
/// replaced by `regex_replaced(inner, match, "${1}u${2}")`.
pub uninterp spec fn regex_replaced_fixing(outer: Seq<char>, inner: Seq<char>, text: Seq<char>) -> Seq<char>;

/// `regex::Regex::new`: compiles a pattern; the contract says only that it
/// succeeds exactly for the patterns the crate accepts, a property of the
/// pattern alone.
#[verifier::external_body]
fn compile_pattern(source: &str) -> (r: Option<CompiledPattern>)
    ensures
        r is Some <==> regex_compiles(source@),
        r matches Some(p) ==> p.source_view() == source@,
{
    match regex::Regex::new(source) {
        Ok(re) => Some(CompiledPattern { source: source.to_string(), re }),
        Err(_) => None,
    }
}

/// `regex::Regex::replace_all` with a replacement string: every
/// non-overlapping match replaced; the result is named, not described.
#[verifier::external_body]
fn replace_all_str(p: &CompiledPattern, text: &str, rep: &str) -> (r: String)
    ensures
        r@ == regex_replaced(p.source_view(), text@, rep@),
{
    p.re.replace_all(text, rep).into_owned()
}

/// Turns the signed integer literals of one vector constructor into
/// unsigned ones (`1i,` becomes `1u,`).
pub fn fix_int_literals(inner: &CompiledPattern, m: &str) -> (r: String)
    ensures
        r@ == regex_replaced(inner.source_view(), m@, "${1}u${2}"@),
{
    replace_all_str(inner, m, "${1}u${2}")
}

/// `regex::Regex::replace_all` with a closure that rewrites each match with
/// `fix_int_literals`; the result is named, not described.
#[verifier::external_body]
fn replace_all_fixing(outer: &CompiledPattern, inner: &CompiledPattern, text: &str) -> (r: String)
    ensures
        r@ == regex_replaced_fixing(outer.source_view(), inner.source_view(), text@),
{
    outer.re.replace_all(text, |caps: &regex::Captures| fix_int_literals(inner, &caps[0])).into_owned()
}

/// The pattern of a signed integer literal followed by a separator.
pub open spec fn int_literal_pattern() -> Seq<char> {
    "(\\d+)i(\\s*[,\\)])"@
}

/// The pattern of a `vecNu(...)` constructor call.
pub open spec fn vec_u_pattern(n: int) -> Seq<char> {
    if n == 2 { "vec2u\\([^)]+\\)"@ } else if n == 3 { "vec3u\\([^)]+\\)"@ } else { "vec4u\\([^)]+\\)"@ }
}

/// A shader as compiled: diagnostic directives removed, then the integer
/// literals inside `vec2u(...)`, `vec3u(...)` and `vec4u(...)` made unsigned.
pub open spec fn sanitize_wgsl_spec(code: Seq<char>) -> Seq<char> {
    let stripped = strip_diagnostics_spec(code);
    if regex_compiles(int_literal_pattern()) && regex_compiles(vec_u_pattern(2))
        && regex_compiles(vec_u_pattern(3)) && regex_compiles(vec_u_pattern(4)) {
        regex_replaced_fixing(vec_u_pattern(4), int_literal_pattern(),
            regex_replaced_fixing(vec_u_pattern(3), int_literal_pattern(),
                regex_replaced_fixing(vec_u_pattern(2), int_literal_pattern(), stripped)))
    } else {
        stripped
    }
}

/// Prepares WGSL text for the GPU's shader compiler.
pub fn sanitize_wgsl(code: &str) -> (r: String)
    ensures
        r@ == sanitize_wgsl_spec(code@),
{
    let stripped = strip_diagnostics(code);
    let inner = compile_pattern("(\\d+)i(\\s*[,\\)])");
    let v2 = compile_pattern("vec2u\\([^)]+\\)");
    let v3 = compile_pattern("vec3u\\([^)]+\\)");
    let v4 = compile_pattern("vec4u\\([^)]+\\)");
    match (inner, v2, v3, v4) {
        (Some(inner), Some(v2), Some(v3), Some(v4)) => {
            let a = replace_all_fixing(&v2, &inner, stripped.as_str());
            let b = replace_all_fixing(&v3, &inner, a.as_str());
            replace_all_fixing(&v4, &inner, b.as_str())
        },
        _ => stripped,
    }
}

/// A shader module as a script describes it.
#[derive(Clone, Debug)]
pub struct ShaderCreate {
    pub code: String,
    pub label: Option<String>,
}

/// The source a shader module is created from: sanitized, and in XR mode
/// with sRGB conversion functions made pass-through.
pub fn prepare_shader_source(desc: &ShaderCreate, xr_active: bool) -> (r: String)
    ensures
        r@ == (if xr_active { srgb_rewrite(sanitize_wgsl_spec(desc.code@), 0) } else {
            sanitize_wgsl_spec(desc.code@)
        }),
{
    let sanitized = sanitize_wgsl(desc.code.as_str());
    if xr_active {
        replace_linear_to_srgb_for_xr(sanitized.as_str())
    } else {
        sanitized
    }
}

} // verus!
