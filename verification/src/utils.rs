//! Naming helpers and the small parsers used by the command line tool.
use vstd::prelude::*;
use crate::text::{
    ascii_lower, ascii_upper, occurs_at, chars_of, find, find_exec, index_of, index_of_from,
    is_uppercase, lemma_find_from, lemma_index_of_from, parse_unsigned, parse_unsigned_exec,
    replace_all, replace_exec, slice, split_whitespace, split_whitespace_exec, starts_with,
    starts_with_exec, str_eq, string_of, to_ascii_lowercase, to_ascii_uppercase, trim, trim_exec,
    trim_start, trim_start_exec, is_upper,
};

verus! {

// ───────────────────────── case conversion ─────────────────────────

/// `to_snake_case` of the first `s.len()` characters: every character with
/// the Unicode `Uppercase` property (`is_upper`) that is not the first one gets a `_`
/// before it, and every character is put in ASCII lower case.
pub open spec fn snake_case(s: Seq<char>) -> Seq<char>
    decreases s.len(),
{
    if s.len() == 0 {
        seq![]
    } else {
        let prev = snake_case(s.drop_last());
        let c = s.last();
        let with_sep = if is_upper(c) && s.len() - 1 != 0 {
            prev.push('_')
        } else {
            prev
        };
        with_sep.push(ascii_lower(c))
    }
}

/// The output of `to_pascal_case` on `s`, with whether the next kept
/// character is to be capitalized.
pub open spec fn pascal_state(s: Seq<char>) -> (Seq<char>, bool)
    decreases s.len(),
{
    if s.len() == 0 {
        (seq![], true)
    } else {
        let (out, cap) = pascal_state(s.drop_last());
        let c = s.last();
        if c == '_' || c == '-' {
            (out, true)
        } else if cap {
            (out.push(ascii_upper(c)), false)
        } else {
            (out.push(c), false)
        }
    }
}

/// `to_pascal_case`: `_` and `-` are dropped, the first character and every
/// character after a dropped one are put in ASCII upper case.
pub open spec fn pascal_case(s: Seq<char>) -> Seq<char> {
    pascal_state(s).0
}

/// Converts a name such as `UserProfile` to `user_profile`.
pub fn to_snake_case(s: &str) -> (r: String)
    ensures
        r@ == snake_case(s@),
{
    let cs = chars_of(s);
    let mut out: Vec<char> = Vec::new();
    let mut i: usize = 0;
    while i < cs.len()
        invariant
            i <= cs.len(),
            cs@ == s@,
            out@ == snake_case(cs@.take(i as int)),
        decreases cs.len() - i,
    {
        let ch = cs[i];
        assert(cs@.take(i + 1).drop_last() =~= cs@.take(i as int));
        if is_uppercase(ch) && i != 0 {
            out.push('_');
        }
        out.push(to_ascii_lowercase(ch));
        i += 1;
    }
    assert(cs@.take(cs.len() as int) =~= cs@);
    string_of(&out)
}

/// Converts a name such as `user_profile` or `user-profile` to `UserProfile`.
pub fn to_pascal_case(s: &str) -> (r: String)
    ensures
        r@ == pascal_case(s@),
{
    let cs = chars_of(s);
    let mut out: Vec<char> = Vec::new();
    let mut capitalize_next = true;
    let mut i: usize = 0;
    while i < cs.len()
        invariant
            i <= cs.len(),
            cs@ == s@,
            (out@, capitalize_next) == pascal_state(cs@.take(i as int)),
        decreases cs.len() - i,
    {
        let ch = cs[i];
        assert(cs@.take(i + 1).drop_last() =~= cs@.take(i as int));
        if ch == '_' || ch == '-' {
            capitalize_next = true;
        } else if capitalize_next {
            out.push(to_ascii_uppercase(ch));
            capitalize_next = false;
        } else {
            out.push(ch);
        }
        i += 1;
    }
    assert(cs@.take(cs.len() as int) =~= cs@);
    string_of(&out)
}

// ───────────────────────── laws of the case conversions ─────────────────────────

/// No character of a snake-cased name is an ASCII capital.
pub proof fn lemma_snake_case_has_no_ascii_capitals(s: Seq<char>)
    ensures
        forall|i: int| 0 <= i < snake_case(s).len() ==> !('A' <= #[trigger] snake_case(s)[i] && snake_case(s)[i] <= 'Z'),
    decreases s.len(),
{
    if s.len() > 0 {
        lemma_snake_case_has_no_ascii_capitals(s.drop_last());
        let prev = snake_case(s.drop_last());
        let c = s.last();
        let lc = ascii_lower(c);
        assert(!('A' <= lc && lc <= 'Z'));
        let with_sep = if is_upper(c) && s.len() - 1 != 0 {
            prev.push('_')
        } else {
            prev
        };
        assert forall|i: int| 0 <= i < with_sep.len() implies !('A' <= with_sep[i] && with_sep[i] <= 'Z') by {
            if i < prev.len() {
                assert(snake_case(s.drop_last())[i] == prev[i]);
            }
        }
        assert(snake_case(s) == with_sep.push(lc));
    }
}

/// A Pascal-cased name holds no `_` and no `-`.
pub proof fn lemma_pascal_case_has_no_separators(s: Seq<char>)
    ensures
        forall|i: int| 0 <= i < pascal_case(s).len() ==> #[trigger] pascal_case(s)[i] != '_'
            && pascal_case(s)[i] != '-',
    decreases s.len(),
{
    if s.len() > 0 {
        lemma_pascal_case_has_no_separators(s.drop_last());
        let out = pascal_case(s.drop_last());
        assert forall|i: int| 0 <= i < out.len() implies out[i] != '_' && out[i] != '-' by {
            assert(pascal_case(s.drop_last())[i] == out[i]);
        }
    }
}

/// On a name without separators, `to_pascal_case` capitalizes the first
/// character and keeps the others.
proof fn lemma_pascal_of_plain(s: Seq<char>)
    requires
        forall|i: int| 0 <= i < s.len() ==> s[i] != '_' && s[i] != '-',
    ensures
        s.len() == 0 ==> pascal_state(s) == (Seq::<char>::empty(), true),
        s.len() > 0 ==> pascal_state(s) == (seq![ascii_upper(s[0])] + s.drop_first(), false),
    decreases s.len(),
{
    if s.len() > 1 {
        lemma_pascal_of_plain(s.drop_last());
        assert(seq![ascii_upper(s[0])] + s.drop_first() =~= (seq![ascii_upper(s.drop_last()[0])]
            + s.drop_last().drop_first()).push(s.last()));
    } else if s.len() == 1 {
        assert(pascal_state(s.drop_last()) == (Seq::<char>::empty(), true));
        assert(seq![ascii_upper(s[0])] + s.drop_first() =~= seq![ascii_upper(s[0])]);
        assert(Seq::<char>::empty().push(ascii_upper(s.last())) =~= seq![ascii_upper(s[0])]);
    }
}

/// Converting a name to Pascal case twice gives what converting it once
/// gives.
pub proof fn lemma_pascal_case_idempotent(s: Seq<char>)
    ensures
        pascal_case(pascal_case(s)) == pascal_case(s),
{
    let p = pascal_case(s);
    lemma_pascal_case_has_no_separators(s);
    lemma_pascal_of_plain(p);
    if p.len() > 0 {
        lemma_pascal_first_is_upper(s);
        assert(ascii_upper(p[0]) == p[0]);
        assert(seq![p[0]] + p.drop_first() =~= p);
    }
}

/// On a non-empty name without `_` or `-`, reading back the snake-cased
/// form in Pascal case gives the name with its first character in ASCII
/// upper case, and leaves no capitalization pending.
proof fn lemma_pascal_state_of_snake(s: Seq<char>)
    requires
        s.len() > 0,
        forall|i: int| 0 <= i < s.len() ==> s[i] != '_' && s[i] != '-',
    ensures
        pascal_state(snake_case(s)) == (seq![ascii_upper(ascii_lower(s[0]))] + s.drop_first(), false),
    decreases s.len(),
{
    let t = s.drop_last();
    if s.len() == 1 {
        assert(snake_case(t) =~= Seq::<char>::empty());
        let l = ascii_lower(s[0]);
        assert(snake_case(s) =~= seq![l]);
        assert(seq![l].drop_last() =~= Seq::<char>::empty());
        assert(l != '_' && l != '-');
        assert(pascal_state(Seq::<char>::empty()) == (Seq::<char>::empty(), true));
        assert(pascal_state(seq![l].drop_last()) == (Seq::<char>::empty(), true));
        assert(seq![l].last() == l);
        assert(pascal_state(seq![l]) == (Seq::<char>::empty().push(ascii_upper(l)), false));
        assert(seq![ascii_upper(l)] + s.drop_first() =~= Seq::<char>::empty().push(ascii_upper(l)));
    } else {
        lemma_pascal_state_of_snake(t);
        let prev = snake_case(t);
        let c = s.last();
        let lc = ascii_lower(c);
        let head = seq![ascii_upper(ascii_lower(s[0]))];
        assert(t[0] == s[0]);
        let p = head + t.drop_first();
        assert(pascal_state(prev) == (p, false));
        assert(lc != '_' && lc != '-');
        if is_upper(c) {
            let w = prev.push('_');
            assert(w.drop_last() =~= prev);
            assert(pascal_state(w) == (p, true));
            assert(snake_case(s) == w.push(lc));
            assert(w.push(lc).drop_last() =~= w);
            assert(ascii_upper(lc) == c);
            assert(pascal_state(snake_case(s)) == (p.push(c), false));
        } else {
            assert(snake_case(s) == prev.push(lc));
            assert(prev.push(lc).drop_last() =~= prev);
            assert(lc == c);
            assert(pascal_state(snake_case(s)) == (p.push(c), false));
        }
        assert(p.push(c) =~= head + s.drop_first());
    }
}

/// Converting a name to snake case and back to Pascal case gives the name
/// again, for every name that holds no `_` and no `-` and does not start
/// with an ASCII small letter (such as `UserProfile` or `HTMLPage`).
pub proof fn lemma_pascal_of_snake_round_trip(s: Seq<char>)
    requires
        forall|i: int| 0 <= i < s.len() ==> s[i] != '_' && s[i] != '-',
        s.len() > 0 ==> !('a' <= s[0] && s[0] <= 'z'),
    ensures
        pascal_case(snake_case(s)) == s,
{
    if s.len() == 0 {
        assert(snake_case(s) =~= Seq::<char>::empty());
    } else {
        lemma_pascal_state_of_snake(s);
        assert(ascii_upper(ascii_lower(s[0])) == s[0]);
        assert(seq![s[0]] + s.drop_first() =~= s);
    }
}

/// Appending ASCII text without capitals to a name appends the same text to
/// its snake-cased form.
pub proof fn lemma_snake_case_append_plain(n: Seq<char>, t: Seq<char>)
    requires
        forall|i: int| 0 <= i < t.len() ==> (#[trigger] t[i] as u32) < 0x80 && !('A' <= t[i] && t[i] <= 'Z'),
    ensures
        snake_case(n + t) == snake_case(n) + t,
    decreases t.len(),
{
    if t.len() == 0 {
        assert(n + t =~= n);
        assert(snake_case(n) + t =~= snake_case(n));
    } else {
        let u = t.drop_last();
        lemma_snake_case_append_plain(n, u);
        let c = t.last();
        assert(t[t.len() - 1] == c);
        assert((n + t).drop_last() =~= n + u);
        assert((n + t).last() == c);
        assert(!is_upper(c));
        assert(ascii_lower(c) == c);
        assert(snake_case(n + t) == snake_case(n + u).push(c));
        assert(snake_case(n) + t =~= (snake_case(n) + u).push(c));
    }
}

/// Appending to a name a text without separators whose first character is
/// an ASCII capital (or no letter) appends the same text to its
/// Pascal-cased form.
pub proof fn lemma_pascal_case_append(n: Seq<char>, t: Seq<char>)
    requires
        t.len() > 0,
        forall|i: int| 0 <= i < t.len() ==> #[trigger] t[i] != '_' && t[i] != '-',
        ascii_upper(t[0]) == t[0],
    ensures
        pascal_state(n + t) == (pascal_case(n) + t, false),
    decreases t.len(),
{
    let c = t.last();
    assert(t[t.len() - 1] == c);
    assert((n + t).drop_last() =~= n + t.drop_last());
    assert((n + t).last() == c);
    if t.len() == 1 {
        assert(n + t.drop_last() =~= n);
        assert(pascal_case(n) + t =~= pascal_case(n).push(c));
    } else {
        let u = t.drop_last();
        assert(u[0] == t[0]);
        lemma_pascal_case_append(n, u);
        assert(pascal_case(n) + t =~= (pascal_case(n) + u).push(c));
    }
}

/// The first character of a non-empty Pascal-cased name is in ASCII upper
/// case.
proof fn lemma_pascal_first_is_upper(s: Seq<char>)
    ensures
        pascal_case(s).len() > 0 ==> ascii_upper(pascal_case(s)[0]) == pascal_case(s)[0],
        pascal_case(s).len() == 0 ==> pascal_state(s).1,
    decreases s.len(),
{
    if s.len() > 0 {
        lemma_pascal_first_is_upper(s.drop_last());
        let (out, cap) = pascal_state(s.drop_last());
        let c = s.last();
        if out.len() == 0 && !(c == '_' || c == '-') {
            assert(ascii_upper(ascii_upper(c)) == ascii_upper(c));
        }
    }
}

// ───────────────────────── cargo output parsing ─────────────────────────

/// What `parse_cargo_progress` reads from a line such as
/// `Building [====>   ] 12/40: serde, tokio`: the step, the number of steps
/// and the details after the colon.
pub open spec fn cargo_progress(line: Seq<char>) -> Option<(nat, nat, Seq<char>)> {
    let t = trim_start(line);
    if !starts_with(t, "Building ["@) {
        None
    } else {
        match find(t, "]"@) {
            None => None,
            Some(cb) => {
                let after = trim_start(t.subrange(cb + 1, t.len() as int));
                match find(after, ":"@) {
                    None => None,
                    Some(colon) => {
                        let frac = trim(after.subrange(0, colon));
                        match find(frac, "/"@) {
                            None => None,
                            Some(sl) => {
                                match (
                                    parse_unsigned(frac.subrange(0, sl), usize::MAX as nat),
                                    parse_unsigned(
                                        frac.subrange(sl + 1, frac.len() as int),
                                        usize::MAX as nat,
                                    ),
                                ) {
                                    (Some(cur), Some(tot)) => Some(
                                        (
                                            cur,
                                            tot,
                                            trim(after.subrange(colon + 1, after.len() as int)),
                                        ),
                                    ),
                                    _ => None,
                                }
                            },
                        }
                    },
                }
            },
        }
    }
}

/// Parses a cargo progress line into (step, steps, details).
pub fn parse_cargo_progress(line: &str) -> (r: Option<(usize, usize, String)>)
    ensures
        match r {
            Some((cur, tot, details)) => cargo_progress(line@) == Some(
                (cur as nat, tot as nat, details@),
            ),
            None => cargo_progress(line@) is None,
        },
{
    let lv = chars_of(line);
    let t = trim_start_exec(&lv);
    proof {
        reveal_strlit("]");
        reveal_strlit(":");
        reveal_strlit("/");
    }
    let building = chars_of("Building [");
    if !starts_with_exec(&t, &building) {
        return None;
    }
    let close = chars_of("]");
    let cb = match find_exec(&t, &close) {
        Some(k) => k,
        None => return None,
    };
    proof {
        lemma_find_from(t@, close@, 0);
    }
    assert(occurs_at(t@, close@, cb as int));
    assert(close@.len() == 1);
    assert(cb < t.len());
    let rest = slice(&t, cb + 1, t.len());
    let after = trim_start_exec(&rest);
    let colon_p = chars_of(":");
    let colon = match find_exec(&after, &colon_p) {
        Some(k) => k,
        None => return None,
    };
    proof {
        lemma_find_from(after@, colon_p@, 0);
    }
    assert(occurs_at(after@, colon_p@, colon as int));
    assert(colon_p@.len() == 1);
    assert(colon < after.len());
    let frac_raw = slice(&after, 0, colon);
    let frac = trim_exec(&frac_raw);
    let slash_p = chars_of("/");
    let sl = match find_exec(&frac, &slash_p) {
        Some(k) => k,
        None => return None,
    };
    proof {
        lemma_find_from(frac@, slash_p@, 0);
    }
    assert(slash_p@.len() == 1);
    assert(occurs_at(frac@, slash_p@, sl as int));
    assert(sl < frac.len());
    let cur_s = slice(&frac, 0, sl);
    let tot_s = slice(&frac, sl + 1, frac.len());
    let cur = match parse_unsigned_exec(&cur_s, usize::MAX as u64) {
        Some(v) => v,
        None => return None,
    };
    let tot = match parse_unsigned_exec(&tot_s, usize::MAX as u64) {
        Some(v) => v,
        None => return None,
    };
    let det_raw = slice(&after, colon + 1, after.len());
    let details = trim_exec(&det_raw);
    Some((cur as usize, tot as usize, string_of(&details)))
}

/// What `parse_compiling_crate` reads: for a line whose trimmed text starts
/// with `Compiling `, `Checking ` or `Documenting `, its first two words.
pub open spec fn compiling_crate(line: Seq<char>) -> Option<(Seq<char>, Seq<char>)> {
    let t = trim(line);
    if starts_with(t, "Compiling "@) || starts_with(t, "Checking "@) || starts_with(
        t,
        "Documenting "@,
    ) {
        let parts = split_whitespace(t);
        if parts.len() >= 2 {
            Some((parts[0], parts[1]))
        } else {
            None
        }
    } else {
        None
    }
}

/// Parses a cargo line such as `Compiling serde v1.0.0` into
/// (action, crate name).
pub fn parse_compiling_crate(line: &str) -> (r: Option<(String, String)>)
    ensures
        match r {
            Some((action, name)) => compiling_crate(line@) == Some((action@, name@)),
            None => compiling_crate(line@) is None,
        },
{
    let lv = chars_of(line);
    let t = trim_exec(&lv);
    let p1 = chars_of("Compiling ");
    let p2 = chars_of("Checking ");
    let p3 = chars_of("Documenting ");
    if starts_with_exec(&t, &p1) || starts_with_exec(&t, &p2) || starts_with_exec(&t, &p3) {
        let parts = split_whitespace_exec(&t);
        if parts.len() >= 2 {
            return Some((string_of(&parts[0]), string_of(&parts[1])));
        }
    }
    None
}

// ───────────────────────── prompts and addresses ─────────────────────────

/// The number that `prompt_choice` accepts from an input line: the trimmed
/// line read as a `usize` within `min..=max`.
pub open spec fn choice_of(input: Seq<char>, min: nat, max: nat) -> Option<nat> {
    match parse_unsigned(trim(input), usize::MAX as nat) {
        Some(n) => if min <= n <= max {
            Some(n)
        } else {
            None
        },
        None => None,
    }
}

/// Reads a menu choice from one input line; `None` asks the user again.
pub fn parse_choice(input: &str, min: usize, max: usize) -> (r: Option<usize>)
    ensures
        match r {
            Some(n) => choice_of(input@, min as nat, max as nat) == Some(n as nat),
            None => choice_of(input@, min as nat, max as nat) is None,
        },
{
    let v = chars_of(input);
    let t = trim_exec(&v);
    match parse_unsigned_exec(&t, usize::MAX as u64) {
        Some(n) => {
            let n = n as usize;
            if n >= min && n <= max {
                Some(n)
            } else {
                None
            }
        },
        None => None,
    }
}

/// The characters before the first `/` (all of them if there is none).
pub open spec fn before_slash(s: Seq<char>) -> Seq<char> {
    match index_of_from(s, '/', 0) {
        Some(k) => s.subrange(0, k),
        None => s,
    }
}

/// The `host:port` that `wait_and_open` polls for a URL: the scheme prefixes
/// `http://` and `https://` are removed wherever they occur, then everything
/// from the first `/` on is dropped.
pub open spec fn url_address(url: Seq<char>) -> Seq<char> {
    before_slash(replace_all(replace_all(url, "http://"@, ""@), "https://"@, ""@))
}

/// The address to connect to before a URL is opened in the browser.
pub fn url_address_of(url: &str) -> (r: String)
    ensures
        r@ == url_address(url@),
{
    let u = chars_of(url);
    let http = chars_of("http://");
    let https = chars_of("https://");
    let empty = chars_of("");
    proof {
        reveal_strlit("http://");
        reveal_strlit("https://");
        reveal_strlit("");
    }
    let a = replace_exec(&u, &http, &empty);
    let b = replace_exec(&a, &https, &empty);
    proof {
        lemma_index_of_from(b@, '/', 0);
    }
    let r = match index_of(&b, '/', 0) {
        Some(k) => slice(&b, 0, k),
        None => b,
    };
    string_of(&r)
}

/// The program that opens a URL on an operating system.
pub enum BrowserLauncher {
    /// `open <url>` (macOS).
    Open,
    /// `cmd /C start <url>` (Windows).
    CmdStart,
    /// `xdg-open <url>` (everything else).
    XdgOpen,
}

/// Which launcher `open_browser` uses for the name in `std::env::consts::OS`.
pub fn browser_launcher(os: &str) -> (r: BrowserLauncher)
    ensures
        os@ == "macos"@ ==> r is Open,
        os@ == "windows"@ ==> r is CmdStart,
        os@ != "macos"@ && os@ != "windows"@ ==> r is XdgOpen,
{
    proof {
        reveal_strlit("macos");
        reveal_strlit("windows");
        assert("macos"@.len() != "windows"@.len());
    }
    if str_eq(os, "macos") {
        BrowserLauncher::Open
    } else if str_eq(os, "windows") {
        BrowserLauncher::CmdStart
    } else {
        BrowserLauncher::XdgOpen
    }
}

// ───────────────────────── local time ─────────────────────────

/// How a migration's name gives its time: `20240131_235959`.
pub const MIGRATION_TIME_FORMAT: &'static str = "%Y%m%d_%H%M%S";

/// How the manifest records an installation time: `2024-01-31T23:59:59`.
pub const INSTALL_TIME_FORMAT: &'static str = "%Y-%m-%dT%H:%M:%S";

/// The formats the tool writes times in.
pub open spec fn time_format(f: Seq<char>) -> bool {
    f == MIGRATION_TIME_FORMAT@ || f == INSTALL_TIME_FORMAT@
}

/// Whether a character is an ASCII digit.
pub open spec fn is_digit(c: char) -> bool {
    '0' <= c && c <= '9'
}

/// A year as `%Y` writes it: four digits for the years 0 to 9999, else a
/// sign followed by at least four digits.
pub open spec fn year_text(y: Seq<char>) -> bool {
    ||| y.len() == 4 && forall|i: int| 0 <= i < 4 ==> is_digit(#[trigger] y[i])
    ||| y.len() >= 5 && (y[0] == '+' || y[0] == '-') && forall|i: int|
        1 <= i < y.len() ==> is_digit(#[trigger] y[i])
}

/// Whether a text follows a pattern in which `9` stands for any digit and
/// every other character for itself.
pub open spec fn follows_pattern(s: Seq<char>, pattern: Seq<char>) -> bool {
    &&& s.len() == pattern.len()
    &&& forall|i: int|
        0 <= i < s.len() ==> if pattern[i] == '9' {
            is_digit(#[trigger] s[i])
        } else {
            s[i] == pattern[i]
        }
}

/// A time written as a year followed by the fields in `rest`.
pub open spec fn time_text(s: Seq<char>, rest: Seq<char>) -> bool {
    &&& s.len() >= rest.len() + 4
    &&& year_text(s.take(s.len() - rest.len()))
    &&& follows_pattern(s.skip(s.len() - rest.len()), rest)
}

/// A time in `MIGRATION_TIME_FORMAT`, such as `20240131_235959`.
pub open spec fn migration_time_text(s: Seq<char>) -> bool {
    time_text(s, "9999_999999"@)
}

/// A time in `INSTALL_TIME_FORMAT`, such as `2024-01-31T23:59:59`.
pub open spec fn install_time_text(s: Seq<char>) -> bool {
    time_text(s, "-99-99T99:99:99"@)
}

/// `chrono::Local::now().format(format)`: the clock's reading, written in
/// the given format. Which time it is is not stated (it is the clock's
/// reading); what is stated is its shape: `%Y` writes the year with four
/// digits when it lies in 0 to 9999 and otherwise with a sign and at least
/// four digits, and `%m`, `%d`, `%H`, `%M`, `%S` write two digits each. The
/// formats are limited to the tool's two, which chrono can always write (an
/// invalid format makes `to_string` panic).
#[verifier::external_body]
pub(crate) fn local_time(format: &str) -> (r: String)
    requires
        time_format(format@),
    ensures
        format@ == MIGRATION_TIME_FORMAT@ ==> migration_time_text(r@),
        format@ == INSTALL_TIME_FORMAT@ ==> install_time_text(r@),
{
    chrono::Local::now().format(format).to_string()
}

} // verus!
