//! Proxy resolution: the priority order over environment values, and the
//! parsers for the OS proxy queries whose raw output the runtime hands in.

use vstd::prelude::*;
use crate::scan::{chars_to_string, rest_after, rest_after_first, segment_after_first,
    segment_between, split_lines, split_lines_chars, trim_chars, trim_spec};
use crate::text::{chars_eq, contains_chars, contains_seq, starts_with_chars, starts_with_seq,
    str_to_chars};

verus! {

pub open spec fn nonempty_opt(o: Option<Seq<char>>) -> bool {
    match o {
        Some(s) => s.len() > 0,
        None => false,
    }
}

/// The host of the artifact feed is excluded from proxying when the
/// `NO_PROXY` value names it or holds a wildcard.
pub open spec fn no_proxy_excludes(np: Seq<char>) -> bool {
    contains_seq(np, "github.com"@) || contains_seq(np, "*"@)
}

/// The effective system proxy: the first non-empty of the proxy
/// environment values wins; otherwise an exclusion via `NO_PROXY` or the
/// OS bypass list means a direct connection; otherwise whatever proxy the
/// OS reports; absence of any signal is a direct connection.
pub open spec fn system_proxy_spec(
    http: Option<Seq<char>>,
    https: Option<Seq<char>>,
    all: Option<Seq<char>>,
    no_proxy: Option<Seq<char>>,
    os_proxy: Option<Seq<char>>,
    os_bypassed: bool,
) -> Option<Seq<char>> {
    if nonempty_opt(http) {
        http
    } else if nonempty_opt(https) {
        https
    } else if nonempty_opt(all) {
        all
    } else if no_proxy matches Some(np) && no_proxy_excludes(np) {
        None
    } else if os_proxy is Some {
        if os_bypassed {
            None
        } else {
            os_proxy
        }
    } else {
        None
    }
}

pub fn resolve_system_proxy(
    http: Option<String>,
    https: Option<String>,
    all: Option<String>,
    no_proxy: Option<String>,
    os_proxy: Option<String>,
    os_bypassed: bool,
) -> (r: Option<String>)
    ensures
        ({
            let hv = match http {
                Some(s) => Some(s@),
                None => None,
            };
            let sv = match https {
                Some(s) => Some(s@),
                None => None,
            };
            let av = match all {
                Some(s) => Some(s@),
                None => None,
            };
            let nv = match no_proxy {
                Some(s) => Some(s@),
                None => None,
            };
            let ov = match os_proxy {
                Some(s) => Some(s@),
                None => None,
            };
            let expected = system_proxy_spec(hv, sv, av, nv, ov, os_bypassed);
            match r {
                Some(s) => expected == Some(s@),
                None => expected is None,
            }
        }),
{
    match http {
        Some(h) => {
            if !h.as_str().is_empty() {
                return Some(h);
            }
        },
        None => {},
    }
    match https {
        Some(h) => {
            if !h.as_str().is_empty() {
                return Some(h);
            }
        },
        None => {},
    }
    match all {
        Some(a) => {
            if !a.as_str().is_empty() {
                return Some(a);
            }
        },
        None => {},
    }
    match no_proxy {
        Some(np) => {
            let npv = str_to_chars(np.as_str());
            let pat_gh = str_to_chars("github.com");
            let pat_star = str_to_chars("*");
            if contains_chars(&npv, &pat_gh) || contains_chars(&npv, &pat_star) {
                return None;
            }
        },
        None => {},
    }
    match os_proxy {
        Some(p) => {
            if os_bypassed {
                None
            } else {
                Some(p)
            }
        },
        None => None,
    }
}

/// A proxy address gains an `http://` scheme when it names none.
pub open spec fn with_scheme(p: Seq<char>) -> Seq<char> {
    if starts_with_seq(p, "http://"@) || starts_with_seq(p, "https://"@) {
        p
    } else {
        "http://"@ + p
    }
}

fn add_scheme(p: &Vec<char>) -> (r: String)
    ensures
        r@ == with_scheme(p@),
{
    let pat_http = str_to_chars("http://");
    let pat_https = str_to_chars("https://");
    if starts_with_chars(p, &pat_http) || starts_with_chars(p, &pat_https) {
        chars_to_string(p)
    } else {
        let mut s = String::from_str("http://");
        let rest = chars_to_string(p);
        s.append(rest.as_str());
        s
    }
}

/// Whether one line of the registry query's output shows a bypass list
/// naming the artifact host or the local network.
pub open spec fn override_line_bypassed(l: Seq<char>) -> bool {
    contains_seq(l, "ProxyOverride"@) && contains_seq(l, "REG_SZ"@) && {
        let part = trim_spec(segment_after_first(l, "REG_SZ"@));
        contains_seq(part, "github.com"@) || contains_seq(part, "*.github.com"@) || contains_seq(
            part,
            "<local>"@,
        )
    }
}

/// Whether the registry query's output places the artifact host in the
/// proxy bypass list.
pub open spec fn proxy_override_bypassed_spec(s: Seq<char>) -> bool {
    exists|i: int|
        0 <= i < split_lines(s).len() && override_line_bypassed(#[trigger] split_lines(s)[i])
}

pub fn parse_proxy_override_output(output: &str) -> (r: bool)
    ensures
        r == proxy_override_bypassed_spec(output@),
{
    let chars = str_to_chars(output);
    let lines = split_lines_chars(&chars);
    let pat_override = str_to_chars("ProxyOverride");
    let pat_reg = str_to_chars("REG_SZ");
    let pat_gh = str_to_chars("github.com");
    let pat_ghw = str_to_chars("*.github.com");
    let pat_local = str_to_chars("<local>");
    let ghost spec_lines = split_lines(output@);
    let mut i: usize = 0;
    while i < lines.len()
        invariant
            spec_lines == split_lines(output@),
            i <= lines@.len(),
            lines@.len() == spec_lines.len(),
            forall|q: int| 0 <= q < lines@.len() ==> lines@[q]@ == spec_lines[q],
            pat_override@ == "ProxyOverride"@,
            pat_reg@ == "REG_SZ"@,
            pat_gh@ == "github.com"@,
            pat_ghw@ == "*.github.com"@,
            pat_local@ == "<local>"@,
            forall|q: int| 0 <= q < i ==> !override_line_bypassed(#[trigger] spec_lines[q]),
        decreases lines@.len() - i,
    {
        if contains_chars(&lines[i], &pat_override) && contains_chars(&lines[i], &pat_reg) {
            let seg = segment_between(&lines[i], &pat_reg);
            match seg {
                Some(segv) => {
                    let part = trim_chars(&segv);
                    if contains_chars(&part, &pat_gh) || contains_chars(&part, &pat_ghw)
                        || contains_chars(&part, &pat_local) {
                        assert(override_line_bypassed(spec_lines[i as int]));
                        return true;
                    }
                },
                None => {
                    proof {
                        assert(false);
                    }
                },
            }
        }
        i = i + 1;
    }
    false
}

/// The proxy one marker line of an OS proxy query names: everything after
/// the first colon, trimmed; an empty value or a no-proxy marker, English
/// or localized, names none.
pub open spec fn colon_segment_proxy(l: Seq<char>) -> Option<Seq<char>> {
    if contains_seq(l, ":"@) {
        let p = trim_spec(rest_after_first(l, ":"@));
        if p.len() > 0 && p != "(none)"@ && p != "(\u{65e0})"@ {
            Some(with_scheme(p))
        } else {
            None
        }
    } else {
        None
    }
}

/// One line of the OS proxy query's output: a line carrying the
/// proxy-server marker, in English or in the query's localized form,
/// yields the address after the colon.
pub open spec fn winhttp_line_proxy(l: Seq<char>) -> Option<Seq<char>> {
    if contains_seq(l, "Proxy Server"@) || contains_seq(
        l,
        "\u{4ee3}\u{7406}\u{670d}\u{52a1}\u{5668}"@,
    ) {
        colon_segment_proxy(l)
    } else {
        None
    }
}

pub open spec fn winhttp_from_lines(lines: Seq<Seq<char>>) -> Option<Seq<char>>
    decreases lines.len(),
{
    if lines.len() == 0 {
        None
    } else {
        match winhttp_line_proxy(lines[0]) {
            Some(p) => Some(p),
            None => winhttp_from_lines(lines.skip(1)),
        }
    }
}

/// The proxy named by the output of the OS's proxy query, if any; the
/// first line naming one wins.
pub open spec fn winhttp_proxy_spec(s: Seq<char>) -> Option<Seq<char>> {
    winhttp_from_lines(split_lines(s))
}

pub fn parse_winhttp_proxy_output(output: &str) -> (r: Option<String>)
    ensures
        match r {
            Some(p) => winhttp_proxy_spec(output@) == Some(p@),
            None => winhttp_proxy_spec(output@) is None,
        },
{
    let chars = str_to_chars(output);
    let lines = split_lines_chars(&chars);
    let pat_marker = str_to_chars("Proxy Server");
    let pat_marker_loc = str_to_chars("\u{4ee3}\u{7406}\u{670d}\u{52a1}\u{5668}");
    let pat_colon = str_to_chars(":");
    let pat_none = str_to_chars("(none)");
    let pat_none_loc = str_to_chars("(\u{65e0})");
    let ghost spec_lines = split_lines(output@);
    proof {
        assert(spec_lines.skip(0) =~= spec_lines);
    }
    let mut i: usize = 0;
    while i < lines.len()
        invariant
            spec_lines == split_lines(output@),
            i <= lines@.len(),
            lines@.len() == spec_lines.len(),
            forall|q: int| 0 <= q < lines@.len() ==> lines@[q]@ == spec_lines[q],
            pat_marker@ == "Proxy Server"@,
            pat_marker_loc@ == "\u{4ee3}\u{7406}\u{670d}\u{52a1}\u{5668}"@,
            pat_colon@ == ":"@,
            pat_none@ == "(none)"@,
            pat_none_loc@ == "(\u{65e0})"@,
            winhttp_from_lines(spec_lines) == winhttp_from_lines(spec_lines.skip(i as int)),
        decreases lines@.len() - i,
    {
        proof {
            assert(spec_lines.skip(i as int)[0] == spec_lines[i as int]);
        }
        if (contains_chars(&lines[i], &pat_marker) || contains_chars(&lines[i], &pat_marker_loc))
            && contains_chars(&lines[i], &pat_colon) {
            let seg = rest_after(&lines[i], &pat_colon);
            match seg {
                Some(segv) => {
                    let part = trim_chars(&segv);
                    if part.len() > 0 && !chars_eq(&part, &pat_none) && !chars_eq(
                        &part,
                        &pat_none_loc,
                    ) {
                        let url = add_scheme(&part);
                        assert(winhttp_line_proxy(spec_lines[i as int]) == Some(url@));
                        return Some(url);
                    }
                },
                None => {
                    proof {
                        assert(false);
                    }
                },
            }
        }
        proof {
            assert(winhttp_line_proxy(spec_lines[i as int]) is None);
            assert(spec_lines.skip(i as int).skip(1) =~= spec_lines.skip(i + 1));
        }
        i = i + 1;
    }
    assert(spec_lines.skip(spec_lines.len() as int) =~= Seq::<Seq<char>>::empty());
    None
}

/// One line of the registry's `ProxyServer` value: marker plus `REG_SZ`
/// yields the trimmed remainder, with a scheme added when absent.
pub open spec fn reg_line_proxy(l: Seq<char>) -> Option<Seq<char>> {
    if contains_seq(l, "ProxyServer"@) && contains_seq(l, "REG_SZ"@) {
        let p = trim_spec(segment_after_first(l, "REG_SZ"@));
        if p.len() > 0 {
            Some(with_scheme(p))
        } else {
            None
        }
    } else {
        None
    }
}

pub open spec fn reg_from_lines(lines: Seq<Seq<char>>) -> Option<Seq<char>>
    decreases lines.len(),
{
    if lines.len() == 0 {
        None
    } else {
        match reg_line_proxy(lines[0]) {
            Some(p) => Some(p),
            None => reg_from_lines(lines.skip(1)),
        }
    }
}

/// The proxy named by the registry's `ProxyServer` value, if any.
pub open spec fn reg_proxy_spec(s: Seq<char>) -> Option<Seq<char>> {
    reg_from_lines(split_lines(s))
}

pub fn parse_reg_proxy_output(output: &str) -> (r: Option<String>)
    ensures
        match r {
            Some(p) => reg_proxy_spec(output@) == Some(p@),
            None => reg_proxy_spec(output@) is None,
        },
{
    let chars = str_to_chars(output);
    let lines = split_lines_chars(&chars);
    let pat_marker = str_to_chars("ProxyServer");
    let pat_reg = str_to_chars("REG_SZ");
    let ghost spec_lines = split_lines(output@);
    proof {
        assert(spec_lines.skip(0) =~= spec_lines);
    }
    let mut i: usize = 0;
    while i < lines.len()
        invariant
            spec_lines == split_lines(output@),
            i <= lines@.len(),
            lines@.len() == spec_lines.len(),
            forall|q: int| 0 <= q < lines@.len() ==> lines@[q]@ == spec_lines[q],
            pat_marker@ == "ProxyServer"@,
            pat_reg@ == "REG_SZ"@,
            reg_from_lines(spec_lines) == reg_from_lines(spec_lines.skip(i as int)),
        decreases lines@.len() - i,
    {
        proof {
            assert(spec_lines.skip(i as int)[0] == spec_lines[i as int]);
        }
        if contains_chars(&lines[i], &pat_marker) && contains_chars(&lines[i], &pat_reg) {
            let seg = segment_between(&lines[i], &pat_reg);
            match seg {
                Some(segv) => {
                    let part = trim_chars(&segv);
                    if part.len() > 0 {
                        let url = add_scheme(&part);
                        assert(reg_line_proxy(spec_lines[i as int]) == Some(url@));
                        return Some(url);
                    }
                },
                None => {
                    proof {
                        assert(false);
                    }
                },
            }
        }
        proof {
            assert(reg_line_proxy(spec_lines[i as int]) is None);
            assert(spec_lines.skip(i as int).skip(1) =~= spec_lines.skip(i + 1));
        }
        i = i + 1;
    }
    assert(spec_lines.skip(spec_lines.len() as int) =~= Seq::<Seq<char>>::empty());
    None
}

} // verus!
