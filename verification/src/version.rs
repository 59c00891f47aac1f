//! Extraction of the worker's version from its help output: the first line
//! holding `Version:` yields the first token of what follows that marker.

use vstd::prelude::*;
use crate::scan::{chars_to_string, first_token_chars, first_token_spec, segment_after_first,
    segment_between, split_lines, split_lines_chars};
use crate::text::{contains_chars, contains_seq, str_to_chars};

verus! {

/// The line mentions the version marker.
pub open spec fn line_has_version(l: Seq<char>) -> bool {
    contains_seq(l, "Version:"@)
}

/// The version a marker line carries: the first token of the text between
/// the first `Version:` and the next one or the end of the line.
pub open spec fn version_token_of_line(l: Seq<char>) -> Seq<char> {
    first_token_spec(segment_after_first(l, "Version:"@))
}

/// Scan the lines in order; the first one holding the marker decides. An
/// empty token there yields nothing, and later lines are never consulted.
pub open spec fn extract_from_lines(lines: Seq<Seq<char>>) -> Option<Seq<char>>
    decreases lines.len(),
{
    if lines.len() == 0 {
        None
    } else if line_has_version(lines[0]) {
        let t = version_token_of_line(lines[0]);
        if t.len() == 0 {
            None
        } else {
            Some(t)
        }
    } else {
        extract_from_lines(lines.skip(1))
    }
}

pub open spec fn extract_version_spec(s: Seq<char>) -> Option<Seq<char>> {
    extract_from_lines(split_lines(s))
}

pub fn extract_version_from_output(output: &str) -> (r: Option<String>)
    ensures
        match r {
            Some(v) => extract_version_spec(output@) == Some(v@),
            None => extract_version_spec(output@) is None,
        },
{
    let chars = str_to_chars(output);
    let lines = split_lines_chars(&chars);
    let pat = str_to_chars("Version:");
    let ghost spec_lines = split_lines(output@);
    proof {
        assert(spec_lines.skip(0) =~= spec_lines);
    }
    let mut i: usize = 0;
    while i < lines.len()
        invariant
            spec_lines == split_lines(output@),
            i <= lines@.len(),
            lines@.len() == spec_lines.len(),
            forall|q: int| 0 <= q < lines@.len() ==> lines@[q]@ == spec_lines[q],
            pat@ == "Version:"@,
            extract_from_lines(spec_lines) == extract_from_lines(spec_lines.skip(i as int)),
        decreases lines@.len() - i,
    {
        proof {
            assert(spec_lines.skip(i as int)[0] == spec_lines[i as int]);
        }
        if contains_chars(&lines[i], &pat) {
            proof {
                let rest = spec_lines.skip(i as int);
                assert(rest.len() > 0);
                assert(rest[0] == spec_lines[i as int]);
                assert(line_has_version(rest[0]));
                assert(extract_from_lines(rest) == (if version_token_of_line(rest[0]).len() == 0 {
                    None
                } else {
                    Some(version_token_of_line(rest[0]))
                }));
            }
            let seg = segment_between(&lines[i], &pat);
            match seg {
                Some(segv) => {
                    let tok = first_token_chars(&segv);
                    assert(tok@ == version_token_of_line(spec_lines[i as int]));
                    if tok.len() == 0 {
                        return None;
                    } else {
                        return Some(chars_to_string(&tok));
                    }
                },
                None => {
                    proof {
                        assert(false);
                    }
                    return None;
                },
            }
        }
        proof {
            assert(spec_lines.skip(i as int).skip(1) =~= spec_lines.skip(i + 1));
        }
        i = i + 1;
    }
    assert(spec_lines.skip(spec_lines.len() as int) =~= Seq::<Seq<char>>::empty());
    None
}

} // verus!
