//! Locating the worker executable: the ordered candidate paths built from
//! the program's own directory, the bundled resource location, the `PATH`
//! variable and the working directory, and the choice of the first existing
//! one. The existence checks themselves happen outside and come back as
//! plain booleans.

use vstd::prelude::*;
use crate::scan::{chars_to_string, copy_range};
use crate::text::{find_sub, find_sub_chars, lemma_find_sub_from, matches_at, str_to_chars};

verus! {

/// The worker executable's file name.
pub open spec fn worker_exe_name() -> Seq<char> {
    "nodepass.exe"@
}

/// A directory joined with a file name, with a separator added unless the
/// directory already ends in one or is empty.
pub open spec fn join_path_spec(dir: Seq<char>, name: Seq<char>) -> Seq<char> {
    if dir.len() == 0 {
        name
    } else if dir.last() == '/' || dir.last() == '\\' {
        dir + name
    } else {
        dir + seq!['/'] + name
    }
}

pub fn join_path(dir: &str, name: &str) -> (r: String)
    ensures
        r@ == join_path_spec(dir@, name@),
{
    let dv = str_to_chars(dir);
    if dv.len() == 0 {
        return String::from_str(name);
    }
    let last = dv[dv.len() - 1];
    let mut s = String::from_str(dir);
    if last == '/' || last == '\\' {
        s.append(name);
    } else {
        s.append("/");
        s.append(name);
        proof {
            reveal_strlit("/");
            assert("/"@ =~= seq!['/']);
        }
    }
    s
}

/// A separated value split at every occurrence of the separator; a value
/// without the separator is one piece, and an empty value one empty piece.
pub open spec fn split_sep(s: Seq<char>, sep: char) -> Seq<Seq<char>>
    decreases s.len(),
{
    let k = find_sub(s, seq![sep]);
    if k < 0 || k + 1 > s.len() {
        seq![s]
    } else {
        seq![s.take(k)] + split_sep(s.skip(k + 1), sep)
    }
}

pub fn split_sep_chars(text: &Vec<char>, sep: char) -> (r: Vec<Vec<char>>)
    ensures
        r@.len() == split_sep(text@, sep).len(),
        forall|i: int| 0 <= i < r@.len() ==> r@[i]@ == split_sep(text@, sep)[i],
    decreases text@.len(),
{
    let n = text.len();
    let mut r: Vec<Vec<char>> = Vec::new();
    let mut sepv: Vec<char> = Vec::new();
    sepv.push(sep);
    assert(sepv@ =~= seq![sep]);
    let found = find_sub_chars(text, &sepv);
    match found {
        None => {
            let whole = copy_range(text, 0, text.len());
            assert(whole@ =~= text@);
            r.push(whole);
            r
        },
        Some(k) => {
            proof {
                lemma_find_sub_from(text@, sepv@, 0);
                assert(matches_at(text@, sepv@, k as int));
                assert(k + 1 <= text@.len());
            }
            let head = copy_range(text, 0, k);
            assert(head@ =~= text@.take(k as int));
            let rest = copy_range(text, k + 1, n);
            assert(rest@ =~= text@.skip(k + 1));
            let tail = split_sep_chars(&rest, sep);
            r.push(head);
            let ghost pieces = split_sep(text@, sep);
            let ghost tail_pieces = split_sep(text@.skip(k + 1), sep);
            assert(pieces == seq![text@.take(k as int)] + tail_pieces);
            let mut ti: usize = 0;
            while ti < tail.len()
                invariant
                    ti <= tail@.len(),
                    tail@.len() == tail_pieces.len(),
                    forall|q: int| 0 <= q < tail@.len() ==> tail@[q]@ == tail_pieces[q],
                    pieces == seq![text@.take(k as int)] + tail_pieces,
                    r@.len() == 1 + ti,
                    r@[0]@ == text@.take(k as int),
                    forall|q: int| 0 <= q < ti ==> r@[1 + q]@ == tail@[q]@,
                decreases tail@.len() - ti,
            {
                let elem = copy_range(&tail[ti], 0, tail[ti].len());
                assert(elem@ =~= tail@[ti as int]@);
                r.push(elem);
                ti = ti + 1;
            }
            assert(r@.len() == pieces.len());
            assert(forall|i: int| 0 <= i < r@.len() ==> r@[i]@ == pieces[i]);
            r
        },
    }
}

/// The candidates from the `PATH` value: each directory, split on `;`,
/// joined with the worker's file name.
pub open spec fn path_var_candidates(pv: Seq<char>) -> Seq<Seq<char>> {
    split_sep(pv, ';').map(|i: int, d: Seq<char>| join_path_spec(d, worker_exe_name()))
}

/// The candidate paths in search order: the running program's own
/// directory, the bundled resource path, every `PATH` directory, then the
/// working directory.
pub open spec fn candidates_spec(
    exe_dir: Option<Seq<char>>,
    resource: Option<Seq<char>>,
    path_var: Option<Seq<char>>,
    cwd: Option<Seq<char>>,
) -> Seq<Seq<char>> {
    (match exe_dir {
        Some(d) => seq![join_path_spec(d, worker_exe_name())],
        None => Seq::<Seq<char>>::empty(),
    }) + (match resource {
        Some(p) => seq![p],
        None => Seq::<Seq<char>>::empty(),
    }) + (match path_var {
        Some(pv) => path_var_candidates(pv),
        None => Seq::<Seq<char>>::empty(),
    }) + (match cwd {
        Some(d) => seq![join_path_spec(d, worker_exe_name())],
        None => Seq::<Seq<char>>::empty(),
    })
}

pub fn executable_candidates(
    exe_dir: Option<&str>,
    resource: Option<&str>,
    path_var: Option<&str>,
    cwd: Option<&str>,
) -> (r: Vec<String>)
    ensures
        ({
            let dv = match exe_dir {
                Some(d) => Some(d@),
                None => None,
            };
            let rv = match resource {
                Some(p) => Some(p@),
                None => None,
            };
            let pv = match path_var {
                Some(p) => Some(p@),
                None => None,
            };
            let cv = match cwd {
                Some(d) => Some(d@),
                None => None,
            };
            let cs = candidates_spec(dv, rv, pv, cv);
            r@.len() == cs.len() && forall|i: int| 0 <= i < r@.len() ==> r@[i]@ == cs[i]
        }),
{
    let mut r: Vec<String> = Vec::new();
    match exe_dir {
        Some(d) => {
            r.push(join_path(d, "nodepass.exe"));
        },
        None => {},
    }
    match resource {
        Some(p) => {
            r.push(String::from_str(p));
        },
        None => {},
    }
    match path_var {
        Some(pvs) => {
            let pv_chars = str_to_chars(pvs);
            let dirs = split_sep_chars(&pv_chars, ';');
            let ghost before = r@;
            let mut i: usize = 0;
            while i < dirs.len()
                invariant
                    i <= dirs@.len(),
                    dirs@.len() == split_sep(pvs@, ';').len(),
                    forall|q: int| 0 <= q < dirs@.len() ==> dirs@[q]@ == split_sep(pvs@, ';')[q],
                    r@.len() == before.len() + i,
                    forall|q: int| 0 <= q < before.len() ==> #[trigger] r@[q] == before[q],
                    forall|t: int|
                        before.len() <= t < r@.len() ==> #[trigger] r@[t]@ == path_var_candidates(
                            pvs@,
                        )[t - before.len()],
                decreases dirs@.len() - i,
            {
                let dir = chars_to_string(&dirs[i]);
                r.push(join_path(dir.as_str(), "nodepass.exe"));
                proof {
                    assert(path_var_candidates(pvs@)[i as int] == join_path_spec(
                        dirs@[i as int]@,
                        worker_exe_name(),
                    ));
                }
                i = i + 1;
            }
        },
        None => {},
    }
    match cwd {
        Some(d) => {
            r.push(join_path(d, "nodepass.exe"));
        },
        None => {},
    }
    proof {
        let dv = match exe_dir {
            Some(d) => Some(d@),
            None => None,
        };
        let rv = match resource {
            Some(p) => Some(p@),
            None => None,
        };
        let pv = match path_var {
            Some(p) => Some(p@),
            None => None,
        };
        let cv = match cwd {
            Some(d) => Some(d@),
            None => None,
        };
        let part1: Seq<Seq<char>> = match dv {
            Some(d) => seq![join_path_spec(d, worker_exe_name())],
            None => Seq::<Seq<char>>::empty(),
        };
        let part2: Seq<Seq<char>> = match rv {
            Some(p) => seq![p],
            None => Seq::<Seq<char>>::empty(),
        };
        let part3: Seq<Seq<char>> = match pv {
            Some(p) => path_var_candidates(p),
            None => Seq::<Seq<char>>::empty(),
        };
        let part4: Seq<Seq<char>> = match cv {
            Some(d) => seq![join_path_spec(d, worker_exe_name())],
            None => Seq::<Seq<char>>::empty(),
        };
        let cs = candidates_spec(dv, rv, pv, cv);
        assert(cs == part1 + part2 + part3 + part4);
        assert(r@.len() == cs.len());
        let l1 = part1.len() as int;
        let l2 = part2.len() as int;
        let l3 = part3.len() as int;
        assert forall|i: int| 0 <= i < r@.len() implies r@[i]@ == cs[i] by {
            assert(cs[i] == (part1 + part2 + part3 + part4)[i]);
            if i < l1 {
                assert(cs[i] == part1[i]);
            } else if i < l1 + l2 {
                assert(cs[i] == part2[i - l1]);
            } else if i < l1 + l2 + l3 {
                assert(cs[i] == part3[i - l1 - l2]);
                assert(r@[i]@ == path_var_candidates(pv->0)[i - l1 - l2]);
            } else {
                assert(cs[i] == part4[i - l1 - l2 - l3]);
            }
        }
    }
    r
}

/// Index of the first true flag at or after `from`, or -1.
pub open spec fn first_true(s: Seq<bool>, from: int) -> int
    decreases s.len() - from + 1,
{
    if from < 0 || from >= s.len() {
        -1
    } else if s[from] {
        from
    } else {
        first_true(s, from + 1)
    }
}

/// Choose the worker executable: the first candidate that exists wins;
/// with none existing, the bare command name stands in as a last resort
/// when asked for, else the search fails.
pub fn select_executable(candidates: &Vec<String>, exists: &Vec<bool>, fallback: bool) -> (r:
    Option<String>)
    requires
        candidates@.len() == exists@.len(),
    ensures
        ({
            let ft = first_true(exists@, 0);
            if ft >= 0 {
                r matches Some(p) && 0 <= ft < candidates@.len() && p@ == candidates@[ft]@
            } else if fallback {
                r matches Some(p) && p@ == "nodepass"@
            } else {
                r is None
            }
        }),
{
    let mut i: usize = 0;
    while i < exists.len()
        invariant
            i <= exists@.len(),
            candidates@.len() == exists@.len(),
            first_true(exists@, 0) == first_true(exists@, i as int),
        decreases exists@.len() - i,
    {
        if exists[i] {
            return Some(candidates[i].clone());
        }
        i = i + 1;
    }
    if fallback {
        Some(String::from_str("nodepass"))
    } else {
        None
    }
}

} // verus!
