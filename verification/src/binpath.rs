//! Finding the app's other programs next to this one or in a build tree.

use vstd::prelude::*;
use crate::paths::{join, join_path};
use crate::text::{chars_of, from_chars};

verus! {

pub const CARGO_BIN_EXE_PREFIX: &'static str = "CARGO_BIN_EXE_";
pub const CARGO_TARGET_DIR_VAR: &'static str = "CARGO_TARGET_DIR";
pub const CARGO_MANIFEST_DIR_VAR: &'static str = "CARGO_MANIFEST_DIR";
pub const CARGO_PROFILE_DEBUG: &'static str = "debug";
pub const CARGO_PROFILE_RELEASE: &'static str = "release";
pub const TARGET_DIR_NAME: &'static str = "target";

/// A program name with each hyphen made an underscore.
pub open spec fn underscored(name: Seq<char>) -> Seq<char> {
    name.map_values(|c: char| if c == '-' { '_' } else { c })
}

/// The variable Cargo sets to a built program's path in tests:
/// `CARGO_BIN_EXE_` and the name, hyphens made underscores.
pub fn cargo_bin_exe_var(bin_name: &str) -> (s: String)
    ensures s@ == CARGO_BIN_EXE_PREFIX@ + underscored(bin_name@),
{
    let mut out = chars_of(CARGO_BIN_EXE_PREFIX);
    let name = chars_of(bin_name);
    let ghost start = out@;
    let mut i: usize = 0;
    while i < name.len()
        invariant
            i <= name.len(),
            name@ == bin_name@,
            out@ == start + underscored(name@.take(i as int)),
        decreases name.len() - i,
    {
        let c = name[i];
        out.push(if c == '-' { '_' } else { c });
        i += 1;
        assert(underscored(name@.take(i as int)) =~= underscored(name@.take(i - 1)).push(if c == '-' { '_' } else { c }));
    }
    assert(name@.take(name.len() as int) =~= name@);
    from_chars(&out)
}

// ---------------------------------------------------------------------
// Where a program is.

/// The place of the last `/` in a path, if any.
pub open spec fn last_slash(p: Seq<char>) -> Option<int>
    decreases p.len(),
{
    if p.len() == 0 {
        None
    } else if p.last() == '/' {
        Some(p.len() - 1)
    } else {
        last_slash(p.drop_last())
    }
}

/// The directory a path's last part sits in: the text before the last
/// `/`, the root for a path just under it, and empty for a bare name; the
/// root and the empty path have none. (Paths here end without a `/`.)
pub open spec fn parent_text(p: Seq<char>) -> Option<Seq<char>> {
    if p.len() == 0 || p == "/"@ {
        None
    } else {
        match last_slash(p) {
            Some(i) => if i == 0 { Some("/"@) } else { Some(p.take(i)) },
            None => Some(Seq::empty()),
        }
    }
}

/// A path with its last part removed, or as it is when it has none.
pub open spec fn pop_text(p: Seq<char>) -> Seq<char> {
    match parent_text(p) {
        Some(q) => q,
        None => p,
    }
}

/// A build tree's two places for a program: its debug and its release
/// directory.
pub open spec fn build_pair(target: Seq<char>, bin: Seq<char>) -> Seq<Seq<char>> {
    seq![
        join_path(join_path(target, CARGO_PROFILE_DEBUG@), bin),
        join_path(join_path(target, CARGO_PROFILE_RELEASE@), bin),
    ]
}

/// Where to look for a program, in order: beside the running program;
/// where Cargo's test variable says; in `CARGO_TARGET_DIR`; in the
/// workspace target two levels above `CARGO_MANIFEST_DIR`.
pub open spec fn bin_candidates(
    bin: Seq<char>,
    current_exe: Option<Seq<char>>,
    bin_exe: Option<Seq<char>>,
    target_dir: Option<Seq<char>>,
    manifest_dir: Option<Seq<char>>,
) -> Seq<Seq<char>> {
    let beside = match current_exe {
        Some(e) => match parent_text(e) {
            Some(d) => seq![join_path(d, bin)],
            None => Seq::empty(),
        },
        None => Seq::empty(),
    };
    let cargo = match bin_exe {
        Some(v) => seq![v],
        None => Seq::empty(),
    };
    let target = match target_dir {
        Some(t) => build_pair(t, bin),
        None => Seq::empty(),
    };
    let workspace = match manifest_dir {
        Some(m) => build_pair(join_path(pop_text(pop_text(m)), TARGET_DIR_NAME@), bin),
        None => Seq::empty(),
    };
    beside + cargo + target + workspace
}

fn last_slash_exec(p: &Vec<char>) -> (r: Option<usize>)
    ensures
        r matches Some(i) ==> i < p.len(),
        match last_slash(p@) {
            Some(i) => r matches Some(k) && k as int == i,
            None => r is None,
        },
{
    let mut j: usize = p.len();
    assert(p@.take(j as int) =~= p@);
    while j > 0
        invariant
            j <= p.len(),
            last_slash(p@) == last_slash(p@.take(j as int)),
            forall|k: int| j <= k < p.len() ==> p@[k] != '/',
        decreases j,
    {
        assert(p@.take(j as int).drop_last() =~= p@.take(j - 1));
        if p[j - 1] == '/' {
            return Some(j - 1);
        }
        j -= 1;
    }
    None
}

fn parent_exec(p: &str) -> (r: Option<String>)
    ensures
        match parent_text(p@) {
            Some(q) => r matches Some(s) && s@ == q,
            None => r is None,
        },
{
    let cs = chars_of(p);
    proof { reveal_strlit("/"); }
    if cs.len() == 0 || (cs.len() == 1 && cs[0] == '/') {
        if cs.len() == 1 {
            assert(cs@ =~= "/"@);
        }
        return None;
    }
    assert(p@ != "/"@);
    match last_slash_exec(&cs) {
        Some(i) => {
            assert(last_slash(p@) == Some(i as int));
            if i == 0 {
                let r = "/".to_owned();
                assert(r@ == "/"@);
                assert(parent_text(p@) == Some("/"@));
                Some(r)
            } else {
                let mut out: Vec<char> = Vec::new();
                let mut k: usize = 0;
                assert(out@ =~= cs@.take(0));
                while k < i
                    invariant k <= i < cs.len(), out@ == cs@.take(k as int),
                    decreases i - k,
                {
                    out.push(cs[k]);
                    k += 1;
                    assert(out@ =~= cs@.take(k as int));
                }
                assert(cs@ == p@);
                Some(from_chars(&out))
            }
        },
        None => {
            assert(parent_text(p@) == Some(Seq::<char>::empty()));
            Some(String::new())
        },
    }
}

fn pop_exec(p: String) -> (r: String)
    ensures r@ == pop_text(p@),
{
    match parent_exec(p.as_str()) {
        Some(q) => q,
        None => p,
    }
}

fn push_build_pair(out: &mut Vec<String>, target: &str, bin: &str)
    ensures texts(final(out)@) == texts(old(out)@) + build_pair(target@, bin@),
{
    let debug = join(join(target, CARGO_PROFILE_DEBUG).as_str(), bin);
    let release = join(join(target, CARGO_PROFILE_RELEASE).as_str(), bin);
    out.push(debug);
    out.push(release);
    assert(texts(out@) =~= texts(old(out)@) + build_pair(target@, bin@));
}

pub open spec fn texts(v: Seq<String>) -> Seq<Seq<char>> {
    v.map_values(|s: String| s@)
}

pub open spec fn opt_str_text(s: Option<&str>) -> Option<Seq<char>> {
    match s {
        Some(s) => Some(s@),
        None => None,
    }
}

/// The places to look for `bin_name`, given the running program's path
/// and the three build variables' values.
pub fn bin_candidates_for(
    bin_name: &str,
    current_exe: Option<&str>,
    bin_exe: Option<&str>,
    target_dir: Option<&str>,
    manifest_dir: Option<&str>,
) -> (r: Vec<String>)
    ensures
        texts(r@) == bin_candidates(bin_name@, opt_str_text(current_exe), opt_str_text(bin_exe),
            opt_str_text(target_dir), opt_str_text(manifest_dir)),
{
    let mut out: Vec<String> = Vec::new();
    let ghost e0 = texts(out@);
    assert(e0 =~= Seq::<Seq<char>>::empty());
    match current_exe {
        Some(e) => match parent_exec(e) {
            Some(d) => {
                out.push(join(d.as_str(), bin_name));
            },
            None => {},
        },
        None => {},
    }
    let ghost e1 = texts(out@);
    match bin_exe {
        Some(v) => {
            out.push(v.to_owned());
        },
        None => {},
    }
    let ghost e2 = texts(out@);
    match target_dir {
        Some(t) => push_build_pair(&mut out, t, bin_name),
        None => {},
    }
    let ghost e3 = texts(out@);
    match manifest_dir {
        Some(m) => {
            let workspace = pop_exec(pop_exec(m.to_owned()));
            let target = join(workspace.as_str(), TARGET_DIR_NAME);
            push_build_pair(&mut out, target.as_str(), bin_name);
        },
        None => {},
    }
    assert(texts(out@) =~= bin_candidates(bin_name@, opt_str_text(current_exe), opt_str_text(bin_exe),
        opt_str_text(target_dir), opt_str_text(manifest_dir)));
    out
}

/// The first candidate that `present` accepts, asked in order; the bare
/// name when it accepts none.
pub fn first_existing<F: Fn(&String) -> bool>(candidates: &Vec<String>, fallback: &str, present: F) -> (r: String)
    requires forall|p: &String| present.requires((p,)),
    ensures
        (exists|i: int| 0 <= i < candidates@.len() && r@ == candidates@[i]@
            && present.ensures((&candidates@[i],), true)
            && forall|j: int| 0 <= j < i ==> present.ensures((&candidates@[j],), false))
        || (r@ == fallback@ && forall|j: int| 0 <= j < candidates@.len() ==> present.ensures((&candidates@[j],), false)),
{
    let mut i: usize = 0;
    while i < candidates.len()
        invariant
            i <= candidates.len(),
            forall|p: &String| present.requires((p,)),
            forall|j: int| 0 <= j < i ==> present.ensures((&candidates@[j],), false),
        decreases candidates.len() - i,
    {
        if present(&candidates[i]) {
            return candidates[i].clone();
        }
        i += 1;
    }
    fallback.to_owned()
}

/// `present` was asked about a path spelled `p` and answered `b`.
pub open spec fn answered<F: Fn(&String) -> bool>(present: F, p: Seq<char>, b: bool) -> bool {
    exists|s: &String| s@ == p && #[trigger] present.ensures((s,), b)
}

/// Where `bin_name` is: the first of its candidates that `present`
/// accepts, every earlier one refused; else the bare name, for the
/// system's search path, when it refuses them all.
pub fn resolve_bin<F: Fn(&String) -> bool>(
    bin_name: &str,
    current_exe: Option<&str>,
    bin_exe: Option<&str>,
    target_dir: Option<&str>,
    manifest_dir: Option<&str>,
    present: F,
) -> (r: String)
    requires forall|p: &String| present.requires((p,)),
    ensures
        ({
            let c = bin_candidates(bin_name@, opt_str_text(current_exe), opt_str_text(bin_exe),
                opt_str_text(target_dir), opt_str_text(manifest_dir));
            (exists|i: int| 0 <= i < c.len() && r@ == c[i]
                && answered(present, c[i], true)
                && forall|j: int| 0 <= j < i ==> answered(present, #[trigger] c[j], false))
            || (r@ == bin_name@ && forall|j: int| 0 <= j < c.len() ==> answered(present, #[trigger] c[j], false))
        }),
{
    let candidates = bin_candidates_for(bin_name, current_exe, bin_exe, target_dir, manifest_dir);
    let r = first_existing(&candidates, bin_name, present);
    proof {
        let c = texts(candidates@);
        assert forall|j: int| 0 <= j < c.len() && present.ensures((&candidates@[j],), false)
            implies answered(present, #[trigger] c[j], false) by {
            assert(candidates@[j]@ == c[j]);
        }
        if exists|i: int| 0 <= i < candidates@.len() && r@ == candidates@[i]@
            && present.ensures((&candidates@[i],), true)
            && forall|j: int| 0 <= j < i ==> present.ensures((&candidates@[j],), false) {
            let i = choose|i: int| 0 <= i < candidates@.len() && r@ == candidates@[i]@
                && present.ensures((&candidates@[i],), true)
                && forall|j: int| 0 <= j < i ==> present.ensures((&candidates@[j],), false);
            assert(c[i] == candidates@[i]@);
            assert(answered(present, c[i], true));
        }
    }
    r
}

} // verus!
