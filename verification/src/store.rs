//! Where user profiles live on disk: their file names, which files are
//! profiles, and the order they are listed in.

use vstd::prelude::*;
use crate::text::{chars_of, from_chars};

verus! {

/// What the state file holds: the profile applied last.
#[derive(Debug, Clone, PartialEq, Eq)]
pub struct AppStateFile {
    pub active_profile_id: String,
}

/// Profiles live as `<id>.json`.
pub const PROFILE_FILE_EXTENSION: &'static str = "json";

/// The file a profile is kept in.
pub open spec fn profile_file_text(id: Seq<char>) -> Seq<char> {
    id + seq!['.'] + PROFILE_FILE_EXTENSION@
}

pub fn profile_file_name(id: &str) -> (s: String)
    ensures s@ == profile_file_text(id@),
{
    let mut out = chars_of(id);
    out.push('.');
    let ext = chars_of(PROFILE_FILE_EXTENSION);
    let ghost head = out@;
    let mut i: usize = 0;
    while i < ext.len()
        invariant i <= ext.len(), out@ == head + ext@.take(i as int),
        decreases ext.len() - i,
    {
        out.push(ext[i]);
        i += 1;
        assert(out@ =~= head + ext@.take(i as int));
    }
    assert(ext@.take(ext.len() as int) =~= ext@);
    assert(out@ =~= profile_file_text(id@));
    from_chars(&out)
}

/// The place of the last `.` in a file name, if any.
pub open spec fn last_dot(name: Seq<char>) -> Option<int>
    decreases name.len(),
{
    if name.len() == 0 {
        None
    } else if name.last() == '.' {
        Some(name.len() - 1)
    } else {
        last_dot(name.drop_last())
    }
}

/// The profile id a file name stands for: its stem, when its extension is
/// `json`. A name whose only dot comes first, like `.json`, has no
/// extension, and `..` is no file.
pub open spec fn file_profile_id(name: Seq<char>) -> Option<Seq<char>> {
    if name == ".."@ {
        None
    } else {
        match last_dot(name) {
            Some(d) => if d > 0 && name.skip(d + 1) == PROFILE_FILE_EXTENSION@ { Some(name.take(d)) } else { None },
            None => None,
        }
    }
}

proof fn lemma_last_dot(name: Seq<char>)
    ensures
        match last_dot(name) {
            Some(d) => 0 <= d < name.len() && name[d] == '.' && forall|j: int| d < j < name.len() ==> name[j] != '.',
            None => forall|j: int| 0 <= j < name.len() ==> name[j] != '.',
        },
    decreases name.len(),
{
    if name.len() > 0 && name.last() != '.' {
        let rest = name.drop_last();
        lemma_last_dot(rest);
        assert forall|j: int| 0 <= j < rest.len() implies rest[j] == name[j] by {}
    }
}

pub fn profile_id_from_file_name(name: &str) -> (r: Option<String>)
    ensures
        match file_profile_id(name@) {
            Some(id) => r matches Some(s) && s@ == id,
            None => r is None,
        },
{
    let cs = chars_of(name);
    if cs.len() == 2 && cs[0] == '.' && cs[1] == '.' {
        assert(cs@ =~= ".."@) by {
            reveal_strlit("..");
        }
        return None;
    }
    proof {
        reveal_strlit("..");
        if name@ == ".."@ {
            assert(cs@.len() == 2);
        }
    }
    let mut i: usize = cs.len();
    while i > 0 && cs[i - 1] != '.'
        invariant
            i <= cs.len(),
            forall|j: int| i <= j < cs.len() ==> cs@[j] != '.',
        decreases i,
    {
        i -= 1;
    }
    proof { lemma_last_dot(cs@); }
    if i == 0 {
        assert(last_dot(cs@) is None) by {
            if last_dot(cs@) is Some {
                let d = last_dot(cs@)->0;
                assert(cs@[d] == '.');
            }
        }
        return None;
    }
    let d = i - 1;
    assert(last_dot(cs@) == Some(d as int)) by {
        match last_dot(cs@) {
            Some(e) => {
                if e < d { assert(cs@[d as int] != '.'); }
                if e > d { assert(cs@[e] != '.'); }
            },
            None => { assert(cs@[d as int] == '.'); },
        }
    }
    if d == 0 {
        return None;
    }
    let ext = chars_of(PROFILE_FILE_EXTENSION);
    let mut same = cs.len() - (d + 1) == ext.len();
    let mut k: usize = 0;
    while same && k < ext.len()
        invariant
            d + 1 <= cs.len(),
            k <= ext.len(),
            same ==> cs.len() - (d + 1) == ext.len(),
            same == (cs.len() - (d + 1) == ext.len() && forall|j: int| 0 <= j < k ==> cs@[d + 1 + j] == ext@[j]),
        decreases ext.len() - k,
    {
        if cs[d + 1 + k] != ext[k] {
            same = false;
        }
        k += 1;
    }
    if same {
        assert(cs@.skip(d + 1) =~= ext@);
        let mut stem: Vec<char> = Vec::new();
        let mut j: usize = 0;
        while j < d
            invariant j <= d < cs.len(), stem@ == cs@.take(j as int),
            decreases d - j,
        {
            stem.push(cs[j]);
            j += 1;
            assert(stem@ =~= cs@.take(j as int));
        }
        Some(from_chars(&stem))
    } else {
        assert(cs@.skip(d + 1) != ext@) by {
            if cs@.skip(d + 1) == ext@ {
                if cs.len() - (d + 1) == ext.len() {
                    let j = choose|j: int| 0 <= j < k && cs@[d + 1 + j] != ext@[j];
                    assert(cs@.skip(d + 1)[j] == cs@[d + 1 + j]);
                }
            }
        }
        None
    }
}

// ---------------------------------------------------------------------
// Listing order.

/// Text order: character by character, a prefix first.
pub open spec fn text_le(a: Seq<char>, b: Seq<char>) -> bool
    decreases a.len(),
{
    if a.len() == 0 {
        true
    } else if b.len() == 0 {
        false
    } else if a[0] != b[0] {
        (a[0] as int) < (b[0] as int)
    } else {
        text_le(a.drop_first(), b.drop_first())
    }
}

/// Any two texts are ordered one way or the other.
pub proof fn lemma_text_le_total(a: Seq<char>, b: Seq<char>)
    ensures text_le(a, b) || text_le(b, a),
    decreases a.len(),
{
    if a.len() > 0 && b.len() > 0 && a[0] == b[0] {
        lemma_text_le_total(a.drop_first(), b.drop_first());
    }
}

/// Every text comes no later than itself.
pub proof fn lemma_text_le_refl(a: Seq<char>)
    ensures text_le(a, a),
    decreases a.len(),
{
    if a.len() > 0 {
        lemma_text_le_refl(a.drop_first());
    }
}

/// The order of texts is transitive.
pub proof fn lemma_text_le_trans(a: Seq<char>, b: Seq<char>, c: Seq<char>)
    requires text_le(a, b), text_le(b, c),
    ensures text_le(a, c),
    decreases a.len(),
{
    if a.len() > 0 && b.len() > 0 && c.len() > 0 && a[0] == b[0] && b[0] == c[0] {
        lemma_text_le_trans(a.drop_first(), b.drop_first(), c.drop_first());
    }
}

fn text_le_exec(a: &Vec<char>, b: &Vec<char>) -> (r: bool)
    ensures r == text_le(a@, b@),
{
    let mut i: usize = 0;
    assert(a@.skip(0) =~= a@);
    assert(b@.skip(0) =~= b@);
    while i < a.len() && i < b.len() && a[i] == b[i]
        invariant
            i <= a.len(),
            i <= b.len(),
            text_le(a@, b@) == text_le(a@.skip(i as int), b@.skip(i as int)),
        decreases a.len() - i,
    {
        assert(a@.skip(i as int).drop_first() =~= a@.skip(i + 1));
        assert(b@.skip(i as int).drop_first() =~= b@.skip(i + 1));
        i += 1;
    }
    if i == a.len() {
        return true;
    }
    if i == b.len() {
        return false;
    }
    assert(a@.skip(i as int)[0] == a@[i as int]);
    assert(b@.skip(i as int)[0] == b@[i as int]);
    a[i] < b[i]
}

pub open spec fn id_views(v: Seq<String>) -> Seq<Seq<char>> {
    v.map_values(|s: String| s@)
}

pub open spec fn text_sorted(s: Seq<Seq<char>>) -> bool {
    forall|i: int, j: int| 0 <= i < j < s.len() ==> text_le(s[i], s[j])
}

/// The ids in text order, as the listing gives them: the same ids, each as
/// often as given, sorted.
pub fn sort_ids(ids: Vec<String>) -> (r: Vec<String>)
    ensures
        text_sorted(id_views(r@)),
        id_views(r@).to_multiset() == id_views(ids@).to_multiset(),
{
    let ghost all = id_views(ids@);
    let mut out: Vec<String> = Vec::new();
    let mut keys: Vec<Vec<char>> = Vec::new();
    let mut i: usize = 0;
    assert(id_views(out@) =~= all.take(0));
    while i < ids.len()
        invariant
            i <= ids.len(),
            all == id_views(ids@),
            keys@.len() == out@.len(),
            forall|k: int| 0 <= k < keys@.len() ==> #[trigger] keys@[k]@ == out@[k]@,
            text_sorted(id_views(out@)),
            id_views(out@).to_multiset() == all.take(i as int).to_multiset(),
        decreases ids.len() - i,
    {
        let x = chars_of(ids[i].as_str());
        let mut p: usize = 0;
        while p < keys.len() && text_le_exec(&keys[p], &x)
            invariant
                p <= keys.len(),
                keys@.len() == out@.len(),
                forall|k: int| 0 <= k < keys@.len() ==> #[trigger] keys@[k]@ == out@[k]@,
                forall|k: int| 0 <= k < p ==> text_le(#[trigger] out@[k]@, x@),
            decreases keys.len() - p,
        {
            p += 1;
        }
        let ghost before = id_views(out@);
        let ghost kb = keys@;
        let ghost ob = out@;
        proof {
            if p < keys.len() {
                assert(!text_le(out@[p as int]@, x@));
                lemma_text_le_total(out@[p as int]@, x@);
            }
        }
        out.insert(p, ids[i].clone());
        keys.insert(p, x);
        proof {
            let now = id_views(out@);
            assert(now =~= before.insert(p as int, ids@[i as int]@));
            assert forall|a: int, b: int| 0 <= a < b < now.len() implies text_le(now[a], now[b]) by {
                if b < p {
                    assert(now[a] == before[a] && now[b] == before[b]);
                } else if a < p && b == p {
                    assert(now[a] == ob[a]@);
                } else if a < p && b > p {
                    assert(now[a] == ob[a]@);
                    assert(now[b] == before[b - 1]);
                    if b - 1 > p {
                        assert(text_le(before[p as int], before[b - 1]));
                    } else {
                        lemma_text_le_refl(before[p as int]);
                    }
                    lemma_text_le_trans(now[a], x@, before[p as int]);
                    lemma_text_le_trans(now[a], before[p as int], now[b]);
                } else if a == p {
                    assert(now[b] == before[b - 1]);
                    if b - 1 > p {
                        assert(text_le(before[p as int], before[b - 1]));
                        lemma_text_le_trans(x@, before[p as int], now[b]);
                    }
                } else {
                    assert(now[a] == before[a - 1] && now[b] == before[b - 1]);
                }
            }
            vstd::seq_lib::to_multiset_insert(before, p as int, ids@[i as int]@);
            vstd::seq_lib::to_multiset_build(all.take(i as int), all[i as int]);
            assert(all.take(i + 1) =~= all.take(i as int).push(all[i as int]));
            assert forall|k: int| 0 <= k < keys@.len() implies #[trigger] keys@[k]@ == out@[k]@ by {
                if k < p {
                    assert(keys@[k] == kb[k] && out@[k] == ob[k]);
                } else if k > p {
                    assert(keys@[k] == kb[k - 1] && out@[k] == ob[k - 1]);
                }
            }
        }
        i += 1;
    }
    assert(all.take(ids.len() as int) =~= all);
    out
}

/// The profile ids among a directory's file names, in the order found.
pub open spec fn file_ids(names: Seq<Seq<char>>) -> Seq<Seq<char>>
    decreases names.len(),
{
    if names.len() == 0 {
        Seq::empty()
    } else {
        let prev = file_ids(names.drop_last());
        match file_profile_id(names.last()) {
            Some(id) => prev.push(id),
            None => prev,
        }
    }
}

/// The user's profile ids from the names in the profiles directory: every
/// `<id>.json`, in text order; other files are ignored.
pub fn user_profile_ids(file_names: &[String]) -> (r: Vec<String>)
    ensures
        text_sorted(id_views(r@)),
        id_views(r@).to_multiset() == file_ids(id_views(file_names@)).to_multiset(),
{
    let ghost names = id_views(file_names@);
    let mut ids: Vec<String> = Vec::new();
    let mut i: usize = 0;
    while i < file_names.len()
        invariant
            i <= file_names.len(),
            names == id_views(file_names@),
            id_views(ids@) == file_ids(names.take(i as int)),
        decreases file_names.len() - i,
    {
        assert(names.take(i + 1).drop_last() =~= names.take(i as int));
        assert(names.take(i + 1).last() == file_names@[i as int]@);
        match profile_id_from_file_name(file_names[i].as_str()) {
            Some(id) => {
                let ghost before = id_views(ids@);
                let ghost v = id@;
                ids.push(id);
                assert(id_views(ids@) =~= before.push(v));
            },
            None => {},
        }
        i += 1;
    }
    assert(names.take(file_names.len() as int) =~= names);
    sort_ids(ids)
}

} // verus!
