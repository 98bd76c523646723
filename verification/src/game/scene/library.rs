//! The scenes found on disk, sorted by name; drives the pause menu's scene
//! selector.

use crate::paths::{extension, file_stem, path_extension, path_file_stem};
use vstd::prelude::*;
use vstd::string::{StrSliceExecFns, StringExecFns};

verus! {

/// One selectable scene on disk.
#[derive(Debug, Clone)]
pub struct SceneEntry {
    /// Display name (the file stem).
    pub name: String,
    pub path: String,
}

/// All scenes found, sorted by name.
#[derive(Debug, Clone, Default)]
pub struct SceneLibrary(pub Vec<SceneEntry>);

/// `a` comes strictly before `b` in lexicographic character order.
pub open spec fn text_before(a: Seq<char>, b: Seq<char>) -> bool
    decreases a.len(),
{
    if a.len() == 0 {
        b.len() > 0
    } else if b.len() == 0 {
        false
    } else if a[0] != b[0] {
        a[0] < b[0]
    } else {
        text_before(a.drop_first(), b.drop_first())
    }
}

pub proof fn lemma_text_before_irreflexive(a: Seq<char>)
    ensures
        !text_before(a, a),
    decreases a.len(),
{
    if a.len() > 0 {
        lemma_text_before_irreflexive(a.drop_first());
    }
}

pub proof fn lemma_text_before_transitive(a: Seq<char>, b: Seq<char>, c: Seq<char>)
    requires
        text_before(a, b),
        text_before(b, c),
    ensures
        text_before(a, c),
    decreases a.len(),
{
    if a.len() > 0 && b.len() > 0 && c.len() > 0 && a[0] == b[0] && b[0] == c[0] {
        lemma_text_before_transitive(a.drop_first(), b.drop_first(), c.drop_first());
    }
}

pub proof fn lemma_text_before_total(a: Seq<char>, b: Seq<char>)
    ensures
        a == b || text_before(a, b) || text_before(b, a),
    decreases a.len(),
{
    if a.len() > 0 && b.len() > 0 && a[0] == b[0] {
        lemma_text_before_total(a.drop_first(), b.drop_first());
        if a.drop_first() == b.drop_first() {
            assert(a =~= seq![a[0]] + a.drop_first());
            assert(b =~= seq![b[0]] + b.drop_first());
        }
    } else if a.len() > 0 && b.len() > 0 {
    }
}

/// The order of library entries: by name, then by position.
pub open spec fn listed_before(names: Seq<Seq<char>>, i: int, j: int) -> bool {
    ||| text_before(names[i], names[j])
    ||| (names[i] == names[j] && i < j)
}

/// `order` lists every index of `names` once, in library order.
pub open spec fn is_library_order(names: Seq<Seq<char>>, order: Seq<usize>) -> bool {
    &&& order.len() == names.len()
    &&& forall|k: int| 0 <= k < order.len() ==> #[trigger] order[k] < names.len()
    &&& forall|a: int, b: int|
        0 <= a < b < order.len() ==> listed_before(names, #[trigger] order[a] as int, #[trigger] order[b] as int)
}

pub open spec fn entry_names(entries: Seq<SceneEntry>) -> Seq<Seq<char>> {
    Seq::new(entries.len(), |k: int| entries[k].name@)
}

/// Index of the first entry named `name`.
pub open spec fn first_named(entries: Seq<SceneEntry>, name: Seq<char>) -> Option<usize> {
    if exists|k: int| 0 <= k < entries.len() && (#[trigger] entries[k]).name@ == name {
        let k = choose|k: int|
            0 <= k < entries.len() && (#[trigger] entries[k]).name@ == name && forall|m: int|
                0 <= m < k ==> (#[trigger] entries[m]).name@ != name;
        Some(k as usize)
    } else {
        None
    }
}

/// The library entry a file yields, given its extension and stem: only
/// `.json` files with a stem are scenes.
pub open spec fn entry_of(
    path: Seq<char>,
    ext: Option<Seq<char>>,
    stem: Option<Seq<char>>,
) -> Option<(Seq<char>, Seq<char>)> {
    if ext == Some("json"@) && stem is Some {
        Some((stem->0, path))
    } else {
        None
    }
}

fn text_before_exec(a: &str, b: &str) -> (r: bool)
    ensures
        r == text_before(a@, b@),
{
    let la = a.unicode_len();
    let lb = b.unicode_len();
    let mut i: usize = 0;
    assert(a@.skip(0) =~= a@);
    assert(b@.skip(0) =~= b@);
    while i < la && i < lb
        invariant
            la == a@.len(),
            lb == b@.len(),
            i <= la,
            i <= lb,
            a@.subrange(0, i as int) == b@.subrange(0, i as int),
            text_before(a@, b@) == text_before(a@.skip(i as int), b@.skip(i as int)),
        decreases la - i,
    {
        let ca = a.get_char(i);
        let cb = b.get_char(i);
        if ca != cb {
            return ca < cb;
        }
        assert(a@.skip(i as int).drop_first() =~= a@.skip(i + 1));
        assert(b@.skip(i as int).drop_first() =~= b@.skip(i + 1));
        assert(a@.subrange(0, i + 1) =~= a@.subrange(0, i as int).push(ca));
        assert(b@.subrange(0, i + 1) =~= b@.subrange(0, i as int).push(cb));
        i = i + 1;
    }
    i == la && i < lb
}

/// Library order is transitive.
pub proof fn lemma_listed_transitive(names: Seq<Seq<char>>, i: int, j: int, k: int)
    requires
        listed_before(names, i, j),
        listed_before(names, j, k),
    ensures
        listed_before(names, i, k),
{
    if text_before(names[i], names[j]) && text_before(names[j], names[k]) {
        lemma_text_before_transitive(names[i], names[j], names[k]);
    }
}

/// Of two different entries exactly one is listed before the other.
pub proof fn lemma_listed_total(names: Seq<Seq<char>>, i: int, j: int)
    requires
        i != j,
    ensures
        listed_before(names, i, j) != listed_before(names, j, i),
{
    lemma_text_before_total(names[i], names[j]);
    lemma_text_before_irreflexive(names[i]);
    if text_before(names[i], names[j]) && text_before(names[j], names[i]) {
        lemma_text_before_transitive(names[i], names[j], names[i]);
    }
}

fn listed_before_exec(entries: &Vec<SceneEntry>, i: usize, j: usize) -> (b: bool)
    requires
        i < entries@.len(),
        j < entries@.len(),
    ensures
        b == listed_before(entry_names(entries@), i as int, j as int),
{
    let a = entries[i].name.as_str();
    let c = entries[j].name.as_str();
    text_before_exec(a, c) || (i < j && equal_text(a, c))
}

/// Entry indices in library order: by name, ties kept in their given order.
pub fn library_order(entries: &Vec<SceneEntry>) -> (order: Vec<usize>)
    ensures
        is_library_order(entry_names(entries@), order@),
{
    let ghost names = entry_names(entries@);
    let n = entries.len();
    let mut order: Vec<usize> = Vec::new();
    let mut i: usize = 0;
    while i < n
        invariant
            n == entries@.len(),
            names == entry_names(entries@),
            i <= n,
            order@.len() == i,
            forall|k: int| 0 <= k < order@.len() ==> #[trigger] order@[k] < i,
            forall|a: int, b: int|
                0 <= a < b < order@.len() ==> listed_before(names, #[trigger] order@[a] as int, #[trigger] order@[b] as int),
        decreases n - i,
    {
        let mut p: usize = 0;
        while p < order.len() && !listed_before_exec(entries, i, order[p])
            invariant
                n == entries@.len(),
                names == entry_names(entries@),
                i < n,
                p <= order@.len(),
                forall|k: int| 0 <= k < order@.len() ==> #[trigger] order@[k] < i,
                forall|q: int| 0 <= q < p ==> !listed_before(names, i as int, #[trigger] order@[q] as int),
            decreases order@.len() - p,
        {
            p = p + 1;
        }
        let ghost before = order@;
        proof {
            assert forall|q: int| 0 <= q < p implies listed_before(names, #[trigger] before[q] as int, i as int) by {
                lemma_listed_total(names, before[q] as int, i as int);
            }
            if p < before.len() {
                assert(listed_before(names, i as int, before[p as int] as int));
                assert forall|q: int| p <= q < before.len() implies listed_before(names, i as int, #[trigger] before[q] as int) by {
                    if q > p {
                        assert(listed_before(names, before[p as int] as int, before[q] as int));
                        lemma_listed_transitive(names, i as int, before[p as int] as int, before[q] as int);
                    }
                }
            }
        }
        order.insert(p, i);
        proof {
            assert(order@ =~= before.subrange(0, p as int).push(i).add(before.subrange(p as int, before.len() as int)));
            assert forall|k: int| 0 <= k < order@.len() implies #[trigger] order@[k] < i + 1 by {
                if k < p { assert(order@[k] == before[k]); } else if k > p { assert(order@[k] == before[k - 1]); }
            }
            assert forall|a: int, b: int| 0 <= a < b < order@.len() implies listed_before(names, #[trigger] order@[a] as int, #[trigger] order@[b] as int) by {
                if a < p && b < p {
                    assert(order@[a] == before[a] && order@[b] == before[b]);
                } else if a < p && b == p {
                    assert(order@[a] == before[a]);
                } else if a < p && b > p {
                    assert(order@[a] == before[a] && order@[b] == before[b - 1]);
                    lemma_listed_transitive(names, before[a] as int, i as int, before[b - 1] as int);
                } else if a == p {
                    assert(order@[b] == before[b - 1]);
                } else {
                    assert(order@[a] == before[a - 1] && order@[b] == before[b - 1]);
                }
            }
        }
        i = i + 1;
    }
    order
}

/// Name and path of each entry.
pub open spec fn entry_pairs(entries: Seq<SceneEntry>) -> Seq<(Seq<char>, Seq<char>)> {
    Seq::new(entries.len(), |k: int| (entries[k].name@, entries[k].path@))
}

pub open spec fn pair_names(pairs: Seq<(Seq<char>, Seq<char>)>) -> Seq<Seq<char>> {
    Seq::new(pairs.len(), |k: int| pairs[k].0)
}

/// `entries` hold exactly the (name, path) `pairs`, in library order.
pub open spec fn lists_in_order(pairs: Seq<(Seq<char>, Seq<char>)>, entries: Seq<SceneEntry>) -> bool {
    exists|order: Seq<usize>|
        #![trigger is_library_order(pair_names(pairs), order)]
        is_library_order(pair_names(pairs), order) && entries.len() == pairs.len() && forall|k: int|
            0 <= k < entries.len() ==> (#[trigger] entries[k]).name@ == pairs[order[k] as int].0
                && entries[k].path@ == pairs[order[k] as int].1
}

/// The scenes among the files at `paths`, in the given order.
pub open spec fn scene_candidates(paths: Seq<String>) -> Seq<(Seq<char>, Seq<char>)>
    decreases paths.len(),
{
    if paths.len() == 0 {
        Seq::empty()
    } else {
        let rest = scene_candidates(paths.drop_last());
        let p = paths.last()@;
        match entry_of(p, path_extension(p), path_file_stem(p)) {
            Some(e) => rest.push(e),
            None => rest,
        }
    }
}

/// The library entry for the file at `path`, given the extension and stem
/// that the path functions report for it.
pub fn entry_from_parts(path: String, ext: Option<String>, stem: Option<String>) -> (e: Option<
    SceneEntry,
>)
    ensures
        match e {
            Some(en) => entry_of(path@, ext.deep_view(), stem.deep_view()) == Some((en.name@, en.path@)),
            None => entry_of(path@, ext.deep_view(), stem.deep_view()) is None,
        },
{
    let json = String::from_str("json");
    let is_json = match &ext {
        Some(x) => *x == json,
        None => false,
    };
    match stem {
        Some(name) => {
            if is_json {
                Some(SceneEntry { name, path })
            } else {
                None
            }
        },
        None => None,
    }
}

fn scene_entry(path: &String) -> (e: Option<SceneEntry>)
    ensures
        match e {
            Some(en) => entry_of(path@, path_extension(path@), path_file_stem(path@)) == Some(
                (en.name@, en.path@),
            ),
            None => entry_of(path@, path_extension(path@), path_file_stem(path@)) is None,
        },
{
    let ext = extension(path.as_str());
    let stem = file_stem(path.as_str());
    entry_from_parts(path.clone(), ext, stem)
}

impl SceneLibrary {

    /// The library of `entries`, sorted by name (ties keep their order).
    pub fn from_entries(entries: Vec<SceneEntry>) -> (lib: SceneLibrary)
        ensures
            lists_in_order(entry_pairs(entries@), lib.0@),
    {
        let order = library_order(&entries);
        let ghost pairs = entry_pairs(entries@);
        assert(pair_names(pairs) =~= entry_names(entries@));
        let mut sorted: Vec<SceneEntry> = Vec::new();
        let mut k: usize = 0;
        while k < order.len()
            invariant
                pairs == entry_pairs(entries@),
                is_library_order(entry_names(entries@), order@),
                k <= order@.len(),
                sorted@.len() == k,
                forall|m: int|
                    0 <= m < k ==> (#[trigger] sorted@[m]).name@ == pairs[order@[m] as int].0
                        && sorted@[m].path@ == pairs[order@[m] as int].1,
            decreases order@.len() - k,
        {
            let src = &entries[order[k]];
            sorted.push(SceneEntry { name: src.name.clone(), path: src.path.clone() });
            k = k + 1;
        }
        assert(is_library_order(pair_names(pairs), order@));
        SceneLibrary(sorted)
    }

    /// The scenes among the files at `paths` (the `.json` files that have a
    /// stem), named by stem and sorted by name.
    pub fn from_paths(paths: Vec<String>) -> (lib: SceneLibrary)
        ensures
            lists_in_order(scene_candidates(paths@), lib.0@),
    {
        let mut entries: Vec<SceneEntry> = Vec::new();
        let mut i: usize = 0;
        while i < paths.len()
            invariant
                i <= paths@.len(),
                entry_pairs(entries@) == scene_candidates(paths@.take(i as int)),
            decreases paths@.len() - i,
        {
            let ghost before = entries@;
            assert(paths@.take(i + 1).drop_last() =~= paths@.take(i as int));
            match scene_entry(&paths[i]) {
                Some(e) => {
                    entries.push(e);
                    assert(entry_pairs(entries@) =~= entry_pairs(before).push((e.name@, e.path@)));
                },
                None => {},
            }
            i = i + 1;
        }
        assert(paths@.take(paths@.len() as int) =~= paths@);
        SceneLibrary::from_entries(entries)
    }
    /// Index of the first entry named `stem`.
    pub fn position_of_name(&self, stem: &str) -> (r: Option<usize>)
        ensures
            r == first_named(self.0@, stem@),
    {
        let mut k: usize = 0;
        while k < self.0.len()
            invariant
                k <= self.0@.len(),
                forall|m: int| 0 <= m < k ==> (#[trigger] self.0@[m]).name@ != stem@,
            decreases self.0@.len() - k,
        {
            if equal_text(self.0[k].name.as_str(), stem) {
                proof {
                    assert(0 <= k < self.0@.len() && self.0@[k as int].name@ == stem@ && forall|m: int|
                        0 <= m < k ==> (#[trigger] self.0@[m]).name@ != stem@);
                    let w = choose|w: int|
                        0 <= w < self.0@.len() && (#[trigger] self.0@[w]).name@ == stem@ && forall|
                            m: int,
                        | 0 <= m < w ==> (#[trigger] self.0@[m]).name@ != stem@;
                    assert(w == k) by {
                        if w < k {
                        } else if w > k {
                            assert(self.0@[k as int].name@ == stem@);
                        }
                    }
                }
                return Some(k);
            }
            k = k + 1;
        }
        None
    }

    /// Index of the entry whose name is the file stem of `path`, if any.
    pub fn index_of(&self, path: &str) -> (r: Option<usize>)
        ensures
            r == match path_file_stem(path@) {
                Some(stem) => first_named(self.0@, stem),
                None => None,
            },
    {
        match file_stem(path) {
            Some(stem) => self.position_of_name(stem.as_str()),
            None => None,
        }
    }
}

/// Whether two texts hold the same characters.
fn equal_text(a: &str, b: &str) -> (r: bool)
    ensures
        r == (a@ == b@),
{
    let la = a.unicode_len();
    let lb = b.unicode_len();
    if la != lb {
        return false;
    }
    let mut i: usize = 0;
    while i < la
        invariant
            la == a@.len(),
            lb == b@.len(),
            la == lb,
            i <= la,
            forall|k: int| 0 <= k < i ==> a@[k] == b@[k],
        decreases la - i,
    {
        if a.get_char(i) != b.get_char(i) {
            return false;
        }
        i = i + 1;
    }
    assert(a@ =~= b@);
    true
}

} // verus!
