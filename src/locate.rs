use vstd::prelude::*;
use crate::paths::{join, joined};

verus! {

/// Index of the last `.` in `name`, or -1 where there is none.
pub open spec fn last_dot(name: Seq<char>) -> int
    decreases name.len(),
{
    if name.len() == 0 {
        -1
    } else if name.last() == '.' {
        name.len() - 1
    } else {
        last_dot(name.drop_last())
    }
}

proof fn lemma_last_dot_bounds(name: Seq<char>)
    ensures
        -1 <= last_dot(name) < name.len(),
        last_dot(name) >= 0 ==> name[last_dot(name)] == '.',
    decreases name.len(),
{
    if name.len() > 0 && name.last() != '.' {
        lemma_last_dot_bounds(name.drop_last());
    }
}

/// The extension of a file name: what follows its last `.`, where that dot
/// is not the name's first character.
pub open spec fn extension(name: Seq<char>) -> Option<Seq<char>> {
    if last_dot(name) > 0 {
        Some(name.subrange(last_dot(name) + 1, name.len() as int))
    } else {
        None
    }
}

/// `c` is the ASCII letter `lower`, in either case.
pub open spec fn folds_to(c: char, lower: char) -> bool {
    c == lower || c as u32 + 32 == lower as u32
}

/// The file name has the extension `png`, in any case.
pub open spec fn is_png_name(name: Seq<char>) -> bool {
    match extension(name) {
        Some(e) => e.len() == 3 && folds_to(e[0], 'p') && folds_to(e[1], 'n') && folds_to(e[2], 'g'),
        None => false,
    }
}

/// Names of the entries (name, is a regular file) that are to be copied into a
/// directory already holding `present`: PNG files not there yet, in listing order.
pub open spec fn to_copy(entries: Seq<(Seq<char>, bool)>, present: Set<Seq<char>>) -> Seq<Seq<char>>
    decreases entries.len(),
{
    if entries.len() == 0 {
        Seq::empty()
    } else {
        let rest = to_copy(entries.drop_last(), present);
        let e = entries.last();
        if e.1 && is_png_name(e.0) && !present.contains(e.0) {
            rest.push(e.0)
        } else {
            rest
        }
    }
}

pub open spec fn entry_views(entries: Seq<(String, bool)>) -> Seq<(Seq<char>, bool)> {
    entries.map_values(|e: (String, bool)| (e.0@, e.1))
}

pub open spec fn name_set(names: Seq<String>) -> Set<Seq<char>> {
    names.map_values(|s: String| s@).to_set()
}

/// The directories searched for a bundled resource directory `leaf`, in order:
/// three, two and one levels above the executable's directory, that directory
/// itself, then the working directory.
pub fn candidate_dirs(exe_dir: &str, cwd: &str, leaf: &str) -> (r: Vec<String>)
    ensures
        r@.len() == 5,
        r@[0]@ == joined(exe_dir@, "../../../"@ + leaf@),
        r@[1]@ == joined(exe_dir@, "../../"@ + leaf@),
        r@[2]@ == joined(exe_dir@, "../"@ + leaf@),
        r@[3]@ == joined(exe_dir@, leaf@),
        r@[4]@ == joined(cwd@, leaf@),
{
    let mut up3 = String::from_str("../../../");
    up3.append(leaf);
    let mut up2 = String::from_str("../../");
    up2.append(leaf);
    let mut up1 = String::from_str("../");
    up1.append(leaf);
    let mut r: Vec<String> = Vec::new();
    r.push(join(exe_dir, up3.as_str()));
    r.push(join(exe_dir, up2.as_str()));
    r.push(join(exe_dir, up1.as_str()));
    r.push(join(exe_dir, leaf));
    r.push(join(cwd, leaf));
    r
}

/// The first candidate that was found, if any.
pub fn first_existing(exists: &Vec<bool>) -> (r: Option<usize>)
    ensures
        match r {
            Some(i) => i < exists@.len() && exists@[i as int] && forall|j: int|
                0 <= j < i ==> !exists@[j],
            None => forall|j: int| 0 <= j < exists@.len() ==> !exists@[j],
        },
{
    let mut i: usize = 0;
    while i < exists.len()
        invariant
            i <= exists@.len(),
            forall|j: int| 0 <= j < i ==> !exists@[j],
        decreases exists@.len() - i,
    {
        if exists[i] {
            return Some(i);
        }
        i = i + 1;
    }
    None
}

fn last_dot_index(name: &str) -> (r: Option<usize>)
    ensures
        match r {
            Some(i) => last_dot(name@) == i && i < name@.len(),
            None => last_dot(name@) == -1,
        },
{
    let n = name.unicode_len();
    let mut k: usize = n;
    proof {
        assert(name@.subrange(0, n as int) =~= name@);
        lemma_last_dot_bounds(name@);
    }
    while k > 0
        invariant
            k <= n == name@.len(),
            last_dot(name@) == last_dot(name@.subrange(0, k as int)),
        decreases k,
    {
        let c = name.get_char(k - 1);
        proof {
            let pre = name@.subrange(0, k as int);
            assert(pre.drop_last() =~= name@.subrange(0, k - 1));
        }
        if c == '.' {
            return Some(k - 1);
        }
        k = k - 1;
    }
    proof {
        assert(name@.subrange(0, 0).len() == 0);
    }
    None
}

fn folds(c: char, lower: char) -> (r: bool)
    ensures
        r == folds_to(c, lower),
{
    c == lower || (c as u32) + 32 == lower as u32
}

/// Whether the file name has the extension `png`, compared without regard to case.
pub fn is_png(name: &str) -> (r: bool)
    ensures
        r == is_png_name(name@),
{
    proof {
        lemma_last_dot_bounds(name@);
    }
    match last_dot_index(name) {
        None => false,
        Some(d) => {
            let n = name.unicode_len();
            proof {
                let e = name@.subrange(d + 1, n as int);
                assert(e.len() == n - d - 1);
                if e.len() == 3 {
                    assert(e[0] == name@[d + 1] && e[1] == name@[d + 2] && e[2] == name@[d + 3]);
                }
            }
            if d == 0 || n - d != 4 {
                false
            } else {
                folds(name.get_char(d + 1), 'p') && folds(name.get_char(d + 2), 'n')
                    && folds(name.get_char(d + 3), 'g')
            }
        },
    }
}

fn contains_name(names: &Vec<String>, name: &String) -> (r: bool)
    ensures
        r == name_set(names@).contains(name@),
{
    let mut i: usize = 0;
    while i < names.len()
        invariant
            i <= names@.len(),
            forall|j: int| 0 <= j < i ==> names@[j]@ != name@,
        decreases names@.len() - i,
    {
        if names[i] == *name {
            proof {
                assert(names@.map_values(|s: String| s@)[i as int] == name@);
            }
            return true;
        }
        i = i + 1;
    }
    proof {
        if name_set(names@).contains(name@) {
            let mapped = names@.map_values(|s: String| s@);
            let k = choose|k: int| 0 <= k < mapped.len() && #[trigger] mapped[k] == name@;
            assert(names@[k]@ == name@);
        }
    }
    false
}

/// The PNG files among `entries` (each a file name and whether it is a regular
/// file) whose names are not in `present`, in listing order.
pub fn pngs_to_copy(entries: &Vec<(String, bool)>, present: &Vec<String>) -> (r: Vec<String>)
    ensures
        r@.map_values(|s: String| s@) == to_copy(entry_views(entries@), name_set(present@)),
{
    let mut r: Vec<String> = Vec::new();
    let mut i: usize = 0;
    while i < entries.len()
        invariant
            i <= entries@.len(),
            r@.map_values(|s: String| s@) == to_copy(
                entry_views(entries@.subrange(0, i as int)),
                name_set(present@),
            ),
        decreases entries@.len() - i,
    {
        let name = &entries[i].0;
        let is_file = entries[i].1;
        proof {
            assert(entry_views(entries@.subrange(0, i + 1)).drop_last() =~= entry_views(
                entries@.subrange(0, i as int),
            ));
        }
        if is_file && is_png(name.as_str()) && !contains_name(present, name) {
            let ghost before = r@;
            r.push(name.clone());
            proof {
                assert(r@.map_values(|s: String| s@) =~= before.map_values(|s: String| s@).push(
                    name@,
                ));
            }
        }
        i = i + 1;
    }
    proof {
        assert(entries@.subrange(0, entries@.len() as int) =~= entries@);
    }
    r
}

proof fn lemma_png_files_accounted(entries: Seq<(Seq<char>, bool)>, present: Set<Seq<char>>)
    ensures
        forall|k: int|
            0 <= k < entries.len() && entries[k].1 && is_png_name(entries[k].0) ==> present.contains(
                entries[k].0,
            ) || to_copy(entries, present).contains(entries[k].0),
    decreases entries.len(),
{
    if entries.len() > 0 {
        lemma_png_files_accounted(entries.drop_last(), present);
        let rest = to_copy(entries.drop_last(), present);
        assert forall|k: int|
            0 <= k < entries.len() && entries[k].1 && is_png_name(entries[k].0) implies present.contains(
                entries[k].0,
            ) || to_copy(entries, present).contains(entries[k].0) by {
            if k < entries.len() - 1 {
                assert(entries.drop_last()[k] == entries[k]);
                if rest.contains(entries[k].0) {
                    let m = choose|m: int| 0 <= m < rest.len() && rest[m] == entries[k].0;
                    if to_copy(entries, present) != rest {
                        assert(to_copy(entries, present)[m] == rest[m]);
                    }
                }
            } else if !present.contains(entries[k].0) {
                assert(to_copy(entries, present).last() == entries[k].0);
            }
        }
    }
}

proof fn lemma_nothing_left(entries: Seq<(Seq<char>, bool)>, present: Set<Seq<char>>)
    requires
        forall|k: int|
            0 <= k < entries.len() && entries[k].1 && is_png_name(entries[k].0) ==> present.contains(
                entries[k].0,
            ),
    ensures
        to_copy(entries, present) == Seq::<Seq<char>>::empty(),
    decreases entries.len(),
{
    if entries.len() > 0 {
        assert forall|k: int|
            0 <= k < entries.drop_last().len() && entries.drop_last()[k].1 && is_png_name(
                entries.drop_last()[k].0,
            ) implies present.contains(entries.drop_last()[k].0) by {
            assert(entries.drop_last()[k] == entries[k]);
        }
        lemma_nothing_left(entries.drop_last(), present);
    }
}

/// Provisioning twice copies nothing the second time: once the files chosen
/// by the first pass are in the destination, no file is left to copy.
pub proof fn lemma_provision_idempotent(entries: Seq<(Seq<char>, bool)>, present: Set<Seq<char>>)
    ensures
        to_copy(entries, present + to_copy(entries, present).to_set()) == Seq::<Seq<char>>::empty(),
{
    let copied = to_copy(entries, present);
    lemma_png_files_accounted(entries, present);
    assert forall|k: int|
        0 <= k < entries.len() && entries[k].1 && is_png_name(entries[k].0) implies (present
            + copied.to_set()).contains(entries[k].0) by {}
    lemma_nothing_left(entries, present + copied.to_set());
}

} // verus!
