use vstd::prelude::*;

verus! {

/// Index of the last `/` in `s`, or -1 when there is none.
pub open spec fn last_sep(s: Seq<char>) -> int
    decreases s.len(),
{
    if s.len() == 0 {
        -1
    } else if s.last() == '/' {
        s.len() - 1
    } else {
        last_sep(s.drop_last())
    }
}

/// The directory that holds `dir`: `None` at the root `/` and for a path
/// without any separator.
pub open spec fn parent_spec(dir: Seq<char>) -> Option<Seq<char>> {
    let i = last_sep(dir);
    if i < 0 {
        None
    } else if i == 0 {
        if dir.len() == 1 {
            None
        } else {
            Some(seq!['/'])
        }
    } else {
        Some(dir.subrange(0, i))
    }
}

/// `dir` followed by each directory above it, nearest first.
pub open spec fn ancestors(dir: Seq<char>) -> Seq<Seq<char>>
    decreases dir.len(),
{
    match parent_spec(dir) {
        Some(p) => if p.len() < dir.len() {
            seq![dir] + ancestors(p)
        } else {
            seq![dir]
        },
        None => seq![dir],
    }
}

/// The path of the entry `name` inside the directory `dir`.
pub open spec fn join_spec(dir: Seq<char>, name: Seq<char>) -> Seq<char> {
    if dir.len() > 0 && dir.last() == '/' {
        dir + name
    } else {
        dir + seq!['/'] + name
    }
}

/// The paths at which an upward search from `start` looks for `name`, in order.
pub open spec fn candidates(start: Seq<char>, name: Seq<char>) -> Seq<Seq<char>> {
    ancestors(start).map_values(|d: Seq<char>| join_spec(d, name))
}

/// The first of `cands` that is in `files`.
pub open spec fn first_existing(cands: Seq<Seq<char>>, files: Set<Seq<char>>) -> Option<Seq<char>>
    decreases cands.len(),
{
    if cands.len() == 0 {
        None
    } else if files.contains(cands[0]) {
        Some(cands[0])
    } else {
        first_existing(cands.drop_first(), files)
    }
}

/// The result of an upward search for `name` from `start` in a tree whose
/// regular files are `files`.
pub open spec fn search_spec(start: Seq<char>, name: Seq<char>, files: Set<Seq<char>>) -> Option<Seq<char>> {
    first_existing(candidates(start, name), files)
}

/// The first of `cands` whose answer in `found` is yes.
pub open spec fn first_found_spec(cands: Seq<Seq<char>>, found: Seq<bool>) -> Option<Seq<char>>
    decreases cands.len(),
{
    if cands.len() == 0 || found.len() == 0 {
        None
    } else if found[0] {
        Some(cands[0])
    } else {
        first_found_spec(cands.drop_first(), found.drop_first())
    }
}

/// The contents of a list of strings.
pub open spec fn views(v: Seq<String>) -> Seq<Seq<char>> {
    v.map_values(|s: String| s@)
}

/// The contents of an optional string.
pub open spec fn opt_view(o: Option<String>) -> Option<Seq<char>> {
    match o {
        Some(s) => Some(s@),
        None => None,
    }
}

proof fn lemma_last_sep_bounds(s: Seq<char>)
    ensures
        -1 <= last_sep(s) < s.len(),
        last_sep(s) >= 0 ==> s[last_sep(s)] == '/',
    decreases s.len(),
{
    if s.len() > 0 && s.last() != '/' {
        lemma_last_sep_bounds(s.drop_last());
    }
}

proof fn lemma_last_sep_is(s: Seq<char>, k: int)
    requires
        -1 <= k < s.len(),
        k >= 0 ==> s[k] == '/',
        forall|j: int| k < j < s.len() ==> s[j] != '/',
    ensures
        last_sep(s) == k,
    decreases s.len(),
{
    if s.len() > 0 && s.last() != '/' {
        assert(k != s.len() - 1);
        lemma_last_sep_is(s.drop_last(), k);
    }
}

/// A parent is always shorter than its child.
proof fn lemma_parent_shorter(dir: Seq<char>)
    ensures
        parent_spec(dir) is Some ==> parent_spec(dir)->0.len() < dir.len(),
{
    lemma_last_sep_bounds(dir);
}

/// The first existing candidate is the one at index `k` when it exists and
/// none before it does.
proof fn lemma_first_existing_at(cands: Seq<Seq<char>>, files: Set<Seq<char>>, k: int)
    requires
        0 <= k < cands.len(),
        files.contains(cands[k]),
        forall|j: int| 0 <= j < k ==> !files.contains(cands[j]),
    ensures
        first_existing(cands, files) == Some(cands[k]),
    decreases k,
{
    if k > 0 {
        let rest = cands.drop_first();
        assert forall|j: int| 0 <= j < k - 1 implies !files.contains(rest[j]) by {
            assert(rest[j] == cands[j + 1]);
        }
        lemma_first_existing_at(rest, files, k - 1);
    }
}

proof fn lemma_first_existing_none(cands: Seq<Seq<char>>, files: Set<Seq<char>>)
    requires
        forall|j: int| 0 <= j < cands.len() ==> !files.contains(cands[j]),
    ensures
        first_existing(cands, files) is None,
    decreases cands.len(),
{
    if cands.len() > 0 {
        let rest = cands.drop_first();
        assert forall|j: int| 0 <= j < rest.len() implies !files.contains(rest[j]) by {
            assert(rest[j] == cands[j + 1]);
        }
        lemma_first_existing_none(rest, files);
    }
}

/// An upward search finds the marker in the nearest directory above the
/// start (the start included) that holds it, and nothing when no such
/// directory exists.
pub proof fn lemma_search_finds_nearest(start: Seq<char>, name: Seq<char>, files: Set<Seq<char>>)
    ensures
        forall|k: int|
            0 <= k < ancestors(start).len() && files.contains(join_spec(ancestors(start)[k], name))
                && (forall|j: int|
                0 <= j < k ==> !files.contains(join_spec(ancestors(start)[j], name)))
                ==> search_spec(start, name, files) == Some(join_spec(ancestors(start)[k], name)),
        (forall|k: int|
            0 <= k < ancestors(start).len() ==> !files.contains(join_spec(ancestors(start)[k], name)))
            ==> search_spec(start, name, files) is None,
{
    let cands = candidates(start, name);
    assert forall|k: int|
        0 <= k < ancestors(start).len() && files.contains(join_spec(ancestors(start)[k], name))
            && (forall|j: int|
            0 <= j < k ==> !files.contains(join_spec(ancestors(start)[j], name)))
            implies search_spec(start, name, files) == Some(join_spec(ancestors(start)[k], name)) by {
        assert forall|j: int| 0 <= j < k implies !files.contains(cands[j]) by {
            assert(cands[j] == join_spec(ancestors(start)[j], name));
        }
        lemma_first_existing_at(cands, files, k);
    }
    if forall|k: int|
        0 <= k < ancestors(start).len() ==> !files.contains(join_spec(ancestors(start)[k], name)) {
        assert forall|j: int| 0 <= j < cands.len() implies !files.contains(cands[j]) by {
            assert(cands[j] == join_spec(ancestors(start)[j], name));
        }
        lemma_first_existing_none(cands, files);
    }
}

proof fn lemma_first_found_existing(cands: Seq<Seq<char>>, found: Seq<bool>, files: Set<Seq<char>>)
    requires
        found.len() == cands.len(),
        forall|k: int| 0 <= k < cands.len() ==> found[k] == files.contains(cands[k]),
    ensures
        first_found_spec(cands, found) == first_existing(cands, files),
    decreases cands.len(),
{
    if cands.len() > 0 {
        let (c, f) = (cands.drop_first(), found.drop_first());
        assert forall|k: int| 0 <= k < c.len() implies f[k] == files.contains(c[k]) by {
            assert(f[k] == found[k + 1] && c[k] == cands[k + 1]);
        }
        lemma_first_found_existing(c, f, files);
    }
}

proof fn lemma_first_found_member(cands: Seq<Seq<char>>, found: Seq<bool>)
    ensures
        first_found_spec(cands, found) is Some ==> cands.contains(first_found_spec(cands, found)->0),
    decreases cands.len(),
{
    if cands.len() > 0 && found.len() > 0 && !found[0] {
        let c = cands.drop_first();
        lemma_first_found_member(c, found.drop_first());
        if first_found_spec(c, found.drop_first()) is Some {
            let x = first_found_spec(c, found.drop_first())->0;
            let i = choose|i: int| 0 <= i < c.len() && c[i] == x;
            assert(cands[i + 1] == x);
        }
    }
}

/// Answers that follow a tree of regular files `files` make the search over
/// answers agree with the search in that tree: the nearest marker, or nothing.
pub proof fn lemma_first_found_is_search(
    start: Seq<char>,
    name: Seq<char>,
    files: Set<Seq<char>>,
    found: Seq<bool>,
)
    requires
        found.len() == candidates(start, name).len(),
        forall|k: int|
            0 <= k < found.len() ==> found[k] == files.contains(#[trigger] candidates(start, name)[k]),
    ensures
        first_found_spec(candidates(start, name), found) == search_spec(start, name, files),
{
    lemma_first_found_existing(candidates(start, name), found, files);
}

/// The directory that holds `dir`, as `parent_spec` describes it.
pub fn parent_directory(dir: &str) -> (r: Option<String>)
    ensures
        opt_view(r) == parent_spec(dir@),
{
    let n = dir.unicode_len();
    let mut i: usize = n;
    let mut found = false;
    while i > 0 && !found
        invariant
            i <= n,
            n == dir@.len(),
            forall|j: int| i <= j < n ==> dir@[j] != '/',
            found ==> i > 0 && dir@[i - 1] == '/',
        decreases 2 * i + (if found { 0int } else { 1int }),
    {
        if dir.get_char(i - 1) == '/' {
            found = true;
        } else {
            i = i - 1;
        }
    }
    proof {
        lemma_last_sep_is(dir@, i - 1);
        reveal_strlit("/");
    }
    if i == 0 {
        None
    } else if i == 1 {
        if n == 1 {
            None
        } else {
            Some(String::from_str("/"))
        }
    } else {
        Some(String::from_str(dir.substring_char(0, i - 1)))
    }
}

/// The path of the entry `name` inside `dir`.
pub fn join(dir: &str, name: &str) -> (r: String)
    ensures
        r@ == join_spec(dir@, name@),
{
    let n = dir.unicode_len();
    let mut r = String::from_str(dir);
    if n == 0 || dir.get_char(n - 1) != '/' {
        r.append("/");
    }
    r.append(name);
    proof {
        reveal_strlit("/");
    }
    r
}

/// `start` and every directory above it, nearest first.
pub fn ancestor_directories(start: &str) -> (r: Vec<String>)
    ensures
        views(r@) == ancestors(start@),
{
    let mut r: Vec<String> = Vec::new();
    let mut cur = String::from_str(start);
    loop
        invariant
            views(r@) + ancestors(cur@) == ancestors(start@),
        decreases cur@.len(),
    {
        proof {
            lemma_parent_shorter(cur@);
        }
        let ghost before = cur@;
        let parent = parent_directory(cur.as_str());
        r.push(cur);
        match parent {
            Some(p) => {
                assert(ancestors(before) == seq![before] + ancestors(p@));
                assert(views(r@) =~= views(r@.drop_last()) + seq![before]);
                assert(views(r@) + ancestors(p@) =~= views(r@.drop_last()) + ancestors(before));
                cur = p;
            },
            None => {
                assert(views(r@) =~= views(r@.drop_last()) + seq![before]);
                return r;
            },
        }
    }
}

/// The paths at which an upward search from `start` looks for `file_name`,
/// nearest first.
pub fn marker_candidates(start: &str, file_name: &str) -> (r: Vec<String>)
    ensures
        views(r@) == candidates(start@, file_name@),
{
    let dirs = ancestor_directories(start);
    let mut r: Vec<String> = Vec::new();
    let mut k: usize = 0;
    while k < dirs.len()
        invariant
            k <= dirs@.len(),
            views(dirs@) == ancestors(start@),
            views(r@) =~= candidates(start@, file_name@).subrange(0, k as int),
        decreases dirs@.len() - k,
    {
        let c = join(dirs[k].as_str(), file_name);
        assert(views(dirs@)[k as int] == dirs@[k as int]@);
        assert(candidates(start@, file_name@)[k as int] == join_spec(dirs@[k as int]@, file_name@));
        assert(candidates(start@, file_name@).len() == dirs@.len());
        let ghost cv = c@;
        r.push(c);
        assert(candidates(start@, file_name@).subrange(0, k + 1) =~= candidates(start@, file_name@).subrange(0, k as int) + seq![cv]);
        assert(views(r@) =~= views(r@.drop_last()) + seq![cv]);
        k = k + 1;
    }
    r
}

fn contains_path(files: &Vec<String>, p: &String) -> (r: bool)
    ensures
        r == views(files@).contains(p@),
{
    let mut k: usize = 0;
    while k < files.len()
        invariant
            k <= files@.len(),
            forall|j: int| 0 <= j < k ==> files@[j]@ != p@,
        decreases files@.len() - k,
    {
        if files[k] == *p {
            assert(views(files@)[k as int] == p@);
            return true;
        }
        k = k + 1;
    }
    proof {
        if views(files@).contains(p@) {
            let j = choose|j: int| 0 <= j < views(files@).len() && views(files@)[j] == p@;
            assert(files@[j]@ == p@);
        }
    }
    false
}

/// Upward search for `file_name` from `start_directory` in a tree whose regular
/// files are `files`: the path of the marker in the nearest directory that
/// holds one, or `None`.
pub fn find_in_tree(start_directory: &str, file_name: &str, files: &Vec<String>) -> (r: Option<String>)
    ensures
        opt_view(r) == search_spec(start_directory@, file_name@, views(files@).to_set()),
{
    let ghost tree = views(files@).to_set();
    let cands = marker_candidates(start_directory, file_name);
    let ghost cs = views(cands@);
    let mut k: usize = 0;
    assert(cs.subrange(0, cs.len() as int) =~= cs);
    while k < cands.len()
        invariant
            k <= cands@.len(),
            cs == views(cands@),
            tree == views(files@).to_set(),
            cs == candidates(start_directory@, file_name@),
            first_existing(cs, tree) == first_existing(cs.subrange(k as int, cs.len() as int), tree),
        decreases cands@.len() - k,
    {
        let ghost rest = cs.subrange(k as int, cs.len() as int);
        assert(rest.drop_first() =~= cs.subrange(k + 1, cs.len() as int));
        assert(rest[0] == cands@[k as int]@);
        let present = contains_path(files, &cands[k]);
        if present {
            assert(tree.contains(rest[0]));
            return Some(cands[k].clone());
        }
        assert(!tree.contains(rest[0]));
        k = k + 1;
    }
    assert(cs.subrange(k as int, cs.len() as int).len() == 0);
    None
}

/// Relies on std::path::Path::is_file: whether a regular file stands at the
/// path; the answer depends on the file system at the time of the call.
#[verifier::external_body]
fn is_file(path: &str) -> (r: bool) {
    std::path::Path::new(path).is_file()
}

/// The first candidate whose answer is yes, or `None`.
pub fn first_found(cands: &Vec<String>, found: &Vec<bool>) -> (r: Option<String>)
    requires
        found@.len() == cands@.len(),
    ensures
        opt_view(r) == first_found_spec(views(cands@), found@),
{
    let ghost cs = views(cands@);
    let mut k: usize = 0;
    assert(cs.subrange(0, cs.len() as int) =~= cs);
    assert(found@.subrange(0, found@.len() as int) =~= found@);
    while k < cands.len()
        invariant
            k <= cands@.len(),
            found@.len() == cands@.len(),
            cs == views(cands@),
            first_found_spec(cs, found@) == first_found_spec(
                cs.subrange(k as int, cs.len() as int),
                found@.subrange(k as int, found@.len() as int),
            ),
        decreases cands@.len() - k,
    {
        let ghost (c, f) = (
            cs.subrange(k as int, cs.len() as int),
            found@.subrange(k as int, found@.len() as int),
        );
        assert(c.drop_first() =~= cs.subrange(k + 1, cs.len() as int));
        assert(f.drop_first() =~= found@.subrange(k + 1, found@.len() as int));
        assert(c[0] == cands@[k as int]@);
        if found[k] {
            return Some(cands[k].clone());
        }
        k = k + 1;
    }
    None
}

/// One answer per candidate, in order, to whether a regular file stands
/// there, as the file system gives it at the time of the call.
pub fn probe_candidates(cands: &Vec<String>) -> (r: Vec<bool>)
    ensures
        r@.len() == cands@.len(),
{
    let mut r: Vec<bool> = Vec::new();
    let mut k: usize = 0;
    while k < cands.len()
        invariant
            k <= cands@.len(),
            r@.len() == k,
        decreases cands@.len() - k,
    {
        r.push(is_file(cands[k].as_str()));
        k = k + 1;
    }
    r
}

/// Upward search on the file system for `file_name`, from `starting_directory`
/// towards the root: each candidate is probed on disk and the answers go to
/// `first_found`. Whatever is on disk, the result is the first candidate for
/// which some list of answers said yes, or `None`; on a tree whose regular
/// files are a set `files`, with answers that follow it, that is the nearest
/// marker (`lemma_first_found_is_search`).
pub fn find_recursively(starting_directory: &str, file_name: &str) -> (r: Option<String>)
    ensures
        exists|found: Seq<bool>|
            found.len() == candidates(starting_directory@, file_name@).len() && opt_view(r)
                == first_found_spec(candidates(starting_directory@, file_name@), found),
        r is Some ==> candidates(starting_directory@, file_name@).contains(r->0@),
{
    let cands = marker_candidates(starting_directory, file_name);
    let found = probe_candidates(&cands);
    let r = first_found(&cands, &found);
    proof {
        lemma_first_found_member(views(cands@), found@);
    }
    r
}

} // verus!
