//! Resolving remote paths typed at the shell or on the command line into
//! drive folders and entries, one directory lookup at a time.

use vstd::prelude::*;
use vstd::string::StringSliceAdditionalSpecFns;

use crate::entry::QuarkEntry;
use crate::error::{is_invalid_argument, QuarkPanError};
use crate::remote_path::{
    absolute_path, absolute_remote_path, lemma_resolve_plain, lemma_segments_append_plain,
    lemma_segments_have_no_separator, normal_path, parent_and_name, plain_name, resolve_pieces,
    rooted_join, segments, split_remote_parent_name, views,
};
use crate::shell::{fid_display_path, fid_prefix, is_quark_fid, lemma_quark_fid_prefix_boundary, quark_fid};
use crate::text::{all_whitespace, is_blank, owned, push_char, str_eq};

verus! {

/// Where the shell currently is: a folder id and its display path.
#[derive(Debug, Clone)]
pub struct ShellState {
    pub current_fid: String,
    pub current_path: String,
}

impl ShellState {
    /// The drive root, folder id `0` at path `/`.
    pub fn root() -> (r: Self)
        ensures
            r.current_fid@ == "0"@,
            r.current_path@ == "/"@,
    {
        ShellState { current_fid: owned("0"), current_path: owned("/") }
    }
}

impl Default for ShellState {
    /// The shell starts at the drive root.
    fn default() -> (r: Self)
        ensures
            r.current_fid@ == "0"@,
            r.current_path@ == "/"@,
    {
        ShellState::root()
    }
}

/// The first entry of a listing with exactly this name.
pub open spec fn first_named(entries: Seq<QuarkEntry>, name: Seq<char>) -> Option<int>
    decreases entries.len(),
{
    if entries.len() == 0 {
        None
    } else {
        match first_named(entries.drop_last(), name) {
            Some(i) => Some(i),
            None => if entries.last().file_name@ == name {
                Some(entries.len() - 1)
            } else {
                None
            },
        }
    }
}

/// Finds the first entry of a listing called `name`.
pub fn find_by_name(entries: Vec<QuarkEntry>, name: &str) -> (r: Option<QuarkEntry>)
    ensures
        match first_named(entries@, name@) {
            Some(i) => r == Some(entries@[i]),
            None => r is None,
        },
{
    let ghost all = entries@;
    let mut i: usize = 0;
    assert(all.take(0) =~= Seq::<QuarkEntry>::empty());
    while i < entries.len()
        invariant
            all == entries@,
            i <= all.len(),
            first_named(all.take(i as int), name@) is None,
        decreases all.len() - i,
    {
        assert(all.take(i + 1).drop_last() =~= all.take(i as int));
        if str_eq(entries[i].file_name.as_str(), name) {
            proof {
                lemma_first_named_extend(all, (i + 1) as int, name@, i as int);
            }
            let mut v = entries;
            return Some(v.swap_remove(i));
        }
        i = i + 1;
    }
    assert(all.take(all.len() as int) =~= all);
    None
}

proof fn lemma_first_named_extend(all: Seq<QuarkEntry>, j: int, name: Seq<char>, found: int)
    requires
        0 < j <= all.len(),
        first_named(all.take(j), name) == Some(found),
    ensures
        first_named(all, name) == Some(found),
    decreases all.len() - j,
{
    if j < all.len() {
        assert(all.take(j + 1).drop_last() =~= all.take(j));
        lemma_first_named_extend(all, j + 1, name, found);
    } else {
        assert(all.take(j) =~= all);
    }
}

/// Looking an entry up by name finds an entry whose name is exactly the one
/// asked for (case counts), the first such in the listing; and finds nothing
/// exactly when no entry has that name.
pub proof fn lemma_first_named_exact(entries: Seq<QuarkEntry>, name: Seq<char>)
    ensures
        first_named(entries, name) matches Some(i) ==> 0 <= i < entries.len()
            && entries[i].file_name@ == name && forall|j: int|
            0 <= j < i ==> (#[trigger] entries[j]).file_name@ != name,
        first_named(entries, name) is None <==> forall|j: int|
            0 <= j < entries.len() ==> (#[trigger] entries[j]).file_name@ != name,
    decreases entries.len(),
{
    if entries.len() > 0 {
        let init = entries.drop_last();
        lemma_first_named_exact(init, name);
        if first_named(init, name) is None {
            assert forall|j: int| 0 <= j < init.len() implies (#[trigger] entries[j]).file_name@ != name by {
                assert(init[j] == entries[j]);
            }
            if entries.last().file_name@ != name {
                assert forall|j: int| 0 <= j < entries.len() implies (#[trigger] entries[j]).file_name@ != name by {
                    if j < init.len() {
                        assert(init[j] == entries[j]);
                    }
                }
            }
        } else {
            let i = first_named(init, name)->0;
            assert(init[i] == entries[i]);
            assert forall|j: int| 0 <= j < i implies (#[trigger] entries[j]).file_name@ != name by {
                assert(init[j] == entries[j]);
            }
            assert(entries[i].file_name@ == name);
            assert(!(forall|j: int| 0 <= j < entries.len() ==> (#[trigger] entries[j]).file_name@ != name));
        }
    }
}

/// `s` without its leading `/` characters.
pub open spec fn trim_leading_slashes(s: Seq<char>) -> Seq<char>
    decreases s.len(),
{
    if s.len() > 0 && s[0] == '/' {
        trim_leading_slashes(s.drop_first())
    } else {
        s
    }
}

/// The folder names an absolute path walks through: the path with its
/// leading `/` characters removed, split on `/`.
pub open spec fn walk_components(absolute: Seq<char>) -> Seq<Seq<char>> {
    segments(trim_leading_slashes(absolute))
}

proof fn lemma_rooted_join_components(names: Seq<Seq<char>>)
    requires
        names.len() > 0,
        forall|i: int| 0 <= i < names.len() ==> plain_name(#[trigger] names[i]),
    ensures
        rooted_join(names).len() > 1,
        rooted_join(names)[0] == '/',
        rooted_join(names)[1] != '/',
        segments(rooted_join(names).drop_first()) == names,
    decreases names.len(),
{
    let init = names.drop_last();
    let last = names.last();
    assert(plain_name(last)) by {
        assert(last == names[names.len() - 1]);
    }
    let e = Seq::<char>::empty();
    if init.len() == 0 {
        assert(rooted_join(init) == e);
        assert(rooted_join(names) =~= seq!['/'] + last);
        assert(rooted_join(names).drop_first() =~= last);
        assert(last[0] != '/') by {
            if last[0] == '/' {
                assert(last.contains('/'));
            }
        }
        lemma_segments_append_plain(e, last);
        assert(e + last =~= last);
        assert(segments(e) == seq![e]);
        assert(seq![e].update(0, e + last) =~= names) by {
            assert(names =~= seq![last]);
        }
    } else {
        assert forall|i: int| 0 <= i < init.len() implies plain_name(#[trigger] init[i]) by {
            assert(init[i] == names[i]);
        }
        lemma_rooted_join_components(init);
        let head = rooted_join(init);
        let x = head.drop_first() + seq!['/'];
        assert(rooted_join(names) == head + seq!['/'] + last);
        assert(rooted_join(names).drop_first() =~= x + last);
        assert(x.drop_last() =~= head.drop_first());
        assert(x.last() == '/');
        assert(segments(x) == segments(head.drop_first()).push(e));
        lemma_segments_append_plain(x, last);
        assert(e + last =~= last);
        assert(init.push(e).update(init.len() as int, last) =~= names);
    }
}

/// Walking the folders of a normalised path other than the root looks up
/// exactly the names the path resolved to, in order.
pub proof fn lemma_walk_follows_names(path: Seq<char>)
    requires
        normal_path(path) != seq!['/'],
    ensures
        walk_components(normal_path(path)) == resolve_pieces(segments(path)),
{
    let names = resolve_pieces(segments(path));
    lemma_segments_have_no_separator(path);
    lemma_resolve_plain(segments(path));
    lemma_rooted_join_components(names);
    let p = rooted_join(names);
    assert(p.drop_first()[0] == p[1]);
    assert(trim_leading_slashes(p) == trim_leading_slashes(p.drop_first()));
    assert(trim_leading_slashes(p.drop_first()) == p.drop_first());
}

/// A folder lookup in progress.
#[derive(Debug, Clone)]
pub struct DirWalk {
    pub absolute: String,
    pub components: Vec<String>,
    pub next: usize,
    pub current_fid: String,
}

/// A walk is consistent: it follows its path's components, and has looked
/// up no more of them than there are.
pub open spec fn walk_ok(w: DirWalk) -> bool {
    &&& views(w.components@) == walk_components(w.absolute@)
    &&& w.next <= w.components@.len()
}

/// How resolving a folder path begins.
#[derive(Debug, Clone)]
pub enum DirStart {
    /// Resolved at once.
    Done { fid: String, path: String },
    /// Folder lookups are needed.
    Walk(DirWalk),
}

/// Splits `s` on `/` after dropping its leading `/` characters.
fn split_components(s: &str) -> (r: Vec<String>)
    ensures
        views(r@) == walk_components(s@),
{
    let n = s.unicode_len();
    let mut start: usize = 0;
    assert(s@.subrange(0, n as int) =~= s@);
    while start < n && s.get_char(start) == '/'
        invariant
            start <= n,
            n == s@.len(),
            trim_leading_slashes(s@) == trim_leading_slashes(s@.subrange(start as int, n as int)),
        decreases n - start,
    {
        assert(s@.subrange(start as int, n as int).drop_first() =~= s@.subrange(start + 1, n as int));
        start = start + 1;
    }
    let ghost t = s@.subrange(start as int, n as int);
    assert(trim_leading_slashes(t) == t);
    let mut parts: Vec<String> = Vec::new();
    let mut cur = String::new();
    let mut i: usize = start;
    assert(t.subrange(0, 0) =~= Seq::<char>::empty());
    while i < n
        invariant
            start <= i <= n,
            n == s@.len(),
            t == s@.subrange(start as int, n as int),
            segments(t.subrange(0, i - start)).len() > 0,
            views(parts@) == segments(t.subrange(0, i - start)).drop_last(),
            cur@ == segments(t.subrange(0, i - start)).last(),
        decreases n - i,
    {
        let c = s.get_char(i);
        let ghost pre = t.subrange(0, i - start);
        let ghost next = t.subrange(0, i - start + 1);
        assert(next.drop_last() =~= pre);
        assert(next.last() == c);
        let ghost segs = segments(pre);
        if c == '/' {
            let piece = cur;
            cur = String::new();
            let ghost before = views(parts@);
            let ghost pv = piece@;
            parts.push(piece);
            assert(views(parts@) =~= before.push(pv));
            assert(segs =~= segs.drop_last().push(segs.last()));
            assert(segments(next) == segs.push(Seq::<char>::empty()));
            assert(segments(next).drop_last() =~= segs);
        } else {
            push_char(&mut cur, c);
            assert(segments(next) == segs.update(segs.len() - 1, segs.last().push(c)));
            assert(segments(next).drop_last() =~= segs.drop_last());
        }
        i = i + 1;
    }
    assert(t.subrange(0, n - start) =~= t);
    let ghost segs = segments(t);
    parts.push(cur);
    assert(views(parts@) =~= segs.drop_last().push(segs.last()));
    assert(segs =~= segs.drop_last().push(segs.last()));
    parts
}

/// How resolving `path` as a folder from `state` begins: an empty or blank
/// path and `.` stay put, `/` is the root, a file id is taken as is, and
/// any other path is made absolute; the root needs no lookups.
pub fn start_dir_walk(state: &ShellState, path: Option<&str>) -> (r: DirStart)
    ensures
        match path {
            None => r matches DirStart::Done { fid, path: p } && fid@ == state.current_fid@ && p@
                == state.current_path@,
            Some(p) => if all_whitespace(p@) || p@ == "."@ {
                r matches DirStart::Done { fid, path: q } && fid@ == state.current_fid@ && q@
                    == state.current_path@
            } else if p@ == "/"@ {
                r matches DirStart::Done { fid, path: q } && fid@ == "0"@ && q@ == "/"@
            } else if quark_fid(p.spec_bytes()) {
                r matches DirStart::Done { fid, path: q } && fid@ == p@ && q@ == "/@fid:"@
                    + fid_prefix(p)
            } else if absolute_path(state.current_path@, p@) == seq!['/'] {
                r matches DirStart::Done { fid, path: q } && fid@ == "0"@ && q@ == seq!['/']
            } else {
                r matches DirStart::Walk(w) && walk_ok(w) && w.next == 0 && w.current_fid@
                    == "0"@ && w.absolute@ == absolute_path(state.current_path@, p@)
            },
        },
{
    let p = match path {
        None => {
            return DirStart::Done {
                fid: owned(state.current_fid.as_str()),
                path: owned(state.current_path.as_str()),
            };
        },
        Some(p) => p,
    };
    if is_blank(p) || str_eq(p, ".") {
        return DirStart::Done {
            fid: owned(state.current_fid.as_str()),
            path: owned(state.current_path.as_str()),
        };
    }
    if str_eq(p, "/") {
        return DirStart::Done { fid: owned("0"), path: owned("/") };
    }
    if is_quark_fid(p) {
        proof {
            lemma_quark_fid_prefix_boundary(p);
        }
        return DirStart::Done { fid: owned(p), path: fid_display_path(p) };
    }
    let absolute = absolute_remote_path(state.current_path.as_str(), p);
    if absolute.as_str().unicode_len() == 1 && absolute.as_str().get_char(0) == '/' {
        assert(absolute@ =~= seq!['/']);
        return DirStart::Done { fid: owned("0"), path: absolute };
    }
    assert(absolute@ != seq!['/']) by {
        if absolute@ == seq!['/'] {
            assert(absolute@[0] == '/');
        }
    }
    let components = split_components(absolute.as_str());
    DirStart::Walk(DirWalk { absolute, components, next: 0, current_fid: owned("0") })
}

/// What a folder walk needs next.
#[derive(Debug, Clone)]
pub enum WalkStep {
    /// Find the entry called `name` in folder `parent_fid`.
    Lookup { parent_fid: String, name: String },
    /// The path resolved to this folder.
    Done { fid: String, path: String },
}

/// The next step of a folder walk.
pub fn walk_step(w: &DirWalk) -> (r: WalkStep)
    requires
        walk_ok(*w),
    ensures
        w.next < w.components@.len() ==> (r matches WalkStep::Lookup { parent_fid, name }
            && parent_fid@ == w.current_fid@ && name@ == w.components@[w.next as int]@),
        w.next >= w.components@.len() ==> (r matches WalkStep::Done { fid, path }
            && fid@ == w.current_fid@ && path@ == w.absolute@),
{
    if w.next < w.components.len() {
        WalkStep::Lookup {
            parent_fid: owned(w.current_fid.as_str()),
            name: owned(w.components[w.next].as_str()),
        }
    } else {
        WalkStep::Done { fid: owned(w.current_fid.as_str()), path: owned(w.absolute.as_str()) }
    }
}

/// Continues a folder walk with the entry its last lookup found: a missing
/// entry or a file ends the walk with an error; a folder is entered.
pub fn walk_found(w: DirWalk, found: Option<QuarkEntry>) -> (r: Result<DirWalk, QuarkPanError>)
    requires
        walk_ok(w),
        w.next < w.components@.len(),
    ensures
        match found {
            None => is_invalid_argument(r, "remote path not found: "@ + w.absolute@),
            Some(e) => if !e.dir {
                is_invalid_argument(r, "remote path is not a directory: "@ + w.absolute@)
            } else {
                r matches Ok(n) && walk_ok(n) && n.next == w.next + 1 && n.current_fid == e.fid
                    && n.absolute == w.absolute && n.components == w.components
            },
        },
{
    match found {
        None => {
            let mut m = String::new();
            m.append("remote path not found: ");
            m.append(w.absolute.as_str());
            Err(QuarkPanError::InvalidArgument(m))
        },
        Some(e) => {
            let _len = w.components.len();
            if !e.dir {
                let mut m = String::new();
                m.append("remote path is not a directory: ");
                m.append(w.absolute.as_str());
                return Err(QuarkPanError::InvalidArgument(m));
            }
            Ok(DirWalk {
                absolute: w.absolute,
                components: w.components,
                next: w.next + 1,
                current_fid: e.fid,
            })
        },
    }
}

/// How resolving an entry path begins.
#[derive(Debug, Clone)]
pub enum EntryStart {
    /// The path is a file id: probe it directly.
    ById(String),
    /// Resolve the folder `parent`, then find `name` in it; `absolute` is the
    /// normalised path.
    ByName { absolute: String, parent: String, name: String },
}

/// How resolving `path` as an entry from `current_path` begins: a file id is
/// probed directly; the root is no entry; otherwise the absolute path is
/// split into its folder and name.
pub fn start_entry_lookup(current_path: &str, path: &str) -> (r: Result<EntryStart, QuarkPanError>)
    ensures
        quark_fid(path.spec_bytes()) ==> (r matches Ok(EntryStart::ById(f)) && f@ == path@),
        !quark_fid(path.spec_bytes()) && absolute_path(current_path@, path@) == seq!['/']
            ==> is_invalid_argument(r, "remote root is not a file entry"@),
        !quark_fid(path.spec_bytes()) && absolute_path(current_path@, path@) != seq!['/']
            ==> match parent_and_name(absolute_path(current_path@, path@)) {
            None => is_invalid_argument(r, "remote path must include a name"@),
            Some((parent, name)) => r matches Ok(EntryStart::ByName { absolute, parent: p, name: n })
                && absolute@ == absolute_path(current_path@, path@) && p@ == parent && n@ == name,
        },
{
    let absolute = absolute_remote_path(current_path, path);
    if is_quark_fid(path) {
        return Ok(EntryStart::ById(owned(path)));
    }
    if absolute.as_str().unicode_len() == 1 && absolute.as_str().get_char(0) == '/' {
        assert(absolute@ =~= seq!['/']);
        return Err(QuarkPanError::invalid_argument("remote root is not a file entry"));
    }
    assert(absolute@ != seq!['/']) by {
        if absolute@ == seq!['/'] {
            assert(absolute@[0] == '/');
        }
    }
    match split_remote_parent_name(absolute.as_str()) {
        Err(e) => Err(e),
        Ok((parent, name)) => Ok(EntryStart::ByName { absolute, parent, name }),
    }
}

/// Finishes an entry lookup with what the parent folder listing held.
pub fn finish_entry_lookup(found: Option<QuarkEntry>, absolute: String) -> (r: Result<
    (QuarkEntry, String),
    QuarkPanError,
>)
    ensures
        match found {
            None => is_invalid_argument(r, "remote path not found: "@ + absolute@),
            Some(e) => r matches Ok((e2, p)) && e2 == e && p == absolute,
        },
{
    match found {
        None => {
            let mut m = String::new();
            m.append("remote path not found: ");
            m.append(absolute.as_str());
            Err(QuarkPanError::InvalidArgument(m))
        },
        Some(e) => Ok((e, absolute)),
    }
}

} // verus!
