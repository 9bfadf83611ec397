//! Remote (cloud drive) path arithmetic: normalisation, joining and splitting.

use vstd::prelude::*;

use crate::error::QuarkPanError;
use crate::text::{owned, push_char, starts_with_char, str_eq};

verus! {

/// The pieces of `s` between `/` separators, as `str::split('/')` yields them
/// (an empty string yields one empty piece).
pub open spec fn segments(s: Seq<char>) -> Seq<Seq<char>>
    decreases s.len(),
{
    if s.len() == 0 {
        seq![Seq::<char>::empty()]
    } else {
        let init = segments(s.drop_last());
        if s.last() == '/' {
            init.push(Seq::<char>::empty())
        } else {
            init.update(init.len() - 1, init.last().push(s.last()))
        }
    }
}

/// Applies one path piece to a stack of directory names: empty pieces and
/// `.` are ignored, `..` drops the last name, anything else is pushed.
pub open spec fn apply_piece(stack: Seq<Seq<char>>, piece: Seq<char>) -> Seq<Seq<char>> {
    if piece.len() == 0 || piece == seq!['.'] {
        stack
    } else if piece == seq!['.', '.'] {
        if stack.len() > 0 {
            stack.drop_last()
        } else {
            stack
        }
    } else {
        stack.push(piece)
    }
}

/// The names left after applying `pieces` in order to an empty stack.
pub open spec fn resolve_pieces(pieces: Seq<Seq<char>>) -> Seq<Seq<char>>
    decreases pieces.len(),
{
    if pieces.len() == 0 {
        Seq::empty()
    } else {
        apply_piece(resolve_pieces(pieces.drop_last()), pieces.last())
    }
}

/// `/n1/n2/.../nk` for the names `n1 .. nk`.
pub open spec fn rooted_join(names: Seq<Seq<char>>) -> Seq<char>
    decreases names.len(),
{
    if names.len() == 0 {
        Seq::empty()
    } else {
        rooted_join(names.drop_last()) + seq!['/'] + names.last()
    }
}

/// The normal form of a remote path: rooted, with `.` and empty pieces
/// removed and each `..` cancelling the name before it (never above the root).
pub open spec fn normal_path(path: Seq<char>) -> Seq<char> {
    let names = resolve_pieces(segments(path));
    if names.len() == 0 {
        seq!['/']
    } else {
        rooted_join(names)
    }
}

/// A name that survives normalisation unchanged.
pub open spec fn plain_name(n: Seq<char>) -> bool {
    &&& n.len() > 0
    &&& n != seq!['.']
    &&& n != seq!['.', '.']
    &&& !n.contains('/')
}

fn is_dot(s: &str) -> (r: bool)
    ensures
        r <==> s@ == seq!['.'],
{
    let n = s.unicode_len();
    if n == 1 && s.get_char(0) == '.' {
        assert(s@ =~= seq!['.']);
        true
    } else {
        false
    }
}

fn is_dot_dot(s: &str) -> (r: bool)
    ensures
        r <==> s@ == seq!['.', '.'],
{
    let n = s.unicode_len();
    if n == 2 && s.get_char(0) == '.' && s.get_char(1) == '.' {
        assert(s@ =~= seq!['.', '.']);
        true
    } else {
        false
    }
}

/// The string views of a vector of strings.
pub open spec fn views(v: Seq<String>) -> Seq<Seq<char>> {
    v.map_values(|s: String| s@)
}

fn apply_piece_exec(stack: &mut Vec<String>, piece: String)
    ensures
        views(final(stack)@) == apply_piece(views(old(stack)@), piece@),
{
    let ghost before = views(stack@);
    if piece.as_str().unicode_len() == 0 || is_dot(piece.as_str()) {
    } else if is_dot_dot(piece.as_str()) {
        if stack.len() > 0 {
            stack.pop();
            assert(views(stack@) =~= before.drop_last());
        }
    } else {
        stack.push(piece);
        assert(views(stack@) =~= before.push(piece@));
    }
}

/// Normalises a remote path (see `normal_path`).
pub fn normalize_remote_path(path: &str) -> (r: String)
    ensures
        r@ == normal_path(path@),
{
    let n = path.unicode_len();
    let mut stack: Vec<String> = Vec::new();
    let mut cur = String::new();
    let mut i: usize = 0;
    assert(path@.subrange(0, 0) =~= Seq::<char>::empty());
    assert(views(stack@) =~= Seq::<Seq<char>>::empty());
    while i < n
        invariant
            n == path@.len(),
            i <= n,
            segments(path@.subrange(0, i as int)).len() > 0,
            views(stack@) == resolve_pieces(segments(path@.subrange(0, i as int)).drop_last()),
            cur@ == segments(path@.subrange(0, i as int)).last(),
        decreases n - i,
    {
        let c = path.get_char(i);
        let ghost prefix = path@.subrange(0, i as int);
        let ghost next = path@.subrange(0, i + 1);
        assert(next.drop_last() =~= prefix);
        let ghost segs = segments(prefix);
        if c == '/' {
            let piece = cur;
            cur = String::new();
            apply_piece_exec(&mut stack, piece);
            assert(segments(next) == segs.push(Seq::<char>::empty()));
            assert(segments(next).drop_last() =~= segs);
        } else {
            push_char(&mut cur, c);
            assert(segments(next) == segs.update(segs.len() - 1, segs.last().push(c)));
            assert(segments(next).drop_last() =~= segs.drop_last());
        }
        i = i + 1;
    }
    assert(path@.subrange(0, n as int) =~= path@);
    let ghost segs = segments(path@);
    assert(segs =~= segs.drop_last().push(segs.last()));
    apply_piece_exec(&mut stack, cur);
    let ghost names = views(stack@);
    assert(names == resolve_pieces(segs));
    let mut r = String::new();
    if stack.len() == 0 {
        push_char(&mut r, '/');
        assert(r@ =~= seq!['/']);
        return r;
    }
    let mut k: usize = 0;
    assert(names.take(0) =~= Seq::<Seq<char>>::empty());
    while k < stack.len()
        invariant
            k <= stack@.len(),
            names == views(stack@),
            r@ == rooted_join(names.take(k as int)),
        decreases stack@.len() - k,
    {
        push_char(&mut r, '/');
        r.append(stack[k].as_str());
        assert(names.take(k + 1).drop_last() =~= names.take(k as int));
        assert(r@ =~= rooted_join(names.take(k as int)) + seq!['/'] + names[k as int]);
        k = k + 1;
    }
    assert(names.take(stack@.len() as int) =~= names);
    r
}


pub(crate) proof fn lemma_segments_append_plain(x: Seq<char>, y: Seq<char>)
    requires
        !y.contains('/'),
    ensures
        segments(x + y) == segments(x).update(
            segments(x).len() - 1,
            segments(x).last() + y,
        ),
        segments(x).len() > 0,
    decreases y.len(),
{
    lemma_segments_nonempty(x);
    if y.len() == 0 {
        assert(x + y =~= x);
        assert(segments(x).last() + y =~= segments(x).last());
        assert(segments(x).update(segments(x).len() - 1, segments(x).last()) =~= segments(x));
    } else {
        let y0 = y.drop_last();
        assert(!y0.contains('/')) by {
            if y0.contains('/') {
                let k = choose|k: int| 0 <= k < y0.len() && y0[k] == '/';
                assert(y[k] == '/');
            }
        }
        lemma_segments_append_plain(x, y0);
        assert((x + y).drop_last() =~= x + y0);
        assert(y.last() != '/') by {
            assert(y[y.len() - 1] == y.last());
        }
        lemma_segments_nonempty(x + y0);
        assert((segments(x).last() + y0).push(y.last()) =~= segments(x).last() + y);
        assert(segments(x + y) =~= segments(x).update(
            segments(x).len() - 1,
            segments(x).last() + y,
        ));
    }
}

pub(crate) proof fn lemma_segments_nonempty(s: Seq<char>)
    ensures
        segments(s).len() > 0,
    decreases s.len(),
{
    if s.len() > 0 {
        lemma_segments_nonempty(s.drop_last());
    }
}

pub(crate) proof fn lemma_segments_have_no_separator(s: Seq<char>)
    ensures
        forall|i: int| 0 <= i < segments(s).len() ==> !(#[trigger] segments(s)[i]).contains('/'),
    decreases s.len(),
{
    if s.len() > 0 {
        let init = segments(s.drop_last());
        lemma_segments_have_no_separator(s.drop_last());
        lemma_segments_nonempty(s.drop_last());
        if s.last() != '/' {
            let last = init.last();
            assert(!last.contains('/')) by {
                assert(last == init[init.len() - 1]);
            }
            assert forall|i: int| 0 <= i < segments(s).len() implies !(
            #[trigger] segments(s)[i]).contains('/') by {
                if i == init.len() - 1 {
                    let piece = last.push(s.last());
                    assert(segments(s)[i] == piece);
                    if piece.contains('/') {
                        let k = choose|k: int| 0 <= k < piece.len() && piece[k] == '/';
                        if k < last.len() {
                            assert(last[k] == '/');
                        }
                    }
                } else {
                    assert(segments(s)[i] == init[i]);
                }
            }
        } else {
            assert forall|i: int| 0 <= i < segments(s).len() implies !(
            #[trigger] segments(s)[i]).contains('/') by {
                if i < init.len() {
                    assert(segments(s)[i] == init[i]);
                } else {
                    assert(segments(s)[i].len() == 0);
                }
            }
        }
    }
}

pub(crate) proof fn lemma_resolve_plain(pieces: Seq<Seq<char>>)
    requires
        forall|i: int| 0 <= i < pieces.len() ==> !(#[trigger] pieces[i]).contains('/'),
    ensures
        forall|i: int|
            0 <= i < resolve_pieces(pieces).len() ==> plain_name(
                #[trigger] resolve_pieces(pieces)[i],
            ),
    decreases pieces.len(),
{
    if pieces.len() > 0 {
        let init = pieces.drop_last();
        assert forall|i: int| 0 <= i < init.len() implies !(#[trigger] init[i]).contains('/') by {
            assert(init[i] == pieces[i]);
        }
        lemma_resolve_plain(init);
        let st = resolve_pieces(init);
        let last = pieces.last();
        assert(!last.contains('/')) by {
            assert(last == pieces[pieces.len() - 1]);
        }
        let r = resolve_pieces(pieces);
        assert forall|i: int| 0 <= i < r.len() implies plain_name(#[trigger] r[i]) by {
            if last.len() == 0 || last == seq!['.'] {
            } else if last == seq!['.', '.'] {
                if st.len() > 0 {
                    assert(r[i] == st[i]);
                }
            } else {
                if i < st.len() {
                    assert(r[i] == st[i]);
                }
            }
        }
    }
}

proof fn lemma_segments_rooted_join(names: Seq<Seq<char>>)
    requires
        forall|i: int| 0 <= i < names.len() ==> plain_name(#[trigger] names[i]),
    ensures
        segments(rooted_join(names)) == seq![Seq::<char>::empty()] + names,
    decreases names.len(),
{
    if names.len() == 0 {
        assert(seq![Seq::<char>::empty()] + names =~= seq![Seq::<char>::empty()]);
    } else {
        let init = names.drop_last();
        assert forall|i: int| 0 <= i < init.len() implies plain_name(#[trigger] init[i]) by {
            assert(init[i] == names[i]);
        }
        lemma_segments_rooted_join(init);
        let a = rooted_join(init);
        let last = names.last();
        assert(plain_name(last)) by {
            assert(last == names[names.len() - 1]);
        }
        let x = a + seq!['/'];
        assert(x.drop_last() =~= a);
        assert(segments(x) == segments(a).push(Seq::<char>::empty()));
        lemma_segments_append_plain(x, last);
        assert(rooted_join(names) =~= x + last);
        assert(Seq::<char>::empty() + last =~= last);
        assert(segments(rooted_join(names)) =~= seq![Seq::<char>::empty()] + names);
    }
}

proof fn lemma_resolve_rooted(names: Seq<Seq<char>>)
    requires
        forall|i: int| 0 <= i < names.len() ==> plain_name(#[trigger] names[i]),
    ensures
        resolve_pieces(seq![Seq::<char>::empty()] + names) == names,
    decreases names.len(),
{
    let e = Seq::<char>::empty();
    if names.len() == 0 {
        assert(seq![e] + names =~= seq![e]);
        assert(seq![e].drop_last() =~= Seq::<Seq<char>>::empty());
        assert(seq![e].last() == e);
        assert(resolve_pieces(seq![e]) == apply_piece(resolve_pieces(Seq::<Seq<char>>::empty()), e));
    } else {
        let init = names.drop_last();
        assert forall|i: int| 0 <= i < init.len() implies plain_name(#[trigger] init[i]) by {
            assert(init[i] == names[i]);
        }
        lemma_resolve_rooted(init);
        assert((seq![e] + names).drop_last() =~= seq![e] + init);
        assert(plain_name(names.last())) by {
            assert(names.last() == names[names.len() - 1]);
        }
        assert((seq![e] + names).last() == names.last());
        assert(init.push(names.last()) =~= names);
        assert(resolve_pieces(seq![e] + names) == apply_piece(
            resolve_pieces(seq![e] + init),
            names.last(),
        ));
    }
}

/// Normalising a remote path twice gives the same result as normalising it
/// once.
pub proof fn lemma_normal_path_idempotent(path: Seq<char>)
    ensures
        normal_path(normal_path(path)) == normal_path(path),
{
    let segs = segments(path);
    lemma_segments_have_no_separator(path);
    lemma_resolve_plain(segs);
    let names = resolve_pieces(segs);
    if names.len() == 0 {
        let e = Seq::<char>::empty();
        assert(seq!['/'].drop_last() =~= e);
        assert(seq!['/'].last() == '/');
        assert(segments(e) == seq![e]);
        assert(segments(seq!['/']) == seq![e].push(e));
        let two = seq![e].push(e);
        assert(two.drop_last() =~= seq![e]);
        assert(two.last() == e);
        assert(seq![e].drop_last() =~= Seq::<Seq<char>>::empty());
        assert(seq![e].last() == e);
        assert(resolve_pieces(seq![e]) == apply_piece(resolve_pieces(Seq::<Seq<char>>::empty()), e));
        assert(resolve_pieces(two) == apply_piece(resolve_pieces(seq![e]), e));
        assert(resolve_pieces(two) =~= Seq::<Seq<char>>::empty());
    } else {
        lemma_segments_rooted_join(names);
        lemma_resolve_rooted(names);
    }
}


proof fn lemma_rooted_join_first(names: Seq<Seq<char>>)
    requires
        names.len() > 0,
    ensures
        rooted_join(names)[0] == '/',
    decreases names.len(),
{
    let init = names.drop_last();
    if init.len() > 0 {
        lemma_rooted_join_first(init);
        lemma_rooted_join_head(init);
        assert(rooted_join(names)[0] == rooted_join(init)[0]);
    } else {
        assert(rooted_join(init).len() == 0);
        assert(rooted_join(names) =~= seq!['/'] + names.last());
    }
}

/// The shape of a normalised remote path: it starts with `/`; it is `/`
/// alone exactly when no name is left, and otherwise does not end in `/`;
/// its pieces after the leading `/` are plain names (none empty, `.`, `..`
/// or holding `/`), and they are the names left after dropping the empty and
/// `.` pieces of `path` and letting each `..` remove the name kept before it.
pub proof fn lemma_normal_path_shape(path: Seq<char>)
    ensures
        normal_path(path).len() > 0,
        normal_path(path)[0] == '/',
        normal_path(path) == seq!['/'] <==> resolve_pieces(segments(path)).len() == 0,
        normal_path(path) != seq!['/'] ==> normal_path(path).last() != '/',
        normal_path(path) != seq!['/'] ==> segments(normal_path(path)) == seq![Seq::<char>::empty()]
            + resolve_pieces(segments(path)),
        forall|i: int|
            0 <= i < resolve_pieces(segments(path)).len() ==> plain_name(
                #[trigger] resolve_pieces(segments(path))[i],
            ),
{
    let names = resolve_pieces(segments(path));
    lemma_segments_have_no_separator(path);
    lemma_resolve_plain(segments(path));
    if names.len() > 0 {
        lemma_rooted_join_first(names);
        lemma_rooted_join_not_root(names);
        lemma_segments_rooted_join(names);
        let last = names.last();
        assert(plain_name(last)) by {
            assert(last == names[names.len() - 1]);
        }
        assert(rooted_join(names) =~= rooted_join(names.drop_last()) + seq!['/'] + last);
        assert(rooted_join(names).last() == last.last());
        assert(last.last() != '/') by {
            assert(last[last.len() - 1] == last.last());
        }
    }
}

proof fn lemma_segments_prepend_slash(p: Seq<char>)
    ensures
        segments(seq!['/'] + p) == seq![Seq::<char>::empty()] + segments(p),
    decreases p.len(),
{
    let e = Seq::<char>::empty();
    let q = seq!['/'] + p;
    if p.len() == 0 {
        assert(q =~= seq!['/']);
        assert(q.drop_last() =~= e);
        assert(q.last() == '/');
        assert(segments(e) == seq![e]);
        assert(segments(q) == segments(q.drop_last()).push(e));
        assert(seq![e] + seq![e] =~= seq![e].push(e));
        assert(segments(p) == seq![e]);
    } else {
        assert(q.drop_last() =~= seq!['/'] + p.drop_last());
        assert(q.last() == p.last());
        lemma_segments_prepend_slash(p.drop_last());
        lemma_segments_nonempty(p.drop_last());
        let init = segments(p.drop_last());
        let qinit = segments(q.drop_last());
        assert(qinit == seq![e] + init);
        if p.last() == '/' {
            assert(segments(q) == qinit.push(e));
            assert(segments(p) == init.push(e));
            assert((seq![e] + init).push(e) =~= seq![e] + init.push(e));
        } else {
            let c = p.last();
            assert(segments(q) == qinit.update(qinit.len() - 1, qinit.last().push(c)));
            assert(segments(p) == init.update(init.len() - 1, init.last().push(c)));
            assert(qinit.last() == init.last());
            assert((seq![e] + init).update(init.len() as int, init.last().push(c)) =~= seq![e]
                + init.update(init.len() - 1, init.last().push(c)));
        }
    }
}

proof fn lemma_resolve_prepend_empty(pieces: Seq<Seq<char>>)
    ensures
        resolve_pieces(seq![Seq::<char>::empty()] + pieces) == resolve_pieces(pieces),
    decreases pieces.len(),
{
    let e = Seq::<char>::empty();
    let q = seq![e] + pieces;
    if pieces.len() == 0 {
        assert(q =~= seq![e]);
        assert(q.drop_last() =~= Seq::<Seq<char>>::empty());
        assert(q.last() == e);
        assert(resolve_pieces(q) == apply_piece(resolve_pieces(q.drop_last()), q.last()));
        assert(resolve_pieces(Seq::<Seq<char>>::empty()) == Seq::<Seq<char>>::empty());
    } else {
        assert(q.drop_last() =~= seq![e] + pieces.drop_last());
        assert(q.last() == pieces.last());
        lemma_resolve_prepend_empty(pieces.drop_last());
        assert(resolve_pieces(q) == apply_piece(resolve_pieces(q.drop_last()), q.last()));
        assert(resolve_pieces(pieces) == apply_piece(resolve_pieces(pieces.drop_last()), pieces.last()));
    }
}

/// A leading `/` changes nothing: a remote path and the same path with `/`
/// put in front normalise alike.
pub proof fn lemma_leading_slash_ignored(path: Seq<char>)
    ensures
        normal_path(seq!['/'] + path) == normal_path(path),
{
    lemma_segments_prepend_slash(path);
    lemma_resolve_prepend_empty(segments(path));
}

/// The remote path that `path` names when typed in directory `current_path`.
pub open spec fn absolute_path(current_path: Seq<char>, path: Seq<char>) -> Seq<char> {
    if path.len() > 0 && path[0] == '/' {
        normal_path(path)
    } else if current_path == seq!['/'] {
        normal_path(seq!['/'] + path)
    } else {
        normal_path(current_path + seq!['/'] + path)
    }
}

/// Resolves `path` against the current remote directory and normalises it.
pub fn absolute_remote_path(current_path: &str, path: &str) -> (r: String)
    ensures
        r@ == absolute_path(current_path@, path@),
{
    if starts_with_char(path, '/') {
        normalize_remote_path(path)
    } else {
        let mut base = String::new();
        if current_path.unicode_len() == 1 && current_path.get_char(0) == '/' {
            assert(current_path@ =~= seq!['/']);
            push_char(&mut base, '/');
            base.append(path);
            assert(base@ =~= seq!['/'] + path@);
        } else {
            assert(current_path@ != seq!['/']) by {
                if current_path@ == seq!['/'] {
                    assert(current_path@[0] == '/');
                }
            }
            base.append(current_path);
            push_char(&mut base, '/');
            base.append(path);
            assert(base@ =~= current_path@ + seq!['/'] + path@);
        }
        normalize_remote_path(base.as_str())
    }
}

/// `s` without its trailing `/` characters.
pub open spec fn trim_trailing_slashes(s: Seq<char>) -> Seq<char>
    decreases s.len(),
{
    if s.len() > 0 && s.last() == '/' {
        trim_trailing_slashes(s.drop_last())
    } else {
        s
    }
}

/// The index of the last `/` in `s`, or -1 when there is none.
pub open spec fn last_slash(s: Seq<char>) -> int
    decreases s.len(),
{
    if s.len() == 0 {
        -1
    } else if s.last() == '/' {
        s.len() - 1
    } else {
        last_slash(s.drop_last())
    }
}

/// The parent directory and final name of a remote path, or `None` when the
/// path names no entry.
pub open spec fn parent_and_name(path: Seq<char>) -> Option<(Seq<char>, Seq<char>)> {
    let t = trim_trailing_slashes(path);
    let k = last_slash(t);
    if t.len() == 0 || t == seq!['/'] {
        None
    } else if k < 0 {
        Some((seq!['/'], t))
    } else if k + 1 == t.len() {
        None
    } else {
        let parent = t.subrange(0, k);
        Some((if parent.len() == 0 { seq!['/'] } else { parent }, t.subrange(k + 1, t.len() as int)))
    }
}

proof fn lemma_trim_trailing_slashes(s: Seq<char>)
    ensures
        trim_trailing_slashes(s).len() <= s.len(),
        trim_trailing_slashes(s) == s.subrange(0, trim_trailing_slashes(s).len() as int),
        trim_trailing_slashes(s).len() > 0 ==> trim_trailing_slashes(s).last() != '/',
        forall|i: int|
            trim_trailing_slashes(s).len() <= i < s.len() ==> #[trigger] s[i] == '/',
    decreases s.len(),
{
    if s.len() > 0 && s.last() == '/' {
        lemma_trim_trailing_slashes(s.drop_last());
        assert forall|i: int| trim_trailing_slashes(s).len() <= i < s.len() implies #[trigger] s[i]
            == '/' by {
            if i < s.len() - 1 {
                assert(s[i] == s.drop_last()[i]);
            }
        }
        assert(s.drop_last().subrange(0, trim_trailing_slashes(s).len() as int) =~= s.subrange(
            0,
            trim_trailing_slashes(s).len() as int,
        ));
    } else {
        assert(s.subrange(0, s.len() as int) =~= s);
    }
}

proof fn lemma_last_slash(s: Seq<char>)
    ensures
        -1 <= last_slash(s) < s.len(),
        last_slash(s) >= 0 ==> s[last_slash(s)] == '/',
        forall|i: int| last_slash(s) < i < s.len() ==> #[trigger] s[i] != '/',
    decreases s.len(),
{
    if s.len() > 0 && s.last() != '/' {
        lemma_last_slash(s.drop_last());
        assert forall|i: int| last_slash(s) < i < s.len() implies #[trigger] s[i] != '/' by {
            if i < s.len() - 1 {
                assert(s[i] == s.drop_last()[i]);
            }
        }
    }
}

/// Splits a remote path into its parent directory and final name.
pub fn split_remote_parent_name(path: &str) -> (r: Result<(String, String), QuarkPanError>)
    ensures
        match parent_and_name(path@) {
            Some((parent, name)) => r matches Ok((p, n)) && p@ == parent && n@ == name,
            None => r matches Err(QuarkPanError::InvalidArgument(m)) && m@
                == "remote path must include a name"@,
        },
{
    proof {
        lemma_trim_trailing_slashes(path@);
    }
    let n = path.unicode_len();
    let mut end: usize = n;
    assert(path@.subrange(0, n as int) =~= path@);
    while end > 0 && path.get_char(end - 1) == '/'
        invariant
            n == path@.len(),
            end <= n,
            trim_trailing_slashes(path@) == trim_trailing_slashes(path@.subrange(0, end as int)),
            forall|i: int| end <= i < n ==> #[trigger] path@[i] == '/',
        decreases end,
    {
        let ghost pre = path@.subrange(0, end as int);
        assert(pre.drop_last() =~= path@.subrange(0, end - 1));
        end = end - 1;
    }
    let ghost t = path@.subrange(0, end as int);
    assert(trim_trailing_slashes(t) == t);
    let trimmed = path.substring_char(0, end);
    assert(trimmed@ == t);
    if end == 0 || (end == 1 && trimmed.get_char(0) == '/') {
        proof {
            if end == 1 {
                assert(t =~= seq!['/']);
            }
        }
        return Err(QuarkPanError::invalid_argument("remote path must include a name"));
    }
    assert(t != seq!['/']) by {
        if t == seq!['/'] {
            assert(t[0] == '/');
        }
    }
    let mut k: usize = end;
    assert(t.subrange(0, end as int) =~= t);
    while k > 0 && trimmed.get_char(k - 1) != '/'
        invariant
            k <= end,
            end == t.len(),
            trimmed@ == t,
            last_slash(t) == last_slash(t.subrange(0, k as int)),
        decreases k,
    {
        let ghost pre = t.subrange(0, k as int);
        assert(pre.drop_last() =~= t.subrange(0, k - 1));
        k = k - 1;
    }
    proof {
        if k > 0 {
            let pre = t.subrange(0, k as int);
            assert(pre.last() == '/');
            assert(last_slash(pre) == k - 1);
        } else {
            assert(t.subrange(0, 0) =~= Seq::<char>::empty());
        }
    }
    if k == 0 {
        let mut parent = String::new();
        push_char(&mut parent, '/');
        assert(parent@ =~= seq!['/']);
        return Ok((parent, owned(trimmed)));
    }
    if k == end {
        return Err(QuarkPanError::invalid_argument("remote path must include a name"));
    }
    let name = trimmed.substring_char(k, end);
    let parent = if k == 1 {
        let mut root = String::new();
        push_char(&mut root, '/');
        assert(root@ =~= seq!['/']);
        root
    } else {
        owned(trimmed.substring_char(0, k - 1))
    };
    Ok((parent, owned(name)))
}

/// Every normal remote path other than the root splits into a parent and a
/// plain name that join back into the same path.
pub proof fn lemma_split_rejoins(path: Seq<char>)
    requires
        normal_path(path) != seq!['/'],
    ensures
        parent_and_name(normal_path(path)) matches Some((parent, name)) && plain_name(name) && (
        if parent == seq!['/'] {
            seq!['/'] + name
        } else {
            parent + seq!['/'] + name
        }) == normal_path(path),
{
    let names = resolve_pieces(segments(path));
    lemma_segments_have_no_separator(path);
    lemma_resolve_plain(segments(path));
    assert(names.len() > 0);
    let init = names.drop_last();
    let last = names.last();
    assert(plain_name(last)) by {
        assert(last == names[names.len() - 1]);
    }
    let head = rooted_join(init);
    let p = normal_path(path);
    assert(p == head + seq!['/'] + last);
    assert(p.last() == last.last()) by {
        assert(p[p.len() - 1] == last[last.len() - 1]);
    }
    assert(last.last() != '/') by {
        assert(last[last.len() - 1] == last.last());
    }
    assert(trim_trailing_slashes(p) == p);
    lemma_last_slash_plain_tail(head + seq!['/'], last);
    assert(last_slash(p) == head.len());
    assert(p.subrange(0, head.len() as int) =~= head);
    assert(p.subrange(head.len() + 1int, p.len() as int) =~= last);
    assert(p != seq!['/']);
    lemma_rooted_join_head(init);
    if head.len() == 0 {
        assert(seq!['/'] + last =~= p);
    } else {
        assert(head != seq!['/']) by {
            lemma_rooted_join_not_root(init);
        }
    }
}

proof fn lemma_rooted_join_head(names: Seq<Seq<char>>)
    ensures
        rooted_join(names).len() == 0 <==> names.len() == 0,
{
}

proof fn lemma_rooted_join_not_root(names: Seq<Seq<char>>)
    requires
        forall|i: int| 0 <= i < names.len() ==> plain_name(#[trigger] names[i]),
        names.len() > 0,
    ensures
        rooted_join(names) != seq!['/'],
{
    let last = names.last();
    assert(plain_name(last)) by {
        assert(last == names[names.len() - 1]);
    }
    assert(rooted_join(names).len() >= 2);
}

proof fn lemma_last_slash_plain_tail(x: Seq<char>, y: Seq<char>)
    requires
        !y.contains('/'),
        x.len() > 0,
        x.last() == '/',
    ensures
        last_slash(x + y) == x.len() - 1,
    decreases y.len(),
{
    if y.len() == 0 {
        assert(x + y =~= x);
    } else {
        assert((x + y).drop_last() =~= x + y.drop_last());
        assert(!y.drop_last().contains('/')) by {
            if y.drop_last().contains('/') {
                let k = choose|k: int| 0 <= k < y.drop_last().len() && y.drop_last()[k] == '/';
                assert(y[k] == '/');
            }
        }
        assert((x + y).last() == y.last());
        assert(y.last() != '/') by {
            assert(y[y.len() - 1] == y.last());
        }
        lemma_last_slash_plain_tail(x, y.drop_last());
    }
}

} // verus!
