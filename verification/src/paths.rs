//! Paths as texts, with slashes between their parts.

use crate::text;
use vstd::prelude::*;

verus! {

/// A path from the root.
pub open spec fn is_absolute(p: Seq<char>) -> bool {
    p.len() > 0 && p[0] == '/'
}

/// A path below a directory; an absolute path stands for itself.
pub open spec fn joined_path(base: Seq<char>, p: Seq<char>) -> Seq<char> {
    if is_absolute(p) || base.len() == 0 {
        p
    } else if base.last() == '/' {
        base + p
    } else {
        base.push('/') + p
    }
}

pub fn join(base: &str, p: &str) -> (r: String)
    ensures
        r@ == joined_path(base@, p@),
{
    let b = text::chars_of(base);
    let c = text::chars_of(p);
    if (c.len() > 0 && c[0] == '/') || b.len() == 0 {
        return p.to_owned();
    }
    if b[b.len() - 1] == '/' {
        text::concat(base, p)
    } else {
        let r = text::concat3(base, "/", p);
        proof {
            reveal_strlit("/");
            assert(r@ =~= base@.push('/') + p@);
        }
        r
    }
}

/// The path without what says nothing at its end: slashes, and dots that are parts of
/// their own.
pub open spec fn without_tail(p: Seq<char>) -> Seq<char>
    decreases p.len(),
{
    if p.len() >= 2 && (p.last() == '/' || (p.last() == '.' && p[p.len() - 2] == '/')) {
        without_tail(p.drop_last())
    } else {
        p
    }
}

/// The place of the last slash.
pub open spec fn last_slash(p: Seq<char>) -> int
    decreases p.len(),
{
    if p.len() == 0 {
        -1
    } else if p.last() == '/' {
        p.len() - 1
    } else {
        last_slash(p.drop_last())
    }
}

/// The directory that a path is in; the root and the empty path are in none.
pub open spec fn parent_path(p: Seq<char>) -> Option<Seq<char>> {
    let body = without_tail(p);
    let i = last_slash(body);
    if body.len() == 0 || (body.len() == 1 && body[0] == '/') {
        None
    } else if i < 0 {
        Some(Seq::empty())
    } else {
        Some(without_tail(body.subrange(0, i + 1)))
    }
}

/// The last part of a path, where it names anything.
pub open spec fn base_name(p: Seq<char>) -> Option<Seq<char>> {
    let body = without_tail(p);
    let name = body.skip(last_slash(body) + 1);
    if name.len() == 0 || name == "."@ || name == ".."@ {
        None
    } else {
        Some(name)
    }
}

proof fn last_slash_bounds(p: Seq<char>)
    ensures
        -1 <= last_slash(p) < p.len(),
        last_slash(p) >= 0 ==> p[last_slash(p)] == '/',
        forall|j: int| last_slash(p) < j < p.len() ==> p[j] != '/',
    decreases p.len(),
{
    if p.len() > 0 && p.last() != '/' {
        last_slash_bounds(p.drop_last());
        assert forall|j: int| last_slash(p) < j < p.len() implies p[j] != '/' by {
            if j < p.len() - 1 {
                assert(p.drop_last()[j] == p[j]);
            }
        }
    }
}

fn tail_start(p: &Vec<char>, len: usize) -> (r: usize)
    requires
        len <= p@.len(),
    ensures
        r <= len,
        p@.subrange(0, r as int) == without_tail(p@.subrange(0, len as int)),
{
    let mut n: usize = len;
    while n >= 2 && (p[n - 1] == '/' || (p[n - 1] == '.' && p[n - 2] == '/'))
        invariant
            n <= len <= p@.len(),
            without_tail(p@.subrange(0, n as int)) == without_tail(p@.subrange(0, len as int)),
        decreases n,
    {
        assert(p@.subrange(0, n as int).drop_last() =~= p@.subrange(0, n - 1));
        n -= 1;
    }
    n
}

fn slash_before(p: &Vec<char>, len: usize) -> (r: Option<usize>)
    requires
        len <= p@.len(),
    ensures
        r is Some <==> last_slash(p@.subrange(0, len as int)) >= 0,
        r matches Some(i) ==> i == last_slash(p@.subrange(0, len as int)) && i < len,
{
    let mut n: usize = len;
    while n > 0
        invariant
            n <= len <= p@.len(),
            last_slash(p@.subrange(0, n as int)) == last_slash(p@.subrange(0, len as int)),
        decreases n,
    {
        if p[n - 1] == '/' {
            return Some(n - 1);
        }
        assert(p@.subrange(0, n as int).drop_last() =~= p@.subrange(0, n - 1));
        n -= 1;
    }
    None
}

/// The directory that a path is in.
pub fn parent(p: &str) -> (r: Option<String>)
    ensures
        r is Some <==> parent_path(p@) is Some,
        r matches Some(dir) ==> parent_path(p@) == Some(dir@),
{
    let chars = text::chars_of(p);
    let n: usize = tail_start(&chars, chars.len());
    assert(chars@.subrange(0, chars@.len() as int) =~= chars@);
    let ghost body = without_tail(p@);
    assert(chars@.subrange(0, n as int) == body);
    if n == 0 || (n == 1 && chars[0] == '/') {
        return None;
    }
    match slash_before(&chars, n) {
        None => {
            let r = text::text_of(&chars, 0, 0);
            assert(r@ =~= Seq::empty());
            Some(r)
        },
        Some(i) => {
            let m: usize = tail_start(&chars, i + 1);
            assert(chars@.subrange(0, i + 1) =~= body.subrange(0, i + 1));
            Some(text::text_of(&chars, 0, m))
        },
    }
}

/// The last part of a path.
pub fn file_name(p: &str) -> (r: Option<String>)
    ensures
        r is Some <==> base_name(p@) is Some,
        r matches Some(name) ==> base_name(p@) == Some(name@),
{
    let chars = text::chars_of(p);
    let n: usize = tail_start(&chars, chars.len());
    assert(chars@.subrange(0, chars@.len() as int) =~= chars@);
    let ghost body = without_tail(p@);
    assert(chars@.subrange(0, n as int) == body);
    let from: usize = match slash_before(&chars, n) {
        None => 0,
        Some(i) => i + 1,
    };
    proof {
        last_slash_bounds(body);
    }
    let name = text::text_of(&chars, from, n);
    assert(name@ =~= body.skip(last_slash(body) + 1));
    if name.as_str().is_empty() || text::same(&name, ".") || text::same(&name, "..") {
        None
    } else {
        Some(name)
    }
}

/// The path with another last part.
pub open spec fn renamed(p: Seq<char>, name: Seq<char>) -> Seq<char> {
    if base_name(p) is Some {
        joined_path(
            match parent_path(p) {
                Some(dir) => dir,
                None => Seq::empty(),
            },
            name,
        )
    } else {
        joined_path(p, name)
    }
}

pub fn with_file_name(p: &str, name: &str) -> (r: String)
    ensures
        r@ == renamed(p@, name@),
{
    if file_name(p).is_none() {
        return join(p, name);
    }
    match parent(p) {
        Some(dir) => join(&dir, name),
        None => {
            proof {
                reveal_strlit("");
                assert(""@ =~= Seq::empty());
            }
            join("", name)
        },
    }
}

/// The name under which a file is kept when it is about to be written anew.
pub open spec fn backup_path(p: Seq<char>, timestamp: Seq<char>) -> Seq<char> {
    renamed(
        p,
        (match base_name(p) {
            Some(name) => name,
            None => "config"@,
        }) + "."@ + timestamp + ".bak"@,
    )
}

pub fn backup_name(p: &str, timestamp: &str) -> (r: String)
    ensures
        r@ == backup_path(p@, timestamp@),
{
    let name = match file_name(p) {
        Some(name) => name,
        None => "config".to_owned(),
    };
    let mut backup = text::concat3(&name, ".", timestamp);
    backup.append(".bak");
    with_file_name(p, &backup)
}

proof fn tail_is_dropped_once(p: Seq<char>)
    ensures
        without_tail(without_tail(p)) == without_tail(p),
        without_tail(p).len() >= 2 ==> without_tail(p).last() != '/',
    decreases p.len(),
{
    if p.len() >= 2 && (p.last() == '/' || (p.last() == '.' && p[p.len() - 2] == '/')) {
        tail_is_dropped_once(p.drop_last());
    }
}

proof fn last_slash_before(dir: Seq<char>, name: Seq<char>)
    requires
        dir.len() == 0 || dir.last() == '/',
        !name.contains('/'),
    ensures
        last_slash(dir + name) == dir.len() - 1,
    decreases name.len(),
{
    if name.len() == 0 {
        assert(dir + name =~= dir);
    } else {
        assert((dir + name).drop_last() =~= dir + name.drop_last());
        assert(name.contains(name.last()));
        assert(!name.drop_last().contains('/')) by {
            if name.drop_last().contains('/') {
                let j = choose|j: int| 0 <= j < name.drop_last().len() && name.drop_last()[j] == '/';
                assert(name[j] == '/');
            }
        }
        last_slash_before(dir, name.drop_last());
    }
}

/// A file is kept in the directory of the file that replaces it, under the name of that
/// file with the time behind it.
pub proof fn backup_stays_in_its_directory(p: Seq<char>, timestamp: Seq<char>)
    requires
        base_name(p) is Some,
        !timestamp.contains('/'),
    ensures
        parent_path(backup_path(p, timestamp)) == parent_path(p),
        base_name(backup_path(p, timestamp)) == Some(
            base_name(p)->0 + "."@ + timestamp + ".bak"@,
        ),
{
    reveal_strlit(".");
    reveal_strlit("..");
    reveal_strlit(".bak");
    let body = without_tail(p);
    last_slash_bounds(body);
    let file = base_name(p)->0;
    let name = file + "."@ + timestamp + ".bak"@;
    assert(!name.contains('/')) by {
        if name.contains('/') {
            let j = choose|j: int| 0 <= j < name.len() && name[j] == '/';
            if j < file.len() {
                assert(body[last_slash(body) + 1 + j] == '/');
            } else if file.len() + 1 <= j < file.len() + 1 + timestamp.len() {
                assert(timestamp[j - file.len() - 1] == '/');
            }
        }
    }
    assert(name[0] == body[last_slash(body) + 1]);
    let dir = parent_path(p)->0;
    let kept = backup_path(p, timestamp);
    let i = last_slash(body);
    if i >= 0 {
        tail_is_dropped_once(body.subrange(0, i + 1));
    }
    let front = if dir.len() == 0 || dir.last() == '/' {
        dir
    } else {
        dir.push('/')
    };
    assert(kept =~= front + name);
    assert(kept.last() == 'k');
    assert(without_tail(kept) == kept);
    last_slash_before(front, name);
    assert(kept.skip(front.len() as int) =~= name);
    assert(kept.subrange(0, front.len() as int) =~= front);
    if front.len() > 0 {
        if dir.last() != '/' {
            assert(front.drop_last() =~= dir);
        }
        assert(without_tail(front) == dir);
    }
}

/// A path below a directory begins with the directory, ends with the path, and has one
/// slash between them; an absolute path is taken as it is, and so is any path below
/// nothing.
pub proof fn path_is_below_its_directory(base: Seq<char>, p: Seq<char>)
    ensures
        p.len() > 0 && p[0] == '/' ==> joined_path(base, p) == p,
        base.len() == 0 ==> joined_path(base, p) == p,
        base.len() > 0 && (p.len() == 0 || p[0] != '/') ==> text::starts_with(joined_path(base, p), base)
            && text::ends_with(joined_path(base, p), p) && joined_path(base, p)[joined_path(
            base,
            p,
        ).len() - p.len() - 1] == '/' && joined_path(base, p).len() <= base.len() + 1 + p.len() && (
        base.last() != '/' ==> joined_path(base, p).len() == base.len() + 1 + p.len()) && (base.last()
            == '/' ==> joined_path(base, p).len() == base.len() + p.len()),
{
    if base.len() > 0 && (p.len() == 0 || p[0] != '/') {
        if base.last() == '/' {
            text::text_has_its_parts(base, p, Seq::empty());
        } else {
            text::text_has_its_parts(base, seq!['/'] + p, Seq::empty());
            text::text_has_its_parts(base.push('/'), p, Seq::empty());
            assert(base.push('/') + p =~= base + (seq!['/'] + p));
        }
    }
}

/// A file below a directory is in that directory, under its own name.
pub proof fn file_is_in_its_directory(dir: Seq<char>, name: Seq<char>)
    requires
        dir.len() >= 2,
        dir.last() != '/',
        dir.last() != '.',
        name.len() > 0,
        !name.contains('/'),
        name != "."@,
        name != ".."@,
    ensures
        parent_path(joined_path(dir, name)) == Some(dir),
        base_name(joined_path(dir, name)) == Some(name),
        renamed(joined_path(dir, name), name) == joined_path(dir, name),
{
    reveal_strlit(".");
    let p = joined_path(dir, name);
    assert(name.contains(name[0]));
    assert(name.contains(name.last()));
    assert(p == dir.push('/') + name);
    assert(p.last() == name.last());
    if p.last() == '.' && p[p.len() - 2] == '/' {
        if name.len() == 1 {
            assert(name =~= "."@);
        } else {
            assert(p[p.len() - 2] == name[name.len() - 2]);
            assert(name.contains(name[name.len() - 2]));
        }
    }
    assert(without_tail(p) == p);
    last_slash_before(dir.push('/'), name);
    assert(last_slash(p) == dir.len());
    assert(p.skip(last_slash(p) + 1) =~= name);
    assert(p.subrange(0, last_slash(p) + 1) =~= dir.push('/'));
    assert(dir.push('/').drop_last() =~= dir);
    assert(without_tail(dir.push('/')) == without_tail(dir));
    assert(without_tail(dir) == dir);
}

/// The root is in no directory, and a name alone is in one without a name.
pub proof fn root_is_in_no_directory(name: Seq<char>)
    requires
        name.len() > 0,
        !name.contains('/'),
    ensures
        parent_path(seq!['/']) is None,
        parent_path(Seq::empty()) is None,
        parent_path(name) == Some(Seq::<char>::empty()),
        base_name(seq!['/']) is None,
{
    assert(name.contains(name.last()));
    if name.len() >= 2 {
        assert(name.contains(name[name.len() - 2]));
    }
    assert(without_tail(name) == name);
    last_slash_bounds(name);
    if last_slash(name) >= 0 {
        assert(name.contains(name[last_slash(name)]));
    }
    assert(name.contains(name[0]));
    assert(without_tail(seq!['/']) == seq!['/']);
    assert(last_slash(seq!['/']) == 0);
    assert(seq!['/'].skip(1).len() == 0);
}

} // verus!
