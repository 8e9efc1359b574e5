//! Unix paths as text.

use crate::text::after_last;
use crate::text::char_vec;
use crate::text::ends_with;
use crate::text::same;
use crate::text::starts_with;
use crate::text::text_after_last;
use vstd::prelude::*;

verus! {

/// The path `rest` seen from the directory `base`: an absolute path is itself.
pub open spec fn path_under(base: Seq<char>, rest: Seq<char>) -> Seq<char> {
    if rest.len() > 0 && rest[0] == '/' {
        rest
    } else if base.len() == 0 || base.last() == '/' {
        base + rest
    } else {
        base + "/"@ + rest
    }
}

/// The path `rest` seen from the directory `base`.
pub fn path_joined(base: &str, rest: &str) -> (r: String)
    ensures
        r@ == path_under(base@, rest@),
{
    proof {
        reveal_strlit("/");
        assert("/"@ =~= seq!['/']);
    }
    if starts_with(rest, "/") {
        assert(rest@[0] == "/"@[0]);
        rest.to_owned()
    } else {
        assert(!(rest@.len() > 0 && rest@[0] == '/')) by {
            if rest@.len() > 0 && rest@[0] == '/' {
                assert(rest@.subrange(0, 1) =~= "/"@);
            }
        }
        if same(base, "") || ends_with(base, "/") {
            proof {
                reveal_strlit("");
                if base@.len() > 0 {
                    assert(base@.last() == "/"@[0]);
                } else {
                    assert(base@ =~= ""@);
                }
            }
            base.to_owned().concat(rest)
        } else {
            proof {
                reveal_strlit("");
                assert(base@ =~= ""@ <==> base@.len() == 0);
                if base@.len() > 0 && base@.last() == '/' {
                    assert(base@.subrange(base@.len() - 1, base@.len() as int) =~= "/"@);
                }
            }
            base.to_owned().concat("/").concat(rest)
        }
    }
}

/// A path without the slashes at its end, and without the parts `.` there that are not all of it.
pub open spec fn stripped(path: Seq<char>) -> Seq<char>
    decreases path.len(),
{
    if path.len() > 0 && path.last() == '/' {
        stripped(path.drop_last())
    } else if path.len() > 1 && path.last() == '.' && path[path.len() - 2] == '/' {
        stripped(path.drop_last())
    } else {
        path
    }
}

/// The last part of a path, where it has one: the root has none, and neither has nothing.
pub open spec fn last_part(path: Seq<char>) -> Option<Seq<char>> {
    if stripped(path).len() == 0 {
        None
    } else {
        Some(after_last(stripped(path), '/'))
    }
}

/// The name of the file or directory that a path leads to, where the path says it.
pub open spec fn file_name_of(path: Seq<char>) -> Option<Seq<char>> {
    match last_part(path) {
        Some(part) => if part == "."@ || part == ".."@ {
            None
        } else {
            Some(part)
        },
        None => None,
    }
}

/// A path without its last part, where it has one.
pub open spec fn parent_of(path: Seq<char>) -> Option<Seq<char>> {
    match last_part(path) {
        Some(part) => {
            let body = stripped(path);
            let rest = stripped(body.take(body.len() - part.len()));
            if rest.len() == 0 && path[0] == '/' {
                Some("/"@)
            } else {
                Some(rest)
            }
        },
        None => None,
    }
}

proof fn stripped_is_shorter(path: Seq<char>)
    ensures
        stripped(path).len() <= path.len(),
    decreases path.len(),
{
    if path.len() > 0 {
        stripped_is_shorter(path.drop_last());
    }
}

proof fn after_last_is_shorter(s: Seq<char>, c: char)
    ensures
        after_last(s, c).len() <= s.len(),
    decreases s.len(),
{
    if s.len() > 0 && s.last() != c {
        after_last_is_shorter(s.drop_last(), c);
    }
}

/// How many characters of a path are left when it is stripped.
fn stripped_len(path: &str, len: usize) -> (r: usize)
    requires
        len <= path@.len(),
    ensures
        r <= len,
        stripped(path@.take(len as int)) == path@.take(r as int),
{
    let chars = char_vec(path);
    let mut n: usize = len;
    while n > 0 && (chars[n - 1] == '/' || n > 1 && chars[n - 1] == '.' && chars[n - 2] == '/')
        invariant
            n <= len,
            len <= path@.len(),
            chars@ == path@,
            stripped(path@.take(len as int)) == stripped(path@.take(n as int)),
        decreases n,
    {
        assert(path@.take(n as int).drop_last() == path@.take(n - 1));
        n = n - 1;
    }
    n
}

/// The last part of a path, where it has one.
fn last_part_text(path: &str) -> (r: Option<String>)
    ensures
        match r {
            Some(part) => last_part(path@) == Some(part@),
            None => last_part(path@) is None,
        },
{
    let len: usize = path.unicode_len();
    assert(path@.take(len as int) == path@);
    let n: usize = stripped_len(path, len);
    if n == 0 {
        None
    } else {
        assert(path@.subrange(0, n as int) == path@.take(n as int));
        Some(text_after_last(path.substring_char(0, n), '/'))
    }
}

/// The name of the file or directory that a path leads to, where the path says it.
pub fn file_name(path: &str) -> (r: Option<String>)
    ensures
        match r {
            Some(name) => file_name_of(path@) == Some(name@),
            None => file_name_of(path@) is None,
        },
{
    match last_part_text(path) {
        Some(part) => if same(part.as_str(), ".") || same(part.as_str(), "..") {
            None
        } else {
            Some(part)
        },
        None => None,
    }
}

/// A path without its last part, where it has one.
pub fn parent(path: &str) -> (r: Option<String>)
    ensures
        match r {
            Some(dir) => parent_of(path@) == Some(dir@),
            None => parent_of(path@) is None,
        },
{
    let part: String = match last_part_text(path) {
        Some(part) => part,
        None => {
            return None;
        },
    };
    let len: usize = path.unicode_len();
    assert(path@.take(len as int) == path@);
    let n: usize = stripped_len(path, len);
    let size: usize = part.as_str().unicode_len();
    proof {
        after_last_is_shorter(path@.take(n as int), '/');
        assert(path@.take(n as int).take(n - size) == path@.take(n - size));
    }
    let rest: usize = stripped_len(path, n - size);
    if rest == 0 && starts_with(path, "/") {
        proof {
            reveal_strlit("/");
            assert(path@[0] == "/"@[0]);
        }
        Some("/".to_owned())
    } else {
        proof {
            reveal_strlit("/");
            if rest == 0 && path@[0] == '/' {
                assert(path@.subrange(0, 1) =~= "/"@);
            }
            assert(path@.subrange(0, rest as int) == path@.take(rest as int));
        }
        Some(path.substring_char(0, rest).to_owned())
    }
}

/// What leads to a name in a directory ends in that name, and its parent is the directory.
pub proof fn joined_paths_come_apart(dir: Seq<char>, name: Seq<char>)
    requires
        name.len() > 0,
        !name.contains('/'),
        name != "."@,
        name != ".."@,
        dir.len() > 0,
        stripped(dir) == dir,
    ensures
        file_name_of(path_under(dir, name)) == Some(name),
        parent_of(path_under(dir, name)) == Some(dir),
{
    reveal_strlit("/");
    reveal_strlit(".");
    let path = path_under(dir, name);
    assert(name[0] != '/') by {
        assert(name.contains(name[0]));
    }
    assert(dir.last() != '/') by {
        stripped_is_shorter(dir.drop_last());
    }
    assert(path == dir + "/"@ + name);
    let head = dir + "/"@;
    assert(path =~= head + name);
    assert(path.last() == name.last());
    assert(name.last() != '/') by {
        assert(name.contains(name.last()));
    }
    if name.len() == 1 && name[0] == '.' {
        assert(name =~= "."@);
    }
    assert(stripped(path) == path) by {
        if name.len() > 1 {
            assert(path[path.len() - 2] == name[name.len() - 2]);
            assert(name.contains(name[name.len() - 2]));
        }
    }
    after_last_of_slashless(head, name);
    assert(path.take(path.len() - name.len()) =~= head);
    assert(head.drop_last() =~= dir);
    assert(path[0] == dir[0]);
}

proof fn after_last_of_slashless(head: Seq<char>, name: Seq<char>)
    requires
        head.len() > 0,
        head.last() == '/',
        !name.contains('/'),
    ensures
        after_last(head + name, '/') == name,
    decreases name.len(),
{
    if name.len() > 0 {
        let shorter = name.drop_last();
        assert(!shorter.contains('/')) by {
            if shorter.contains('/') {
                let k = choose|k: int| 0 <= k < shorter.len() && shorter[k] == '/';
                assert(name[k] == '/');
            }
        }
        after_last_of_slashless(head, shorter);
        assert((head + name).drop_last() =~= head + shorter);
        assert(name.contains(name.last()));
        assert(shorter.push(name.last()) =~= name);
    } else {
        assert(head + name =~= head);
        assert(name =~= Seq::<char>::empty());
    }
}

} // verus!
