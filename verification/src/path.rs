//! Paths on the host, as text.

use vstd::prelude::*;
use vstd::string::*;

use crate::text;

verus! {

/// `part` under `base`: an absolute `part` stands for itself, and otherwise a
/// separator divides the two unless `base` is empty or ends with one.
pub open spec fn joined(base: Seq<char>, part: Seq<char>) -> Seq<char> {
    if part.len() > 0 && part[0] == '/' {
        part
    } else if base.len() == 0 || base.last() == '/' {
        base + part
    } else {
        base + seq!['/'] + part
    }
}

/// Joins two paths.
pub fn join(base: &str, part: &str) -> (r: String)
    ensures
        r@ == joined(base@, part@),
{
    proof {
        reveal_strlit("/");
        assert("/"@ =~= seq!['/']);
    }
    if part.unicode_len() > 0 && part.get_char(0) == '/' {
        return part.to_string();
    }
    let mut path = base.to_string();
    let n = base.unicode_len();
    if n > 0 && base.get_char(n - 1) != '/' {
        path.append("/");
    }
    path.append(part);
    path
}

/// Is `s` the name of one file or directory: not empty, not `.` or `..`, and
/// without a separator or a NUL?
pub open spec fn is_component(s: Seq<char>) -> bool {
    &&& s.len() > 0
    &&& s != seq!['.']
    &&& s != seq!['.', '.']
    &&& !s.contains('/')
    &&& !s.contains('\0')
}

/// Does `s` name one file or directory?
pub fn names_one_component(s: &str) -> (r: bool)
    ensures
        r == is_component(s@),
{
    let cs = text::chars_of(s);
    let n = cs.len();
    if n == 0 {
        return false;
    }
    if n == 1 && cs[0] == '.' {
        assert(s@ =~= seq!['.']);
        return false;
    }
    if n == 2 && cs[0] == '.' && cs[1] == '.' {
        assert(s@ =~= seq!['.', '.']);
        return false;
    }
    let mut i: usize = 0;
    while i < n
        invariant
            i <= n,
            n == cs.len(),
            cs@ == s@,
            forall|j: int| 0 <= j < i ==> s@[j] != '/' && s@[j] != '\0',
        decreases n - i,
    {
        if cs[i] == '/' || cs[i] == '\0' {
            assert(s@.contains(s@[i as int]));
            return false;
        }
        i += 1;
    }
    true
}

/// `s` without the separators at its end.
pub open spec fn without_trailing_separators(s: Seq<char>) -> Seq<char>
    decreases s.len(),
{
    if s.len() > 0 && s.last() == '/' {
        without_trailing_separators(s.drop_last())
    } else {
        s
    }
}

/// `s` up to its last separator, with it. Empty where there is none.
pub open spec fn through_last_separator(s: Seq<char>) -> Seq<char>
    decreases s.len(),
{
    if s.len() > 0 && s.last() != '/' {
        through_last_separator(s.drop_last())
    } else {
        s
    }
}

/// The path without its last component, where it has one. The parent of a
/// component alone is the empty path, and the root has none.
pub open spec fn parent_of(path: Seq<char>) -> Option<Seq<char>> {
    let named = without_trailing_separators(path);
    let head = through_last_separator(named);
    if named.len() == 0 {
        None
    } else if head.len() > 0 && without_trailing_separators(head).len() == 0 {
        Some(seq!['/'])
    } else {
        Some(without_trailing_separators(head))
    }
}

proof fn lemma_trailing(s: Seq<char>)
    ensures
        without_trailing_separators(s).len() <= s.len(),
        without_trailing_separators(s).len() > 0 ==> without_trailing_separators(s).last() != '/',
        through_last_separator(s).len() <= s.len(),
        s.len() > 0 && s.last() != '/' ==> through_last_separator(s).len() < s.len(),
    decreases s.len(),
{
    if s.len() > 0 {
        lemma_trailing(s.drop_last());
    }
}

/// The path, its parent, the parent of that, and so on.
pub open spec fn ancestors_of(path: Seq<char>) -> Seq<Seq<char>>
    decreases path.len(),
    via ancestors_end
{
    match parent_of(path) {
        Some(parent) => seq![path] + ancestors_of(parent),
        None => seq![path],
    }
}

#[via_fn]
proof fn ancestors_end(path: Seq<char>) {
    lemma_parent(path);
}

proof fn lemma_parent(path: Seq<char>)
    ensures
        parent_of(path) matches Some(parent) ==> parent.len() < path.len(),
{
    let named = without_trailing_separators(path);
    let head = through_last_separator(named);
    lemma_trailing(path);
    lemma_trailing(named);
    lemma_trailing(head);
}

fn len_without_separators(cs: &Vec<char>, end: usize) -> (r: usize)
    requires
        end <= cs@.len(),
    ensures
        r <= end,
        cs@.take(r as int) == without_trailing_separators(cs@.take(end as int)),
{
    let mut n = end;
    while n > 0 && cs[n - 1] == '/'
        invariant
            n <= end <= cs@.len(),
            without_trailing_separators(cs@.take(n as int)) == without_trailing_separators(
                cs@.take(end as int),
            ),
        decreases n,
    {
        assert(cs@.take(n as int).drop_last() =~= cs@.take(n - 1));
        n -= 1;
    }
    n
}

fn len_through_separator(cs: &Vec<char>, end: usize) -> (r: usize)
    requires
        end <= cs@.len(),
    ensures
        r <= end,
        cs@.take(r as int) == through_last_separator(cs@.take(end as int)),
{
    let mut n = end;
    while n > 0 && cs[n - 1] != '/'
        invariant
            n <= end <= cs@.len(),
            through_last_separator(cs@.take(n as int)) == through_last_separator(
                cs@.take(end as int),
            ),
        decreases n,
    {
        assert(cs@.take(n as int).drop_last() =~= cs@.take(n - 1));
        n -= 1;
    }
    n
}

/// The path without its last component, where it has one.
pub fn parent(path: &str) -> (r: Option<String>)
    ensures
        match r {
            Some(parent) => parent_of(path@) == Some(parent@),
            None => parent_of(path@) is None,
        },
{
    let cs = text::chars_of(path);
    assert(cs@.take(cs@.len() as int) =~= cs@);
    let named = len_without_separators(&cs, cs.len());
    if named == 0 {
        return None;
    }
    let head = len_through_separator(&cs, named);
    let end = len_without_separators(&cs, head);
    if head > 0 && end == 0 {
        proof {
            reveal_strlit("/");
            assert("/"@ =~= seq!['/']);
        }
        return Some("/".to_string());
    }
    let parent = path.substring_char(0, end);
    assert(parent@ =~= cs@.take(end as int));
    Some(parent.to_string())
}

/// The path, its parent, the parent of that, and so on.
pub fn ancestors(path: &str) -> (r: Vec<String>)
    ensures
        r.deep_view() == ancestors_of(path@),
{
    let mut found: Vec<String> = vec![path.to_string()];
    let mut here: String = path.to_string();
    let ghost mut before: Seq<Seq<char>> = seq![];
    assert(found.deep_view() =~= before.push(here@));
    assert(before + ancestors_of(here@) =~= ancestors_of(path@));
    loop
        invariant
            found.deep_view() == before.push(here@),
            before + ancestors_of(here@) == ancestors_of(path@),
        decreases here@.len(),
    {
        proof {
            lemma_parent(here@);
        }
        match parent(here.as_str()) {
            Some(next) => {
                let ghost last = here@;
                let ghost so_far = found.deep_view();
                found.push(next.clone());
                here = next;
                proof {
                    assert(found.deep_view() =~= so_far.push(here@));
                    assert((before + seq![last]) + ancestors_of(here@) =~= before + (seq![last]
                        + ancestors_of(here@)));
                    before = before.push(last);
                    assert(before + ancestors_of(here@) =~= ancestors_of(path@));
                }
            },
            None => {
                assert(before.push(here@) =~= before + seq![here@]);
                return found;
            },
        }
    }
}

/// One component under a base that is not empty and does not end with a
/// separator lies right below it, and tells which component it is.
pub proof fn lemma_component(base: Seq<char>, a: Seq<char>, b: Seq<char>)
    requires
        base.len() > 0,
        base.last() != '/',
        is_component(a),
        is_component(b),
    ensures
        joined(base, a) == base + seq!['/'] + a,
        joined(base, a) == joined(base, b) ==> a == b,
{
    assert(a.contains(a[0]));
    assert(b.contains(b[0]));
    if joined(base, a) == joined(base, b) {
        let n = base.len() as int + 1;
        assert(joined(base, a).skip(n) =~= a);
        assert(joined(base, b).skip(n) =~= b);
    }
}

/// A relative path lies below its base, behind one separator. An absolute path
/// stands for itself.
pub proof fn law_joining_paths(base: Seq<char>, part: Seq<char>)
    ensures
        part.len() > 0 && part[0] == '/' ==> joined(base, part) == part,
        !(part.len() > 0 && part[0] == '/') && base.len() > 0 && base.last() != '/' ==> joined(
            base,
            part,
        ) == base + seq!['/'] + part,
        !(part.len() > 0 && part[0] == '/') && (base.len() == 0 || base.last() == '/') ==> joined(
            base,
            part,
        ) == base + part,
{
}

/// A component is any name but the empty one, `.` and `..`, without a separator
/// and without a NUL.
pub proof fn law_components(s: Seq<char>)
    ensures
        is_component(s) <==> {
            &&& s.len() > 0
            &&& !(s.len() == 1 && s[0] == '.')
            &&& !(s.len() == 2 && s[0] == '.' && s[1] == '.')
            &&& forall|i: int| 0 <= i < s.len() ==> #[trigger] s[i] != '/' && s[i] != '\0'
        },
{
    if s.len() == 1 && s[0] == '.' {
        assert(s =~= seq!['.']);
    }
    if s.len() == 2 && s[0] == '.' && s[1] == '.' {
        assert(s =~= seq!['.', '.']);
    }
    if is_component(s) {
        assert forall|i: int| 0 <= i < s.len() implies #[trigger] s[i] != '/' && s[i] != '\0' by {
            assert(s.contains(s[i]));
        }
    }
}

/// The parent of a component below a directory is that directory, and the first
/// ancestor of a path is the path itself.
pub proof fn law_parent_of_a_joined_path(base: Seq<char>, part: Seq<char>)
    requires
        base.len() > 0,
        base.last() != '/',
        is_component(part),
    ensures
        parent_of(joined(base, part)) == Some(base),
        ancestors_of(joined(base, part)) == seq![joined(base, part)] + ancestors_of(base),
        ancestors_of(base)[0] == base,
{
    let path = joined(base, part);
    assert(part.contains(part[0]));
    assert(part.contains(part.last()));
    assert(path =~= base + seq!['/'] + part);
    assert(without_trailing_separators(path) == path);
    lemma_through_separator(base, part);
    let head = base + seq!['/'];
    assert(head.drop_last() =~= base);
    assert(without_trailing_separators(head) == without_trailing_separators(base));
}

proof fn lemma_through_separator(base: Seq<char>, part: Seq<char>)
    requires
        !part.contains('/'),
    ensures
        through_last_separator(base + seq!['/'] + part) == base + seq!['/'],
    decreases part.len(),
{
    let path = base + seq!['/'] + part;
    if part.len() == 0 {
        assert(path =~= base + seq!['/']);
    } else {
        assert(part.contains(part.last()));
        let rest = part.drop_last();
        assert(!rest.contains('/')) by {
            if rest.contains('/') {
                let i = choose|i: int| 0 <= i < rest.len() && rest[i] == '/';
                assert(part[i] == '/');
            }
        }
        assert(path.drop_last() =~= base + seq!['/'] + rest);
        lemma_through_separator(base, rest);
    }
}

} // verus!
