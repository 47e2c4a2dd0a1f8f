//! Absolute paths as character strings: the parent of a path, its final
//! component, and joining a path with one child component.

use vstd::prelude::*;
use vstd::string::*;

verus! {

/// Index of the last '/' in `s`, or -1 when `s` holds none.
pub open spec fn last_slash_idx(s: Seq<char>) -> int
    decreases s.len(),
{
    if s.len() == 0 {
        -1
    } else if s[s.len() - 1] == '/' {
        s.len() - 1
    } else {
        last_slash_idx(s.drop_last())
    }
}

/// The parent of a path: everything before the last '/'. A path whose only
/// '/' is its first character keeps that character (the root stays "/"),
/// and a path without any '/' has the empty parent.
pub open spec fn parent_of(s: Seq<char>) -> Seq<char> {
    let i = last_slash_idx(s);
    if i < 0 {
        Seq::empty()
    } else if i == 0 {
        s.subrange(0, 1)
    } else {
        s.subrange(0, i)
    }
}

/// The final component of a path: everything after the last '/', or the
/// whole path when it holds none.
pub open spec fn last_component_of(s: Seq<char>) -> Seq<char> {
    let i = last_slash_idx(s);
    if i < 0 {
        s
    } else {
        s.subrange(i + 1, s.len() as int)
    }
}

/// Appending one child component: a separating '/' is inserted unless the
/// path is empty or already ends with '/'.
pub open spec fn join_of(p: Seq<char>, name: Seq<char>) -> Seq<char> {
    if p.len() == 0 {
        name
    } else if p[p.len() - 1] == '/' {
        p + name
    } else {
        p + seq!['/'] + name
    }
}

/// A component never holds a separator.
pub open spec fn slash_free(name: Seq<char>) -> bool {
    forall|k: int| 0 <= k < name.len() ==> name[k] != '/'
}

/// A directory path in the shape navigation produces: the root "/", the
/// empty path, or a path without a trailing '/'.
pub open spec fn no_trailing_slash(p: Seq<char>) -> bool {
    p.len() == 0 || p =~= seq!['/'] || p[p.len() - 1] != '/'
}

/// The last-slash index points at a '/', and nothing after it is a '/'.
pub proof fn lemma_last_slash_idx_props(s: Seq<char>)
    ensures
        -1 <= last_slash_idx(s) < s.len(),
        last_slash_idx(s) >= 0 ==> s[last_slash_idx(s)] == '/',
        forall|k: int| last_slash_idx(s) < k < s.len() ==> s[k] != '/',
    decreases s.len(),
{
    if s.len() == 0 {
    } else if s[s.len() - 1] == '/' {
    } else {
        lemma_last_slash_idx_props(s.drop_last());
        assert(forall|k: int|
            last_slash_idx(s) < k < s.len() - 1 ==> s[k] == s.drop_last()[k] && s[k] != '/');
    }
}

/// Dropping a slash-free suffix does not move the last slash.
pub proof fn lemma_last_slash_idx_append(p: Seq<char>, n: Seq<char>)
    requires
        slash_free(n),
    ensures
        last_slash_idx(p + n) == last_slash_idx(p),
    decreases n.len(),
{
    if n.len() == 0 {
        assert(p + n =~= p);
    } else {
        assert((p + n)[(p + n).len() - 1] == n[n.len() - 1]);
        Seq::<char>::drop_last_distributes_over_add(p, n);
        lemma_last_slash_idx_append(p, n.drop_last());
    }
}

/// Ascending from a joined path undoes the join: for a slash-free, nonempty
/// component, the parent of `join_of(p, name)` is `p` again and its final
/// component is `name`. This is what lets the browser descend into a child
/// directory and come back to exactly the directory it left.
pub proof fn lemma_join_round_trip(p: Seq<char>, name: Seq<char>)
    requires
        name.len() > 0,
        slash_free(name),
        no_trailing_slash(p),
    ensures
        parent_of(join_of(p, name)) == p,
        last_component_of(join_of(p, name)) == name,
{
    if p.len() == 0 {
        let j = join_of(p, name);
        assert(j == name);
        lemma_last_slash_idx_append(Seq::empty(), name);
        assert(last_slash_idx(Seq::<char>::empty() + name) == last_slash_idx(name));
        assert(Seq::<char>::empty() + name =~= name);
        assert(last_slash_idx(Seq::<char>::empty()) == -1);
        assert(parent_of(j) =~= p);
    } else if p[p.len() - 1] == '/' {
        // p is exactly "/": the join is "/" + name.
        assert(p =~= seq!['/']);
        let j = p + name;
        lemma_last_slash_idx_append(p, name);
        assert(last_slash_idx(p) == 0);
        assert(last_slash_idx(j) == 0);
        assert(parent_of(j) =~= p);
        assert(last_component_of(j) =~= name);
    } else {
        let sep = seq!['/'];
        let j = p + sep + name;
        lemma_last_slash_idx_append(p + sep, name);
        assert((p + sep)[(p + sep).len() - 1] == '/');
        assert(last_slash_idx(p + sep) == p.len());
        assert(last_slash_idx(j) == p.len());
        assert(parent_of(j) =~= p);
        assert(last_component_of(j) =~= name);
    }
}

/// Finds the index of the last '/' in `s`, if any.
fn find_last_slash(s: &str) -> (r: Option<usize>)
    ensures
        match r {
            Some(i) => i == last_slash_idx(s@),
            None => last_slash_idx(s@) == -1,
        },
{
    let n = s.unicode_len();
    let mut j = n;
    proof {
        assert(s@.subrange(0, n as int) =~= s@);
    }
    while j > 0
        invariant
            0 <= j <= n,
            n == s@.len(),
            last_slash_idx(s@) == last_slash_idx(s@.subrange(0, j as int)),
        decreases j,
    {
        let c = s.get_char(j - 1);
        if c == '/' {
            proof {
                let pre = s@.subrange(0, j as int);
                assert(pre[pre.len() - 1] == s@[j - 1]);
            }
            return Some(j - 1);
        }
        proof {
            let pre = s@.subrange(0, j as int);
            assert(pre[pre.len() - 1] == s@[j - 1]);
            assert(pre.drop_last() =~= s@.subrange(0, j - 1));
        }
        j = j - 1;
    }
    proof {
        assert(s@.subrange(0, 0) =~= Seq::<char>::empty());
    }
    None
}

/// Returns the parent of `s`, as [`parent_of`] describes it.
pub fn path_parent(s: &str) -> (r: String)
    ensures
        r@ == parent_of(s@),
{
    proof {
        lemma_last_slash_idx_props(s@);
    }
    match find_last_slash(s) {
        None => String::new(),
        Some(i) => {
            if i == 0 {
                String::from_str(s.substring_char(0, 1))
            } else {
                String::from_str(s.substring_char(0, i))
            }
        },
    }
}

/// Returns the final component of `s`, as [`last_component_of`] describes it.
pub fn path_last(s: &str) -> (r: String)
    ensures
        r@ == last_component_of(s@),
{
    proof {
        lemma_last_slash_idx_props(s@);
    }
    let n = s.unicode_len();
    match find_last_slash(s) {
        None => String::from_str(s),
        Some(i) => String::from_str(s.substring_char(i + 1, n)),
    }
}

/// Joins `p` with one child component, as [`join_of`] describes it.
pub fn path_join(p: &str, name: &str) -> (r: String)
    ensures
        r@ == join_of(p@, name@),
{
    let n = p.unicode_len();
    if n == 0 {
        String::from_str(name)
    } else if p.get_char(n - 1) == '/' {
        let mut r = String::from_str(p);
        r.append(name);
        r
    } else {
        let mut r = String::from_str(p);
        r.append("/");
        r.append(name);
        proof {
            reveal_strlit("/");
            assert(("/")@ =~= seq!['/']);
            assert(r@ =~= p@ + seq!['/'] + name@);
        }
        r
    }
}

} // verus!
