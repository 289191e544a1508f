use vstd::prelude::*;

use crate::query::same_text;

verus! {

/// The components left after appending `comp` to `stack`: an empty
/// component and `.` change nothing, `..` drops the last one (none above the
/// root), anything else is appended.
pub open spec fn push_component(stack: Seq<Seq<char>>, comp: Seq<char>) -> Seq<Seq<char>> {
    if comp.len() == 0 || comp == "."@ {
        stack
    } else if comp == ".."@ {
        if stack.len() > 0 {
            stack.drop_last()
        } else {
            stack
        }
    } else {
        stack.push(comp)
    }
}

/// Reads `p` from the left: the components completed so far, and the one
/// being read.
pub open spec fn scan(p: Seq<char>) -> (Seq<Seq<char>>, Seq<char>)
    decreases p.len(),
{
    if p.len() == 0 {
        (seq![], seq![])
    } else {
        let (stack, cur) = scan(p.drop_last());
        if p.last() == '/' {
            (push_component(stack, cur), seq![])
        } else {
            (stack, cur.push(p.last()))
        }
    }
}

/// The components of `p` once `.` and `..` are resolved.
pub open spec fn resolved_components(p: Seq<char>) -> Seq<Seq<char>> {
    push_component(scan(p).0, scan(p).1)
}

/// Components joined into an absolute path, each after a `/`.
pub open spec fn join_absolute(cs: Seq<Seq<char>>) -> Seq<char>
    decreases cs.len(),
{
    if cs.len() == 0 {
        seq![]
    } else {
        join_absolute(cs.drop_last()) + "/"@ + cs.last()
    }
}

/// `p` as an absolute path without empty, `.` or `..` components; the root
/// is `/`.
pub open spec fn normalized(p: Seq<char>) -> Seq<char> {
    let j = join_absolute(resolved_components(p));
    if j.len() == 0 {
        "/"@
    } else {
        j
    }
}

/// The characters of each string.
pub open spec fn views(v: Seq<String>) -> Seq<Seq<char>> {
    v.map_values(|s: String| s@)
}

fn push_component_exec(stack: &mut Vec<String>, comp: &str)
    ensures
        views(final(stack)@) == push_component(views(old(stack)@), comp@),
{
    if comp.unicode_len() == 0 || same_text(comp, ".") {
        return;
    }
    if same_text(comp, "..") {
        if stack.len() > 0 {
            stack.pop();
            assert(views(stack@) =~= views(old(stack)@).drop_last());
        }
        return;
    }
    stack.push(String::from_str(comp));
    assert(views(stack@) =~= views(old(stack)@).push(comp@));
}

/// `p` normalized: absolute, without empty, `.` or `..` components.
pub fn normalize(p: &str) -> (r: String)
    ensures
        r@ == normalized(p@),
{
    let n = p.unicode_len();
    let mut stack: Vec<String> = Vec::new();
    let mut start: usize = 0;
    let mut i: usize = 0;
    assert(views(stack@) =~= seq![]);
    assert(p@.subrange(0, 0) =~= Seq::<char>::empty());
    while i < n
        invariant
            n == p@.len(),
            start <= i <= n,
            views(stack@) == scan(p@.subrange(0, i as int)).0,
            p@.subrange(start as int, i as int) == scan(p@.subrange(0, i as int)).1,
        decreases n - i,
    {
        let ghost before = p@.subrange(0, i as int);
        assert(p@.subrange(0, i + 1).drop_last() =~= before);
        if p.get_char(i) == '/' {
            push_component_exec(&mut stack, p.substring_char(start, i));
            start = i + 1;
            assert(p@.subrange(start as int, i + 1) =~= Seq::<char>::empty());
        } else {
            assert(p@.subrange(start as int, i + 1) =~= p@.subrange(start as int, i as int).push(
                p@[i as int],
            ));
        }
        i = i + 1;
    }
    assert(p@.subrange(0, n as int) =~= p@);
    push_component_exec(&mut stack, p.substring_char(start, n));
    let mut r = String::new();
    let mut k: usize = 0;
    assert(views(stack@).subrange(0, 0) =~= Seq::<Seq<char>>::empty());
    while k < stack.len()
        invariant
            k <= stack@.len(),
            r@ == join_absolute(views(stack@).subrange(0, k as int)),
        decreases stack@.len() - k,
    {
        assert(views(stack@).subrange(0, k + 1).drop_last() =~= views(stack@).subrange(0, k as int));
        r.append("/");
        r.append(stack[k].as_str());
        k = k + 1;
    }
    assert(views(stack@).subrange(0, stack@.len() as int) =~= views(stack@));
    if stack.len() == 0 {
        return String::from_str("/");
    }
    r
}

} // verus!
