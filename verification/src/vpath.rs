//! Virtual path resolution. A host path is a vector of components below
//! the host root `/`. A guest-supplied relative path is joined onto a
//! directory's path and normalized lexically; the result is accepted only
//! when it still lies under that directory, so a resolved path can never
//! escape the sandbox.

use vstd::prelude::*;

use crate::strutil::string_push;
use crate::wasi::Errno;

verus! {

pub open spec fn dot() -> Seq<char> {
    seq!['.']
}

pub open spec fn dotdot() -> Seq<char> {
    seq!['.', '.']
}

/// A well-formed component: nonempty, not a dot entry, no separator.
pub open spec fn wf_component(c: Seq<char>) -> bool {
    c.len() > 0 && c != dot() && c != dotdot() && !c.contains('/')
}

/// A well-formed absolute path: every component well-formed.
pub open spec fn wf_path(p: Seq<Seq<char>>) -> bool {
    forall|i: int| 0 <= i < p.len() ==> wf_component(#[trigger] p[i])
}

/// `base` is `p` itself or an ancestor of `p`.
pub open spec fn path_prefix_of(base: Seq<Seq<char>>, p: Seq<Seq<char>>) -> bool {
    base.len() <= p.len() && p.subrange(0, base.len() as int) == base
}

/// Apply one path component to a normalization stack: empty components
/// and `.` are skipped, `..` pops (staying at the host root when already
/// there), and any other component is appended.
pub open spec fn norm_step(stack: Seq<Seq<char>>, comp: Seq<char>) -> Seq<Seq<char>> {
    if comp.len() == 0 || comp == dot() {
        stack
    } else if comp == dotdot() {
        if stack.len() > 0 {
            stack.drop_last()
        } else {
            stack
        }
    } else {
        stack.push(comp)
    }
}

/// Normalize the characters of `rest` onto `stack`, where `comp` holds the
/// characters of the current component read so far.
pub open spec fn normalize_onto(stack: Seq<Seq<char>>, rest: Seq<char>, comp: Seq<char>) -> Seq<
    Seq<char>,
>
    decreases rest.len(),
{
    if rest.len() == 0 {
        norm_step(stack, comp)
    } else if rest[0] == '/' {
        normalize_onto(norm_step(stack, comp), rest.skip(1), Seq::empty())
    } else {
        normalize_onto(stack, rest.skip(1), comp.push(rest[0]))
    }
}

/// The absolute normalized path that `sub` names relative to `base`:
/// an absolute `sub` restarts from the host root, a relative one is
/// joined below `base`.
pub open spec fn resolve(base: Seq<Seq<char>>, sub: Seq<char>) -> Seq<Seq<char>> {
    if sub.len() > 0 && sub[0] == '/' {
        normalize_onto(Seq::empty(), sub, Seq::empty())
    } else {
        normalize_onto(base, sub, Seq::empty())
    }
}

proof fn lemma_norm_step_wf(stack: Seq<Seq<char>>, comp: Seq<char>)
    requires
        wf_path(stack),
        !comp.contains('/'),
    ensures
        wf_path(norm_step(stack, comp)),
{
    if comp.len() == 0 || comp == dot() {
    } else if comp == dotdot() {
        if stack.len() > 0 {
            assert forall|i: int| 0 <= i < stack.drop_last().len() implies wf_component(
                #[trigger] stack.drop_last()[i],
            ) by {
                assert(stack.drop_last()[i] == stack[i]);
            }
        }
    } else {
        assert(!comp.contains('/'));
        let p = stack.push(comp);
        assert forall|i: int| 0 <= i < p.len() implies wf_component(#[trigger] p[i]) by {
            if i < stack.len() {
                assert(p[i] == stack[i]);
            } else {
                assert(p[i] == comp);
            }
        }
    }
}

proof fn lemma_normalize_onto_wf(stack: Seq<Seq<char>>, rest: Seq<char>, comp: Seq<char>)
    requires
        wf_path(stack),
        !comp.contains('/'),
    ensures
        wf_path(normalize_onto(stack, rest, comp)),
    decreases rest.len(),
{
    if rest.len() == 0 {
        lemma_norm_step_wf(stack, comp);
    } else if rest[0] == '/' {
        lemma_norm_step_wf(stack, comp);
        lemma_normalize_onto_wf(norm_step(stack, comp), rest.skip(1), Seq::empty());
    } else {
        let comp2 = comp.push(rest[0]);
        assert forall|i: int| 0 <= i < comp2.len() implies comp2[i] != '/' by {
            if i < comp.len() {
                assert(comp2[i] == comp[i]);
                assert(!comp.contains('/'));
            } else {
                assert(comp2[i] == rest[0]);
            }
        }
        assert(!comp2.contains('/'));
        lemma_normalize_onto_wf(stack, rest.skip(1), comp2);
    }
}

/// A resolved path is well-formed whenever the base path is.
pub proof fn lemma_resolve_wf(base: Seq<Seq<char>>, sub: Seq<char>)
    requires
        wf_path(base),
    ensures
        wf_path(resolve(base, sub)),
{
    assert(wf_path(Seq::<Seq<char>>::empty()));
    if sub.len() > 0 && sub[0] == '/' {
        lemma_normalize_onto_wf(Seq::empty(), sub, Seq::empty());
    } else {
        lemma_normalize_onto_wf(base, sub, Seq::empty());
    }
}

/// Every path is a prefix of itself.
pub proof fn lemma_path_prefix_reflexive(p: Seq<Seq<char>>)
    ensures
        path_prefix_of(p, p),
{
    assert(p.subrange(0, p.len() as int) =~= p);
}

/// The prefix relation on paths is transitive.
pub proof fn lemma_path_prefix_transitive(a: Seq<Seq<char>>, b: Seq<Seq<char>>, c: Seq<Seq<char>>)
    requires
        path_prefix_of(a, b),
        path_prefix_of(b, c),
    ensures
        path_prefix_of(a, c),
{
    assert forall|i: int| 0 <= i < a.len() implies c.subrange(0, a.len() as int)[i] == a[i] by {
        assert(b.subrange(0, a.len() as int)[i] == b[i]);
        assert(c.subrange(0, b.len() as int)[i] == c[i]);
    }
    assert(c.subrange(0, a.len() as int) =~= a);
}

/// Clone a component path.
pub fn clone_path(p: &Vec<String>) -> (r: Vec<String>)
    ensures
        r.deep_view() == p.deep_view(),
{
    let mut r: Vec<String> = Vec::new();
    let mut i: usize = 0;
    while i < p.len()
        invariant
            i <= p.len(),
            r@.len() == i,
            forall|j: int| 0 <= j < i ==> r.deep_view()[j] == p.deep_view()[j],
        decreases p.len() - i,
    {
        let ghost pre = r@;
        r.push(p[i].clone());
        proof {
            assert(r@ == pre.push(p@[i as int]));
            assert forall|j: int| 0 <= j < i + 1 implies r.deep_view()[j] == p.deep_view()[j] by {
                assert(r.deep_view()[j] == r@[j]@);
                assert(p.deep_view()[j] == p@[j]@);
                if j < i {
                    assert(r@[j] == pre[j]);
                }
            }
        }
        i += 1;
    }
    assert(r.deep_view() =~= p.deep_view());
    r
}

/// Is `base` a prefix of `p`, component by component?
pub fn is_path_prefix(base: &Vec<String>, p: &Vec<String>) -> (r: bool)
    ensures
        r == path_prefix_of(base.deep_view(), p.deep_view()),
{
    if base.len() > p.len() {
        return false;
    }
    let mut i: usize = 0;
    while i < base.len()
        invariant
            i <= base.len() <= p.len(),
            base@.len() == base.deep_view().len(),
            p@.len() == p.deep_view().len(),
            forall|j: int| 0 <= j < i ==> base.deep_view()[j] == p.deep_view()[j],
        decreases base.len() - i,
    {
        if !(base[i] == p[i]) {
            assert(base.deep_view()[i as int] != p.deep_view()[i as int]);
            assert(!path_prefix_of(base.deep_view(), p.deep_view())) by {
                if path_prefix_of(base.deep_view(), p.deep_view()) {
                    assert(p.deep_view().subrange(0, base.deep_view().len() as int)[i as int]
                        == p.deep_view()[i as int]);
                }
            }
            return false;
        }
        i += 1;
    }
    assert(p.deep_view().subrange(0, base.deep_view().len() as int) =~= base.deep_view());
    true
}

/// Are two component paths equal?
pub fn path_eq(a: &Vec<String>, b: &Vec<String>) -> (r: bool)
    ensures
        r == (a.deep_view() == b.deep_view()),
{
    if a.len() != b.len() {
        assert(a.deep_view().len() != b.deep_view().len());
        return false;
    }
    let r = is_path_prefix(a, b);
    proof {
        if r {
            assert(a.deep_view() =~= b.deep_view());
        } else {
            if a.deep_view() == b.deep_view() {
                assert(b.deep_view().subrange(0, a.deep_view().len() as int) =~= a.deep_view());
            }
        }
    }
    r
}

/// One exec normalization step; consumes the current component.
fn exec_norm_step(stack: Vec<String>, comp: String) -> (r: Vec<String>)
    ensures
        r.deep_view() == norm_step(stack.deep_view(), comp@),
{
    let ghost gstack = stack.deep_view();
    let s = comp.as_str();
    let len = s.unicode_len();
    if len == 0 {
        return stack;
    }
    if len == 1 && s.get_char(0) == '.' {
        proof {
            assert(comp@ =~= dot());
        }
        return stack;
    }
    if len == 2 && s.get_char(0) == '.' && s.get_char(1) == '.' {
        proof {
            assert(comp@ =~= dotdot());
        }
        let mut stack = stack;
        if stack.len() > 0 {
            stack.pop();
            proof {
                assert(stack.deep_view() =~= gstack.drop_last());
            }
        }
        return stack;
    }
    proof {
        assert(comp@ != dot()) by {
            if comp@ == dot() {
                assert(comp@.len() == 1);
                assert(comp@[0] == dot()[0]);
            }
        }
        assert(comp@ != dotdot()) by {
            if comp@ == dotdot() {
                assert(comp@.len() == 2);
                assert(comp@[0] == dotdot()[0] && comp@[1] == dotdot()[1]);
            }
        }
    }
    let mut stack = stack;
    stack.push(comp);
    proof {
        assert(stack.deep_view() =~= gstack.push(comp@));
    }
    stack
}

/// Resolve `sub` against the directory path `base` and accept the result
/// only if it still lies at or below `base`; a path that would escape is
/// reported as a missing entry.
pub fn absolutize_under(base: &Vec<String>, sub: &str) -> (r: Result<Vec<String>, Errno>)
    ensures
        r matches Ok(p) ==> p.deep_view() == resolve(base.deep_view(), sub@) && path_prefix_of(
            base.deep_view(),
            p.deep_view(),
        ),
        (r is Ok) == path_prefix_of(base.deep_view(), resolve(base.deep_view(), sub@)),
        r is Err ==> r == Err::<Vec<String>, Errno>(Errno::Noent),
        wf_path(base.deep_view()) ==> (r matches Ok(p) ==> wf_path(p.deep_view())),
{
    let ghost gbase = base.deep_view();
    let ghost gsub = sub@;
    let n = sub.unicode_len();
    let absolute = n > 0 && sub.get_char(0) == '/';
    let mut stack: Vec<String>;
    if absolute {
        stack = Vec::new();
        proof {
            assert(stack.deep_view() =~= Seq::<Seq<char>>::empty());
        }
    } else {
        stack = clone_path(base);
    }
    proof {
        assert(gsub.skip(0) == gsub);
    }
    let mut comp = String::new();
    let mut i: usize = 0;
    while i < n
        invariant
            i <= n,
            n == gsub.len(),
            sub@ == gsub,
            resolve(gbase, gsub) == normalize_onto(stack.deep_view(), gsub.skip(i as int), comp@),
        decreases n - i,
    {
        let c = sub.get_char(i);
        let ghost rest = gsub.skip(i as int);
        proof {
            assert(rest[0] == gsub[i as int]);
            assert(rest.skip(1) =~= gsub.skip(i + 1 as int));
        }
        if c == '/' {
            stack = exec_norm_step(stack, comp);
            comp = String::new();
        } else {
            string_push(&mut comp, c);
        }
        i += 1;
    }
    proof {
        assert(gsub.skip(n as int) =~= Seq::<char>::empty());
    }
    let stack = exec_norm_step(stack, comp);
    proof {
        if wf_path(gbase) {
            lemma_resolve_wf(gbase, gsub);
        }
    }
    if is_path_prefix(base, &stack) {
        Ok(stack)
    } else {
        Err(Errno::Noent)
    }
}

} // verus!
