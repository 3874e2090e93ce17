//! Font fallback stacks. Finding fonts on the system and loading them is
//! the caller's; this module decides the order of the family stacks.
use vstd::prelude::*;

verus! {

/// An optional font name as a stack of zero or one names.
pub open spec fn opt_stack(name: Option<String>) -> Seq<String> {
    match name {
        Some(n) => seq![n],
        None => Seq::empty(),
    }
}

/// Put the primary font and the CJK fallback in front of a family stack:
/// the primary font first, then the CJK font, then the stack as it was.
pub fn prepend_fonts(stack: &mut Vec<String>, cjk: Option<String>, primary: Option<String>)
    ensures
        final(stack)@ == opt_stack(primary) + opt_stack(cjk) + old(stack)@,
{
    let ghost before = stack@;
    if let Some(name) = cjk {
        stack.insert(0, name);
    }
    let ghost mid = stack@;
    assert(mid =~= opt_stack(cjk) + before);
    if let Some(name) = primary {
        stack.insert(0, name);
    }
    assert(stack@ =~= opt_stack(primary) + mid);
    assert(opt_stack(primary) + (opt_stack(cjk) + before) =~= opt_stack(primary) + opt_stack(cjk)
        + before);
}

/// The heading stack: the serif font first, then the whole proportional
/// stack as fallback.
pub fn heading_stack(serif: Option<String>, proportional: &Vec<String>) -> (h: Vec<String>)
    ensures
        h@ == opt_stack(serif) + proportional@,
{
    let mut h: Vec<String> = Vec::new();
    if let Some(name) = serif {
        h.push(name);
    }
    let ghost head = h@;
    assert(head =~= opt_stack(serif));
    let n = proportional.len();
    let mut i: usize = 0;
    while i < n
        invariant
            n == proportional@.len(),
            0 <= i <= n,
            h@ =~= head + proportional@.take(i as int),
        decreases n - i,
    {
        h.push(proportional[i].clone());
        assert(proportional@.take(i + 1) =~= proportional@.take(i as int).push(proportional@[i as int]));
        i = i + 1;
    }
    assert(proportional@.take(n as int) =~= proportional@);
    h
}


/// The primary font leads the stack, the CJK font comes right after it
/// (or leads without a primary font), and the rest keeps its order.
pub proof fn lemma_prepend_order(stack: Seq<String>, cjk: Option<String>, primary: Option<String>)
    ensures
        ({
            let r = opt_stack(primary) + opt_stack(cjk) + stack;
            let k = (if primary is Some { 1int } else { 0int }) + (if cjk is Some { 1int } else { 0int });
            &&& r.len() == stack.len() + k
            &&& primary is Some ==> r[0] == primary->Some_0
            &&& cjk is Some ==> r[k - 1] == cjk->Some_0
            &&& r.skip(k) == stack
        }),
{
    let r = opt_stack(primary) + opt_stack(cjk) + stack;
    let k = (if primary is Some { 1int } else { 0int }) + (if cjk is Some { 1int } else { 0int });
    assert(r.skip(k) =~= stack);
}

} // verus!
