//! Properties that relate several operations, or both flavours of bundle.
use vstd::prelude::*;
use crate::discount::{apply_dynamic, DiscountStrategy, Discount, FixedDiscount};
use crate::ecommerce_heap as heap;
use crate::ecommerce_stack as stack;
use crate::render::DEPTH_STEP;

verus! {

/// A fixed discount on a non-negative price leaves the price minus the
/// amount, or zero where the amount is larger: never a negative price.
pub proof fn fixed_discount_floor(price: int, amount: i64)
    requires
        price >= 0,
        amount >= 0,
    ensures
        FixedDiscount(amount).apply_spec(price) == if price >= amount {
            price - amount
        } else {
            0
        },
        FixedDiscount(amount).apply_spec(price) >= 0,
{
}

/// A node of the generic flavour and the runtime-dispatched node of the same
/// shape, prices and strategies have equal totals, and one can be priced
/// without overflow exactly when the other can.
pub proof fn variants_agree<C: stack::ProductComponent>(n: C, c: heap::Component)
    requires
        n.matches(c),
    ensures
        n.total_spec() == heap::total(c),
        n.fits_spec() == heap::fits(c),
{
    n.lemma_matches(c);
}

/// After a runtime-dispatched bundle's strategy is replaced, its total is the
/// new strategy applied to its children's sum: bundles that differed only in
/// their former strategy now price alike.
pub proof fn heap_swap_supersedes(a: heap::ProductBundle, b: heap::ProductBundle, d: Discount)
    requires
        a.components == b.components,
    ensures
        heap::bundle_total(heap::bundle_with(a, d)) == apply_dynamic(d, heap::sum_totals(a.components@)),
        heap::bundle_total(heap::bundle_with(a, d)) == heap::bundle_total(heap::bundle_with(b, d)),
{
}

/// After a product's strategy is replaced, its total is the new strategy
/// applied to its price, whatever the former strategy was.
pub proof fn heap_item_swap_supersedes(p: heap::Product, d: Discount)
    ensures
        heap::item_total(heap::item_with(p, d)) == apply_dynamic(d, p.price as int),
{
}

/// Swapping a generic bundle's strategy yields a new bundle priced by the new
/// strategy alone, while the original value keeps its own total.
pub proof fn stack_swap_supersedes<
    C: stack::ProductComponent,
    S: DiscountStrategy,
    U: DiscountStrategy,
    T: DiscountStrategy,
>(a: stack::ProductBundle<C, S>, b: stack::ProductBundle<C, U>, t: T)
    requires
        a.components == b.components,
    ensures
        stack::bundle_total(a.with_strategy(t)) == t.apply_spec(stack::sum_totals(a.components@)),
        stack::bundle_total(a.with_strategy(t)) == stack::bundle_total(b.with_strategy(t)),
        stack::bundle_total(a) == a.discount_strategy.apply_spec(stack::sum_totals(a.components@)),
{
}

/// A node's rendering starts with its own line, at the depth asked for.
pub proof fn first_line_depth(c: heap::Component, depth: int)
    ensures
        heap::lines(c, depth).len() >= 1,
        heap::lines(c, depth)[0].0 == depth,
{
}

/// The lines of a concatenation are the lines of each part in turn.
pub proof fn lemma_lines_all_concat(a: Seq<heap::Component>, b: Seq<heap::Component>, depth: int)
    ensures
        heap::lines_all(a + b, depth) == heap::lines_all(a, depth) + heap::lines_all(b, depth),
    decreases b.len(),
{
    if b.len() == 0 {
        assert(a + b =~= a);
        assert(heap::lines_all(b, depth) =~= Seq::empty());
        assert(heap::lines_all(a, depth) + heap::lines_all(b, depth) =~= heap::lines_all(a, depth));
    } else {
        lemma_lines_all_concat(a, b.drop_last(), depth);
        assert((a + b).drop_last() =~= a + b.drop_last());
        assert((a + b).last() == b.last());
        assert(heap::lines_all(a + b, depth) =~= heap::lines_all(a, depth) + heap::lines_all(b, depth));
    }
}

/// Within a bundle rendered at `depth`, the `i`-th child's lines appear as one
/// unbroken run, rendered at `depth + 2`, after the bundle's own line and the
/// lines of the children before it.
pub proof fn heap_child_render_depth(b: heap::ProductBundle, depth: int, i: int)
    requires
        0 <= i < b.components@.len(),
    ensures
        ({
            let child = heap::lines(b.components@[i], depth + DEPTH_STEP);
            let k: int = 1 + heap::lines_all(b.components@.take(i), depth + DEPTH_STEP).len() as int;
            &&& child[0].0 == depth + 2
            &&& heap::bundle_lines(b, depth)[0].0 == depth
            &&& heap::bundle_lines(b, depth).subrange(k, k + child.len() as int) == child
        }),
{
    let s = b.components@;
    let d = depth + DEPTH_STEP;
    first_line_depth(s[i], d);
    let front = s.take(i);
    let mid = seq![s[i]];
    let back = s.skip(i + 1);
    assert(s =~= front + mid + back);
    lemma_lines_all_concat(front + mid, back, d);
    lemma_lines_all_concat(front, mid, d);
    assert(mid.drop_last() =~= Seq::<heap::Component>::empty());
    assert(heap::lines_all(mid.drop_last(), d) =~= Seq::empty());
    assert(mid.last() == s[i]);
    assert(heap::lines_all(mid, d) =~= heap::lines(s[i], d));
    let child = heap::lines(s[i], d);
    let k: int = 1 + heap::lines_all(front, d).len() as int;
    let all = heap::bundle_lines(b, depth);
    assert(all =~= seq![heap::bundle_line(b, depth)] + heap::lines_all(front, d) + child
        + heap::lines_all(back, d));
    assert(all.subrange(k, k + child.len() as int) =~= child);
}

/// The lines of a concatenation of generic nodes are the lines of each part in turn.
pub proof fn lemma_stack_lines_all_concat<C: stack::ProductComponent>(
    a: Seq<C>,
    b: Seq<C>,
    depth: int,
)
    ensures
        stack::lines_all(a + b, depth) == stack::lines_all(a, depth) + stack::lines_all(b, depth),
    decreases b.len(),
{
    if b.len() == 0 {
        assert(a + b =~= a);
        assert(stack::lines_all(b, depth) =~= Seq::empty());
        assert(stack::lines_all(a, depth) + stack::lines_all(b, depth) =~= stack::lines_all(a, depth));
    } else {
        lemma_stack_lines_all_concat(a, b.drop_last(), depth);
        assert((a + b).drop_last() =~= a + b.drop_last());
        assert((a + b).last() == b.last());
        assert(stack::lines_all(a + b, depth) =~= stack::lines_all(a, depth) + stack::lines_all(
            b,
            depth,
        ));
    }
}

/// Within a generic bundle rendered at `depth`, the `i`-th child's lines
/// appear as one unbroken run, rendered at `depth + 2`, after the bundle's own
/// line and the lines of the children before it.
pub proof fn stack_child_render_depth<C: stack::ProductComponent, S: DiscountStrategy>(
    b: stack::ProductBundle<C, S>,
    depth: int,
    i: int,
)
    requires
        0 <= i < b.components@.len(),
    ensures
        ({
            let child = b.components@[i].lines_spec(depth + DEPTH_STEP);
            let k: int = 1 + stack::lines_all(b.components@.take(i), depth + DEPTH_STEP).len() as int;
            &&& stack::bundle_lines(b, depth)[0].0 == depth
            &&& stack::bundle_lines(b, depth).subrange(k, k + child.len() as int) == child
        }),
{
    let s = b.components@;
    let d = depth + DEPTH_STEP;
    let front = s.take(i);
    let mid = seq![s[i]];
    let back = s.skip(i + 1);
    assert(s =~= front + mid + back);
    lemma_stack_lines_all_concat(front + mid, back, d);
    lemma_stack_lines_all_concat(front, mid, d);
    assert(mid.drop_last() =~= Seq::<C>::empty());
    assert(stack::lines_all(mid.drop_last(), d) =~= Seq::empty());
    assert(mid.last() == s[i]);
    assert(stack::lines_all(mid, d) =~= s[i].lines_spec(d));
    let child = s[i].lines_spec(d);
    let k: int = 1 + stack::lines_all(front, d).len() as int;
    let all = stack::bundle_lines(b, depth);
    assert(all =~= all.take(1) + stack::lines_all(front, d) + child + stack::lines_all(back, d));
    assert(all.subrange(k, k + child.len() as int) =~= child);
}

} // verus!
