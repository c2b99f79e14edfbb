//! Static dispatch: a bundle's child type and strategy type are type
//! parameters, so all children of one bundle share one type, and changing a
//! strategy consumes the node and returns a new one of a new type.
use vstd::prelude::*;
use crate::discount::{in_i64, DiscountStrategy, NoDiscount, PercentageDiscount};
use crate::ecommerce_heap as heap;
use crate::render::{lemma_views_concat, views, LineView, NodeKind, RenderLine, DEPTH_STEP};

verus! {

/// What a node offers: its total and its rendering.
pub trait ProductComponent: Sized {
    /// The node's total price.
    spec fn total_spec(&self) -> int;

    /// Every amount met while pricing the node fits in an `i64`.
    spec fn fits_spec(&self) -> bool;

    /// The lines that render the node at `depth`.
    spec fn lines_spec(&self, depth: int) -> Seq<LineView>;

    /// How many bundle levels the node spans.
    spec fn height_spec(&self) -> nat;

    /// `c` is a runtime-dispatched node of the same shape, with the same
    /// prices and the same strategies.
    spec fn matches(&self, c: heap::Component) -> bool;

    /// A matching runtime-dispatched node has the same total, and fits exactly
    /// when this node does.
    proof fn lemma_matches(&self, c: heap::Component)
        requires
            self.matches(c),
        ensures
            self.total_spec() == heap::total(c),
            self.fits_spec() == heap::fits(c),
    ;

    /// The node's total price; every amount met on the way must fit in an `i64`.
    fn get_total_price(&self) -> (r: i64)
        requires
            self.fits_spec(),
        ensures
            r == self.total_spec(),
    ;

    /// The node's lines, depth first and parent first, starting at `depth`.
    fn display(&self, depth: usize) -> (r: Vec<RenderLine>)
        requires
            self.fits_spec(),
            depth + DEPTH_STEP * self.height_spec() <= usize::MAX,
        ensures
            views(r@) == self.lines_spec(depth as int),
    ;
}

/// A leaf whose strategy type is part of its own type.
#[derive(Clone)]
pub struct Product<S: DiscountStrategy> {
    pub name: String,
    pub price: i64,
    pub discount_strategy: S,
}

/// A composite of children of one type `C`, priced under a strategy of type `S`.
#[derive(Clone)]
pub struct ProductBundle<C: ProductComponent, S: DiscountStrategy> {
    pub name: String,
    pub components: Vec<C>,
    pub discount_strategy: S,
}

/// The sum of the totals of a sequence of nodes.
pub open spec fn sum_totals<C: ProductComponent>(s: Seq<C>) -> int
    decreases s.len(),
{
    if s.len() == 0 {
        0
    } else {
        sum_totals(s.drop_last()) + s.last().total_spec()
    }
}

/// Every node fits, and so does each running sum of their totals.
pub open spec fn all_fit<C: ProductComponent>(s: Seq<C>) -> bool
    decreases s.len(),
{
    if s.len() == 0 {
        true
    } else {
        all_fit(s.drop_last()) && s.last().fits_spec() && in_i64(sum_totals(s))
    }
}

/// The lines of each node in turn, all at `depth`.
pub open spec fn lines_all<C: ProductComponent>(s: Seq<C>, depth: int) -> Seq<LineView>
    decreases s.len(),
{
    if s.len() == 0 {
        Seq::empty()
    } else {
        lines_all(s.drop_last(), depth) + s.last().lines_spec(depth)
    }
}

/// The greatest height among a sequence of nodes.
pub open spec fn max_height<C: ProductComponent>(s: Seq<C>) -> nat
    decreases s.len(),
{
    if s.len() == 0 {
        0
    } else {
        let a = max_height(s.drop_last());
        let b = s.last().height_spec();
        if a >= b { a } else { b }
    }
}

/// The strategy applied once to the sum of the children's totals.
pub open spec fn bundle_total<C: ProductComponent, S: DiscountStrategy>(b: ProductBundle<C, S>) -> int {
    b.discount_strategy.apply_spec(sum_totals(b.components@))
}

/// Every amount met while pricing the bundle fits in an `i64`.
pub open spec fn bundle_fits<C: ProductComponent, S: DiscountStrategy>(b: ProductBundle<C, S>) -> bool {
    all_fit(b.components@) && in_i64(bundle_total(b))
}

/// The bundle's own line, then each child rendered two levels deeper, in order.
pub open spec fn bundle_lines<C: ProductComponent, S: DiscountStrategy>(
    b: ProductBundle<C, S>,
    depth: int,
) -> Seq<LineView> {
    seq![(depth, NodeKind::Bundle, b.name@, bundle_total(b), b.discount_strategy.dynamic().name_spec())]
        + lines_all(b.components@, depth + DEPTH_STEP)
}

/// A prefix of a sequence that fits fits too.
pub proof fn lemma_prefix_fits<C: ProductComponent>(s: Seq<C>, k: int)
    requires
        all_fit(s),
        0 <= k <= s.len(),
    ensures
        all_fit(s.subrange(0, k)),
        k > 0 ==> s[k - 1].fits_spec(),
        in_i64(sum_totals(s.subrange(0, k))),
    decreases s.len(),
{
    if k < s.len() {
        lemma_prefix_fits(s.drop_last(), k);
        assert(s.drop_last().subrange(0, k) =~= s.subrange(0, k));
    } else {
        assert(s.subrange(0, k) =~= s);
    }
}

/// No node of a sequence is taller than the sequence's greatest height.
pub proof fn lemma_height_le_max<C: ProductComponent>(s: Seq<C>, i: int)
    requires
        0 <= i < s.len(),
    ensures
        s[i].height_spec() <= max_height(s),
    decreases s.len(),
{
    if i < s.len() - 1 {
        lemma_height_le_max(s.drop_last(), i);
    }
}

/// Sequences of matching nodes have equal sums, and fit together.
pub proof fn lemma_all_match<C: ProductComponent>(s: Seq<C>, t: Seq<heap::Component>)
    requires
        s.len() == t.len(),
        forall|i: int| 0 <= i < s.len() ==> #[trigger] s[i].matches(t[i]),
    ensures
        sum_totals(s) == heap::sum_totals(t),
        all_fit(s) == heap::all_fit(t),
    decreases s.len(),
{
    if s.len() > 0 {
        lemma_all_match(s.drop_last(), t.drop_last());
        s.last().lemma_matches(t.last());
    }
}

impl<S: DiscountStrategy> Product<S> {
    /// A product named `name` at `price`, priced under `strategy`.
    pub fn new(name: &str, price: i64, strategy: S) -> (r: Product<S>)
        requires
            price >= 0,
        ensures
            r.name@ == name@,
            r.price == price,
            r.discount_strategy == strategy,
    {
        Product { name: name.to_owned(), price, discount_strategy: strategy }
    }

    /// Consumes the product and returns it under a strategy of another type.
    pub fn set_strategy<T: DiscountStrategy>(self, strategy: T) -> (r: Product<T>)
        ensures
            r.name == self.name,
            r.price == self.price,
            r.discount_strategy == strategy,
    {
        Product { name: self.name, price: self.price, discount_strategy: strategy }
    }
}

impl<S: DiscountStrategy> ProductComponent for Product<S> {
    open spec fn total_spec(&self) -> int {
        self.discount_strategy.apply_spec(self.price as int)
    }

    open spec fn fits_spec(&self) -> bool {
        in_i64(self.total_spec())
    }

    open spec fn lines_spec(&self, depth: int) -> Seq<LineView> {
        seq![(depth, NodeKind::Item, self.name@, self.total_spec(), self.discount_strategy.dynamic().name_spec())]
    }

    open spec fn height_spec(&self) -> nat {
        0
    }

    open spec fn matches(&self, c: heap::Component) -> bool {
        match c {
            heap::Component::Item(p) => p.price == self.price && p.discount_strategy
                == self.discount_strategy.dynamic(),
            heap::Component::Bundle(_) => false,
        }
    }

    proof fn lemma_matches(&self, c: heap::Component) {
        self.discount_strategy.lemma_dynamic_agrees(self.price as int);
    }

    fn get_total_price(&self) -> (r: i64) {
        self.discount_strategy.apply_discount(self.price)
    }

    fn display(&self, depth: usize) -> (r: Vec<RenderLine>) {
        let line = RenderLine {
            depth,
            kind: NodeKind::Item,
            name: self.name.clone(),
            total: self.get_total_price(),
            strategy: self.discount_strategy.strategy_name(),
        };
        let r = vec![line];
        assert(views(r@) =~= self.lines_spec(depth as int));
        r
    }
}

impl<C: ProductComponent, S: DiscountStrategy> ProductBundle<C, S> {
    /// The same name and children under `t`.
    pub open spec fn with_strategy<T: DiscountStrategy>(self, t: T) -> ProductBundle<C, T> {
        ProductBundle { name: self.name, components: self.components, discount_strategy: t }
    }

    /// A bundle of `components`, in order, priced under `strategy`.
    pub fn new(name: &str, components: Vec<C>, strategy: S) -> (r: ProductBundle<C, S>)
        ensures
            r.name@ == name@,
            r.components@ == components@,
            r.discount_strategy == strategy,
    {
        ProductBundle { name: name.to_owned(), components, discount_strategy: strategy }
    }

    /// The strategy applied to the sum of the children's totals, taken in order.
    pub fn get_total_price(&self) -> (r: i64)
        requires
            bundle_fits(*self),
        ensures
            r == bundle_total(*self),
    {
        let mut sum: i64 = 0;
        let mut i: usize = 0;
        while i < self.components.len()
            invariant
                0 <= i <= self.components@.len(),
                bundle_fits(*self),
                sum == sum_totals(self.components@.subrange(0, i as int)),
            decreases self.components@.len() - i,
        {
            let ghost s = self.components@;
            proof {
                lemma_prefix_fits(s, i as int + 1);
                assert(s.subrange(0, i as int + 1).drop_last() =~= s.subrange(0, i as int));
            }
            let t = self.components[i].get_total_price();
            sum = sum + t;
            i = i + 1;
        }
        proof {
            assert(self.components@.subrange(0, i as int) =~= self.components@);
        }
        self.discount_strategy.apply_discount(sum)
    }

    /// The bundle's own line at `depth`, then each child's lines at `depth + 2`.
    pub fn display(&self, depth: usize) -> (r: Vec<RenderLine>)
        requires
            bundle_fits(*self),
            depth + DEPTH_STEP * (1 + max_height(self.components@)) <= usize::MAX,
        ensures
            views(r@) == bundle_lines(*self, depth as int),
    {
        let line = RenderLine {
            depth,
            kind: NodeKind::Bundle,
            name: self.name.clone(),
            total: self.get_total_price(),
            strategy: self.discount_strategy.strategy_name(),
        };
        let mut out = vec![line];
        let child_depth: usize = depth + DEPTH_STEP;
        let ghost s = self.components@;
        let mut i: usize = 0;
        assert(views(out@) =~= bundle_lines(*self, depth as int).take(1) + lines_all(
            s.subrange(0, 0),
            child_depth as int,
        ));
        while i < self.components.len()
            invariant
                0 <= i <= s.len(),
                s == self.components@,
                bundle_fits(*self),
                child_depth == depth + DEPTH_STEP,
                depth + DEPTH_STEP * (1 + max_height(s)) <= usize::MAX,
                views(out@) == bundle_lines(*self, depth as int).take(1) + lines_all(
                    s.subrange(0, i as int),
                    child_depth as int,
                ),
            decreases s.len() - i,
        {
            proof {
                lemma_prefix_fits(s, i as int + 1);
                lemma_height_le_max(s, i as int);
                assert(s.subrange(0, i as int + 1).drop_last() =~= s.subrange(0, i as int));
            }
            let mut sub = self.components[i].display(child_depth);
            proof {
                lemma_views_concat(out@, sub@);
            }
            out.append(&mut sub);
            i = i + 1;
        }
        assert(s.subrange(0, i as int) =~= s);
        assert(bundle_lines(*self, depth as int) =~= bundle_lines(*self, depth as int).take(1)
            + lines_all(s, child_depth as int));
        out
    }

    /// Consumes the bundle and returns it under a strategy of another type;
    /// the children are moved over unchanged.
    pub fn set_discount_strategy<T: DiscountStrategy>(self, strategy: T) -> (r: ProductBundle<C, T>)
        ensures
            r == self.with_strategy(strategy),
    {
        ProductBundle { name: self.name, components: self.components, discount_strategy: strategy }
    }
}

impl<C: ProductComponent, S: DiscountStrategy> ProductComponent for ProductBundle<C, S> {
    open spec fn total_spec(&self) -> int {
        bundle_total(*self)
    }

    open spec fn fits_spec(&self) -> bool {
        bundle_fits(*self)
    }

    open spec fn lines_spec(&self, depth: int) -> Seq<LineView> {
        bundle_lines(*self, depth)
    }

    open spec fn height_spec(&self) -> nat {
        1 + max_height(self.components@)
    }

    open spec fn matches(&self, c: heap::Component) -> bool {
        match c {
            heap::Component::Item(_) => false,
            heap::Component::Bundle(b) => {
                &&& b.discount_strategy == self.discount_strategy.dynamic()
                &&& b.components@.len() == self.components@.len()
                &&& forall|i: int|
                    0 <= i < self.components@.len() ==> #[trigger] self.components@[i].matches(
                        b.components@[i],
                    )
            },
        }
    }

    proof fn lemma_matches(&self, c: heap::Component) {
        if let heap::Component::Bundle(b) = c {
            lemma_all_match(self.components@, b.components@);
            self.discount_strategy.lemma_dynamic_agrees(sum_totals(self.components@));
        }
    }

    fn get_total_price(&self) -> (r: i64) {
        ProductBundle::get_total_price(self)
    }

    fn display(&self, depth: usize) -> (r: Vec<RenderLine>) {
        ProductBundle::display(self, depth)
    }
}

/// A sample bundle: a laptop, a mouse and a keyboard at 15000.00, 1200.00
/// and 800.00, none discounted, under 15% off the bundle.
pub fn new_test() -> (r: ProductBundle<Product<NoDiscount>, PercentageDiscount>)
    ensures
        r.discount_strategy == PercentageDiscount(15),
        r.components@.len() == 3,
        r.components@[0].price == 1_500_000,
        r.components@[1].price == 120_000,
        r.components@[2].price == 80_000,
        bundle_fits(r),
        sum_totals(r.components@) == 1_700_000,
        bundle_total(r) == 1_445_000,
{
    let laptop = Product::new("Laptop", 1_500_000, NoDiscount);
    let mouse = Product::new("Gaming mouse", 120_000, NoDiscount);
    let keyboard = Product::new("Mechanical keyboard", 80_000, NoDiscount);
    let r = ProductBundle::new("Gaming bundle", vec![laptop, mouse, keyboard], PercentageDiscount(15));
    let ghost s = r.components@;
    let ghost s1 = s.drop_last().drop_last();
    assert(s1.len() == 1);
    assert(s1.last() == s[0]);
    assert(s.drop_last().last() == s[1]);
    assert(sum_totals(s1.drop_last()) == 0);
    assert(all_fit(s1.drop_last()));
    assert(sum_totals(s1) == 1_500_000);
    assert(all_fit(s1));
    assert(sum_totals(s.drop_last()) == 1_620_000);
    assert(all_fit(s.drop_last()));
    assert(sum_totals(s) == 1_700_000);
    assert(all_fit(s));
    assert(crate::discount::percent_off(1_700_000, 15) == 1_445_000);
    r
}

} // verus!
