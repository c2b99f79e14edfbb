//! Runtime dispatch: every node is owned through a `Box`, a bundle holds
//! leaves and bundles side by side, and a node's strategy is replaced in place.
use vstd::prelude::*;
use crate::discount::{apply_dynamic, in_i64, percent_off, Discount, DiscountStrategy, NoDiscount, PercentageDiscount};
use crate::render::{lemma_views_concat, views, LineView, NodeKind, RenderLine, DEPTH_STEP};

verus! {

/// What every node offers: its total, its rendering, and an in-place
/// change of strategy.
pub trait ProductComponent: Sized {
    /// The node's total price.
    spec fn total_spec(&self) -> int;

    /// Every amount met while pricing the node fits in an `i64`.
    spec fn fits_spec(&self) -> bool;

    /// The lines that render the node at `depth`.
    spec fn lines_spec(&self, depth: int) -> Seq<LineView>;

    /// How many bundle levels the node spans.
    spec fn height_spec(&self) -> nat;

    /// The node with its own strategy replaced by `d`.
    spec fn with_strategy(&self, d: Discount) -> Self;

    /// The node's total price; every amount met on the way must fit in an `i64`.
    fn get_total_price(&self) -> (r: i64)
        requires
            self.fits_spec(),
        ensures
            r == self.total_spec(),
    ;

    /// The node's lines, depth first and parent first, starting at `depth`.
    fn display(&self, depth: usize) -> (r: Vec<RenderLine>)
        requires
            self.fits_spec(),
            depth + DEPTH_STEP * self.height_spec() <= usize::MAX,
        ensures
            views(r@) == self.lines_spec(depth as int),
    ;

    /// Replaces the node's own strategy in place.
    fn set_discount_strategy(&mut self, strategy: Discount)
        ensures
            *final(self) == old(self).with_strategy(strategy),
    ;
}

/// A leaf: one product with its own price and strategy.
pub struct Product {
    pub name: String,
    pub price: i64,
    pub discount_strategy: Discount,
}

/// A composite: an ordered list of nodes priced together under one strategy.
pub struct ProductBundle {
    pub name: String,
    pub components: Vec<Component>,
    pub discount_strategy: Discount,
}

/// A heap-owned node of either shape.
pub enum Component {
    Item(Box<Product>),
    Bundle(Box<ProductBundle>),
}

/// The price of a product after its strategy.
pub open spec fn item_total(p: Product) -> int {
    apply_dynamic(p.discount_strategy, p.price as int)
}

/// The bundle's strategy applied once to the sum of its children's totals.
pub open spec fn bundle_total(b: ProductBundle) -> int
    decreases b,
{
    apply_dynamic(b.discount_strategy, sum_totals(b.components@))
}

/// The total price of a node.
pub open spec fn total(c: Component) -> int
    decreases c,
{
    match c {
        Component::Item(p) => item_total(*p),
        Component::Bundle(b) => bundle_total(*b),
    }
}

/// The sum of the totals of a sequence of nodes.
pub open spec fn sum_totals(s: Seq<Component>) -> int
    decreases s,
{
    if s.len() == 0 {
        0
    } else {
        sum_totals(s.drop_last()) + total(s.last())
    }
}

/// Every amount met while pricing the bundle fits in an `i64`.
pub open spec fn bundle_fits(b: ProductBundle) -> bool
    decreases b,
{
    all_fit(b.components@) && in_i64(bundle_total(b))
}

/// Every amount met while pricing the node fits in an `i64`.
pub open spec fn fits(c: Component) -> bool
    decreases c,
{
    match c {
        Component::Item(p) => in_i64(item_total(*p)),
        Component::Bundle(b) => bundle_fits(*b),
    }
}

/// Every node fits, and so does each running sum of their totals.
pub open spec fn all_fit(s: Seq<Component>) -> bool
    decreases s,
{
    if s.len() == 0 {
        true
    } else {
        all_fit(s.drop_last()) && fits(s.last()) && in_i64(sum_totals(s))
    }
}

/// The bundle with its own strategy replaced by `d`.
pub open spec fn bundle_with(b: ProductBundle, d: Discount) -> ProductBundle {
    ProductBundle { discount_strategy: d, ..b }
}

/// The product with its strategy replaced by `d`.
pub open spec fn item_with(p: Product, d: Discount) -> Product {
    Product { discount_strategy: d, ..p }
}

/// The node with its own strategy replaced by `d`.
pub open spec fn component_with(c: Component, d: Discount) -> Component {
    match c {
        Component::Item(p) => Component::Item(Box::new(item_with(*p, d))),
        Component::Bundle(b) => Component::Bundle(Box::new(bundle_with(*b, d))),
    }
}

/// The node is a product at `price` with no discount of its own.
pub open spec fn is_plain_item(c: Component, price: int) -> bool {
    match c {
        Component::Item(p) => p.price == price && p.discount_strategy == Discount::NoDiscount(NoDiscount),
        Component::Bundle(_) => false,
    }
}

/// The line that renders a product at `depth`.
pub open spec fn item_line(p: Product, depth: int) -> LineView {
    (depth, NodeKind::Item, p.name@, item_total(p), p.discount_strategy.name_spec())
}

/// The line that renders a bundle itself at `depth`.
pub open spec fn bundle_line(b: ProductBundle, depth: int) -> LineView {
    (depth, NodeKind::Bundle, b.name@, bundle_total(b), b.discount_strategy.name_spec())
}

/// The bundle's own line, then each child rendered two levels deeper, in order.
pub open spec fn bundle_lines(b: ProductBundle, depth: int) -> Seq<LineView>
    decreases b,
{
    seq![bundle_line(b, depth)] + lines_all(b.components@, depth + DEPTH_STEP)
}

/// The lines that render a node at `depth`, parent before children.
pub open spec fn lines(c: Component, depth: int) -> Seq<LineView>
    decreases c,
{
    match c {
        Component::Item(p) => seq![item_line(*p, depth)],
        Component::Bundle(b) => bundle_lines(*b, depth),
    }
}

/// The lines of each node in turn, all at `depth`.
pub open spec fn lines_all(s: Seq<Component>, depth: int) -> Seq<LineView>
    decreases s,
{
    if s.len() == 0 {
        Seq::empty()
    } else {
        lines_all(s.drop_last(), depth) + lines(s.last(), depth)
    }
}

/// How many bundle levels lie below a bundle, itself included.
pub open spec fn bundle_height(b: ProductBundle) -> nat
    decreases b,
{
    1 + max_height(b.components@)
}

/// How many bundle levels a node spans.
pub open spec fn height(c: Component) -> nat
    decreases c,
{
    match c {
        Component::Item(_) => 0,
        Component::Bundle(b) => bundle_height(*b),
    }
}

/// The greatest height among a sequence of nodes.
pub open spec fn max_height(s: Seq<Component>) -> nat
    decreases s,
{
    if s.len() == 0 {
        0
    } else {
        let a = max_height(s.drop_last());
        let b = height(s.last());
        if a >= b { a } else { b }
    }
}

impl Product {
    /// A product named `name` at `price`, priced under `strategy`.
    pub fn new(name: &str, price: i64, strategy: Discount) -> (r: Product)
        requires
            price >= 0,
        ensures
            r.name@ == name@,
            r.price == price,
            r.discount_strategy == strategy,
    {
        Product { name: name.to_owned(), price, discount_strategy: strategy }
    }

    /// The price after this product's strategy.
    pub fn get_total_price(&self) -> (r: i64)
        requires
            in_i64(item_total(*self)),
        ensures
            r == item_total(*self),
    {
        self.discount_strategy.apply_discount(self.price)
    }

    /// The product's line at `depth`.
    pub fn display(&self, depth: usize) -> (r: Vec<RenderLine>)
        requires
            in_i64(item_total(*self)),
        ensures
            views(r@) == seq![item_line(*self, depth as int)],
    {
        let line = RenderLine {
            depth,
            kind: NodeKind::Item,
            name: self.name.clone(),
            total: self.get_total_price(),
            strategy: self.discount_strategy.strategy_name(),
        };
        let r = vec![line];
        assert(views(r@) =~= seq![item_line(*self, depth as int)]);
        r
    }

    /// Replaces the strategy in place.
    pub fn set_discount_strategy(&mut self, strategy: Discount)
        ensures
            *final(self) == item_with(*old(self), strategy),
    {
        self.discount_strategy = strategy;
    }
}

impl ProductBundle {
    /// An empty bundle priced under `strategy`.
    pub fn new(name: &str, strategy: Discount) -> (r: ProductBundle)
        ensures
            r.name@ == name@,
            r.components@ == Seq::<Component>::empty(),
            r.discount_strategy == strategy,
    {
        ProductBundle { name: name.to_owned(), components: Vec::new(), discount_strategy: strategy }
    }

    /// Appends a node to the end of the bundle.
    pub fn add(&mut self, component: Component)
        ensures
            final(self).name == old(self).name,
            final(self).components@ == old(self).components@.push(component),
            final(self).discount_strategy == old(self).discount_strategy,
    {
        self.components.push(component);
    }

    /// A sample bundle: a laptop, a mouse and a keyboard at 15000.00,
    /// 1200.00 and 800.00, none discounted, under 15% off the bundle.
    pub fn new_test() -> (r: ProductBundle)
        ensures
            r.discount_strategy == Discount::Percentage(PercentageDiscount(15)),
            r.components@.len() == 3,
            is_plain_item(r.components@[0], 1_500_000),
            is_plain_item(r.components@[1], 120_000),
            is_plain_item(r.components@[2], 80_000),
            bundle_fits(r),
            sum_totals(r.components@) == 1_700_000,
            bundle_total(r) == 1_445_000,
    {
        let none = Discount::NoDiscount(NoDiscount);
        let mut a = ProductBundle::new("Gaming bundle", Discount::Percentage(PercentageDiscount(15)));
        a.add(Component::Item(Box::new(Product::new("Laptop", 1_500_000, none))));
        a.add(Component::Item(Box::new(Product::new("Gaming mouse", 120_000, none))));
        a.add(Component::Item(Box::new(Product::new("Mechanical keyboard", 80_000, none))));
        let ghost s = a.components@;
        assert(s.drop_last().drop_last().drop_last() =~= Seq::<Component>::empty());
        assert(s.drop_last().drop_last().last() == s[0]);
        assert(s.drop_last().last() == s[1]);
        assert(total(s[0]) == 1_500_000 && fits(s[0]));
        assert(total(s[1]) == 120_000 && fits(s[1]));
        assert(total(s[2]) == 80_000 && fits(s[2]));
        let ghost s1 = s.drop_last().drop_last();
        assert(s1.len() == 1);
        assert(sum_totals(s1.drop_last()) == 0);
        assert(all_fit(s1.drop_last()));
        assert(sum_totals(s1) == 1_500_000);
        assert(all_fit(s1));
        assert(sum_totals(s.drop_last()) == 1_620_000);
        assert(all_fit(s.drop_last()));
        assert(sum_totals(s) == 1_700_000);
        assert(all_fit(s));
        assert(percent_off(1_700_000, 15) == 1_445_000);
        a
    }

    /// The strategy applied to the sum of the children's totals, taken in order.
    pub fn get_total_price(&self) -> (r: i64)
        requires
            bundle_fits(*self),
        ensures
            r == bundle_total(*self),
        decreases *self,
    {
        let mut sum: i64 = 0;
        let mut i: usize = 0;
        while i < self.components.len()
            invariant
                0 <= i <= self.components@.len(),
                bundle_fits(*self),
                sum == sum_totals(self.components@.subrange(0, i as int)),
            decreases self.components@.len() - i,
        {
            let ghost s = self.components@;
            proof {
                lemma_prefix_fits(s, i as int + 1);
                assert(s.subrange(0, i as int + 1).drop_last() =~= s.subrange(0, i as int));
            }
            assert(decreases_to!(*self => self.components[i as int]));
            let t = self.components[i].get_total_price();
            sum = sum + t;
            i = i + 1;
        }
        proof {
            assert(self.components@.subrange(0, i as int) =~= self.components@);
        }
        self.discount_strategy.apply_discount(sum)
    }

    /// The bundle's own line at `depth`, then each child's lines at `depth + 2`.
    pub fn display(&self, depth: usize) -> (r: Vec<RenderLine>)
        requires
            bundle_fits(*self),
            depth + DEPTH_STEP * bundle_height(*self) <= usize::MAX,
        ensures
            views(r@) == bundle_lines(*self, depth as int),
        decreases *self,
    {
        let line = RenderLine {
            depth,
            kind: NodeKind::Bundle,
            name: self.name.clone(),
            total: self.get_total_price(),
            strategy: self.discount_strategy.strategy_name(),
        };
        let mut out = vec![line];
        let child_depth: usize = depth + DEPTH_STEP;
        let ghost s = self.components@;
        let mut i: usize = 0;
        assert(views(out@) =~= seq![bundle_line(*self, depth as int)] + lines_all(
            s.subrange(0, 0),
            child_depth as int,
        ));
        while i < self.components.len()
            invariant
                0 <= i <= s.len(),
                s == self.components@,
                bundle_fits(*self),
                child_depth == depth + DEPTH_STEP,
                depth + DEPTH_STEP * bundle_height(*self) <= usize::MAX,
                views(out@) == seq![bundle_line(*self, depth as int)] + lines_all(
                    s.subrange(0, i as int),
                    child_depth as int,
                ),
            decreases s.len() - i,
        {
            proof {
                lemma_prefix_fits(s, i as int + 1);
                lemma_height_le_max(s, i as int);
                assert(s.subrange(0, i as int + 1).drop_last() =~= s.subrange(0, i as int));
            }
            assert(decreases_to!(*self => self.components[i as int]));
            let mut sub = self.components[i].display(child_depth);
            proof {
                lemma_views_concat(out@, sub@);
            }
            out.append(&mut sub);
            i = i + 1;
        }
        assert(s.subrange(0, i as int) =~= s);
        out
    }

    /// Replaces the bundle's own strategy in place; the children keep theirs.
    pub fn set_discount_strategy(&mut self, strategy: Discount)
        ensures
            *final(self) == bundle_with(*old(self), strategy),
    {
        self.discount_strategy = strategy;
    }
}

impl Component {
    /// Replaces the node's own strategy in place.
    pub fn set_discount_strategy(&mut self, strategy: Discount)
        ensures
            *final(self) == component_with(*old(self), strategy),
    {
        match self {
            Component::Item(p) => p.set_discount_strategy(strategy),
            Component::Bundle(b) => b.set_discount_strategy(strategy),
        }
    }

    /// The node's total price.
    pub fn get_total_price(&self) -> (r: i64)
        requires
            fits(*self),
        ensures
            r == total(*self),
        decreases *self,
    {
        match self {
            Component::Item(p) => p.get_total_price(),
            Component::Bundle(b) => b.get_total_price(),
        }
    }
    /// The node's lines at `depth`.
    pub fn display(&self, depth: usize) -> (r: Vec<RenderLine>)
        requires
            fits(*self),
            depth + DEPTH_STEP * height(*self) <= usize::MAX,
        ensures
            views(r@) == lines(*self, depth as int),
        decreases *self,
    {
        match self {
            Component::Item(p) => p.display(depth),
            Component::Bundle(b) => b.display(depth),
        }
    }
}

impl ProductComponent for Product {
    open spec fn total_spec(&self) -> int {
        item_total(*self)
    }

    open spec fn fits_spec(&self) -> bool {
        in_i64(item_total(*self))
    }

    open spec fn lines_spec(&self, depth: int) -> Seq<LineView> {
        seq![item_line(*self, depth)]
    }

    open spec fn height_spec(&self) -> nat {
        0
    }

    open spec fn with_strategy(&self, d: Discount) -> Self {
        item_with(*self, d)
    }

    fn get_total_price(&self) -> (r: i64) {
        Product::get_total_price(self)
    }

    fn display(&self, depth: usize) -> (r: Vec<RenderLine>) {
        Product::display(self, depth)
    }

    fn set_discount_strategy(&mut self, strategy: Discount) {
        Product::set_discount_strategy(self, strategy)
    }
}

impl ProductComponent for ProductBundle {
    open spec fn total_spec(&self) -> int {
        bundle_total(*self)
    }

    open spec fn fits_spec(&self) -> bool {
        bundle_fits(*self)
    }

    open spec fn lines_spec(&self, depth: int) -> Seq<LineView> {
        bundle_lines(*self, depth)
    }

    open spec fn height_spec(&self) -> nat {
        bundle_height(*self)
    }

    open spec fn with_strategy(&self, d: Discount) -> Self {
        bundle_with(*self, d)
    }

    fn get_total_price(&self) -> (r: i64) {
        ProductBundle::get_total_price(self)
    }

    fn display(&self, depth: usize) -> (r: Vec<RenderLine>) {
        ProductBundle::display(self, depth)
    }

    fn set_discount_strategy(&mut self, strategy: Discount) {
        ProductBundle::set_discount_strategy(self, strategy)
    }
}

impl ProductComponent for Component {
    open spec fn total_spec(&self) -> int {
        total(*self)
    }

    open spec fn fits_spec(&self) -> bool {
        fits(*self)
    }

    open spec fn lines_spec(&self, depth: int) -> Seq<LineView> {
        lines(*self, depth)
    }

    open spec fn height_spec(&self) -> nat {
        height(*self)
    }

    open spec fn with_strategy(&self, d: Discount) -> Self {
        component_with(*self, d)
    }

    fn get_total_price(&self) -> (r: i64) {
        Component::get_total_price(self)
    }

    fn display(&self, depth: usize) -> (r: Vec<RenderLine>) {
        Component::display(self, depth)
    }

    fn set_discount_strategy(&mut self, strategy: Discount) {
        Component::set_discount_strategy(self, strategy)
    }
}

/// A prefix of a sequence that fits fits too.
pub proof fn lemma_prefix_fits(s: Seq<Component>, k: int)
    requires
        all_fit(s),
        0 <= k <= s.len(),
    ensures
        all_fit(s.subrange(0, k)),
        k > 0 ==> fits(s[k - 1]),
        in_i64(sum_totals(s.subrange(0, k))),
    decreases s.len(),
{
    if k < s.len() {
        lemma_prefix_fits(s.drop_last(), k);
        assert(s.drop_last().subrange(0, k) =~= s.subrange(0, k));
    } else {
        assert(s.subrange(0, k) =~= s);
    }
}

/// No node of a sequence is taller than the sequence's greatest height.
pub proof fn lemma_height_le_max(s: Seq<Component>, i: int)
    requires
        0 <= i < s.len(),
    ensures
        height(s[i]) <= max_height(s),
    decreases s.len(),
{
    if i < s.len() - 1 {
        lemma_height_le_max(s.drop_last(), i);
    }
}

} // verus!
