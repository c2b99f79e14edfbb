use bundle_pricing::discount::{
    Discount, DiscountStrategy, FixedDiscount, NoDiscount, PercentageDiscount,
};
use bundle_pricing::ecommerce_heap::{Component, Product, ProductBundle, ProductComponent};
use bundle_pricing::ecommerce_stack;
use bundle_pricing::ecommerce_stack::ProductComponent as StackComponent;
use bundle_pricing::render::{split_amount, NodeKind, RenderLine};

fn none() -> Discount {
    Discount::NoDiscount(NoDiscount)
}

fn percent(rate: i64) -> Discount {
    Discount::Percentage(PercentageDiscount(rate))
}

fn fixed(amount: i64) -> Discount {
    Discount::Fixed(FixedDiscount(amount))
}

fn item(name: &str, price: i64, d: Discount) -> Component {
    Component::Item(Box::new(Product::new(name, price, d)))
}

fn depths(lines: &[RenderLine]) -> Vec<usize> {
    lines.iter().map(|l| l.depth).collect()
}

#[test]
fn no_discount_keeps_price() {
    assert_eq!(NoDiscount.apply_discount(123_456), 123_456);
    assert_eq!(NoDiscount.apply_discount(0), 0);
}

#[test]
fn percentage_discount_values() {
    assert_eq!(PercentageDiscount(15).apply_discount(1_700_000), 1_445_000);
    assert_eq!(PercentageDiscount(20).apply_discount(10_000), 8_000);
    assert_eq!(PercentageDiscount(0).apply_discount(10_000), 10_000);
    assert_eq!(PercentageDiscount(100).apply_discount(10_000), 0);
}

#[test]
fn percentage_discount_rounds_down() {
    assert_eq!(PercentageDiscount(15).apply_discount(1), 0);
    assert_eq!(PercentageDiscount(50).apply_discount(3), 1);
    assert_eq!(PercentageDiscount(150).apply_discount(1), -1);
}

#[test]
fn percentage_out_of_range_rates() {
    assert_eq!(PercentageDiscount(150).apply_discount(1_000), -500);
    assert_eq!(PercentageDiscount(-10).apply_discount(1_000), 1_100);
}

#[test]
fn fixed_discount_floor_at_zero() {
    assert_eq!(FixedDiscount(200).apply_discount(300), 100);
    assert_eq!(FixedDiscount(300).apply_discount(300), 0);
    assert_eq!(FixedDiscount(500).apply_discount(300), 0);
    assert_eq!(FixedDiscount(0).apply_discount(300), 300);
}

#[test]
fn dynamic_discount_dispatches() {
    assert_eq!(none().apply_discount(10_000), 10_000);
    assert_eq!(percent(20).apply_discount(10_000), 8_000);
    assert_eq!(fixed(3_000).apply_discount(10_000), 7_000);
}

#[test]
fn strategy_names_are_distinct() {
    let a = NoDiscount.strategy_name();
    let b = PercentageDiscount(15).strategy_name();
    let c = FixedDiscount(1).strategy_name();
    assert!(a != b && b != c && a != c);
    assert_eq!(percent(30).strategy_name(), b);
    assert_eq!(fixed(9).strategy_name(), c);
    assert_eq!(none().strategy_name(), a);
}

#[test]
fn heap_item_total_is_policy_applied() {
    assert_eq!(Product::new("a", 10_000, none()).get_total_price(), 10_000);
    assert_eq!(Product::new("a", 10_000, percent(20)).get_total_price(), 8_000);
    assert_eq!(Product::new("a", 10_000, fixed(3_000)).get_total_price(), 7_000);
    assert_eq!(Product::new("a", 10_000, fixed(30_000)).get_total_price(), 0);
}

#[test]
fn heap_sample_bundle_total() {
    let b = ProductBundle::new_test();
    assert_eq!(b.components.len(), 3);
    assert_eq!(b.get_total_price(), 1_445_000);
}

#[test]
fn heap_swap_to_fixed() {
    let mut b = ProductBundle::new_test();
    b.set_discount_strategy(fixed(300_000));
    assert_eq!(b.get_total_price(), 1_400_000);
}

#[test]
fn heap_swap_to_large_fixed_floors() {
    let mut b = ProductBundle::new_test();
    b.set_discount_strategy(fixed(2_000_000));
    assert_eq!(b.get_total_price(), 0);
}

#[test]
fn heap_swap_supersedes_old_policy() {
    let mut a = ProductBundle::new_test();
    let mut b = ProductBundle::new_test();
    b.set_discount_strategy(fixed(1));
    a.set_discount_strategy(percent(20));
    b.set_discount_strategy(percent(20));
    assert_eq!(a.get_total_price(), 1_360_000);
    assert_eq!(b.get_total_price(), 1_360_000);
}

#[test]
fn heap_swap_through_component_handle() {
    let mut c = Component::Bundle(Box::new(ProductBundle::new_test()));
    c.set_discount_strategy(none());
    assert_eq!(c.get_total_price(), 1_700_000);
    let mut i = item("x", 500, none());
    i.set_discount_strategy(fixed(100));
    assert_eq!(i.get_total_price(), 400);
}

#[test]
fn heap_empty_bundle_is_zero() {
    let b = ProductBundle::new("empty", percent(15));
    assert_eq!(b.get_total_price(), 0);
}

#[test]
fn heap_add_after_query_changes_total() {
    let mut b = ProductBundle::new("b", none());
    b.add(item("x", 1_000, none()));
    assert_eq!(b.get_total_price(), 1_000);
    b.add(item("y", 2_500, none()));
    assert_eq!(b.get_total_price(), 3_500);
}

#[test]
fn heap_nested_discounts_compose() {
    let mut inner = ProductBundle::new("inner", fixed(1_000));
    inner.add(item("x", 4_000, percent(50)));
    inner.add(item("y", 3_000, none()));
    let mut outer = ProductBundle::new("outer", percent(10));
    outer.add(Component::Bundle(Box::new(inner)));
    outer.add(item("z", 1_000, fixed(200)));
    // inner: 2000 + 3000 - 1000 = 4000; outer: (4000 + 800) * 0.9 = 4320
    assert_eq!(outer.get_total_price(), 4_320);
}

#[test]
fn heap_trait_dispatch_matches_inherent() {
    let b = ProductBundle::new_test();
    assert_eq!(ProductComponent::get_total_price(&b), 1_445_000);
    let p = Product::new("a", 10_000, percent(20));
    assert_eq!(ProductComponent::get_total_price(&p), 8_000);
}

#[test]
fn heap_render_depths() {
    let b = ProductBundle::new_test();
    let lines = b.display(0);
    assert_eq!(depths(&lines), vec![0, 2, 2, 2]);
    assert_eq!(lines[0].kind, NodeKind::Bundle);
    assert_eq!(lines[0].total, 1_445_000);
    assert_eq!(lines[0].name, "Gaming bundle");
    assert_eq!(lines[1].kind, NodeKind::Item);
    assert_eq!(lines[1].name, "Laptop");
    assert_eq!(lines[1].total, 1_500_000);
    assert_eq!(lines[1].strategy, NoDiscount.strategy_name());
    assert_eq!(lines[0].strategy, PercentageDiscount(15).strategy_name());
}

#[test]
fn heap_render_nested_depths() {
    let mut inner = ProductBundle::new("inner", none());
    inner.add(item("x", 100, none()));
    let mut outer = ProductBundle::new("outer", none());
    outer.add(Component::Bundle(Box::new(inner)));
    outer.add(item("y", 200, none()));
    let lines = outer.display(0);
    assert_eq!(depths(&lines), vec![0, 2, 4, 2]);
    let names: Vec<&str> = lines.iter().map(|l| l.name.as_str()).collect();
    assert_eq!(names, vec!["outer", "inner", "x", "y"]);
    assert_eq!(depths(&outer.display(3)), vec![3, 5, 7, 5]);
}

#[test]
fn stack_item_total_is_policy_applied() {
    assert_eq!(ecommerce_stack::Product::new("a", 10_000, NoDiscount).get_total_price(), 10_000);
    assert_eq!(
        ecommerce_stack::Product::new("a", 10_000, PercentageDiscount(20)).get_total_price(),
        8_000
    );
    assert_eq!(
        ecommerce_stack::Product::new("a", 10_000, FixedDiscount(3_000)).get_total_price(),
        7_000
    );
}

#[test]
fn stack_sample_bundle_total() {
    let b = ecommerce_stack::new_test();
    assert_eq!(b.get_total_price(), 1_445_000);
}

#[test]
fn stack_swap_yields_new_value() {
    let b = ecommerce_stack::new_test();
    let copy = b.clone();
    let fixed_b = b.set_discount_strategy(FixedDiscount(300_000));
    assert_eq!(fixed_b.get_total_price(), 1_400_000);
    assert_eq!(copy.get_total_price(), 1_445_000);
    let floored = copy.clone().set_discount_strategy(FixedDiscount(2_000_000));
    assert_eq!(floored.get_total_price(), 0);
    assert_eq!(copy.get_total_price(), 1_445_000);
}

#[test]
fn stack_item_set_strategy() {
    let p = ecommerce_stack::Product::new("a", 10_000, NoDiscount);
    let q = p.clone().set_strategy(FixedDiscount(2_500));
    assert_eq!(q.get_total_price(), 7_500);
    assert_eq!(p.get_total_price(), 10_000);
}

#[test]
fn stack_empty_bundle_is_zero() {
    let b: ecommerce_stack::ProductBundle<ecommerce_stack::Product<NoDiscount>, PercentageDiscount> =
        ecommerce_stack::ProductBundle::new("empty", Vec::new(), PercentageDiscount(15));
    assert_eq!(b.get_total_price(), 0);
}

#[test]
fn variants_agree_on_sample() {
    let h = ProductBundle::new_test();
    let s = ecommerce_stack::new_test();
    assert_eq!(h.get_total_price(), s.get_total_price());
    let mut h2 = ProductBundle::new_test();
    h2.set_discount_strategy(fixed(300_000));
    let s2 = s.set_discount_strategy(FixedDiscount(300_000));
    assert_eq!(h2.get_total_price(), s2.get_total_price());
}

#[test]
fn variants_agree_on_nested() {
    let mut hi = ProductBundle::new("inner", fixed(1_000));
    hi.add(item("x", 4_000, percent(50)));
    hi.add(item("y", 3_000, percent(50)));
    let mut ho = ProductBundle::new("outer", percent(10));
    ho.add(Component::Bundle(Box::new(hi)));

    let si = ecommerce_stack::ProductBundle::new(
        "inner",
        vec![
            ecommerce_stack::Product::new("x", 4_000, PercentageDiscount(50)),
            ecommerce_stack::Product::new("y", 3_000, PercentageDiscount(50)),
        ],
        FixedDiscount(1_000),
    );
    let so = ecommerce_stack::ProductBundle::new("outer", vec![si], PercentageDiscount(10));
    // inner: 2000 + 1500 - 1000 = 2500; outer: 2500 * 0.9 = 2250
    assert_eq!(ho.get_total_price(), 2_250);
    assert_eq!(so.get_total_price(), 2_250);
    assert_eq!(StackComponent::get_total_price(&so), 2_250);
}

#[test]
fn stack_render_depths() {
    let b = ecommerce_stack::new_test();
    let lines = b.display(0);
    assert_eq!(depths(&lines), vec![0, 2, 2, 2]);
    assert_eq!(lines[0].total, 1_445_000);
    let si = ecommerce_stack::ProductBundle::new(
        "inner",
        vec![ecommerce_stack::Product::new("x", 100, NoDiscount)],
        NoDiscount,
    );
    let so = ecommerce_stack::ProductBundle::new("outer", vec![si], NoDiscount);
    assert_eq!(depths(&so.display(0)), vec![0, 2, 4]);
}

#[test]
fn split_amount_values() {
    assert_eq!(split_amount(1_445_000), (false, 14_450, 0));
    assert_eq!(split_amount(1_234), (false, 12, 34));
    assert_eq!(split_amount(-5), (true, 0, 5));
    assert_eq!(split_amount(0), (false, 0, 0));
    assert_eq!(split_amount(i64::MIN), (true, 92_233_720_368_547_758, 8));
}
