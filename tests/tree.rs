use chrono::{DateTime, Datelike, TimeZone, Utc};

use pricer::tree::{construct_tree, get_next_layer, Node, Position, Tree};

fn datetime_range(start: DateTime<Utc>, end: DateTime<Utc>, num_steps: i32) -> Vec<DateTime<Utc>> {
    let diff = (end - start) / num_steps;
    (0..num_steps + 1).map(|i| start + diff * i).collect()
}

fn price_tree(
    underlying_price: f64,
    volatility: f64,
    start: DateTime<Utc>,
    end: DateTime<Utc>,
    num_steps: i32,
) -> Tree<f64, DateTime<Utc>> {
    let datetimes = datetime_range(start, end, num_steps);
    construct_tree(&datetimes, &|p: &Position| {
        underlying_price
            * f64::powf(1.0 + volatility, p.num_ups as f64)
            * f64::powf(1.0 - volatility, p.num_downs as f64)
    })
}

fn years_between(t1: DateTime<Utc>, t2: DateTime<Utc>) -> f64 {
    (t2 - t1).num_seconds() as f64 / 31536000.0
}

fn value_tree(tree: &mut Tree<f64, DateTime<Utc>>, strike: f64, is_call: bool, rfr: f64) -> f64 {
    let leaf = |n: &Node<f64, DateTime<Utc>>| {
        let exercised = if is_call { n.price - strike } else { strike - n.price };
        0.0f64.max(exercised)
    };
    let combine = |n: &Node<f64, DateTime<Utc>>,
                   up: &Node<f64, DateTime<Utc>>,
                   down: &Node<f64, DateTime<Utc>>,
                   up_value: f64,
                   down_value: f64| {
        let duration = years_between(n.datetime, up.datetime);
        let u = up.price / n.price;
        let d = down.price / n.price;
        let p = (std::f64::consts::E.powf(rfr * duration) - d) / (u - d);
        std::f64::consts::E.powf(-rfr * duration) * ((p * up_value) + ((1.0f64 - p) * down_value))
    };
    tree.value(&leaf, &combine)
}

#[test]
fn build_get_next_layer_basic() {
    let start_tree_positions = vec![
        Position { num_ups: 1, num_downs: 0 },
        Position { num_ups: 0, num_downs: 1 },
    ];
    let expected_end_positions = vec![
        Position { num_ups: 2, num_downs: 0 },
        Position { num_ups: 1, num_downs: 1 },
        Position { num_ups: 0, num_downs: 2 },
    ];
    let processed_end_positions = get_next_layer(start_tree_positions);
    assert!(processed_end_positions == expected_end_positions);
}

#[test]
fn next_layer_of_empty_layer_is_empty() {
    assert!(get_next_layer(vec![]).is_empty());
}

#[test]
fn branches_of_a_position() {
    let (up, down) = Position { num_ups: 2, num_downs: 3 }.get_branches();
    assert_eq!(up, Position { num_ups: 3, num_downs: 3 });
    assert_eq!(down, Position { num_ups: 2, num_downs: 4 });
}

#[test]
fn build_one_year_tree_one_step() {
    let underlying_price: f64 = 100.0;
    let volatility: f64 = 0.05;
    let begin_date = Utc.timestamp_millis_opt(1688917143000).unwrap();
    let end_date = Utc.timestamp_millis_opt(1720539543000).unwrap();
    let num_steps = 1;

    let tree = price_tree(underlying_price, volatility, begin_date, end_date, num_steps);

    let node = tree.head;
    assert!(node.price == 100.0);
    assert!(node.datetime == begin_date);
    assert!(node.pos == Position { num_ups: 0, num_downs: 0 });
    assert!(tree.num_nodes() == 3);

    let (up_pos, down_pos) = node.pos.get_branches();
    let up = tree.get_node(&up_pos);
    assert!(up.is_some());
    let up = up.unwrap();
    assert!(up.price == 105.00);
    assert!(up.datetime == end_date);
    assert!(up.pos == Position { num_ups: 1, num_downs: 0 });

    let down = tree.get_node(&down_pos);
    assert!(down.is_some());
    let down = down.unwrap();
    assert!(down.price > 94.999);
    assert!(down.price < 95.001);
    assert!(down.datetime == end_date);
    assert!(down.pos == Position { num_ups: 0, num_downs: 1 });
}

#[test]
fn one_step_tree_memoizes_root_and_two_leaves() {
    let begin_date = Utc.timestamp_millis_opt(1688917143000).unwrap();
    let end_date = Utc.timestamp_millis_opt(1720539543000).unwrap();
    let mut tree = price_tree(100.0, 0.05, begin_date, end_date, 1);
    assert_eq!(tree.num_valued(), 0);
    let value = value_tree(&mut tree, 100.0, false, 0.01);
    assert!(value > 1.97 && value < 1.99);
    assert_eq!(tree.num_valued(), 3);
    assert!(tree.cached_value(&Position { num_ups: 0, num_downs: 0 }) == Some(value));
    assert!(tree.cached_value(&Position { num_ups: 1, num_downs: 0 }) == Some(0.0));
    assert!(tree.cached_value(&Position { num_ups: 0, num_downs: 1 }) == Some(5.0));
    assert!(tree.cached_value(&Position { num_ups: 2, num_downs: 0 }).is_none());
    assert!(tree.get_node(&Position { num_ups: 1, num_downs: 1 }).is_none());
}

#[test]
fn revaluing_starts_from_an_empty_cache() {
    let begin_date = Utc.timestamp_millis_opt(1688917143000).unwrap();
    let end_date = Utc.timestamp_millis_opt(1720539543000).unwrap();
    let mut tree = price_tree(100.0, 0.05, begin_date, end_date, 3);
    let at_five = value_tree(&mut tree, 100.0, true, 0.05);
    let at_ten = value_tree(&mut tree, 100.0, true, 0.10);
    assert!(at_ten > at_five);
    assert_eq!(tree.num_valued(), 10);
    assert_eq!(tree.num_nodes(), 10);
}

#[test]
fn tests_two_year_basic_put() {
    let underlying_price: f64 = 20.0;
    let strike = 20.0;
    let volatility = 0.2;
    let begin_date = Utc.timestamp_millis_opt(1688917143000).unwrap();
    let number_of_years = 2;
    let end_date = begin_date.with_year(begin_date.year() + number_of_years).unwrap();
    let num_steps = number_of_years;
    let risk_free_rate = 0.05;
    let mut tree = price_tree(underlying_price, volatility, begin_date, end_date, num_steps);
    let option_value = value_tree(&mut tree, strike, false, risk_free_rate);
    assert!(option_value > 1.2377);
    assert!(option_value < 1.2378);
}

#[test]
fn tests_two_year_basic_call() {
    let underlying_price: f64 = 20.0;
    let strike = 20.0;
    let volatility = 0.2;
    let begin_date = Utc.timestamp_millis_opt(1688917143000).unwrap();
    let number_of_years = 2;
    let end_date = begin_date.with_year(begin_date.year() + number_of_years).unwrap();
    let num_steps = number_of_years;
    let risk_free_rate = 0.05;
    let mut tree = price_tree(underlying_price, volatility, begin_date, end_date, num_steps);
    let option_value = value_tree(&mut tree, strike, true, risk_free_rate);
    assert!(option_value > 3.1434);
    assert!(option_value < 3.1435);
}
