use rootcause_extras::bfs_iter::{ReportIterBfs, ReportIterExt, ReportRefIterExt};
use rootcause_extras::iter::{ReportIter, BFS, DFS};
use rootcause_extras::report::Report;
use std::collections::VecDeque;

fn node(name: &str, children: Vec<Report>) -> Report {
    Report {
        context_type_name: name.to_string(),
        context_display: format!("{} happened", name),
        context_debug: format!("{:?}", name),
        attachments: Vec::new(),
        children,
    }
}

/// r -> [a -> [c, d], b -> [e]]
fn sample() -> Report {
    node(
        "r",
        vec![
            node("a", vec![node("c", vec![]), node("d", vec![])]),
            node("b", vec![node("e", vec![])]),
        ],
    )
}

fn names(v: &[&Report]) -> Vec<String> {
    v.iter().map(|r| r.context_type_name.clone()).collect()
}

#[test]
fn dfs_visits_in_preorder() {
    let r = sample();
    let mut it: ReportIter<'_, DFS> = r.iter_reports();
    assert_eq!(names(&it.collect_remaining()), vec!["r", "a", "c", "d", "b", "e"]);
}

#[test]
fn dfs_sub_reports_skip_the_root() {
    let r = sample();
    let mut it: ReportIter<'_, DFS> = r.iter_sub_reports();
    assert_eq!(names(&it.collect_remaining()), vec!["a", "c", "d", "b", "e"]);
}

#[test]
fn bfs_strategy_visits_levels_last_child_first() {
    let r = sample();
    let mut it: ReportIter<'_, BFS> = r.iter_reports();
    assert_eq!(names(&it.collect_remaining()), vec!["r", "b", "a", "e", "d", "c"]);
}

#[test]
fn bfs_strategy_sub_reports() {
    let r = sample();
    let mut it: ReportIter<'_, BFS> = r.iter_sub_reports();
    assert_eq!(names(&it.collect_remaining()), vec!["b", "a", "e", "d", "c"]);
}

#[test]
fn next_steps_one_report_at_a_time_and_stays_done() {
    let r = node("only", vec![]);
    let mut it: ReportIter<'_, DFS> = r.iter_reports();
    assert_eq!(it.next().map(|x| x.context_type_name.clone()), Some("only".to_string()));
    assert!(it.next().is_none());
    assert!(it.next().is_none());
}

#[test]
fn from_buffer_starts_where_told() {
    let r = sample();
    let mut buffer = VecDeque::new();
    buffer.push_back(&r.children[1]);
    buffer.push_back(&r.children[0]);
    let mut it: ReportIter<'_, DFS> = ReportIter::from_buffer(buffer);
    assert_eq!(names(&it.collect_remaining()), vec!["a", "c", "d", "b", "e"]);
}

#[test]
fn extras_bfs_from_a_report() {
    let r = sample();
    let mut it = ReportRefIterExt::iter_reports_bfs(&r);
    assert_eq!(names(&it.collect_remaining()), vec!["r", "b", "a", "e", "d", "c"]);
}

#[test]
fn extras_bfs_sub_reports_queue_children_in_order() {
    let r = sample();
    let mut it = ReportRefIterExt::iter_sub_reports_bfs(&r);
    assert_eq!(names(&it.collect_remaining()), vec!["a", "b", "d", "c", "e"]);
}

#[test]
fn extras_bfs_through_owned_report() {
    let r = sample();
    let mut it = ReportIterExt::iter_reports_bfs(&r);
    assert_eq!(it.collect_remaining().len(), 6);
    let mut sub = ReportIterExt::iter_sub_reports_bfs(&r);
    assert_eq!(sub.collect_remaining().len(), 5);
}

#[test]
fn extras_bfs_next_and_from_raw() {
    let r = sample();
    let mut q = VecDeque::new();
    q.push_back(&r);
    let mut it = ReportIterBfs::from_raw(q);
    assert_eq!(it.next().unwrap().context_type_name, "r");
    assert_eq!(it.next().unwrap().context_type_name, "b");
    assert_eq!(it.next().unwrap().context_type_name, "a");
    assert_eq!(it.next().unwrap().context_type_name, "e");
    assert_eq!(it.next().unwrap().context_type_name, "d");
    assert_eq!(it.next().unwrap().context_type_name, "c");
    assert!(it.next().is_none());
    assert!(it.next().is_none());
}

#[test]
fn leaf_has_no_sub_reports() {
    let r = node("leaf", vec![]);
    let mut it: ReportIter<'_, DFS> = r.iter_sub_reports();
    assert!(it.next().is_none());
    let mut it2 = ReportRefIterExt::iter_sub_reports_bfs(&r);
    assert!(it2.next().is_none());
}

#[test]
fn both_breadth_first_iterators_visit_what_preorder_visits() {
    let r = sample();
    let mut dfs: ReportIter<'_, DFS> = r.iter_reports();
    let mut pre = names(&dfs.collect_remaining());
    let mut bfs: ReportIter<'_, BFS> = r.iter_reports();
    let mut level = names(&bfs.collect_remaining());
    let mut extras = names(&ReportRefIterExt::iter_reports_bfs(&r).collect_remaining());
    pre.sort();
    level.sort();
    extras.sort();
    assert_eq!(pre, level);
    assert_eq!(pre, extras);
}

#[test]
fn breadth_first_visits_by_depth() {
    let r = sample();
    let depth = |name: &str| match name {
        "r" => 0,
        "a" | "b" => 1,
        _ => 2,
    };
    let mut bfs: ReportIter<'_, BFS> = r.iter_reports();
    let order: Vec<i32> = names(&bfs.collect_remaining()).iter().map(|n| depth(n)).collect();
    assert!(order.windows(2).all(|w| w[0] <= w[1]));
    let extras: Vec<i32> = names(&ReportRefIterExt::iter_reports_bfs(&r).collect_remaining())
        .iter()
        .map(|n| depth(n))
        .collect();
    assert!(extras.windows(2).all(|w| w[0] <= w[1]));
    assert_eq!(extras, vec![0, 1, 1, 2, 2, 2]);
}
