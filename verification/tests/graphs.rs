//! Rate graphs: the bounded ticker buffer and its manager.

use attpc_envoy::graph_manager::GraphManager;
use attpc_envoy::message::EmbassyMessage;
use attpc_envoy::rate_graph::RateGraph;
use attpc_envoy::surveyor_envoy::SurveyorResponse;

#[test]
fn ticker_drops_oldest_and_places_newest_at_zero() {
    let mut graph = RateGraph::new("g", &3);
    graph.add_point(10);
    graph.add_point(20);
    graph.add_point(30);
    graph.add_point(40);
    let points = graph.get_points_to_draw();
    assert_eq!(points, vec![(-4i128, 20u64), (-2, 30), (0, 40)]);
}

#[test]
fn length_never_exceeds_bound() {
    let mut graph = RateGraph::new("g", &4);
    for i in 0..100u64 {
        graph.add_point(i);
        assert!(graph.get_points_to_draw().len() <= 4);
    }
    assert_eq!(graph.get_points_to_draw().len(), 4);
}

#[test]
fn length_grows_by_one_until_full() {
    let mut graph = RateGraph::new("g", &3);
    assert_eq!(graph.get_points_to_draw().len(), 0);
    graph.add_point(1);
    assert_eq!(graph.get_points_to_draw().len(), 1);
    graph.add_point(2);
    assert_eq!(graph.get_points_to_draw().len(), 2);
    graph.add_point(3);
    assert_eq!(graph.get_points_to_draw().len(), 3);
    graph.add_point(4);
    assert_eq!(graph.get_points_to_draw().len(), 3);
}

#[test]
fn zero_bound_admits_nothing() {
    let mut graph = RateGraph::new("g", &0);
    graph.add_point(5);
    assert_eq!(graph.get_points_to_draw().len(), 0);
}

#[test]
fn reset_empties_the_buffer() {
    let mut graph = RateGraph::new("g", &3);
    graph.add_point(1);
    graph.add_point(2);
    graph.reset();
    assert_eq!(graph.get_points_to_draw().len(), 0);
    graph.add_point(9);
    assert_eq!(graph.get_points_to_draw(), vec![(0i128, 9u64)]);
}

#[test]
fn changing_the_bound_resets() {
    let mut graph = RateGraph::new("g", &2);
    graph.add_point(1);
    graph.add_point(2);
    graph.change_max_points(&5);
    assert_eq!(graph.get_points_to_draw().len(), 0);
    assert_eq!(graph.get_max_points(), 5);
}

#[test]
fn graph_keeps_its_name() {
    let graph = RateGraph::new("envoy_3", &2);
    assert_eq!(graph.get_name(), "envoy_3");
}

fn rate_message(id: i32, window_bytes: u64) -> EmbassyMessage {
    let resp = SurveyorResponse { window_bytes, ..SurveyorResponse::default() };
    EmbassyMessage::compose_surveyor_response(resp, id)
}

#[test]
fn manager_names_one_graph_per_cobo() {
    let manager = GraphManager::new(10);
    let lines = manager.get_line_graphs();
    assert_eq!(lines.len(), 11);
    assert_eq!(lines[0].0, "envoy_0");
    assert_eq!(lines[10].0, "envoy_10");
    assert!(lines.iter().all(|(_, points)| points.is_empty()));
    assert_eq!(*manager.get_max_points(), 10);
}

#[test]
fn manager_routes_samples_to_the_right_graph() {
    let mut manager = GraphManager::new(10);
    manager
        .handle_messages(&[rate_message(2, 100), rate_message(2, 200), rate_message(5, 7)])
        .unwrap();
    let lines = manager.get_line_graphs();
    assert_eq!(lines[2].1, vec![(-2i128, 100u64), (0, 200)]);
    assert_eq!(lines[5].1, vec![(0i128, 7u64)]);
    assert!(lines[0].1.is_empty());
}

#[test]
fn manager_ignores_non_surveyor_messages_and_bad_ids() {
    let mut manager = GraphManager::new(10);
    manager
        .handle_messages(&[
            EmbassyMessage::compose_cancel(),
            rate_message(11, 5),
            rate_message(-2, 5),
        ])
        .unwrap();
    assert!(manager.get_line_graphs().iter().all(|(_, points)| points.is_empty()));
}

#[test]
fn manager_reset_and_rebound() {
    let mut manager = GraphManager::new(3);
    manager.handle_messages(&[rate_message(0, 1), rate_message(1, 2)]).unwrap();
    manager.reset_graphs();
    assert!(manager.get_line_graphs().iter().all(|(_, points)| points.is_empty()));
    manager.handle_messages(&[rate_message(0, 1)]).unwrap();
    manager.set_max_points(&8);
    assert!(manager.get_line_graphs().iter().all(|(_, points)| points.is_empty()));
    assert_eq!(*manager.get_max_points(), 8);
}
