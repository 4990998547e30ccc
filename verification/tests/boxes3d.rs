//! Tests of the box visualizer's plain decisions.

use control_channel::boxes3d::{Boxes3DVisualizer, STRIPS_PER_BOX, VERTICES_PER_BOX};

#[test]
fn visualizer_identifier() {
    assert_eq!(Boxes3DVisualizer::identifier(), "Boxes3D");
}

#[test]
fn box_count_sums_chunks() {
    assert_eq!(Boxes3DVisualizer::box_count(&vec![3, 0, 4]), Some(7));
    assert_eq!(Boxes3DVisualizer::box_count(&vec![]), Some(0));
}

#[test]
fn box_count_reports_overflow() {
    assert_eq!(Boxes3DVisualizer::box_count(&vec![usize::MAX, 1]), None);
}

#[test]
fn wireframe_reservations_per_box() {
    assert_eq!(STRIPS_PER_BOX, 4);
    assert_eq!(VERTICES_PER_BOX, 16);
    assert_eq!(Boxes3DVisualizer::wireframe_reservations(5), Some((20, 80)));
    assert_eq!(Boxes3DVisualizer::wireframe_reservations(0), Some((0, 0)));
}

#[test]
fn wireframe_reservations_report_overflow() {
    assert_eq!(Boxes3DVisualizer::wireframe_reservations(usize::MAX), None);
}

#[test]
fn show_first_label_takes_the_first_flag() {
    assert!(!Boxes3DVisualizer::show_first_label(&vec![]));
    assert!(Boxes3DVisualizer::show_first_label(&vec![true, false]));
    assert!(!Boxes3DVisualizer::show_first_label(&vec![false, true]));
}

#[test]
fn default_visualizer_exists() {
    assert_eq!(Boxes3DVisualizer::default(), Boxes3DVisualizer);
}
