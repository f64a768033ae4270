use pubsubinator::matrix::Matrix;
use pubsubinator::matrix::MatrixDirection;
use pubsubinator::reactor_event::ReactorEvent;

fn scan_one(m: &mut Matrix, level: bool) -> Vec<ReactorEvent> {
    m.scan(&vec![vec![level]])
}

#[test]
fn chatter_faster_than_threshold_publishes_nothing() {
    let mut m = Matrix::new(1, 1, MatrixDirection::Row2Col, 3);
    for _ in 0..10 {
        assert!(scan_one(&mut m, true).is_empty());
        assert!(scan_one(&mut m, false).is_empty());
    }
    for _ in 0..10 {
        assert!(scan_one(&mut m, true).is_empty());
        assert!(scan_one(&mut m, true).is_empty());
        assert!(scan_one(&mut m, false).is_empty());
    }
}

#[test]
fn stable_signal_publishes_exactly_one_transition() {
    let mut m = Matrix::new(1, 1, MatrixDirection::Row2Col, 3);
    assert!(scan_one(&mut m, true).is_empty());
    assert!(scan_one(&mut m, true).is_empty());
    let events = scan_one(&mut m, true);
    assert_eq!(events, vec![ReactorEvent::HardwareMappedBool(true, 0, 0)]);
    for _ in 0..5 {
        assert!(scan_one(&mut m, true).is_empty());
    }
    assert!(scan_one(&mut m, false).is_empty());
    assert!(scan_one(&mut m, false).is_empty());
    let events = scan_one(&mut m, false);
    assert_eq!(events, vec![ReactorEvent::HardwareMappedBool(false, 0, 0)]);
}

#[test]
fn threshold_one_trusts_the_first_sample() {
    let mut m = Matrix::new(1, 1, MatrixDirection::Row2Col, 1);
    let events = scan_one(&mut m, true);
    assert_eq!(events, vec![ReactorEvent::HardwareMappedBool(true, 0, 0)]);
    let events = scan_one(&mut m, false);
    assert_eq!(events, vec![ReactorEvent::HardwareMappedBool(false, 0, 0)]);
}

#[test]
fn col2row_maps_outputs_to_columns() {
    // 3 inputs (rows) x 2 outputs (columns), instant threshold.
    let mut m = Matrix::new(3, 2, MatrixDirection::Col2Row, 1);
    // While output line 1 is driven, input line 2 reads high: row 2, col 1.
    let readings = vec![vec![false, false, false], vec![false, false, true]];
    let events = m.scan(&readings);
    assert_eq!(events, vec![ReactorEvent::HardwareMappedBool(true, 2, 1)]);
}

#[test]
fn row2col_maps_outputs_to_rows() {
    // 3 inputs (columns) x 2 outputs (rows), instant threshold.
    let mut m = Matrix::new(3, 2, MatrixDirection::Row2Col, 1);
    let readings = vec![vec![false, false, false], vec![false, false, true]];
    let events = m.scan(&readings);
    assert_eq!(events, vec![ReactorEvent::HardwareMappedBool(true, 1, 2)]);
}

#[test]
fn sweep_reports_transitions_in_scan_order() {
    let mut m = Matrix::new(2, 2, MatrixDirection::Row2Col, 1);
    let readings = vec![vec![true, false], vec![true, true]];
    let events = m.scan(&readings);
    assert_eq!(
        events,
        vec![
            ReactorEvent::HardwareMappedBool(true, 0, 0),
            ReactorEvent::HardwareMappedBool(true, 1, 0),
            ReactorEvent::HardwareMappedBool(true, 1, 1),
        ]
    );
}
