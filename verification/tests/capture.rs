use surge_rs::{plot_points, Capture, SurgeSynthesizer, BLOCK_SIZE, N_OUTPUTS};

fn block_of(base: i32) -> [[i32; 32]; 2] {
    let mut b = [[0i32; 32]; 2];
    for j in 0..32 {
        b[0][j] = base + j as i32;
        b[1][j] = -(base + j as i32);
    }
    b
}

#[test]
fn layout_constants() {
    assert_eq!(BLOCK_SIZE, 32);
    assert_eq!(N_OUTPUTS, 2);
}

#[test]
fn new_capture_is_empty() {
    let c: Capture<i32> = Capture::new();
    assert!(c.left().is_empty());
    assert!(c.right().is_empty());
}

#[test]
fn one_block_splits_into_channels() {
    let mut c = Capture::new();
    c.push_block(&block_of(100));
    let expected_left: Vec<i32> = (100..132).collect();
    let expected_right: Vec<i32> = (100..132).map(|x| -x).collect();
    assert_eq!(c.left(), &expected_left);
    assert_eq!(c.right(), &expected_right);
}

#[test]
fn stream_length_is_block_size_times_blocks() {
    let mut c = Capture::new();
    for k in 0..100 {
        c.push_block(&block_of(k * 1000));
    }
    assert_eq!(c.left().len(), 3200);
    assert_eq!(c.right().len(), 3200);
}

#[test]
fn frame_j_of_block_k_stands_at_32k_plus_j() {
    let mut c = Capture::new();
    let blocks: Vec<[[i32; 32]; 2]> = (0..5).map(|k| block_of(k * 1000)).collect();
    for b in &blocks {
        c.push_block(b);
    }
    for k in 0..5 {
        for j in 0..32 {
            assert_eq!(c.left()[32 * k + j], blocks[k][0][j]);
            assert_eq!(c.right()[32 * k + j], blocks[k][1][j]);
        }
    }
    assert_eq!(c.left()[3 * 32 + 7], 3007);
    assert_eq!(c.right()[4 * 32 + 31], -4031);
}

#[test]
fn two_runs_concatenate() {
    let mut whole = Capture::new();
    let mut first = Capture::new();
    let mut second = Capture::new();
    for k in 0..3 {
        whole.push_block(&block_of(k));
        first.push_block(&block_of(k));
    }
    for k in 3..6 {
        whole.push_block(&block_of(k));
        second.push_block(&block_of(k));
    }
    let mut joined = first.left().clone();
    joined.extend_from_slice(second.left());
    assert_eq!(whole.left(), &joined);
}

#[test]
fn float_samples_keep_their_values() {
    let mut b = [[0.0f32; 32]; 2];
    b[0][0] = 0.5;
    b[1][31] = -0.25;
    let mut c = Capture::new();
    c.push_block(&b);
    c.push_block(&b);
    assert_eq!(c.left()[0], 0.5);
    assert_eq!(c.left()[32], 0.5);
    assert_eq!(c.right()[63], -0.25);
    assert_eq!(c.right()[31], -0.25);
}

#[test]
fn plot_points_pair_index_and_sample() {
    let samples = vec![0.25f32, -1.0, 3.5];
    let points = plot_points(&samples);
    assert_eq!(points, vec![(0usize, 0.25f32), (1, -1.0), (2, 3.5)]);
}

#[test]
fn plot_points_of_nothing() {
    let samples: Vec<i32> = Vec::new();
    assert!(plot_points(&samples).is_empty());
}

#[test]
fn null_engine_gives_no_synthesizer() {
    assert!(SurgeSynthesizer::new(0).is_none());
}

#[test]
fn live_engine_is_owned() {
    let s = SurgeSynthesizer::new(0x7f00_1000).unwrap();
    assert_eq!(s.engine(), 0x7f00_1000);
}
