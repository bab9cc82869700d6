use ptyrec::chunks::replay_bytes;

#[test]
fn replay_concatenates_in_order() {
    let chunks: Vec<Vec<u8>> = vec![b"ls".to_vec(), b"\n".to_vec(), b"pwd\n".to_vec()];
    assert_eq!(replay_bytes(&chunks), b"ls\npwd\n".to_vec());
}

#[test]
fn replay_of_nothing_is_empty() {
    let chunks: Vec<Vec<u8>> = Vec::new();
    assert_eq!(replay_bytes(&chunks), Vec::<u8>::new());
}

#[test]
fn replay_keeps_bytes_uncorrupted() {
    let chunks: Vec<Vec<u8>> = vec![vec![0u8, 255u8, 128u8], vec![], vec![7u8]];
    assert_eq!(replay_bytes(&chunks), vec![0u8, 255u8, 128u8, 7u8]);
}

#[test]
fn replay_is_batching_invariant() {
    let all: Vec<Vec<u8>> = vec![b"a".to_vec(), b"bc".to_vec(), b"def".to_vec()];
    let first: Vec<Vec<u8>> = vec![b"a".to_vec()];
    let second: Vec<Vec<u8>> = vec![b"bc".to_vec(), b"def".to_vec()];
    let mut glued = replay_bytes(&first);
    glued.extend(replay_bytes(&second));
    assert_eq!(glued, replay_bytes(&all));
}
