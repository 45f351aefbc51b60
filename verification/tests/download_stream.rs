use paper_api::download::{concat_chunks, ChunkSink};

#[test]
fn sink_receives_every_chunk_in_order() {
    let chunks: Vec<Vec<u8>> = vec![
        b"paper-".to_vec(),
        b"1.18".to_vec(),
        Vec::new(),
        b"-15.jar bytes".to_vec(),
    ];
    let mut sink = ChunkSink::new();
    for c in &chunks {
        sink.push_chunk(c.clone());
    }
    assert_eq!(sink.chunks, chunks);
    let assembled = sink.assemble();
    assert_eq!(assembled, b"paper-1.18-15.jar bytes".to_vec());
    let total: usize = chunks.iter().map(|c| c.len()).sum();
    assert_eq!(assembled.len(), total);
}

#[test]
fn assembling_no_chunks_gives_no_bytes() {
    let sink = ChunkSink::new();
    assert_eq!(sink.assemble(), Vec::<u8>::new());
}

#[test]
fn concatenation_keeps_byte_order() {
    let chunks: Vec<Vec<u8>> = vec![vec![1, 2], vec![3], vec![], vec![4, 5, 6]];
    assert_eq!(concat_chunks(&chunks), vec![1, 2, 3, 4, 5, 6]);
}
