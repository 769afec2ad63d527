use mount_sync::sparse::{
    ExtentScan, PackCursor, SeekOutcome, SeekStep, SparseExtent, SparseFileMetadata, SparseRun,
};

fn extent(offset: u64, length: u64) -> SparseExtent {
    SparseExtent { offset, length }
}

fn logical(sparse: &SparseFileMetadata, fill: &[u8]) -> Vec<u8> {
    let mut content = vec![0u8; sparse.logical_size as usize];
    for (extent, byte) in sparse.extents.iter().zip(fill) {
        for at in extent.offset..extent.offset + extent.length {
            content[at as usize] = *byte;
        }
    }
    content
}

#[test]
fn sparse_packed_extents_reconstruct_logical_file() {
    let sparse_metadata = SparseFileMetadata {
        logical_size: 128 * 1024,
        extents: vec![extent(4 * 1024, 8 * 1024), extent(64 * 1024, 4 * 1024)],
    };
    let content = logical(&sparse_metadata, &[0x41, 0x5a]);

    let mut packed: Vec<u8> = Vec::new();
    let mut cursor = PackCursor::new();
    while let Some((offset, len)) = cursor.next_read(&sparse_metadata, 1000) {
        let from = offset as usize;
        packed.extend_from_slice(&content[from..from + len]);
        cursor.took(&sparse_metadata, len);
    }
    assert_eq!(packed.len() as u64, sparse_metadata.packed_size());

    let mut reconstructed = vec![0u8; sparse_metadata.logical_size as usize];
    let mut packed_offset = 0usize;
    for extent in &sparse_metadata.extents {
        let extent_len = extent.length as usize;
        let next_packed = packed_offset + extent_len;
        reconstructed[extent.offset as usize..extent.offset as usize + extent_len]
            .copy_from_slice(&packed[packed_offset..next_packed]);
        packed_offset = next_packed;
    }

    assert_eq!(reconstructed, content);
}

#[test]
fn runs_give_the_bytes_of_the_file() {
    let sparse = SparseFileMetadata {
        logical_size: 20,
        extents: vec![extent(3, 2), extent(5, 4), extent(12, 1)],
    };
    let content = logical(&sparse, &[1, 2, 3]);
    let mut bytes: Vec<u8> = Vec::new();
    for run in sparse.runs() {
        match run {
            SparseRun::Zeros(n) => bytes.extend(vec![0u8; n as usize]),
            SparseRun::Data(e) => bytes
                .extend_from_slice(&content[e.offset as usize..(e.offset + e.length) as usize]),
        }
    }
    assert_eq!(bytes, content);
    assert_eq!(
        sparse.runs()[0],
        SparseRun::Zeros(3)
    );
}

#[test]
fn data_is_found_between_the_holes() {
    let mut scan = ExtentScan::new(100);
    assert_eq!(scan.step, SeekStep::FindData(0));
    scan.advance(SeekOutcome::At(10));
    assert_eq!(scan.step, SeekStep::FindHole(10));
    scan.advance(SeekOutcome::At(20));
    assert_eq!(scan.step, SeekStep::FindData(20));
    scan.advance(SeekOutcome::NoMore);
    assert_eq!(scan.step, SeekStep::Finished);
    let sparse = scan.finish().unwrap();
    assert_eq!(sparse.extents, vec![extent(10, 10)]);
    assert!(sparse.is_effectively_sparse());
}

#[test]
fn files_without_holes_are_not_sparse() {
    let mut scan = ExtentScan::new(10);
    scan.advance(SeekOutcome::At(0));
    scan.advance(SeekOutcome::At(10));
    assert_eq!(scan.step, SeekStep::Finished);
    assert!(scan.finish().is_none());
    assert!(ExtentScan::new(0).finish().is_none());
    let mut scan = ExtentScan::new(10);
    scan.advance(SeekOutcome::Unsupported);
    assert!(scan.finish().is_none());
}

#[test]
fn sizes_are_counted_as_far_as_they_can_be() {
    let sparse = SparseFileMetadata {
        logical_size: u64::MAX,
        extents: vec![extent(0, u64::MAX), extent(0, 5)],
    };
    assert_eq!(sparse.packed_size(), u64::MAX);
    assert!(!sparse.is_effectively_sparse());
}
