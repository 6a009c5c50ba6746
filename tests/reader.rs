use udf_rs::reader::blocks_for;
use udf_rs::{ReadStep, UdfError, UdfFile, UDF_BLOCKSIZE};

/// A block device over `data` that continues where it last stopped and
/// always fills whole blocks, padding past the end of the data.
struct Device {
    data: Vec<u8>,
    pos: usize,
}

impl Device {
    fn read_blocks(&mut self, count: usize) -> (Vec<u8>, i64) {
        let mut block = vec![0xEEu8; count * UDF_BLOCKSIZE];
        for (i, b) in block.iter_mut().enumerate() {
            if self.pos + i < self.data.len() {
                *b = self.data[self.pos + i];
            }
        }
        self.pos += block.len();
        let n = block.len() as i64;
        (block, n)
    }
}

fn read_chunk(f: &mut UdfFile, dev: &mut Device, max: usize) -> Result<Vec<u8>, UdfError> {
    loop {
        let mut out = Vec::new();
        match f.read(max, &mut out) {
            ReadStep::Done(n) => {
                assert_eq!(n, out.len());
                return Ok(out);
            }
            ReadStep::NeedBlocks(c) => {
                let (block, raw) = dev.read_blocks(c);
                f.supply(&block, raw)?;
            }
        }
    }
}

fn content(len: usize) -> Vec<u8> {
    (0..len).map(|i| (i % 199) as u8).collect()
}

fn read_all(len: usize, chunk: usize) -> (Vec<u8>, Vec<usize>) {
    let data = content(len);
    let mut dev = Device { data, pos: 0 };
    let mut f = UdfFile::new(len as u32);
    let mut all = Vec::new();
    let mut sizes = Vec::new();
    loop {
        let got = read_chunk(&mut f, &mut dev, chunk).unwrap();
        sizes.push(got.len());
        if got.is_empty() {
            break;
        }
        assert!(got.len() <= chunk);
        all.extend_from_slice(&got);
    }
    (all, sizes)
}

#[test]
fn reads_5000_bytes_in_700_byte_chunks() {
    let (all, sizes) = read_all(5000, 700);
    assert_eq!(all.len(), 5000);
    assert_eq!(all, content(5000));
    // seven chunks of 700, one of 100, then the read that returns 0
    assert_eq!(sizes, vec![700, 700, 700, 700, 700, 700, 700, 100, 0]);
}

#[test]
fn chunk_sizes_do_not_change_what_is_read() {
    let (whole, _) = read_all(5000, 5000);
    for chunk in [1usize, 7, 700, 2047, 2048, 2049, 4096, 10000] {
        let (all, _) = read_all(5000, chunk);
        assert_eq!(all, whole);
    }
}

#[test]
fn never_reads_past_the_length_of_a_partial_block() {
    let (all, _) = read_all(2049, 4096);
    assert_eq!(all.len(), 2049);
    assert!(!all.contains(&0xEE));
}

#[test]
fn empty_file_reads_nothing() {
    let mut f = UdfFile::new(0);
    let mut out = Vec::new();
    assert_eq!(f.read(100, &mut out), ReadStep::Done(0));
    assert!(out.is_empty());
}

#[test]
fn zero_sized_request_returns_zero() {
    let mut f = UdfFile::new(10);
    let mut out = Vec::new();
    assert_eq!(f.read(0, &mut out), ReadStep::Done(0));
}

#[test]
fn every_read_fills_the_request_up_to_the_end() {
    for chunk in [1usize, 700, 2047, 2049, 3000] {
        let (_, sizes) = read_all(5000, chunk);
        let mut left = 5000usize;
        for s in sizes {
            assert_eq!(s, chunk.min(left));
            left -= s;
        }
        assert_eq!(left, 0);
    }
}

#[test]
fn staged_shortfall_asks_for_more_blocks() {
    let mut f = UdfFile::new(5000);
    let block = vec![3u8; UDF_BLOCKSIZE];
    assert_eq!(f.supply(&block, 2048), Ok(2048));
    let mut out = Vec::new();
    assert_eq!(f.read(1400, &mut out), ReadStep::Done(1400));
    // 648 staged, 700 asked: one more block covers the 52 missing
    assert_eq!(f.read(700, &mut out), ReadStep::NeedBlocks(1));
    // 648 staged, 3000 asked: two more blocks cover the 2352 missing
    assert_eq!(f.read(3000, &mut out), ReadStep::NeedBlocks(2));
    assert_eq!(out.len(), 1400);
}

#[test]
fn asks_for_blocks_covering_the_request() {
    let mut out = Vec::new();
    let mut f = UdfFile::new(5000);
    assert_eq!(f.read(700, &mut out), ReadStep::NeedBlocks(1));
    assert_eq!(f.read(2049, &mut out), ReadStep::NeedBlocks(2));
    // clipped to the end of the file
    assert_eq!(f.read(100000, &mut out), ReadStep::NeedBlocks(3));
    assert!(out.is_empty());
    assert_eq!(f.position_of(), 0);
}

#[test]
fn failed_block_read_is_reported() {
    let mut f = UdfFile::new(100);
    let block = vec![0u8; UDF_BLOCKSIZE];
    assert_eq!(f.supply(&block, -1), Err(UdfError::Io(-1)));
    // a count larger than the buffer is no valid result either
    assert_eq!(f.supply(&block, 4096), Err(UdfError::Io(4096)));
}

#[test]
fn empty_block_read_before_the_end_is_short() {
    let mut f = UdfFile::new(100);
    let block = vec![0u8; UDF_BLOCKSIZE];
    assert_eq!(f.supply(&block, 0), Err(UdfError::ShortRead));
}

#[test]
fn supply_clips_to_the_file_length() {
    let mut f = UdfFile::new(100);
    let block = vec![7u8; UDF_BLOCKSIZE];
    assert_eq!(f.supply(&block, 2048), Ok(100));
    let mut out = Vec::new();
    assert_eq!(f.read(1000, &mut out), ReadStep::Done(100));
    assert_eq!(out, vec![7u8; 100]);
    assert_eq!(f.read(1000, &mut out), ReadStep::Done(0));
    assert_eq!(f.file_length(), 100);
}

#[test]
fn block_counts() {
    assert_eq!(blocks_for(0), 0);
    assert_eq!(blocks_for(1), 1);
    assert_eq!(blocks_for(2048), 1);
    assert_eq!(blocks_for(2049), 2);
    assert_eq!(blocks_for(5000), 3);
}
