use udf_rs::{DirentInfo, ReadStep, UdfFile, UDF_BLOCKSIZE};

#[test]
fn lib_it_works() {
    // two reads of 2 bytes each give the whole 4-byte file
    let mut f = UdfFile::new(4);
    let block = vec![1u8; UDF_BLOCKSIZE];
    let mut out = Vec::new();
    assert_eq!(f.read(2, &mut out), ReadStep::NeedBlocks(1));
    assert_eq!(f.supply(&block, UDF_BLOCKSIZE as i64), Ok(4));
    assert_eq!(f.read(2, &mut out), ReadStep::Done(2));
    assert_eq!(f.read(2, &mut out), ReadStep::Done(2));
    let result = out.len();
    assert_eq!(result, 4);
}

#[test]
fn udf_it_works() {
    let d = DirentInfo::new(Some(b"ab".to_vec()), false, 2, 2 + 2, 0o100444, 2);
    let result = d.file_length();
    assert_eq!(result, Some(4));
}
