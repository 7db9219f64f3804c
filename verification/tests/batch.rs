use hashpool::batch::{bucket_index, partition_lines};

#[test]
fn bucket_boundaries() {
    assert_eq!(bucket_index(0), 3);
    assert_eq!(bucket_index(1), 0);
    assert_eq!(bucket_index(2500), 0);
    assert_eq!(bucket_index(2501), 1);
    assert_eq!(bucket_index(5000), 1);
    assert_eq!(bucket_index(5001), 2);
    assert_eq!(bucket_index(7500), 2);
    assert_eq!(bucket_index(7501), 3);
}

#[test]
fn partition_small_batch() {
    // The very first line lands in the last bucket; lines 1..=5 in the first.
    let lines: Vec<String> = (0..6).map(|i| format!("line{}", i)).collect();
    let (b0, b1, b2, b3) = partition_lines(&lines);
    let expected0: Vec<String> = (1..6).map(|i| format!("line{}", i)).collect();
    assert_eq!(b0, expected0);
    assert!(b1.is_empty());
    assert!(b2.is_empty());
    assert_eq!(b3, vec!["line0".to_string()]);
}

#[test]
fn partition_full_batch() {
    let lines: Vec<String> = (0..7600).map(|i| i.to_string()).collect();
    let (b0, b1, b2, b3) = partition_lines(&lines);
    assert_eq!(b0.len(), 2500);
    assert_eq!(b1.len(), 2500);
    assert_eq!(b2.len(), 2500);
    assert_eq!(b3.len(), 100);
    assert_eq!(b0.first().unwrap(), "1");
    assert_eq!(b0.last().unwrap(), "2500");
    assert_eq!(b1.first().unwrap(), "2501");
    assert_eq!(b1.last().unwrap(), "5000");
    assert_eq!(b2.first().unwrap(), "5001");
    assert_eq!(b2.last().unwrap(), "7500");
    assert_eq!(b3.first().unwrap(), "0");
    assert_eq!(b3[1], "7501");
    assert_eq!(b3.last().unwrap(), "7599");
}
