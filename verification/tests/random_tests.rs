use wark::random::deterministic_random;

#[test]
fn random_bytes_count_up_from_zero() {
    let mut buf = [0xffu8; 8];
    assert!(deterministic_random(&mut buf).is_ok());
    assert_eq!(buf, [0, 1, 2, 3, 4, 5, 6, 7]);
}

#[test]
fn random_bytes_wrap_after_255() {
    let mut buf = vec![0xaau8; 600];
    assert!(deterministic_random(&mut buf).is_ok());
    for (i, byte) in buf.iter().enumerate() {
        assert_eq!(*byte as usize, i % 256);
    }
    assert_eq!(buf[255], 255);
    assert_eq!(buf[256], 0);
    assert_eq!(buf[599], 87);
}

#[test]
fn random_bytes_restart_for_every_request() {
    let mut first = [9u8; 5];
    let mut second = [7u8; 3];
    deterministic_random(&mut first).unwrap();
    deterministic_random(&mut second).unwrap();
    assert_eq!(first, [0, 1, 2, 3, 4]);
    assert_eq!(second, [0, 1, 2]);
}

#[test]
fn random_accepts_an_empty_request() {
    let mut buf: [u8; 0] = [];
    assert!(deterministic_random(&mut buf).is_ok());
}
