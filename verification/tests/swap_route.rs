use jin::swap_path::{build_multi_hop_swap_path, PathError};

fn address(fill: u8) -> [u8; 20] {
    let mut a = [fill; 20];
    a[0] = 0xaa;
    a[19] = 0xbb;
    a
}

#[test]
fn a_route_of_three_tokens() {
    let bytes = build_multi_hop_swap_path(vec![address(1), address(2), address(3)], vec![100, 0x12_3456]).unwrap();
    let mut expected = Vec::new();
    expected.extend_from_slice(&address(1));
    expected.extend_from_slice(&[0, 0, 100]);
    expected.extend_from_slice(&address(2));
    expected.extend_from_slice(&[0x12, 0x34, 0x56]);
    expected.extend_from_slice(&address(3));
    assert_eq!(bytes, expected);
    assert_eq!(bytes.len(), 66);
}

#[test]
fn a_route_of_one_token_has_no_fee() {
    assert_eq!(build_multi_hop_swap_path(vec![address(9)], vec![]), Ok(address(9).to_vec()));
}

#[test]
fn the_largest_fee_fills_three_bytes() {
    let bytes = build_multi_hop_swap_path(vec![address(1), address(2)], vec![0xff_ffff]).unwrap();
    assert_eq!(&bytes[20..23], &[0xff, 0xff, 0xff]);
    let bytes = build_multi_hop_swap_path(vec![address(1), address(2)], vec![0]).unwrap();
    assert_eq!(&bytes[20..23], &[0, 0, 0]);
    let bytes = build_multi_hop_swap_path(vec![address(1), address(2)], vec![0x01_0203]).unwrap();
    assert_eq!(&bytes[20..23], &[1, 2, 3]);
}

#[test]
fn a_route_without_one_fee_between_each_two_tokens_is_refused() {
    assert_eq!(build_multi_hop_swap_path(vec![], vec![]), Err(PathError::LengthMismatch));
    assert_eq!(build_multi_hop_swap_path(vec![address(1)], vec![100]), Err(PathError::LengthMismatch));
    assert_eq!(
        build_multi_hop_swap_path(vec![address(1), address(2), address(3)], vec![100]),
        Err(PathError::LengthMismatch)
    );
    assert_eq!(
        build_multi_hop_swap_path(vec![address(1), address(2)], vec![100, 100, 0xffff_ffff]),
        Err(PathError::LengthMismatch)
    );
    assert_eq!(PathError::LengthMismatch.message(), "path and fee length not match");
}
