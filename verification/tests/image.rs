use raytracer::image_ppm::{ImagePPM, PPMPixel};

#[test]
fn new_image_is_black() {
    let img = ImagePPM::new(3, 2);
    assert_eq!(img.width, 3);
    assert_eq!(img.height, 2);
    assert_eq!(img.data.len(), 6);
    for p in &img.data {
        assert_eq!(p.rgb, [0, 0, 0]);
    }
}

#[test]
fn ppm_bytes_of_small_image() {
    let mut img = ImagePPM::new(2, 1);
    img.data[0] = PPMPixel { rgb: [9, 8, 7] };
    img.data[1] = PPMPixel { rgb: [255, 0, 128] };
    let mut expected: Vec<u8> = b"P6\n2 1\n255\n".to_vec();
    expected.extend_from_slice(&[9, 8, 7, 255, 0, 128]);
    assert_eq!(img.to_bytes(), expected);
}

#[test]
fn ppm_header_has_multi_digit_decimals() {
    let img = ImagePPM::new(13, 255);
    let bytes = img.to_bytes();
    let header = b"P6\n13 255\n255\n";
    assert_eq!(&bytes[..header.len()], header);
    assert_eq!(bytes.len(), header.len() + 13 * 255 * 3);
    assert!(bytes[header.len()..].iter().all(|&b| b == 0));
}

#[test]
fn ppm_bytes_of_empty_image() {
    let img = ImagePPM::new(0, 5);
    assert_eq!(img.to_bytes(), b"P6\n0 5\n255\n".to_vec());
}
