use gctconv::to_gct::tex0_to_gct;
use gctconv::to_tex0::gct_to_tex0;

fn valid_gct(width: u16, height: u16, encoding: u8, image: &[u8], palette: &[u8]) -> Vec<u8> {
    let carries = encoding == 0x08 || encoding == 0x09;
    let mut gct = vec![0x47, 0x43, 0x4E, 0x54, 0x00, 0x00, 0x00, 0x03, 0x00, 0x40, 0x00, 0x00];
    gct.extend((image.len() as u32).to_be_bytes());
    gct.extend(width.to_be_bytes());
    gct.extend(height.to_be_bytes());
    gct.push(encoding);
    gct.push(if carries { 2 } else { 1 });
    gct.extend([0u8; 10]);
    gct.extend(b" treyarchgct.8bi v2.2.4#0");
    gct.extend([0u8; 7]);
    gct.extend(image);
    gct.extend(palette);
    gct
}

fn noise(len: usize, seed: u32) -> Vec<u8> {
    let mut state: u32 = seed;
    (0..len)
        .map(|_| {
            state = state.wrapping_mul(1_664_525).wrapping_add(1_013_904_223);
            (state >> 24) as u8
        })
        .collect()
}

fn there_and_back(gct: &[u8], stem: &[u8]) -> Vec<u8> {
    let forward = gct_to_tex0(gct, stem).unwrap();
    let back = tex0_to_gct(&forward.tex0, forward.plt0.as_deref(), stem).unwrap();
    assert_eq!(back.warning, None);
    back.gct
}

#[test]
fn round_trip_of_a_ci4_image() {
    let gct = valid_gct(0x20, 0x20, 0x08, &noise(0x400, 1), &noise(0x20, 2));
    assert_eq!(there_and_back(&gct, b"foo"), gct);
}

#[test]
fn round_trip_of_a_ci8_image() {
    let gct = valid_gct(0x40, 0x10, 0x09, &noise(0x400, 3), &noise(0x200, 4));
    assert_eq!(there_and_back(&gct, b"texture_ci8"), gct);
}

#[test]
fn round_trip_of_every_encoding_without_palette() {
    for encoding in 0..=255u8 {
        if encoding == 0x08 || encoding == 0x09 {
            continue;
        }
        let gct = valid_gct(3, 5, encoding, &noise(0x77, encoding as u32), &[]);
        assert_eq!(there_and_back(&gct, b"plain"), gct, "encoding {encoding:#04x}");
    }
}

#[test]
fn round_trip_under_every_stem_length() {
    let ci4 = valid_gct(8, 8, 0x08, &noise(0x55, 7), &noise(0x20, 8));
    let rgb = valid_gct(8, 8, 0x05, &noise(0x55, 9), &[]);
    for n in 0..=255usize {
        let stem = vec![b'n'; n];
        assert_eq!(there_and_back(&ci4, &stem), ci4, "stem length {n}");
        assert_eq!(there_and_back(&rgb, &stem), rgb, "stem length {n}");
    }
}

#[test]
fn round_trip_of_the_smallest_containers() {
    let two_bytes = valid_gct(1, 1, 0x00, &[0xAB, 0xCD], &[]);
    assert_eq!(two_bytes.len(), 0x42);
    assert_eq!(there_and_back(&two_bytes, b""), two_bytes);
    let palette_only = valid_gct(1, 1, 0x08, &[], &noise(0x20, 5));
    assert_eq!(there_and_back(&palette_only, b"p"), palette_only);
}

#[test]
fn round_trip_keeps_image_bytes_that_look_like_a_footer() {
    let mut image = vec![0u8; 64];
    image.extend([0, 0, 0, 3, b'f', b'o', b'o', 0, 0, 0]);
    let gct = valid_gct(4, 4, 0x01, &image, &[]);
    assert_eq!(there_and_back(&gct, b"foo"), gct);
}
