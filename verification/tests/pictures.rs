use ramopt::icon::icon;
use ramopt::picture::has_broken_palette;

fn checksum(bytes: &[u8]) -> u32 {
    let mut crc = u32::MAX;
    for byte in bytes {
        crc ^= u32::from(*byte);
        for _ in 0..8 {
            crc = if crc & 1 == 1 { (crc >> 1) ^ 0xedb8_8320 } else { crc >> 1 };
        }
    }
    !crc
}

fn chunk(name: &[u8; 4], data: &[u8]) -> Vec<u8> {
    let mut named = name.to_vec();
    named.extend(data);
    let mut bytes = (data.len() as u32).to_be_bytes().to_vec();
    bytes.extend(&named);
    bytes.extend(checksum(&named).to_be_bytes());
    bytes
}

/// Bytes as a stream that is not compressed.
fn stream(data: &[u8]) -> Vec<u8> {
    let (mut low, mut high) = (1u32, 0u32);
    for byte in data {
        low = (low + u32::from(*byte)) % 65521;
        high = (high + low) % 65521;
    }
    let length = data.len() as u16;
    let mut bytes = vec![0x78, 0x01, 0x01];
    bytes.extend(length.to_le_bytes());
    bytes.extend((!length).to_le_bytes());
    bytes.extend(data);
    bytes.extend((high << 16 | low).to_be_bytes());
    bytes
}

/// A PNG file of one pixel with chunks in front of its pixel and behind it.
fn png(colour_type: u8, before: &[Vec<u8>], pixel: &[u8], after: &[Vec<u8>]) -> Vec<u8> {
    let mut bytes = vec![0x89, b'P', b'N', b'G', 13, 10, 26, 10];
    bytes.extend(chunk(b"IHDR", &[0, 0, 0, 1, 0, 0, 0, 1, 8, colour_type, 0, 0, 0]));
    bytes.extend(before.concat());
    let mut row = vec![0];
    row.extend(pixel);
    bytes.extend(chunk(b"IDAT", &stream(&row)));
    bytes.extend(after.concat());
    bytes.extend(chunk(b"IEND", &[]));
    bytes
}

fn palette(length: usize) -> Vec<u8> {
    let colours: Vec<u8> = (1..=length as u8).collect();
    chunk(b"PLTE", &colours)
}

/// An ICO file of pictures of one pixel, each with its number of bits.
fn ico(pictures: &[(u16, Vec<u8>)]) -> Vec<u8> {
    let mut bytes = vec![0, 0, 1, 0, pictures.len() as u8, 0];
    let mut offset = 6 + 16 * pictures.len() as u32;
    for (bits, picture) in pictures {
        bytes.extend([1, 1, 0, 0, 1, 0]);
        bytes.extend(bits.to_le_bytes());
        bytes.extend((picture.len() as u32).to_le_bytes());
        bytes.extend(offset.to_le_bytes());
        offset += picture.len() as u32;
    }
    for (_, picture) in pictures {
        bytes.extend(picture);
    }
    bytes
}

fn assert_decodes(bytes: &Vec<u8>, rgba: [u8; 4]) {
    assert!(!has_broken_palette(bytes));
    let image = icon(bytes).expect("a picture");
    assert_eq!((image.width, image.height), (1, 1));
    assert_eq!(image.rgba, rgba.to_vec());
    let found = image::load_from_memory(bytes).expect("a picture").into_rgba8();
    assert_eq!(found.into_raw(), rgba.to_vec());
}

fn assert_refused(bytes: &Vec<u8>) {
    assert!(has_broken_palette(bytes));
    assert_eq!(
        icon(bytes).map(|_| ()),
        Err("invalid tray icon: incomplete palette".to_string())
    );
}

#[test]
fn whole_palettes_are_decoded() {
    assert_decodes(&png(3, &[palette(3)], &[0], &[]), [1, 2, 3, 255]);
    assert_decodes(&png(3, &[palette(6)], &[1], &[]), [4, 5, 6, 255]);
    let opacity = chunk(b"tRNS", &[7]);
    assert_decodes(&png(3, &[palette(3), opacity], &[0], &[]), [1, 2, 3, 7]);
}

#[test]
fn cut_palettes_are_refused() {
    for length in [4, 5, 7, 250] {
        assert_refused(&png(3, &[palette(length)], &[0], &[]));
    }
    let text = chunk(b"tEXt", b"Title\0PLTE");
    assert_refused(&png(3, &[text, palette(4)], &[0], &[]));
}

#[test]
fn palettes_that_are_not_used_do_not_matter() {
    assert_decodes(&png(2, &[palette(4)], &[9, 8, 7], &[]), [9, 8, 7, 255]);
    assert_decodes(&png(3, &[palette(3)], &[0], &[palette(4)]), [1, 2, 3, 255]);
    let text = chunk(b"tEXt", b"Title\0\0\0\0\x04PLTE");
    assert_decodes(&png(3, &[text, palette(3)], &[0], &[]), [1, 2, 3, 255]);
}

#[test]
fn pictures_without_a_palette_are_left_to_the_decoder() {
    let missing = png(3, &[], &[0], &[]);
    let twice = png(3, &[palette(3), palette(4)], &[0], &[]);
    let mut short = png(3, &[palette(4)], &[0], &[]);
    short.truncate(25);
    for bytes in [missing, twice, short, vec![0, 0, 1, 0], vec![0, 0, 1, 0, 9, 0], vec![0, 0, 1, 0, 0, 0]] {
        assert!(!has_broken_palette(&bytes));
        let said = image::load_from_memory(&bytes).expect_err("no picture").to_string();
        assert_eq!(icon(&bytes).map(|_| ()), Err(format!("invalid tray icon: {said}")));
    }
}

#[test]
fn the_chosen_picture_of_an_icon_file_decides() {
    let broken = || png(3, &[palette(4), chunk(b"tRNS", &[7])], &[0], &[]);
    let good = || png(6, &[], &[9, 8, 7, 6], &[]);
    let rgba = [9, 8, 7, 6];
    assert_refused(&ico(&[(32, broken())]));
    assert_decodes(&ico(&[(32, good())]), rgba);
    assert_decodes(&ico(&[(8, broken()), (32, good())]), rgba);
    assert_decodes(&ico(&[(32, good()), (8, broken())]), rgba);
    assert_refused(&ico(&[(32, broken()), (8, good())]));
    assert_decodes(&ico(&[(32, broken()), (32, good())]), rgba);
    assert_refused(&ico(&[(32, good()), (32, broken())]));
    assert_decodes(&ico(&[(32, good()), (32, broken()), (8, broken())]), rgba);
    assert_refused(&ico(&[(32, broken()), (32, good()), (8, good())]));
}
