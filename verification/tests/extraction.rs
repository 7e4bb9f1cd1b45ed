//! End-to-end tests of both container formats through the public API.

use rkunpack::unpack_file;
use rkunpack::unpack_rkafp;
use rkunpack::unpack_rkfw;
use rkunpack::OutputFile;
use rkunpack::UnpackError;
use rkunpack::UnpackResult;

fn put_u32_le(buf: &mut [u8], off: usize, v: u32) {
    buf[off..off + 4].copy_from_slice(&v.to_le_bytes());
}

/// Builds a wrapper-format image: header, then a bootloader region, then an
/// embedded package region that starts with the package signature.
fn build_rkfw(
    major: u8,
    minor: u8,
    patch: u16,
    code: u32,
    year: u16,
    month: u8,
    day: u8,
    hour: u8,
    minute: u8,
    second: u8,
    chip: u8,
    boot: &[u8],
    update: &[u8],
) -> Vec<u8> {
    let boot_offset = 0x29u32;
    let update_offset = boot_offset + boot.len() as u32;
    let mut buf = vec![0u8; 0x29];
    buf[0..4].copy_from_slice(b"RKFW");
    buf[6] = (patch & 0xff) as u8;
    buf[7] = (patch >> 8) as u8;
    buf[8] = minor;
    buf[9] = major;
    put_u32_le(&mut buf, 0x0a, code);
    buf[0x0e] = (year & 0xff) as u8;
    buf[0x0f] = (year >> 8) as u8;
    buf[0x10] = month;
    buf[0x11] = day;
    buf[0x12] = hour;
    buf[0x13] = minute;
    buf[0x14] = second;
    buf[0x15] = chip;
    put_u32_le(&mut buf, 0x19, boot_offset);
    put_u32_le(&mut buf, 0x1d, boot.len() as u32);
    put_u32_le(&mut buf, 0x21, update_offset);
    put_u32_le(&mut buf, 0x25, update.len() as u32);
    buf.extend_from_slice(boot);
    buf.extend_from_slice(update);
    buf
}

struct TestPart {
    name: Vec<u8>,
    path: Vec<u8>,
    flash_size: u32,
    flash_offset: u32,
    padded_size: u32,
    content: Option<Vec<u8>>,
    content_offset_override: Option<u32>,
}

/// Builds a package-format image: the 1924-byte header, then each entry's
/// content in order.  An entry without content gets a zero range.
fn build_rkaf(manufacturer: &[u8], model: &[u8], parts: &[TestPart]) -> Vec<u8> {
    let mut content_off = 1924u32;
    let mut header = vec![0u8; 1924];
    header[0..4].copy_from_slice(b"RKAF");
    header[8..8 + manufacturer.len()].copy_from_slice(manufacturer);
    header[68..68 + model.len()].copy_from_slice(model);
    put_u32_le(&mut header, 128, parts.len() as u32);
    let mut contents: Vec<u8> = Vec::new();
    for (i, p) in parts.iter().enumerate() {
        let base = 132 + 112 * i;
        header[base..base + p.name.len()].copy_from_slice(&p.name);
        header[base + 32..base + 32 + p.path.len()].copy_from_slice(&p.path);
        put_u32_le(&mut header, base + 92, p.flash_size);
        put_u32_le(&mut header, base + 96, p.flash_offset);
        put_u32_le(&mut header, base + 104, p.padded_size);
        match &p.content {
            Some(c) => {
                let off = p.content_offset_override.unwrap_or(content_off);
                put_u32_le(&mut header, base + 100, off);
                put_u32_le(&mut header, base + 108, c.len() as u32);
                contents.extend_from_slice(c);
                content_off += c.len() as u32;
            },
            None => {
                put_u32_le(&mut header, base + 100, 0);
                put_u32_le(&mut header, base + 108, 0);
            },
        }
    }
    let mut buf = header;
    buf.extend_from_slice(&contents);
    let declared = (buf.len() - 4) as u32;
    put_u32_le(&mut buf, 4, declared);
    buf
}

fn simple_part(name: &str, path: &str, content: &[u8]) -> TestPart {
    let mut n = name.as_bytes().to_vec();
    n.push(0);
    let mut p = path.as_bytes().to_vec();
    p.push(0);
    TestPart {
        name: n,
        path: p,
        flash_size: 0x1000,
        flash_offset: 0x2000,
        padded_size: 0x800,
        content: Some(content.to_vec()),
        content_offset_override: None,
    }
}

fn placeholder_part(path: &str) -> TestPart {
    let mut p = path.as_bytes().to_vec();
    p.push(0);
    TestPart {
        name: vec![0],
        path: p,
        flash_size: 0,
        flash_offset: 0,
        padded_size: 0,
        content: None,
        content_offset_override: None,
    }
}

#[test]
fn rkfw_basic_metadata() {
    let boot = vec![7u8; 100];
    let mut update = b"RKAF".to_vec();
    update.extend_from_slice(&[9u8; 40]);
    let data = build_rkfw(
        1, 2, 772, 0x01060000, 2024, 1, 2, 3, 4, 5, 0x50, &boot, &update,
    );
    let (outs, lines, r) = unpack_file(&data);
    assert!(lines.is_empty());
    let info = match r.expect("parse must succeed") {
        UnpackResult::Rkfw(i) => i,
        _ => panic!("wrong variant"),
    };
    assert_eq!(info.version, "1.2.772");
    assert_eq!(info.code, 0x01060000);
    // 2024-01-02 03:04:05 UTC
    assert_eq!(info.timestamp, 1704164645);
    assert_eq!(info.chip_family, "RK29xx");
    assert_eq!(info.chip_code, 0x50);
    assert_eq!(info.boot_offset, 0x29);
    assert_eq!(info.boot_size, 100);
    assert_eq!(info.update_offset, 0x29 + 100);
    assert_eq!(info.update_size, update.len() as u32);
    assert_eq!(outs.len(), 2);
    assert_eq!(outs[0].path, "BOOT");
    assert_eq!(outs[0].data, boot);
    assert_eq!(outs[1].path, "embedded-update.img");
    assert_eq!(outs[1].data, update);
}

#[test]
fn rkfw_epoch_timestamp() {
    let boot = vec![1u8; 8];
    let update = b"RKAF0000".to_vec();
    let data = build_rkfw(0, 0, 0, 0, 1970, 1, 1, 0, 0, 0, 0x60, &boot, &update);
    let (_, _, r) = unpack_file(&data);
    let info = match r.unwrap() {
        UnpackResult::Rkfw(i) => i,
        _ => panic!("wrong variant"),
    };
    assert_eq!(info.version, "0.0.0");
    assert_eq!(info.timestamp, 0);
    assert_eq!(info.chip_family, "RK30xx");
}

#[test]
fn rkfw_leap_day_valid() {
    let boot = vec![1u8; 8];
    let update = b"RKAF".to_vec();
    let data = build_rkfw(0, 0, 0, 0, 2024, 2, 29, 0, 0, 0, 0x30, &boot, &update);
    let (_, _, r) = unpack_file(&data);
    assert!(r.is_ok());
}

#[test]
fn rkfw_nonleap_feb_29_rejected() {
    let boot = vec![1u8; 8];
    let update = b"RKAF".to_vec();
    let data = build_rkfw(0, 0, 0, 0, 2023, 2, 29, 0, 0, 0, 0x30, &boot, &update);
    let (outs, _, r) = unpack_file(&data);
    assert_eq!(r.unwrap_err(), UnpackError::InvalidTimestamp);
    assert!(outs.is_empty());
}

#[test]
fn rkfw_invalid_timestamp_month_13() {
    let boot = vec![1u8; 16];
    let update = b"RKAF".to_vec();
    let data = build_rkfw(1, 0, 0, 0, 2024, 13, 1, 0, 0, 0, 0x70, &boot, &update);
    let (outs, lines, r) = unpack_file(&data);
    assert_eq!(r.unwrap_err(), UnpackError::InvalidTimestamp);
    assert!(outs.is_empty());
    assert!(lines.is_empty());
}

#[test]
fn rkfw_unknown_chip_code_still_extracts() {
    let boot = vec![3u8; 10];
    let mut update = b"RKAF".to_vec();
    update.push(0xaa);
    let data = build_rkfw(1, 0, 0, 0, 2020, 6, 15, 12, 0, 0, 0x99, &boot, &update);
    let (outs, _, r) = unpack_file(&data);
    let info = match r.expect("unknown chip is not fatal") {
        UnpackResult::Rkfw(i) => i,
        _ => panic!("wrong variant"),
    };
    assert_eq!(info.chip_family, "unknown");
    assert_eq!(info.chip_code, 0x99);
    assert_eq!(outs.len(), 2);
}

#[test]
fn rkfw_missing_embedded_package_keeps_boot() {
    let boot = vec![5u8; 12];
    let update = b"XXXX1234".to_vec();
    let data = build_rkfw(1, 0, 0, 0, 2022, 3, 4, 5, 6, 7, 0x41, &boot, &update);
    let (outs, _, r) = unpack_file(&data);
    assert_eq!(r.unwrap_err(), UnpackError::MissingEmbeddedPackage);
    assert_eq!(outs.len(), 1);
    assert_eq!(outs[0].path, "BOOT");
    assert_eq!(outs[0].data, boot);
}

#[test]
fn rkfw_boot_region_out_of_bounds() {
    let boot = vec![5u8; 12];
    let update = b"RKAF".to_vec();
    let mut data = build_rkfw(1, 0, 0, 0, 2022, 3, 4, 5, 6, 7, 0x36, &boot, &update);
    // declare a bootloader size far past the end of the file
    put_u32_le(&mut data, 0x1d, 0x10000);
    let (outs, _, r) = unpack_file(&data);
    assert_eq!(r.unwrap_err(), UnpackError::TruncatedRegion);
    assert!(outs.is_empty());
}

#[test]
fn rkfw_round_trip_regions() {
    let boot: Vec<u8> = (0..64u32).map(|x| (x * 7 % 256) as u8).collect();
    let mut update = b"RKAF".to_vec();
    update.extend((0..32u32).map(|x| (x * 13 % 256) as u8));
    let data = build_rkfw(3, 1, 4, 0xdead, 2021, 12, 31, 23, 59, 58, 0x32, &boot, &update);
    let (outs, _, r) = unpack_file(&data);
    let info = match r.unwrap() {
        UnpackResult::Rkfw(i) => i,
        _ => panic!("wrong variant"),
    };
    // write the extracted regions back at their offsets into a fresh buffer
    let mut rebuilt = vec![0u8; data.len()];
    rebuilt[info.boot_offset as usize..(info.boot_offset + info.boot_size) as usize]
        .copy_from_slice(&outs[0].data);
    rebuilt[info.update_offset as usize..(info.update_offset + info.update_size) as usize]
        .copy_from_slice(&outs[1].data);
    assert_eq!(
        &rebuilt[info.boot_offset as usize..(info.boot_offset + info.boot_size) as usize],
        &data[info.boot_offset as usize..(info.boot_offset + info.boot_size) as usize]
    );
    assert_eq!(
        &rebuilt[info.update_offset as usize..(info.update_offset + info.update_size) as usize],
        &data[info.update_offset as usize..(info.update_offset + info.update_size) as usize]
    );
    // extracted sizes equal the declared sizes exactly
    assert_eq!(outs[0].data.len() as u32, info.boot_size);
    assert_eq!(outs[1].data.len() as u32, info.update_size);
}

#[test]
fn unrecognized_format_writes_nothing() {
    let data = b"XYZWrest-of-file".to_vec();
    let (outs, lines, r) = unpack_file(&data);
    assert!(outs.is_empty());
    assert!(lines.is_empty());
    match r.unwrap_err() {
        UnpackError::UnrecognizedFormat { sig } => assert_eq!(sig, b"XYZW".to_vec()),
        e => panic!("wrong error: {:?}", e),
    }
}

#[test]
fn rkaf_basic_extraction() {
    let mut manufacturer = b"Acme".to_vec();
    manufacturer.push(0);
    let mut model = b"Widget-9".to_vec();
    model.push(0);
    let parts = vec![
        placeholder_part("SELF"),
        simple_part("boot", "Image/boot.img", &[1, 2, 3, 4, 5]),
        placeholder_part("RESERVED"),
        simple_part("system", "Image/system.img", &[9u8; 7]),
    ];
    let data = build_rkaf(&manufacturer, &model, &parts);
    let (outs, lines, r) = unpack_file(&data);
    let info = match r.expect("parse must succeed") {
        UnpackResult::Rkaf(i) => i,
        _ => panic!("wrong variant"),
    };
    assert_eq!(info.manufacturer, "Acme");
    assert_eq!(info.model, "Widget-9");
    assert_eq!(info.filesize, data.len() as u64);
    assert!(!info.length_mismatch);
    // placeholders yield neither a manifest line nor a file
    assert_eq!(lines.len(), 2);
    assert_eq!(outs.len(), 2);
    assert_eq!(info.partitions.len(), 2);
    assert_eq!(outs[0].path, "Image/boot.img");
    assert_eq!(outs[0].data, vec![1, 2, 3, 4, 5]);
    assert_eq!(outs[1].path, "Image/system.img");
    assert_eq!(outs[1].data, vec![9u8; 7]);
    let p = &info.partitions[0];
    assert_eq!(p.name, "boot");
    assert_eq!(p.path, "Image/boot.img");
    assert_eq!(p.flash_size, 0x1000);
    assert_eq!(p.flash_offset, 0x2000);
    assert_eq!(p.part_offset, 1924);
    assert_eq!(p.padded_size, 0x800);
    assert_eq!(p.part_byte_count, 5);
    // every extracted file holds exactly the declared byte count
    for (o, pi) in outs.iter().zip(info.partitions.iter()) {
        assert_eq!(o.data.len() as u32, pi.part_byte_count);
    }
    // exact manifest line, numeric fields in fixed-width hexadecimal
    assert_eq!(
        lines[0],
        "boot,Image/boot.img,0x00001000,0x00002000,0x00000784,0x00000800,0x00000005"
    );
    assert_eq!(
        lines[1],
        "system,Image/system.img,0x00001000,0x00002000,0x00000789,0x00000800,0x00000007"
    );
}

#[test]
fn rkaf_corrupt_magic_is_malformed_header() {
    let parts = vec![simple_part("boot", "Image/boot.img", &[1, 2, 3])];
    let mut data = build_rkaf(b"A\0", b"B\0", &parts);
    data[2] ^= 0x20;  // flip one bit of the magic tag
    let (outs, lines, r) = unpack_rkafp(&data);
    assert_eq!(r.unwrap_err(), UnpackError::MalformedHeader);
    assert!(outs.is_empty());
    assert!(lines.is_empty());
    // through the dispatcher the corrupted tag matches neither signature
    let (douts, _, dr) = unpack_file(&data);
    assert!(matches!(
        dr.unwrap_err(),
        UnpackError::UnrecognizedFormat { .. }
    ));
    assert!(douts.is_empty());
}

#[test]
fn rkaf_short_header_is_truncated() {
    let data = b"RKAF-too-short".to_vec();
    let (outs, lines, r) = unpack_file(&data);
    assert_eq!(r.unwrap_err(), UnpackError::TruncatedRegion);
    assert!(outs.is_empty());
    assert!(lines.is_empty());
}

#[test]
fn rkaf_partition_count_over_capacity() {
    let mut data = build_rkaf(b"A\0", b"B\0", &[]);
    put_u32_le(&mut data, 128, 17);
    let (_, _, r) = unpack_rkafp(&data);
    assert_eq!(r.unwrap_err(), UnpackError::MalformedHeader);
}

#[test]
fn rkaf_truncated_partition_keeps_earlier_files_and_line() {
    let mut bad = simple_part("app", "Image/app.img", &[8u8; 4]);
    bad.content_offset_override = Some(0x7fffffff);
    let parts = vec![simple_part("boot", "Image/boot.img", &[1, 2, 3]), bad];
    let data = build_rkaf(b"A\0", b"B\0", &parts);
    let (outs, lines, r) = unpack_file(&data);
    assert_eq!(r.unwrap_err(), UnpackError::TruncatedRegion);
    // the first partition was extracted; the failing one already has its line
    assert_eq!(outs.len(), 1);
    assert_eq!(outs[0].path, "Image/boot.img");
    assert_eq!(lines.len(), 2);
    assert!(lines[1].starts_with("app,Image/app.img,"));
}

#[test]
fn rkaf_unterminated_path_decodes_whole_field() {
    let mut whole = simple_part("x", "y", &[1u8]);
    whole.path = vec![0x61u8; 60];  // 'a' fills the field, no nul terminator
    let parts = vec![whole, simple_part("boot", "Image/boot.img", &[4, 5])];
    let data = build_rkaf(b"A\0", b"B\0", &parts);
    let (outs, lines, r) = unpack_file(&data);
    let info = match r.expect("an unterminated path is decoded, not fatal") {
        UnpackResult::Rkaf(i) => i,
        _ => panic!("wrong variant"),
    };
    // the whole 60-byte field is the path; the record is a real partition
    let long_path: String = "a".repeat(60);
    assert_eq!(outs.len(), 2);
    assert_eq!(lines.len(), 2);
    assert_eq!(outs[0].path, long_path);
    assert_eq!(outs[0].data, vec![1u8]);
    assert_eq!(info.partitions[0].path, long_path);
    assert_eq!(outs[1].path, "Image/boot.img");
    assert!(lines[0].starts_with(&format!("x,{},", long_path)));
}

#[test]
fn rkaf_unterminated_manufacturer_falls_back() {
    let manufacturer = [0x41u8; 60];  // fills the whole field, no nul
    let data = build_rkaf(&manufacturer, b"M\0", &[]);
    let (_, _, r) = unpack_rkafp(&data);
    let info = r.unwrap();
    assert_eq!(info.manufacturer, "unknown");
    assert_eq!(info.model, "M");
}

#[test]
fn rkaf_non_utf8_name_is_replaced_not_copied() {
    let mut p = simple_part("", "Image/a.img", &[1u8]);
    p.name = vec![0xff, 0x41, 0x00];  // invalid UTF-8, then 'A', then nul
    let data = build_rkaf(b"A\0", b"B\0", &[p]);
    let (_, _, r) = unpack_rkafp(&data);
    let info = r.unwrap();
    assert_eq!(info.partitions[0].name, "\u{fffd}A");
}

#[test]
fn rkaf_length_field_mismatch_is_advisory() {
    let parts = vec![simple_part("boot", "Image/boot.img", &[1, 2, 3])];
    let mut data = build_rkaf(b"A\0", b"B\0", &parts);
    put_u32_le(&mut data, 4, 0x12345678);  // wrong declared length
    let (outs, _, r) = unpack_file(&data);
    let info = match r.expect("mismatch must not abort extraction") {
        UnpackResult::Rkaf(i) => i,
        _ => panic!("wrong variant"),
    };
    assert!(info.length_mismatch);
    assert_eq!(outs.len(), 1);
}

#[test]
fn rkaf_manifest_hex_is_lowercase_and_padded() {
    let mut p = simple_part("a", "Image/x.img", &[1]);
    p.flash_size = 0xdeadbeef;
    p.flash_offset = 0xa;
    p.padded_size = 0xffffffff;
    let data = build_rkaf(b"A\0", b"B\0", &[p]);
    let (_, lines, r) = unpack_rkafp(&data);
    assert!(r.is_ok());
    assert_eq!(
        lines[0],
        "a,Image/x.img,0xdeadbeef,0x0000000a,0x00000784,0xffffffff,0x00000001"
    );
}

#[test]
fn rkfw_header_too_short() {
    let data = b"RKFW".to_vec();
    let (outs, _, r) = unpack_file(&data);
    assert_eq!(r.unwrap_err(), UnpackError::TruncatedRegion);
    assert!(outs.is_empty());
    // calling the wrapper parser directly behaves the same
    let (outs2, r2) = unpack_rkfw(&data);
    assert_eq!(r2.unwrap_err(), UnpackError::TruncatedRegion);
    assert!(outs2.is_empty());
}

#[test]
fn get_u32_le_reads_little_endian() {
    assert_eq!(rkunpack::get_u32_le(&[0x78, 0x56, 0x34, 0x12]), 0x12345678);
    assert_eq!(rkunpack::get_u32_le(&[0xff, 0xff, 0xff, 0xff, 0x01]), 0xffffffff);
}

#[test]
fn extract_region_copies_exact_range() {
    let data = vec![10u8, 11, 12, 13, 14, 15];
    assert_eq!(rkunpack::extract_region(&data, 2, 3).unwrap(), vec![12, 13, 14]);
    assert_eq!(rkunpack::extract_region(&data, 6, 0).unwrap(), Vec::<u8>::new());
    assert_eq!(
        rkunpack::extract_region(&data, 4, 3).unwrap_err(),
        UnpackError::TruncatedRegion
    );
    assert_eq!(
        rkunpack::extract_region(&data, 7, 0).unwrap_err(),
        UnpackError::TruncatedRegion
    );
}

#[test]
fn output_file_fields_are_plain() {
    let f = OutputFile { path: String::from("x"), data: vec![1, 2] };
    assert_eq!(f.path, "x");
    assert_eq!(f.data.len(), 2);
}
