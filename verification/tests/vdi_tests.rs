use mutools::vdi::{
    find_bytes, md5_hex, patch_image, patch_system_vdi, restore_image, restore_system_vdi, to_lower_hex,
    OVERSEAS_ORIGINAL, OVERSEAS_REPLACEMENT,
};

fn image() -> Vec<u8> {
    let mut v = b"HEADER\x00\x01".to_vec();
    v.extend_from_slice(OVERSEAS_ORIGINAL.as_bytes());
    v.extend_from_slice(b"\nro.product=mumu\n");
    v.extend_from_slice(OVERSEAS_ORIGINAL.as_bytes());
    v
}

#[test]
fn md5_matches_known_digest() {
    assert_eq!(md5_hex(b""), "d41d8cd98f00b204e9800998ecf8427e");
    assert_eq!(md5_hex(b"abc"), "900150983cd24fb0d6963f7d28e17f72");
    assert_eq!(to_lower_hex(&[0x00, 0xab, 0x0f]), "00ab0f");
}

#[test]
fn first_occurrence_is_found() {
    assert_eq!(find_bytes(b"xxabab", b"ab"), Some(2));
    assert_eq!(find_bytes(b"xx", b"xxx"), None);
    assert_eq!(find_bytes(b"", b"a"), None);
}

#[test]
fn patch_replaces_first_block_only() {
    let img = image();
    let p = patch_system_vdi(&img).ok().unwrap();
    assert_eq!(p.start_pos, 8);
    let mut expected = b"HEADER\x00\x01".to_vec();
    expected.extend_from_slice(OVERSEAS_REPLACEMENT.as_bytes());
    expected.extend_from_slice(b"\nro.product=mumu\n");
    expected.extend_from_slice(OVERSEAS_ORIGINAL.as_bytes());
    assert_eq!(p.new_content, expected);
    assert_eq!(p.md5_hash, format!("{:x}", md5::compute(&expected)));
    assert_eq!(p.original_data, base64::Engine::encode(&base64::engine::general_purpose::STANDARD, OVERSEAS_ORIGINAL.as_bytes()));
}

#[test]
fn patch_without_block_fails() {
    assert_eq!(patch_system_vdi(b"plain image").err().unwrap(), "未找到匹配内容");
}

#[test]
fn restore_undoes_patch() {
    let img = image();
    let p = patch_system_vdi(&img).ok().unwrap();
    let back = restore_system_vdi(&p.new_content, p.start_pos, &p.original_data, &p.md5_hash).ok().unwrap();
    assert_eq!(back, img);
    let q = patch_image(b"aXYb", b"XY", b"123").ok().unwrap();
    assert_eq!(q.new_content, b"a123b");
    let back = restore_image(&q.new_content, b"123", q.start_pos, &q.original_data, &q.md5_hash).ok().unwrap();
    assert_eq!(back, b"aXYb");
}

#[test]
fn restore_refusals() {
    let img = image();
    let p = patch_system_vdi(&img).ok().unwrap();
    assert!(restore_system_vdi(&p.new_content, p.start_pos, "%%%", &p.md5_hash).err().unwrap().starts_with("解码原始字节失败: "));
    assert_eq!(restore_system_vdi(&img, p.start_pos, &p.original_data, &p.md5_hash).err().unwrap(), "文件已被其他程序修改，无法还原");
    let content = b"short".to_vec();
    let md5 = md5_hex(&content);
    assert_eq!(restore_image(&content, b"123", 3, "WFk=", &md5).err().unwrap(), "记录位置无效: 位置3 | 文件长度5");
    assert_eq!(restore_image(&content, b"123", 5, "WFk=", &md5).err().unwrap(), "记录位置无效: 位置5 | 文件长度5");
    assert_eq!(restore_image(&content, b"123", usize::MAX, "WFk=", &md5).err().unwrap(), format!("记录位置无效: 位置{} | 文件长度5", usize::MAX));
    assert_eq!(restore_image(&content, b"123", 1, "WFk=", &md5).ok().unwrap(), b"sXYt");
}
