use shardpix::StoredItem;
use shardpix::extension_is_image;
use shardpix::needs_transcoding;
use shardpix::stored_extension;

#[test]
fn image_extensions_recognized() {
    for ext in ["png", "jpg", "jpeg", "svg", "webp", "heic", "PNG", "WebP", "HEIC"] {
        assert!(extension_is_image(ext), "{:?}", ext);
    }
    for ext in ["txt", "pdf", "", "web", "pn"] {
        assert!(!extension_is_image(ext), "{:?}", ext);
    }
}

#[test]
fn stored_extension_normalizes_images() {
    assert_eq!(stored_extension("png"), "webp");
    assert_eq!(stored_extension("PNG"), "webp");
    assert_eq!(stored_extension("jpeg"), "webp");
    assert_eq!(stored_extension("heic"), "webp");
    assert_eq!(stored_extension("webp"), "webp");
    assert_eq!(stored_extension("WEBP"), "webp");
    assert_eq!(stored_extension("txt"), "txt");
    assert_eq!(stored_extension("zip"), "zip");
}

#[test]
fn transcoding_needed_except_for_the_canonical_format() {
    for ext in ["png", "PNG", "Jpeg", "svg", "heic", "HEIC"] {
        assert!(needs_transcoding(ext), "{:?}", ext);
    }
    for ext in ["webp", "WEBP", "txt", "", "pn"] {
        assert!(!needs_transcoding(ext), "{:?}", ext);
    }
}

#[test]
fn stored_item_splits_at_last_dot() {
    let item = StoredItem::new("photo.png").expect("should parse");
    assert_eq!(item.name, "photo");
    assert_eq!(item.filetype, "png");

    let item = StoredItem::new("a.b.c").expect("should parse");
    assert_eq!(item.name, "a.b");
    assert_eq!(item.filetype, "c");
}

#[test]
fn stored_item_rejects_names_without_extension() {
    assert!(StoredItem::new("noext").is_none());
    assert!(StoredItem::new(".hidden").is_none());
    assert!(StoredItem::new("").is_none());
}

#[test]
fn existence_checks_both_forms() {
    let item = StoredItem::new("photo.png").unwrap();
    let only_canonical = vec!["photo.webp".to_string()];
    let only_direct = vec!["photo.png".to_string()];
    let unrelated = vec!["other.webp".to_string(), "photo.txt".to_string()];
    assert!(item.exists_locally(&only_canonical));
    assert!(item.exists_locally(&only_direct));
    assert!(!item.exists_locally(&unrelated));
    assert!(!item.exists_locally(&Vec::new()));

    let doc = StoredItem::new("notes.txt").unwrap();
    assert!(doc.exists_locally(&vec!["notes.txt".to_string()]));
    assert!(!doc.exists_locally(&vec!["notes.webp".to_string()]));
}
