use shardpix::Rendition;
use shardpix::Resolution;
use shardpix::SizeSpec;
use shardpix::cache_key;
use shardpix::convert_output;
use shardpix::resolve;

#[test]
fn conversion_plans_by_format() {
    match convert_output("png", "photo.webp", SizeSpec::Fixed { width: 16, height: 16 }) {
        Rendition::Transcode { source, dest, resize } => {
            assert_eq!(source, "./data/photo.webp");
            assert_eq!(dest, "./cache/photo.webp@16x16.png");
            assert_eq!(resize, SizeSpec::Fixed { width: 16, height: 16 });
        }
        other => panic!("expected a transcode, got {:?}", other),
    }
    assert!(matches!(
        convert_output("txt", "notes.txt", SizeSpec::Native),
        Rendition::ServeStored { .. }
    ));
}

#[test]
fn cache_key_native_uses_sentinel() {
    let k = cache_key("photo.webp", "png", SizeSpec::Native);
    assert_eq!(k, "photo.webp@-1x-1.png");
}

#[test]
fn cache_key_fixed_size() {
    let k = cache_key("photo.webp", "jpg", SizeSpec::Fixed { width: 16, height: 32 });
    assert_eq!(k, "photo.webp@16x32.jpg");
}

#[test]
fn hit_when_key_listed() {
    let listing = vec![
        "other@-1x-1.png".to_string(),
        "photo.webp@16x16.png".to_string(),
    ];
    match resolve(&listing, "photo.webp", "png", SizeSpec::Fixed { width: 16, height: 16 }) {
        Resolution::Hit { path } => assert_eq!(path, "./cache/photo.webp@16x16.png"),
        other => panic!("expected a hit, got {:?}", other),
    }
}

#[test]
fn miss_transcodes_image_formats() {
    let listing = vec!["unrelated".to_string()];
    match resolve(&listing, "photo.webp", "png", SizeSpec::Native) {
        Resolution::Miss { job: Rendition::Transcode { source, dest, resize } } => {
            assert_eq!(source, "./data/photo.webp");
            assert_eq!(dest, "./cache/photo.webp@-1x-1.png");
            assert_eq!(resize, SizeSpec::Native);
        }
        other => panic!("expected a transcode, got {:?}", other),
    }
}

#[test]
fn miss_serves_non_image_at_native_size() {
    match resolve(&Vec::new(), "notes.txt", "txt", SizeSpec::Native) {
        Resolution::Miss { job: Rendition::ServeStored { source } } => {
            assert_eq!(source, "./data/notes.txt");
        }
        other => panic!("expected the stored file, got {:?}", other),
    }
}

#[test]
fn miss_resizes_non_image_at_fixed_size() {
    match resolve(&Vec::new(), "notes.txt", "txt", SizeSpec::Fixed { width: 8, height: 8 }) {
        Resolution::Miss { job: Rendition::Resize { source, dest, width, height } } => {
            assert_eq!(source, "./data/notes.txt");
            assert_eq!(dest, "./cache/notes.txt@8x8.txt");
            assert_eq!(width, 8);
            assert_eq!(height, 8);
        }
        other => panic!("expected a resize, got {:?}", other),
    }
}

#[test]
fn second_resolution_after_population_is_a_hit() {
    let size = SizeSpec::Fixed { width: 16, height: 16 };
    let mut listing: Vec<String> = Vec::new();
    let first = resolve(&listing, "photo.webp", "png", size);
    let dest = match first {
        Resolution::Miss { job: Rendition::Transcode { dest, .. } } => dest,
        other => panic!("expected a miss, got {:?}", other),
    };
    // the collaborator writes the artifact under the key; the listing gains it
    listing.push(dest.trim_start_matches("./cache/").to_string());
    match resolve(&listing, "photo.webp", "png", size) {
        Resolution::Hit { path } => assert_eq!(path, dest),
        other => panic!("expected a hit after population, got {:?}", other),
    }
}

#[test]
fn eviction_forces_reconversion() {
    let size = SizeSpec::Native;
    let populated = vec![cache_key("photo.webp", "png", size)];
    assert!(matches!(
        resolve(&populated, "photo.webp", "png", size),
        Resolution::Hit { .. }
    ));
    // a full eviction empties the listing; the same triple misses again
    let emptied: Vec<String> = Vec::new();
    assert!(matches!(
        resolve(&emptied, "photo.webp", "png", size),
        Resolution::Miss { .. }
    ));
}
