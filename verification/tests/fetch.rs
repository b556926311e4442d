use shardpix::Errors;
use shardpix::FetchPlan;
use shardpix::IntakeStep;
use shardpix::Rendition;
use shardpix::Resolution;
use shardpix::plan_fetch;
use shardpix::plan_ingest;

#[test]
fn wrong_node_is_bad_node_regardless_of_listings() {
    let data = vec!["photo.webp".to_string()];
    let cache = vec!["photo.webp@-1x-1.png".to_string()];
    // present asset
    let r = plan_fetch("node1", "node2", "photo", "png", None, &data, &cache);
    match r {
        Err(Errors::BadNode { requested_node, this_node }) => {
            assert_eq!(requested_node, "node2");
            assert_eq!(this_node, "node1");
        }
        other => panic!("expected BadNode, got {:?}", other),
    }
    // absent asset: still BadNode
    let r = plan_fetch("node1", "node2", "ghost", "png", None, &Vec::new(), &Vec::new());
    assert!(matches!(r, Err(Errors::BadNode { .. })));
    // even with a size parameter in play
    let r = plan_fetch("node1", "node2", "photo", "png", Some("16x16"), &data, &cache);
    assert!(matches!(r, Err(Errors::BadNode { .. })));
}

#[test]
fn invalid_size_rejected_before_any_lookup() {
    let data = vec!["photo.webp".to_string()];
    let r = plan_fetch("node1", "node1", "photo", "png", Some("15x15"), &data, &Vec::new());
    match r {
        Err(Errors::BadQuery { query, reason }) => {
            assert_eq!(query, "size");
            assert_eq!(reason, "Could not parse width parameter (is it a power of 2?)");
        }
        other => panic!("expected BadQuery, got {:?}", other),
    }
}

#[test]
fn absent_asset_goes_to_propagation() {
    let data = vec!["other.webp".to_string()];
    let r = plan_fetch("node1", "node1", "photo", "png", None, &data, &Vec::new());
    assert!(matches!(r, Ok(FetchPlan::Propagate)));
}

#[test]
fn present_asset_resolves_against_the_cache() {
    // stored canonically: the fetch derives from photo.webp
    let data = vec!["photo.webp".to_string()];
    let r = plan_fetch("node1", "node1", "photo", "png", None, &data, &Vec::new());
    match r {
        Ok(FetchPlan::Serve {
            resolution: Resolution::Miss { job: Rendition::Transcode { source, dest, .. } },
        }) => {
            assert_eq!(source, "./data/photo.webp");
            assert_eq!(dest, "./cache/photo.webp@-1x-1.png");
        }
        other => panic!("expected a transcoding miss, got {:?}", other),
    }
    // with the rendition already cached it is a plain hit
    let cache = vec!["photo.webp@-1x-1.png".to_string()];
    let r = plan_fetch("node1", "node1", "photo", "png", None, &data, &cache);
    match r {
        Ok(FetchPlan::Serve { resolution: Resolution::Hit { path } }) => {
            assert_eq!(path, "./cache/photo.webp@-1x-1.png");
        }
        other => panic!("expected a hit, got {:?}", other),
    }
}

#[test]
fn round_trip_reads_the_normalized_file() {
    // ingest writes the canonical file; a fetch for the original extension
    // derives its bytes from exactly that file
    let words = vec!["Pic".to_string()];
    let plan = plan_ingest("type=png", Some("secret"), "secret", &words).expect("accepted");
    let dest = match plan.intake {
        IntakeStep::Normalize { dest, .. } => dest,
        other => panic!("expected normalization, got {:?}", other),
    };
    let stored = dest.trim_start_matches("./data/").to_string();
    let data = vec![stored];
    let r = plan_fetch("node1", "node1", &plan.name, "png", None, &data, &Vec::new());
    match r {
        Ok(FetchPlan::Serve {
            resolution: Resolution::Miss { job: Rendition::Transcode { source, .. } },
        }) => assert_eq!(source, dest),
        other => panic!("expected a transcoding miss, got {:?}", other),
    }
}

#[test]
fn fetch_scenario_after_ingest() {
    // an ingested PNG sits canonically as name.webp; the client asks for .png
    let data = vec!["WordWordWord.webp".to_string()];

    // native size: served from the canonical file
    let r = plan_fetch("node1", "node1", "WordWordWord", "png", None, &data, &Vec::new());
    match r {
        Ok(FetchPlan::Serve {
            resolution: Resolution::Miss { job: Rendition::Transcode { source, .. } },
        }) => assert_eq!(source, "./data/WordWordWord.webp"),
        other => panic!("expected a transcoding miss, got {:?}", other),
    }

    // an explicit 16x16 rendition
    let r = plan_fetch("node1", "node1", "WordWordWord", "png", Some("16x16"), &data, &Vec::new());
    match r {
        Ok(FetchPlan::Serve {
            resolution: Resolution::Miss { job: Rendition::Transcode { source, dest, .. } },
        }) => {
            assert_eq!(source, "./data/WordWordWord.webp");
            assert_eq!(dest, "./cache/WordWordWord.webp@16x16.png");
        }
        other => panic!("expected a transcoding miss, got {:?}", other),
    }

    // 15 is no power of two: a client error naming the width
    let r = plan_fetch("node1", "node1", "WordWordWord", "png", Some("15x15"), &data, &Vec::new());
    match r {
        Err(e @ Errors::BadQuery { .. }) => {
            assert_eq!(e.status_code(), 400);
            assert!(e.message().contains("width"));
        }
        other => panic!("expected BadQuery, got {:?}", other),
    }
}

#[test]
fn every_normalized_type_round_trips() {
    // heic and uppercase extensions are normalized too: the fetch finds the
    // canonical file and derives the rendition from it
    let data = vec!["x.webp".to_string()];
    for ext in ["heic", "HEIC", "PNG", "jpeg"] {
        let r = plan_fetch("node1", "node1", "x", ext, None, &data, &Vec::new());
        match r {
            Ok(FetchPlan::Serve {
                resolution: Resolution::Miss { job: Rendition::Transcode { source, .. } },
            }) => assert_eq!(source, "./data/x.webp", "{:?}", ext),
            other => panic!("expected a transcoding miss for {:?}, got {:?}", ext, other),
        }
    }
    // the canonical format itself is served as stored
    let r = plan_fetch("node1", "node1", "x", "webp", None, &data, &Vec::new());
    match r {
        Ok(FetchPlan::Serve {
            resolution: Resolution::Miss { job: Rendition::ServeStored { source } },
        }) => assert_eq!(source, "./data/x.webp"),
        other => panic!("expected the stored file, got {:?}", other),
    }
}
