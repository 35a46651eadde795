use yawl::clipboard::{
    begin_search, extension, helper, settle_helper, validate_staged, HelperResult, Search,
    StagedImage, MAX_IMAGE_BYTES,
};

#[test]
fn staged_marker_uses_stable_id() {
    let image = StagedImage {
        id: 3,
        path: "/tmp/image.png".into(),
        media_type: "image/png".into(),
    };
    assert_eq!(image.marker(), "[Image #3]");
}

#[test]
fn staged_validation_checks_magic_and_size() {
    assert_eq!(validate_staged(b"\x89PNG\r\n\x1a\nrest"), Ok("image/png"));
    assert!(validate_staged(b"plain text").is_err());
}

#[test]
fn every_kind_is_known_by_its_first_bytes() {
    assert_eq!(validate_staged(b"\xff\xd8\xffrest"), Ok("image/jpeg"));
    assert_eq!(validate_staged(b"GIF87arest"), Ok("image/gif"));
    assert_eq!(validate_staged(b"GIF89arest"), Ok("image/gif"));
    assert_eq!(validate_staged(b"RIFF1234WEBPrest"), Ok("image/webp"));
    assert_eq!(
        validate_staged(b"RIFF1234WAVErest"),
        Err("clipboard image must be PNG, JPEG, GIF, or WebP".to_string())
    );
    assert_eq!(
        validate_staged(b""),
        Err("clipboard does not contain a supported image".to_string())
    );
    let large = vec![0u8; MAX_IMAGE_BYTES + 1];
    assert_eq!(
        validate_staged(&large),
        Err("clipboard image exceeds the 5242880-byte limit".to_string())
    );
}

#[test]
fn extensions_follow_the_kind() {
    assert_eq!(extension("image/png"), "png");
    assert_eq!(extension("image/jpeg"), "jpg");
    assert_eq!(extension("image/gif"), "gif");
    assert_eq!(extension("image/webp"), "webp");
}

#[test]
fn helpers_are_tried_in_order() {
    assert_eq!(helper(0), ("wl-paste", vec!["--type", "image/png"]));
    assert_eq!(
        helper(7),
        ("xclip", vec!["-selection", "clipboard", "-t", "image/gif", "-o"])
    );
    let mut step = begin_search(false);
    for expected in 0..8 {
        match step {
            Search::Try { attempt, found_helper } => {
                assert_eq!(attempt, expected);
                assert!(!found_helper);
                step = settle_helper(attempt, found_helper, HelperResult::Missing, false);
            }
            other => panic!("unexpected {other:?}"),
        }
    }
    assert!(matches!(
        step,
        Search::Failed(error) if error == "image paste on Linux requires wl-paste or xclip"
    ));
}

#[test]
fn a_search_ends_with_an_image_an_error_or_the_time() {
    assert!(matches!(settle_helper(0, false, HelperResult::Ended(true), false), Search::Found));
    assert!(matches!(
        settle_helper(7, false, HelperResult::Ended(false), false),
        Search::Failed(error) if error == "clipboard does not contain a supported image"
    ));
    assert!(matches!(
        settle_helper(2, true, HelperResult::Failed("cannot run xclip: no".into()), false),
        Search::Failed(error) if error == "cannot run xclip: no"
    ));
    assert!(matches!(
        settle_helper(2, true, HelperResult::Missing, true),
        Search::Failed(error) if error == "clipboard image paste timed out"
    ));
}
