use quanthud::screenshots::{
    allowed_filename, filter_screenshots, select_screenshots, sort_screenshots, OsScreenshot,
    MAX_SCREENSHOTS,
};

fn shot(name: &str, modified: u64) -> OsScreenshot {
    OsScreenshot {
        path: format!("/pictures/screenshots/{}", name),
        filename: name.to_string(),
        modified,
    }
}

#[test]
fn allowed_extensions_case_insensitive() {
    assert!(allowed_filename("a.png"));
    assert!(allowed_filename("a.PNG"));
    assert!(allowed_filename("b.JpEg"));
    assert!(allowed_filename("c.jpg"));
    assert!(allowed_filename("d.bmp"));
    assert!(allowed_filename("archive.tar.png"));
    assert!(!allowed_filename("c.txt"));
    assert!(!allowed_filename("noext"));
    assert!(!allowed_filename("movie.mp4"));
    assert!(!allowed_filename("png"));
    assert!(!allowed_filename(".png")); // hidden file, no extension
    assert!(!allowed_filename("a."));
    assert!(!allowed_filename(""));
    assert!(!allowed_filename("a.pngx"));
}

#[test]
fn filter_keeps_order_and_drops_non_images() {
    let entries = vec![
        shot("one.png", 5),
        shot("notes.txt", 9),
        shot("two.JPG", 3),
        shot("三.bmp", 1),
    ];
    let kept = filter_screenshots(entries);
    let names: Vec<&str> = kept.iter().map(|e| e.filename.as_str()).collect();
    assert_eq!(names, vec!["one.png", "two.JPG", "三.bmp"]);
}

#[test]
fn sort_is_most_recent_first() {
    let mut v = vec![shot("a.png", 3), shot("b.png", 9), shot("c.png", 9), shot("d.png", 1)];
    sort_screenshots(&mut v);
    let times: Vec<u64> = v.iter().map(|e| e.modified).collect();
    assert_eq!(times, vec![9, 9, 3, 1]);
}

#[test]
fn listing_caps_to_fifty_newest() {
    // 73 images with distinct times plus 5 non-image files, interleaved.
    let mut entries = Vec::new();
    for i in 0..73u64 {
        entries.push(shot(&format!("shot_{}.png", i), 100 + ((i * 37) % 73)));
    }
    entries.insert(10, shot("readme.txt", 10_000));
    entries.insert(20, shot("video.mp4", 10_001));
    entries.insert(30, shot("notes.doc", 10_002));
    entries.insert(40, shot("sound.wav", 10_003));
    entries.push(shot("data.json", 10_004));

    let r = select_screenshots(entries);
    assert_eq!(r.len(), MAX_SCREENSHOTS);
    for w in r.windows(2) {
        assert!(w[0].modified >= w[1].modified);
    }
    // Times are 100..=172, distinct; the 50 newest are 123..=172.
    assert_eq!(r[0].modified, 172);
    assert_eq!(r[49].modified, 123);
    // The 51st-newest image (time 122) is absent.
    assert!(r.iter().all(|e| e.modified >= 123));
    // No non-image survived.
    assert!(r.iter().all(|e| e.filename.ends_with(".png")));
}

#[test]
fn listing_shorter_than_cap_is_complete() {
    let entries = vec![shot("x.png", 2), shot("y.jpg", 7), shot("z.txt", 9)];
    let r = select_screenshots(entries);
    assert_eq!(r.len(), 2);
    assert_eq!(r[0].filename, "y.jpg");
    assert_eq!(r[1].filename, "x.png");
}

#[test]
fn listing_of_empty_directory_is_empty() {
    let r = select_screenshots(Vec::new());
    assert!(r.is_empty());
}

#[test]
fn ties_in_modification_time_keep_both() {
    let entries = vec![shot("a.png", 5), shot("b.png", 5), shot("c.png", 5)];
    let r = select_screenshots(entries);
    assert_eq!(r.len(), 3);
    assert!(r.iter().all(|e| e.modified == 5));
}
