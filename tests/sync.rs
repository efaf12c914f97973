use xkcd_rank::comic::Comic;
use xkcd_rank::store::Store;
use xkcd_rank::sync::{skip_item, wants_image, SyncPass};

fn comic(num: usize) -> Comic {
    Comic {
        num,
        year: String::new(),
        month: String::new(),
        day: String::new(),
        title: format!("#{num}"),
        img: format!("https://imgs.xkcd.com/comics/c{num}.png"),
        alt: String::new(),
        link: String::new(),
        news: String::new(),
        safe_title: String::new(),
        transcript: String::new(),
    }
}

#[test]
fn pass_visits_numbers_in_ascending_order() {
    let mut pass = SyncPass::new(3, false);
    assert_eq!(pass.next_index(), Some(1));
    assert_eq!(pass.next_index(), Some(2));
    assert_eq!(pass.next_index(), Some(3));
    assert_eq!(pass.next_index(), None);
    assert_eq!(pass.next_index(), None);
    let mut empty = SyncPass::new(0, true);
    assert_eq!(empty.next_index(), None);
}

#[test]
fn skip_only_cached_with_image() {
    let mut store = Store::new();
    assert!(store.fetch_comic(1).unwrap().is_none());
    store.insert_fetched(1, Ok(comic(1))).unwrap();
    assert!(skip_item(&store, 1, true));
    assert!(!skip_item(&store, 1, false));
    assert!(!skip_item(&store, 2, true));
    assert!(!skip_item(&store, 0, true));
}

#[test]
fn image_wanted_when_missing_or_forced() {
    assert!(wants_image(false, false));
    assert!(!wants_image(false, true));
    assert!(wants_image(true, true));
    assert!(wants_image(true, false));
}

/// Runs a pass the way the downloader does, with the remote source and the
/// disk replaced by counters; returns (remote fetches, image downloads, saved).
fn run_pass(store: &mut Store, count: usize, redownload: bool, images: &mut Vec<bool>) -> (usize, usize, bool) {
    let mut fetches = 0;
    let mut downloads = 0;
    let mut pass = SyncPass::new(count, redownload);
    while let Some(i) = pass.next_index() {
        if images.len() <= i {
            images.resize(i + 1, false);
        }
        if skip_item(store, i, images[i]) {
            continue;
        }
        let needs_remote = store.fetch_comic(i).unwrap().is_none();
        if needs_remote {
            fetches += 1;
            store.insert_fetched(i, Ok(comic(i))).unwrap();
        }
        if wants_image(redownload, images[i]) {
            downloads += 1;
            images[i] = true;
        }
    }
    (fetches, downloads, true)
}

#[test]
fn second_pass_makes_no_remote_calls() {
    let mut store = Store::new();
    let mut images = vec![];
    let (f1, d1, _) = run_pass(&mut store, 5, false, &mut images);
    assert_eq!((f1, d1), (5, 5));
    let (f2, d2, saved) = run_pass(&mut store, 5, false, &mut images);
    assert_eq!((f2, d2), (0, 0));
    assert!(saved);
}

#[test]
fn pass_redownloads_only_missing_image() {
    let mut store = Store::new();
    assert!(store.fetch_comic(2).unwrap().is_none());
    store.insert_fetched(1, Ok(comic(1))).unwrap();
    store.insert_fetched(2, Ok(comic(2))).unwrap();
    let mut images = vec![false, false, true];
    assert!(!skip_item(&store, 1, images[1]));
    assert!(skip_item(&store, 2, images[2]));
    let (fetches, downloads, saved) = run_pass(&mut store, 2, false, &mut images);
    assert_eq!(fetches, 0);
    assert_eq!(downloads, 1);
    assert_eq!(images, vec![false, true, true]);
    assert_eq!(store.comics.len(), 3);
    assert_eq!(store.comics[2].as_ref().unwrap().title, "#2");
    assert!(saved);
}
