use xkcd_rank::comic::Comic;
use xkcd_rank::paths::{cache_dir, comics_json_path, img_dir, img_path};

fn with_img(num: usize, img: &str) -> Comic {
    Comic {
        num,
        year: String::new(),
        month: String::new(),
        day: String::new(),
        title: String::new(),
        img: img.to_owned(),
        alt: String::new(),
        link: String::new(),
        news: String::new(),
        safe_title: String::new(),
        transcript: String::new(),
    }
}

#[test]
fn cache_paths_below_main_dir() {
    assert_eq!(cache_dir("/home/u/rank"), "/home/u/rank/cache");
    assert_eq!(cache_dir("/home/u/rank/"), "/home/u/rank/cache");
    assert_eq!(img_dir("/srv"), "/srv/cache/img");
    assert_eq!(comics_json_path("/srv"), "/srv/cache/comics.json");
    assert_eq!(cache_dir(""), "cache");
}

#[test]
fn img_path_uses_number_and_extension() {
    assert_eq!(img_path("/srv", 123, "png"), "/srv/cache/img/123.png");
    assert_eq!(img_path("/srv", 0, "jpg"), "/srv/cache/img/0.jpg");
    assert_eq!(img_path("/srv", 2950, ""), "/srv/cache/img/2950.");
    assert_eq!(img_path("/srv", usize::MAX, "gif"), format!("/srv/cache/img/{}.gif", usize::MAX));
}

#[test]
fn comic_img_path_takes_extension_of_last_segment() {
    let c = with_img(1024, "https://imgs.xkcd.com/comics/error_code.png");
    assert_eq!(c.img_path("/m"), "/m/cache/img/1024.png");
    let c = with_img(5, "https://imgs.xkcd.com/comics/blown_apart_color.jpg");
    assert_eq!(c.img_path("/m"), "/m/cache/img/5.jpg");
    let c = with_img(9, "https://imgs.xkcd.com/comics/noext");
    assert_eq!(c.img_path("/m"), "/m/cache/img/9.");
    let c = with_img(404, "");
    assert_eq!(c.img_path("/m"), "/m/cache/img/404.");
    let c = with_img(11, "a.b.tar.gz");
    assert_eq!(c.img_path("/m"), "/m/cache/img/11.gz");
}

#[test]
fn img_2x_variant_of_png() {
    let c = with_img(1, "https://imgs.xkcd.com/comics/barrel_cropped_(1).png");
    assert_eq!(c.img_2x().as_deref(), Some("https://imgs.xkcd.com/comics/barrel_cropped_(1)_2x.png"));
    let c = with_img(2, "https://imgs.xkcd.com/comics/petit_trees_(sheep).jpg");
    assert_eq!(c.img_2x(), None);
    let c = with_img(3, ".png");
    assert_eq!(c.img_2x().as_deref(), Some("_2x.png"));
    let c = with_img(4, "png");
    assert_eq!(c.img_2x(), None);
}

#[test]
fn get_nth_needs_remote_except_for_not_found() {
    assert!(Comic::get_nth(1).is_none());
    assert!(Comic::get_nth(403).is_none());
    let c = Comic::get_nth(404).unwrap();
    assert_eq!(c.num, 404);
    assert_eq!(c.transcript, "nginx");
}
