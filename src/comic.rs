use vstd::prelude::*;
use vstd::string::*;

use crate::paths::{img_path, img_path_spec};

verus! {

/// The one comic number that the remote catalog does not serve; it is
/// represented by a fixed placeholder record.
pub const NOT_FOUND_NUM: usize = 404;

/// One comic's metadata, as the remote source describes it.
#[derive(Clone, Debug)]
pub struct Comic {
    pub num: usize,
    pub year: String,
    pub month: String,
    pub day: String,
    pub title: String,
    pub img: String,
    pub alt: String,
    pub link: String,
    pub news: String,
    pub safe_title: String,
    pub transcript: String,
}

/// The text of the placeholder's alt field.
pub open spec fn not_found_alt() -> Seq<char> {
    "I have always been of the opinion that http://xkcd.com/404/ is an actual comic, if a slightly avant-garde one. I actually went out of my way to modify the 'random' button to include it, but that annoyed too many people\u{2014}most of whom reasonably assumed it was a bug\u{2014}and I eventually undid it."@
}

/// The placeholder record that stands for the reserved number.
pub open spec fn is_not_found_record(c: Comic) -> bool {
    &&& c.num == NOT_FOUND_NUM
    &&& c.year@ == "2008"@
    &&& c.month@ == "4"@
    &&& c.day@ == "1"@
    &&& c.title@ == "404 Not Found"@
    &&& c.img@ == Seq::<char>::empty()
    &&& c.alt@ == not_found_alt()
    &&& c.link@ == Seq::<char>::empty()
    &&& c.news@ == Seq::<char>::empty()
    &&& c.safe_title@ == "404 Not Found"@
    &&& c.transcript@ == "nginx"@
}

/// The index of the last `c` in `s`, or -1 where there is none.
pub open spec fn last_pos(s: Seq<char>, c: char) -> int
    decreases s.len(),
{
    if s.len() == 0 {
        -1
    } else if s.last() == c {
        s.len() - 1
    } else {
        last_pos(s.drop_last(), c)
    }
}

/// The extension of an image reference: what follows the final `.` of its
/// last path segment, empty where that segment has no `.`.
pub open spec fn image_ext(img: Seq<char>) -> Seq<char> {
    let dot = last_pos(img, '.');
    if dot > last_pos(img, '/') {
        img.subrange(dot + 1, img.len() as int)
    } else {
        Seq::empty()
    }
}

/// The higher-resolution variant of an image reference: `x.png` becomes
/// `x_2x.png`; a reference not ending in `.png` has none.
pub open spec fn img_2x_spec(img: Seq<char>) -> Option<Seq<char>> {
    if img.len() >= 4 && img.subrange(img.len() - 4, img.len() as int) == ".png"@ {
        Some(img.subrange(0, img.len() - 4) + "_2x.png"@)
    } else {
        None
    }
}

proof fn lemma_last_pos_bounds(s: Seq<char>, c: char)
    ensures
        -1 <= last_pos(s, c) < s.len(),
        last_pos(s, c) >= 0 ==> s[last_pos(s, c)] == c,
    decreases s.len(),
{
    if s.len() > 0 && s.last() != c {
        lemma_last_pos_bounds(s.drop_last(), c);
    }
}

/// The index of the last `c` in `s`, if there is one.
fn find_last(s: &str, c: char) -> (r: Option<usize>)
    ensures
        r is None <==> last_pos(s@, c) == -1,
        r is Some ==> r->Some_0 == last_pos(s@, c),
{
    let mut j: usize = s.unicode_len();
    assert(s@.subrange(0, j as int) =~= s@);
    while j > 0
        invariant
            j <= s@.len(),
            last_pos(s@, c) == last_pos(s@.subrange(0, j as int), c),
        decreases j,
    {
        if s.get_char(j - 1) == c {
            return Some(j - 1);
        }
        assert(s@.subrange(0, j as int).drop_last() =~= s@.subrange(0, j - 1));
        j = j - 1;
    }
    None
}

/// Whether `s` ends with `suffix`.
fn ends_with(s: &str, suffix: &str) -> (r: bool)
    ensures
        r == (s@.len() >= suffix@.len() && s@.subrange(s@.len() - suffix@.len(), s@.len() as int)
            == suffix@),
{
    let n = s.unicode_len();
    let m = suffix.unicode_len();
    if n < m {
        return false;
    }
    let mut k: usize = 0;
    while k < m
        invariant
            n == s@.len(),
            m == suffix@.len(),
            m <= n,
            k <= m,
            forall|t: int| 0 <= t < k ==> s@[n - m + t] == suffix@[t],
        decreases m - k,
    {
        if s.get_char(n - m + k) != suffix.get_char(k) {
            assert(s@.subrange(n - m, n as int)[k as int] != suffix@[k as int]);
            return false;
        }
        k = k + 1;
    }
    assert(s@.subrange(n - m, n as int) =~= suffix@);
    true
}

impl Comic {
    /// The record of comic `n` where it needs no remote request: the
    /// placeholder for the reserved number, and `None` for every other one.
    pub fn get_nth(n: usize) -> (r: Option<Comic>)
        ensures
            n == NOT_FOUND_NUM ==> r is Some && is_not_found_record(r->Some_0),
            n != NOT_FOUND_NUM ==> r is None,
    {
        if n != NOT_FOUND_NUM {
            return None;
        }
        Some(Comic {
            num: NOT_FOUND_NUM,
            year: String::from_str("2008"),
            month: String::from_str("4"),
            day: String::from_str("1"),
            title: String::from_str("404 Not Found"),
            img: String::new(),
            alt: String::from_str(
                "I have always been of the opinion that http://xkcd.com/404/ is an actual comic, if a slightly avant-garde one. I actually went out of my way to modify the 'random' button to include it, but that annoyed too many people\u{2014}most of whom reasonably assumed it was a bug\u{2014}and I eventually undid it.",
            ),
            link: String::new(),
            news: String::new(),
            safe_title: String::from_str("404 Not Found"),
            transcript: String::from_str("nginx"),
        })
    }

    /// Where the image of this comic is kept below `main_dir`: the image
    /// directory, file `<num>.<ext>` with the extension of `img`.
    pub fn img_path(&self, main_dir: &str) -> (r: String)
        ensures
            r@ == img_path_spec(main_dir@, self.num as nat, image_ext(self.img@)),
    {
        let img = self.img.as_str();
        let dot = find_last(img, '.');
        let slash = find_last(img, '/');
        proof {
            lemma_last_pos_bounds(self.img@, '.');
            lemma_last_pos_bounds(self.img@, '/');
            reveal_strlit("");
        }
        let in_last_segment = match (dot, slash) {
            (Some(d), Some(sl)) => d > sl,
            (Some(_), None) => true,
            (None, _) => false,
        };
        if in_last_segment {
            let n = img.unicode_len();
            let ext = img.substring_char(dot.unwrap() + 1, n);
            img_path(main_dir, self.num, ext)
        } else {
            img_path(main_dir, self.num, "")
        }
    }

    /// The reference of the higher-resolution image, where `img` ends in `.png`.
    pub fn img_2x(&self) -> (r: Option<String>)
        ensures
            r is Some == img_2x_spec(self.img@) is Some,
            r is Some ==> r->Some_0@ == img_2x_spec(self.img@)->Some_0,
    {
        let img = self.img.as_str();
        proof {
            reveal_strlit(".png");
            reveal_strlit("_2x.png");
        }
        if !ends_with(img, ".png") {
            return None;
        }
        let base = img.substring_char(0, img.unicode_len() - 4);
        let mut r = String::from_str(base);
        r.append("_2x.png");
        Some(r)
    }
}

} // verus!
