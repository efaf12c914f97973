//! Where the cache lives on disk, as path strings below a base directory.
use vstd::prelude::*;
use vstd::string::*;

verus! {

/// `name` appended to `base` as one more path component.
pub open spec fn join_spec(base: Seq<char>, name: Seq<char>) -> Seq<char> {
    if base.len() == 0 {
        name
    } else if base.last() == '/' {
        base + name
    } else {
        base + seq!['/'] + name
    }
}

/// The decimal digit of `d` (taken mod 10).
pub open spec fn digit_char(d: nat) -> char {
    let d = d % 10;
    if d == 0 { '0' }
    else if d == 1 { '1' }
    else if d == 2 { '2' }
    else if d == 3 { '3' }
    else if d == 4 { '4' }
    else if d == 5 { '5' }
    else if d == 6 { '6' }
    else if d == 7 { '7' }
    else if d == 8 { '8' }
    else { '9' }
}

/// `n` in decimal, without leading zeros.
pub open spec fn decimal(n: nat) -> Seq<char>
    decreases n,
{
    if n < 10 {
        seq![digit_char(n)]
    } else {
        decimal(n / 10).push(digit_char(n % 10))
    }
}

pub open spec fn cache_dir_spec(main_dir: Seq<char>) -> Seq<char> {
    join_spec(main_dir, "cache"@)
}

pub open spec fn img_dir_spec(main_dir: Seq<char>) -> Seq<char> {
    join_spec(cache_dir_spec(main_dir), "img"@)
}

pub open spec fn img_path_spec(main_dir: Seq<char>, n: nat, ext: Seq<char>) -> Seq<char> {
    join_spec(img_dir_spec(main_dir), decimal(n) + seq!['.'] + ext)
}

pub open spec fn comics_json_path_spec(main_dir: Seq<char>) -> Seq<char> {
    join_spec(cache_dir_spec(main_dir), "comics.json"@)
}

/// The one-character string of digit `d`.
fn digit_str(d: usize) -> (r: &'static str)
    requires
        d < 10,
    ensures
        r@ == seq![digit_char(d as nat)],
{
    proof {
        reveal_strlit("0");
        reveal_strlit("1");
        reveal_strlit("2");
        reveal_strlit("3");
        reveal_strlit("4");
        reveal_strlit("5");
        reveal_strlit("6");
        reveal_strlit("7");
        reveal_strlit("8");
        reveal_strlit("9");
    }
    if d == 0 { "0" }
    else if d == 1 { "1" }
    else if d == 2 { "2" }
    else if d == 3 { "3" }
    else if d == 4 { "4" }
    else if d == 5 { "5" }
    else if d == 6 { "6" }
    else if d == 7 { "7" }
    else if d == 8 { "8" }
    else { "9" }
}

/// Appends `n` in decimal to `s`.
fn push_decimal(s: &mut String, n: usize)
    ensures
        final(s)@ == old(s)@ + decimal(n as nat),
    decreases n,
{
    if n >= 10 {
        push_decimal(s, n / 10);
    }
    s.append(digit_str(n % 10));
    assert(n < 10 ==> decimal(n as nat) == seq![digit_char(n as nat)]);
    assert(old(s)@ + decimal(n as nat) =~= final(s)@) by {
        if n >= 10 {
            assert(digit_char((n % 10) as nat) == digit_char(n as nat % 10));
        }
    }
}

/// `base` joined with `name`.
fn join(base: &str, name: &str) -> (r: String)
    ensures
        r@ == join_spec(base@, name@),
{
    let mut r = String::from_str(base);
    let len = base.unicode_len();
    if len > 0 && base.get_char(len - 1) != '/' {
        proof {
            reveal_strlit("/");
        }
        r.append("/");
    }
    r.append(name);
    r
}

/// The cache directory below `main_dir`.
pub fn cache_dir(main_dir: &str) -> (r: String)
    ensures
        r@ == cache_dir_spec(main_dir@),
{
    join(main_dir, "cache")
}

/// The directory of downloaded images below `main_dir`.
pub fn img_dir(main_dir: &str) -> (r: String)
    ensures
        r@ == img_dir_spec(main_dir@),
{
    let cache = cache_dir(main_dir);
    join(cache.as_str(), "img")
}

/// The image file of comic `n` with extension `ext`: `<n>.<ext>` in the
/// image directory.
pub fn img_path(main_dir: &str, n: usize, ext: &str) -> (r: String)
    ensures
        r@ == img_path_spec(main_dir@, n as nat, ext@),
{
    let dir = img_dir(main_dir);
    let mut name = String::new();
    push_decimal(&mut name, n);
    proof {
        reveal_strlit(".");
    }
    name.append(".");
    name.append(ext);
    join(dir.as_str(), name.as_str())
}

/// The file that holds the persisted store.
pub fn comics_json_path(main_dir: &str) -> (r: String)
    ensures
        r@ == comics_json_path_spec(main_dir@),
{
    let cache = cache_dir(main_dir);
    join(cache.as_str(), "comics.json")
}

} // verus!
