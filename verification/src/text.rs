//! Character-level text helpers: prefix tests, whitespace trimming and
//! concatenation of text fragments, with their mathematical definitions.
use vstd::prelude::*;
use vstd::string::*;

verus! {

/// The characters treated as whitespace when a heading is trimmed: the
/// Unicode `White_Space` set, the same set `char::is_whitespace` uses.
pub open spec fn is_ws(c: char) -> bool {
    ||| c == '\t'
    ||| c == '\n'
    ||| c == '\u{0B}'
    ||| c == '\u{0C}'
    ||| c == '\r'
    ||| c == ' '
    ||| c == '\u{85}'
    ||| c == '\u{A0}'
    ||| c == '\u{1680}'
    ||| c == '\u{2000}'
    ||| c == '\u{2001}'
    ||| c == '\u{2002}'
    ||| c == '\u{2003}'
    ||| c == '\u{2004}'
    ||| c == '\u{2005}'
    ||| c == '\u{2006}'
    ||| c == '\u{2007}'
    ||| c == '\u{2008}'
    ||| c == '\u{2009}'
    ||| c == '\u{200A}'
    ||| c == '\u{2028}'
    ||| c == '\u{2029}'
    ||| c == '\u{202F}'
    ||| c == '\u{205F}'
    ||| c == '\u{3000}'
}

/// Decides `is_ws` for one character.
pub fn is_ws_char(c: char) -> (b: bool)
    ensures
        b == is_ws(c),
{
    c == '\t' || c == '\n' || c == '\u{0B}' || c == '\u{0C}' || c == '\r' || c == ' '
        || c == '\u{85}' || c == '\u{A0}' || c == '\u{1680}' || c == '\u{2000}'
        || c == '\u{2001}' || c == '\u{2002}' || c == '\u{2003}' || c == '\u{2004}'
        || c == '\u{2005}' || c == '\u{2006}' || c == '\u{2007}' || c == '\u{2008}'
        || c == '\u{2009}' || c == '\u{200A}' || c == '\u{2028}' || c == '\u{2029}'
        || c == '\u{202F}' || c == '\u{205F}' || c == '\u{3000}'
}

/// `p` is a prefix of `s`.
pub open spec fn starts_with_spec(s: Seq<char>, p: Seq<char>) -> bool {
    p.len() <= s.len() && s.subrange(0, p.len() as int) == p
}

/// Decides whether `s` starts with `p`, character by character.
pub fn str_starts_with(s: &str, p: &str) -> (b: bool)
    ensures
        b == starts_with_spec(s@, p@),
{
    let n = p.unicode_len();
    if n > s.unicode_len() {
        return false;
    }
    let mut i: usize = 0;
    while i < n
        invariant
            i <= n,
            n == p@.len(),
            n <= s@.len(),
            forall|k: int| 0 <= k < i ==> s@[k] == p@[k],
        decreases n - i,
    {
        if s.get_char(i) != p.get_char(i) {
            proof {
                assert(s@.subrange(0, p@.len() as int)[i as int] != p@[i as int]);
            }
            return false;
        }
        i += 1;
    }
    proof {
        assert(s@.subrange(0, p@.len() as int) =~= p@);
    }
    true
}

/// `s` without its leading whitespace.
pub open spec fn trim_leading(s: Seq<char>) -> Seq<char>
    decreases s.len(),
{
    if s.len() > 0 && is_ws(s[0]) {
        trim_leading(s.subrange(1, s.len() as int))
    } else {
        s
    }
}

/// `s` without its trailing whitespace.
pub open spec fn trim_trailing(s: Seq<char>) -> Seq<char>
    decreases s.len(),
{
    if s.len() > 0 && is_ws(s[s.len() - 1]) {
        trim_trailing(s.drop_last())
    } else {
        s
    }
}

/// `s` without leading and trailing whitespace.
pub open spec fn trim_spec(s: Seq<char>) -> Seq<char> {
    trim_trailing(trim_leading(s))
}

/// Returns `s` with leading and trailing whitespace removed.
pub fn trim_str(s: &str) -> (r: String)
    ensures
        r@ == trim_spec(s@),
{
    let len = s.unicode_len();
    proof {
        assert(s@.subrange(0, len as int) =~= s@);
    }
    let mut start: usize = 0;
    while start < len && is_ws_char(s.get_char(start))
        invariant
            start <= len,
            len == s@.len(),
            trim_leading(s@) == trim_leading(s@.subrange(start as int, len as int)),
        decreases len - start,
    {
        proof {
            assert(s@.subrange(start as int, len as int).subrange(
                1,
                s@.subrange(start as int, len as int).len() as int,
            ) =~= s@.subrange(start as int + 1, len as int));
        }
        start += 1;
    }
    proof {
        if start == len {
            assert(s@.subrange(start as int, len as int) =~= Seq::<char>::empty());
        }
        assert(trim_leading(s@) == s@.subrange(start as int, len as int));
    }
    let mut end: usize = len;
    while end > start && is_ws_char(s.get_char(end - 1))
        invariant
            start <= end <= len,
            len == s@.len(),
            trim_trailing(s@.subrange(start as int, len as int)) == trim_trailing(
                s@.subrange(start as int, end as int),
            ),
        decreases end,
    {
        proof {
            assert(s@.subrange(start as int, end as int).drop_last() =~= s@.subrange(
                start as int,
                end as int - 1,
            ));
        }
        end -= 1;
    }
    proof {
        if end == start {
            assert(s@.subrange(start as int, end as int) =~= Seq::<char>::empty());
        }
        assert(trim_trailing(s@.subrange(start as int, end as int)) == s@.subrange(
            start as int,
            end as int,
        ));
    }
    let sub = s.substring_char(start, end);
    String::from_str(sub)
}

/// A link that already starts with the scheme prefix is kept as it is;
/// any other is taken as site-root-relative and resolved by prepending
/// the origin.
pub open spec fn normalize_url_spec(origin: Seq<char>, href: Seq<char>) -> Seq<char> {
    if starts_with_spec(href, "https://"@) {
        href
    } else {
        origin + href
    }
}

/// Resolves a card's link against the origin, as `normalize_url_spec` states.
pub fn normalize_url(origin: &str, href: &str) -> (r: String)
    ensures
        r@ == normalize_url_spec(origin@, href@),
{
    if str_starts_with(href, "https://") {
        href.to_owned()
    } else {
        origin.to_owned().concat(href)
    }
}

/// The origin prepended to an image source, unconditionally: the upstream
/// page's markup uses site-root-relative image paths throughout.
pub open spec fn normalize_image_spec(origin: Seq<char>, src: Seq<char>) -> Seq<char> {
    origin + src
}

/// Prepends the origin to a card's image source, as `normalize_image_spec`
/// states.
pub fn normalize_image(origin: &str, src: &str) -> (r: String)
    ensures
        r@ == normalize_image_spec(origin@, src@),
{
    origin.to_owned().concat(src)
}

/// The views of a sequence of strings.
pub open spec fn views_of(ts: Seq<String>) -> Seq<Seq<char>> {
    ts.map_values(|t: String| t@)
}

/// All the fragments joined in order.
pub open spec fn concat_all(ts: Seq<Seq<char>>) -> Seq<char>
    decreases ts.len(),
{
    if ts.len() == 0 {
        Seq::empty()
    } else {
        concat_all(ts.drop_last()) + ts.last()
    }
}

/// Joins all the strings of `ts` in order.
pub fn concat_strings(ts: &Vec<String>) -> (r: String)
    ensures
        r@ == concat_all(views_of(ts@)),
{
    let mut r = String::new();
    proof {
        assert(views_of(ts@).take(0) =~= Seq::<Seq<char>>::empty());
    }
    let mut i: usize = 0;
    while i < ts.len()
        invariant
            i <= ts@.len(),
            r@ == concat_all(views_of(ts@).take(i as int)),
        decreases ts@.len() - i,
    {
        r.append(ts[i].as_str());
        proof {
            let vs = views_of(ts@);
            assert(vs.take(i as int + 1).drop_last() =~= vs.take(i as int));
            assert(vs.take(i as int + 1).last() == ts@[i as int]@);
        }
        i += 1;
    }
    proof {
        assert(views_of(ts@).take(ts@.len() as int) =~= views_of(ts@));
    }
    r
}

} // verus!
