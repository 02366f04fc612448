use vstd::prelude::*;
use crate::text::{join2, owned, str_eq};

verus! {

/// The public assets (styles, scripts, favicon), served as files.
pub struct Asset;

/// The assets embedded in pages rather than served (scripts, icons, import maps).
pub struct AssetHidden;

/// The translation files, one directory per locale.
pub struct AssetLocale;

/// The first segment of a path: what comes before its first `/`.
pub open spec fn first_segment(p: Seq<char>) -> Seq<char>
    decreases p.len(),
{
    if p.len() == 0 {
        Seq::empty()
    } else if p[0] == '/' {
        Seq::empty()
    } else {
        seq![p[0]] + first_segment(p.drop_first())
    }
}

/// The translation text of locale `loc` from the first `n` files: the content
/// of each file in that locale's directory, in order, each followed by a newline.
pub open spec fn locale_text(files: Seq<(String, String)>, n: int, loc: Seq<char>) -> Seq<char>
    decreases n,
{
    if n <= 0 {
        Seq::empty()
    } else {
        locale_text(files, n - 1, loc) + if first_segment(files[n - 1].0@) == loc {
            files[n - 1].1@ + seq!['\n']
        } else {
            Seq::empty()
        }
    }
}

/// Some of the first `n` files lie in locale `loc`'s directory.
pub open spec fn has_locale(files: Seq<(String, String)>, n: int, loc: Seq<char>) -> bool {
    exists|m: int| 0 <= m < n && first_segment(#[trigger] files[m].0@) == loc
}

/// The first segment of a path, as a string.
pub fn path_first_segment(path: &str) -> (r: String)
    ensures
        r@ == first_segment(path@),
{
    let n = path.unicode_len();
    let mut i: usize = 0;
    while i < n && path.get_char(i) != '/'
        invariant
            n == path@.len(),
            i <= n,
            forall|k: int| 0 <= k < i ==> path@[k] != '/',
        decreases n - i,
    {
        i = i + 1;
    }
    proof {
        lemma_first_segment_prefix(path@, i as int);
    }
    owned(path.substring_char(0, i))
}

/// The first segment is the prefix up to the first `/` (or all of the path).
proof fn lemma_first_segment_prefix(p: Seq<char>, i: int)
    requires
        0 <= i <= p.len(),
        forall|k: int| 0 <= k < i ==> p[k] != '/',
        i == p.len() || p[i] == '/',
    ensures
        first_segment(p) == p.subrange(0, i),
    decreases i,
{
    if i == 0 {
        assert(p.subrange(0, 0) =~= Seq::<char>::empty());
    } else {
        lemma_first_segment_prefix(p.drop_first(), i - 1);
        assert(p.subrange(0, i) =~= seq![p[0]] + p.drop_first().subrange(0, i - 1));
    }
}

impl AssetLocale {
    /// Groups the translation files by locale: each locale (the first segment
    /// of its files' paths) with the contents of its files, in the order given,
    /// each followed by a newline. Each locale appears once.
    pub fn locale_map(files: &Vec<(String, String)>) -> (r: Vec<(String, String)>)
        ensures
            forall|a: int, b: int| 0 <= a < b < r@.len() ==> r@[a].0@ != r@[b].0@,
            forall|k: int| 0 <= k < r@.len() ==>
                #[trigger] r@[k].1@ == locale_text(files@, files@.len() as int, r@[k].0@),
            forall|loc: Seq<char>| #![trigger has_locale(files@, files@.len() as int, loc)] has_locale(files@, files@.len() as int, loc) <==>
                exists|k: int| 0 <= k < r@.len() && #[trigger] r@[k].0@ == loc,
    {
        let mut out: Vec<(String, String)> = Vec::new();
        let mut i: usize = 0;
        while i < files.len()
            invariant
                i <= files@.len(),
                forall|a: int, b: int| 0 <= a < b < out@.len() ==> out@[a].0@ != out@[b].0@,
                forall|k: int| 0 <= k < out@.len() ==>
                    #[trigger] out@[k].1@ == locale_text(files@, i as int, out@[k].0@),
                forall|loc: Seq<char>| #![trigger has_locale(files@, i as int, loc)] has_locale(files@, i as int, loc) <==>
                    exists|k: int| 0 <= k < out@.len() && #[trigger] out@[k].0@ == loc,
            decreases files@.len() - i,
        {
            let loc = path_first_segment(files[i].0.as_str());
            let content = join2(files[i].1.as_str(), "\n");
            assert(content@ == files@[i as int].1@ + seq!['\n']) by {
                reveal_strlit("\n");
            }
            let ghost old_out = out@;
            let mut j: usize = 0;
            while j < out.len() && !str_eq(out[j].0.as_str(), loc.as_str())
                invariant
                    out@ == old_out,
                    j <= out@.len(),
                    forall|k: int| 0 <= k < j ==> out@[k].0@ != loc@,
                decreases out@.len() - j,
            {
                j = j + 1;
            }
            proof {
                assert forall|l: Seq<char>| #![trigger locale_text(files@, i + 1, l)]
                    locale_text(files@, i + 1, l) == locale_text(files@, i as int, l)
                        + if first_segment(files@[i as int].0@) == l { content@ } else { Seq::empty() } by {
                }
            }
            if j < out.len() {
                let key = out[j].0.clone();
                let mut value = out[j].1.clone();
                value.append(content.as_str());
                out.set(j, (key, value));
                proof {
                    assert forall|k: int| 0 <= k < out@.len() implies
                        #[trigger] out@[k].1@ == locale_text(files@, i + 1, out@[k].0@) by {
                        assert(locale_text(files@, i + 1, out@[k].0@) == locale_text(files@, i as int, out@[k].0@)
                            + if first_segment(files@[i as int].0@) == out@[k].0@ { content@ } else { Seq::empty() });
                    }
                    assert forall|l: Seq<char>| #![trigger has_locale(files@, i + 1, l)] has_locale(files@, i + 1, l) <==>
                        exists|k: int| 0 <= k < out@.len() && #[trigger] out@[k].0@ == l by {
                        if has_locale(files@, i + 1, l) {
                            let m = choose|m: int| 0 <= m < i + 1 && first_segment(#[trigger] files@[m].0@) == l;
                            if m == i {
                                assert(out@[j as int].0@ == l);
                            } else {
                                assert(has_locale(files@, i as int, l));
                                let k = choose|k: int| 0 <= k < old_out.len() && #[trigger] old_out[k].0@ == l;
                                assert(out@[k].0@ == l);
                            }
                        }
                        if exists|k: int| 0 <= k < out@.len() && #[trigger] out@[k].0@ == l {
                            let k = choose|k: int| 0 <= k < out@.len() && #[trigger] out@[k].0@ == l;
                            assert(old_out[k].0@ == l);
                            assert(has_locale(files@, i as int, l));
                            let m = choose|m: int| 0 <= m < i && first_segment(#[trigger] files@[m].0@) == l;
                            assert(0 <= m < i + 1 && first_segment(files@[m].0@) == l);
                        }
                    }
                }
            } else {
                proof {
                    assert(!has_locale(files@, i as int, loc@));
                }
                out.push((loc, content));
                proof {
                    assert forall|k: int| 0 <= k < out@.len() implies
                        #[trigger] out@[k].1@ == locale_text(files@, i + 1, out@[k].0@) by {
                        assert(locale_text(files@, i + 1, out@[k].0@) == locale_text(files@, i as int, out@[k].0@)
                            + if first_segment(files@[i as int].0@) == out@[k].0@ { content@ } else { Seq::empty() });
                        if k == old_out.len() {
                            lemma_locale_text_absent(files@, i as int, out@[k].0@);
                        }
                    }
                    assert forall|l: Seq<char>| #![trigger has_locale(files@, i + 1, l)] has_locale(files@, i + 1, l) <==>
                        exists|k: int| 0 <= k < out@.len() && #[trigger] out@[k].0@ == l by {
                        if has_locale(files@, i + 1, l) {
                            let m = choose|m: int| 0 <= m < i + 1 && first_segment(#[trigger] files@[m].0@) == l;
                            if m == i {
                                assert(out@[old_out.len() as int].0@ == l);
                            } else {
                                assert(has_locale(files@, i as int, l));
                                let k = choose|k: int| 0 <= k < old_out.len() && #[trigger] old_out[k].0@ == l;
                                assert(out@[k].0@ == l);
                            }
                        }
                        if exists|k: int| 0 <= k < out@.len() && #[trigger] out@[k].0@ == l {
                            let k = choose|k: int| 0 <= k < out@.len() && #[trigger] out@[k].0@ == l;
                            if k == old_out.len() {
                                assert(first_segment(files@[i as int].0@) == l);
                            } else {
                                assert(old_out[k].0@ == l);
                                assert(has_locale(files@, i as int, l));
                                let m = choose|m: int| 0 <= m < i && first_segment(#[trigger] files@[m].0@) == l;
                                assert(0 <= m < i + 1 && first_segment(files@[m].0@) == l);
                            }
                        }
                    }
                }
            }
            i = i + 1;
        }
        out
    }
}

/// The hidden asset to load for a script: its plain version in a debug build,
/// else its minified version.
pub fn js_debug_prod<'a>(debug: &'a str, prod: &'a str, is_debug: bool) -> (r: &'a str)
    ensures
        r@ == if is_debug { debug@ } else { prod@ },
{
    if is_debug {
        debug
    } else {
        prod
    }
}

/// The hidden asset of the boot script.
pub fn js_boot(is_debug: bool) -> (r: &'static str)
    ensures
        r@ == if is_debug { "js/boot.js"@ } else { "js/boot.min.js"@ },
{
    js_debug_prod("js/boot.js", "js/boot.min.js", is_debug)
}

/// The locales served with another locale's translations: (alias, locale).
pub open spec fn locale_aliases() -> Seq<(Seq<char>, Seq<char>)> {
    seq![("en-US"@, "en-GB"@)]
}

pub fn list_of_alias() -> (r: Vec<(String, String)>)
    ensures
        r@.len() == locale_aliases().len(),
        forall|k: int| 0 <= k < r@.len() ==> (#[trigger] r@[k]).0@ == locale_aliases()[k].0 && r@[k].1@ == locale_aliases()[k].1,
{
    let r = vec![(owned("en-US"), owned("en-GB"))];
    r
}

/// The translation resources to load: every locale of the map with its text,
/// then each alias whose locale the map has, with that locale's text.
pub open spec fn resources_spec(
    map: Seq<(String, String)>,
    aliases: Seq<(Seq<char>, Seq<char>)>,
) -> Seq<(Seq<char>, Seq<char>)> {
    map.map_values(|e: (String, String)| (e.0@, e.1@)) + alias_resources(map, aliases, aliases.len() as int)
}

/// The resources of the first `n` aliases whose locale the map has.
pub open spec fn alias_resources(
    map: Seq<(String, String)>,
    aliases: Seq<(Seq<char>, Seq<char>)>,
    n: int,
) -> Seq<(Seq<char>, Seq<char>)>
    decreases n,
{
    if n <= 0 {
        Seq::empty()
    } else {
        alias_resources(map, aliases, n - 1) + match crate::locale::lookup(map, aliases[n - 1].1) {
            Some(t) => seq![(aliases[n - 1].0, t)],
            None => Seq::empty(),
        }
    }
}

/// The translation resources to load for a locale map.
pub fn build_locale_resources(map: &Vec<(String, String)>) -> (r: Vec<(String, String)>)
    ensures
        r@.map_values(|e: (String, String)| (e.0@, e.1@)) == resources_spec(map@, locale_aliases()),
{
    let mut out: Vec<(String, String)> = Vec::new();
    let mut i: usize = 0;
    while i < map.len()
        invariant
            i <= map@.len(),
            out@.len() == i,
            forall|k: int| 0 <= k < i ==> (#[trigger] out@[k]).0@ == map@[k].0@ && out@[k].1@ == map@[k].1@,
        decreases map@.len() - i,
    {
        out.push((map[i].0.clone(), map[i].1.clone()));
        i = i + 1;
    }
    assert(out@.map_values(|e: (String, String)| (e.0@, e.1@)) =~= map@.map_values(|e: (String, String)| (e.0@, e.1@))
        + alias_resources(map@, locale_aliases(), 0));
    let aliases = list_of_alias();
    let mut a: usize = 0;
    while a < aliases.len()
        invariant
            a <= aliases@.len(),
            aliases@.len() == locale_aliases().len(),
            forall|k: int| 0 <= k < aliases@.len() ==> (#[trigger] aliases@[k]).0@ == locale_aliases()[k].0 && aliases@[k].1@ == locale_aliases()[k].1,
            out@.map_values(|e: (String, String)| (e.0@, e.1@)) == map@.map_values(|e: (String, String)| (e.0@, e.1@))
                + alias_resources(map@, locale_aliases(), a as int),
        decreases aliases@.len() - a,
    {
        let ghost before = out@;
        let found = lookup_text(map, aliases[a].1.as_str());
        match found {
            Some(t) => {
                out.push((aliases[a].0.clone(), t));
                assert(out@.map_values(|e: (String, String)| (e.0@, e.1@)) =~= before.map_values(|e: (String, String)| (e.0@, e.1@))
                    + seq![(aliases@[a as int].0@, out@.last().1@)]);
            },
            None => {},
        }
        a = a + 1;
    }
    out
}

/// The first text of `key` in an association list.
fn lookup_text(map: &Vec<(String, String)>, key: &str) -> (r: Option<String>)
    ensures
        match r {
            Some(t) => crate::locale::lookup(map@, key@) == Some(t@),
            None => crate::locale::lookup(map@, key@) is None,
        },
{
    let mut i: usize = 0;
    assert(map@.subrange(0, map@.len() as int) =~= map@);
    while i < map.len()
        invariant
            i <= map@.len(),
            crate::locale::lookup(map@, key@) == crate::locale::lookup(map@.subrange(i as int, map@.len() as int), key@),
        decreases map@.len() - i,
    {
        let ghost rest = map@.subrange(i as int, map@.len() as int);
        assert(rest.drop_first() =~= map@.subrange(i + 1, map@.len() as int));
        if str_eq(map[i].0.as_str(), key) {
            return Some(map[i].1.clone());
        }
        i = i + 1;
    }
    None
}

/// A locale with no file among the first `n` has no text from them.
proof fn lemma_locale_text_absent(files: Seq<(String, String)>, n: int, loc: Seq<char>)
    requires
        0 <= n <= files.len(),
        !has_locale(files, n, loc),
    ensures
        locale_text(files, n, loc) == Seq::<char>::empty(),
    decreases n,
{
    if n > 0 {
        assert(!has_locale(files, n - 1, loc)) by {
            if has_locale(files, n - 1, loc) {
                let m = choose|m: int| 0 <= m < n - 1 && first_segment(#[trigger] files[m].0@) == loc;
                assert(0 <= m < n && first_segment(files[m].0@) == loc);
            }
        }
        lemma_locale_text_absent(files, n - 1, loc);
        assert(first_segment(files[n - 1].0@) != loc);
        assert(locale_text(files, n, loc) =~= Seq::<char>::empty());
    }
}

} // verus!
