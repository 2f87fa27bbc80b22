//! Customize page logic: accent colors, wallpaper pack names from each
//! pack's `wallpaper.fish` manifest, and the pack list in display order.
//! Listing the packs directory and reading manifests happen outside;
//! these functions take what was read.

use vstd::prelude::*;
use crate::text::{
    chars_of, lex_lt, lemma_lex_asymmetric, lemma_lex_total, lemma_lex_transitive, lines_of,
    push_str, seqs_view, split_lines, starts_with, str_eq, str_less, string_from, strip_bounds,
    stripped, trim_bounds, trimmed,
};

verus! {

/// Accent colors offered on the page (daemon `customize` values).
pub const ACCENTS: [&'static str; 4] = ["orange", "blue", "green", "purple"];

/// Lang key for an accent color name: `customize.accent.<name>`.
pub fn accent_key(accent: &str) -> (key: String)
    ensures
        key@ == "customize.accent."@ + accent@,
{
    let mut key = String::new();
    push_str(&mut key, "customize.accent.");
    push_str(&mut key, accent);
    key
}

/// The name a manifest line gives: a trimmed line `name: <value>`, whose
/// value is trimmed, stripped of surrounding quotes and trimmed again;
/// `None` when the line is no `name:` line or the value is empty.
pub open spec fn manifest_line_name(line: Seq<char>) -> Option<Seq<char>> {
    let t = trimmed(line);
    if starts_with(t, "name:"@) {
        let n = trimmed(stripped(trimmed(t.skip(5)), '"'));
        if n.len() > 0 {
            Some(n)
        } else {
            None
        }
    } else {
        None
    }
}

/// The name given by the first line that gives one.
pub open spec fn first_manifest_name(lines: Seq<Seq<char>>) -> Option<Seq<char>>
    decreases lines.len(),
{
    if lines.len() == 0 {
        None
    } else {
        match manifest_line_name(lines[0]) {
            Some(n) => Some(n),
            None => first_manifest_name(lines.drop_first()),
        }
    }
}

/// Display name from a manifest's content, `None` when unreadable or
/// when no line gives one.
pub open spec fn manifest_name(content: Option<Seq<char>>) -> Option<Seq<char>> {
    match content {
        Some(c) => first_manifest_name(lines_of(c)),
        None => None,
    }
}

/// The characters of a content that was read.
pub open spec fn content_view(content: Option<&str>) -> Option<Seq<char>> {
    match content {
        Some(c) => Some(c@),
        None => None,
    }
}

/// Whether `cs[a..a + 5]` spells `name:`.
fn spells_name_key(cs: &Vec<char>, a: usize, b: usize) -> (yes: bool)
    requires
        a <= b <= cs@.len(),
    ensures
        yes == starts_with(cs@.subrange(a as int, b as int), "name:"@),
        yes ==> a + 5 <= b,
{
    proof {
        reveal_strlit("name:");
    }
    let t = Ghost(cs@.subrange(a as int, b as int));
    if b - a < 5 {
        return false;
    }
    let yes = cs[a] == 'n' && cs[a + 1] == 'a' && cs[a + 2] == 'm' && cs[a + 3] == 'e' && cs[a
        + 4] == ':';
    if yes {
        assert(t@.take(5) =~= "name:"@);
    } else {
        assert(!(t@.take(5) =~= "name:"@)) by {
            if t@.take(5) =~= "name:"@ {
                assert(t@.take(5)[0] == 'n');
                assert(t@.take(5)[1] == 'a');
                assert(t@.take(5)[2] == 'm');
                assert(t@.take(5)[3] == 'e');
                assert(t@.take(5)[4] == ':');
            }
        }
    }
    yes
}

/// The name one manifest line gives (see `manifest_line_name`).
fn line_name(line: &Vec<char>) -> (name: Option<String>)
    ensures
        match name {
            Some(n) => manifest_line_name(line@) == Some(n@),
            None => manifest_line_name(line@) is None,
        },
{
    let len = line.len();
    let (a, b) = trim_bounds(line, 0, len);
    assert(line@.subrange(0, len as int) =~= line@);
    let ghost t = line@.subrange(a as int, b as int);
    if !spells_name_key(line, a, b) {
        return None;
    }
    let (c, d) = trim_bounds(line, a + 5, b);
    assert(t.skip(5) =~= line@.subrange(a + 5, b as int));
    let (e, f) = strip_bounds(line, c, d, '"');
    let (g, h) = trim_bounds(line, e, f);
    if g < h {
        Some(string_from(line, g, h))
    } else {
        None
    }
}

/// Display name from a pack manifest's content (`name: "..."`), `None`
/// when the manifest was unreadable or names nothing.
pub fn fish_name(content: Option<&str>) -> (name: Option<String>)
    ensures
        match name {
            Some(n) => manifest_name(content_view(content)) == Some(n@),
            None => manifest_name(content_view(content)) is None,
        },
{
    let c = match content {
        Some(c) => c,
        None => return None,
    };
    let cs = chars_of(c);
    let lines = split_lines(&cs);
    let ghost all = seqs_view(lines@);
    let n = lines.len();
    let mut i: usize = 0;
    assert(all.skip(0) =~= all);
    assert(content_view(content) == Some(c@));
    while i < n
        invariant
            i <= n,
            n == lines@.len(),
            all == seqs_view(lines@),
            manifest_name(content_view(content)) == first_manifest_name(all),
            first_manifest_name(all) == first_manifest_name(all.skip(i as int)),
        decreases n - i,
    {
        assert(all.skip(i as int)[0] == lines@[i as int]@);
        assert(all.skip(i as int).drop_first() =~= all.skip(i + 1));
        match line_name(&lines[i]) {
            Some(name) => {
                assert(first_manifest_name(all.skip(i as int)) == Some(name@));
                return Some(name);
            },
            None => {},
        }
        i += 1;
    }
    assert(all.skip(n as int).len() == 0);
    None
}

/// A pack's display name: the manifest's name, else the pack id.
pub open spec fn pack_display(id: Seq<char>, manifest: Option<Seq<char>>) -> Seq<char> {
    match manifest_name(manifest) {
        Some(n) => n,
        None => id,
    }
}

/// Views of `(id, display name)` pairs.
pub open spec fn pair_views(v: Seq<(String, String)>) -> Seq<(Seq<char>, Seq<char>)> {
    v.map_values(|p: (String, String)| (p.0@, p.1@))
}

/// Views of `(id, manifest content)` pairs, with each pack's display
/// name in place of its manifest.
pub open spec fn entry_views(v: Seq<(String, Option<String>)>) -> Seq<(Seq<char>, Seq<char>)> {
    v.map_values(
        |e: (String, Option<String>)|
            (
                e.0@,
                pack_display(
                    e.0@,
                    match e.1 {
                        Some(c) => Some(c@),
                        None => None,
                    },
                ),
            ),
    )
}

/// Pairs in ascending order of display name.
pub open spec fn sorted_by_display(v: Seq<(Seq<char>, Seq<char>)>) -> bool {
    forall|i: int, j: int| 0 <= i < j < v.len() ==> !lex_lt(#[trigger] v[j].1, #[trigger] v[i].1)
}

/// `x` placed into `s` after every pair whose display name is not above
/// its own.
pub open spec fn insert_by_display(s: Seq<(Seq<char>, Seq<char>)>, x: (Seq<char>, Seq<char>)) -> Seq<(Seq<char>, Seq<char>)>
    decreases s.len(),
{
    if s.len() == 0 {
        seq![x]
    } else if lex_lt(x.1, s[0].1) {
        seq![x] + s
    } else {
        seq![s[0]] + insert_by_display(s.drop_first(), x)
    }
}

/// Pairs in ascending order of display name, pairs with equal names kept
/// in their given order (what a stable sort by display name gives).
pub open spec fn sorted_stably(v: Seq<(Seq<char>, Seq<char>)>) -> Seq<(Seq<char>, Seq<char>)>
    decreases v.len(),
{
    if v.len() == 0 {
        Seq::empty()
    } else {
        insert_by_display(sorted_stably(v.drop_last()), v.last())
    }
}

proof fn lemma_insert_at(s: Seq<(Seq<char>, Seq<char>)>, x: (Seq<char>, Seq<char>), p: int)
    requires
        0 <= p <= s.len(),
        forall|q: int| 0 <= q < p ==> !lex_lt(x.1, #[trigger] s[q].1),
        p < s.len() ==> lex_lt(x.1, s[p].1),
    ensures
        insert_by_display(s, x) == s.insert(p, x),
    decreases s.len(),
{
    if s.len() == 0 {
        assert(s.insert(p, x) =~= seq![x]);
    } else if p == 0 {
        assert(s.insert(0, x) =~= seq![x] + s);
    } else {
        assert(!lex_lt(x.1, s[0].1));
        let t = s.drop_first();
        assert forall|q: int| 0 <= q < p - 1 implies !lex_lt(x.1, #[trigger] t[q].1) by {
            assert(t[q] == s[q + 1]);
        }
        lemma_insert_at(t, x, p - 1);
        assert(s.insert(p, x) =~= seq![s[0]] + t.insert(p - 1, x));
    }
}

/// `(pack id, display name)` pairs sorted by display name, from each
/// pack directory's name and its manifest's content (`None` when the
/// manifest was unreadable). The display name falls back to the id; packs
/// with equal display names keep their given order.
pub fn packs_from(entries: Vec<(String, Option<String>)>) -> (packs: Vec<(String, String)>)
    ensures
        pair_views(packs@) == sorted_stably(entry_views(entries@)),
        sorted_by_display(pair_views(packs@)),
        pair_views(packs@).to_multiset() == entry_views(entries@).to_multiset(),
{
    let mut packs: Vec<(String, String)> = Vec::new();
    let n = entries.len();
    let mut k: usize = 0;
    assert(pair_views(packs@) =~= entry_views(entries@).take(0));
    assert(entry_views(entries@).take(0).len() == 0);
    while k < n
        invariant
            k <= n,
            n == entries@.len(),
            sorted_by_display(pair_views(packs@)),
            pair_views(packs@) == sorted_stably(entry_views(entries@).take(k as int)),
            pair_views(packs@).to_multiset() == entry_views(entries@).take(k as int).to_multiset(),
        decreases n - k,
    {
        let id = entries[k].0.clone();
        let display = match &entries[k].1 {
            Some(c) => match fish_name(Some(c.as_str())) {
                Some(name) => name,
                None => id.clone(),
            },
            None => id.clone(),
        };
        let ghost x = (id@, display@);
        assert(x == entry_views(entries@)[k as int]);
        let mut p: usize = 0;
        while p < packs.len() && !str_less(display.as_str(), packs[p].1.as_str())
            invariant
                p <= packs@.len(),
                display@ == x.1,
                forall|q: int| 0 <= q < p ==> !lex_lt(x.1, #[trigger] pair_views(packs@)[q].1),
            decreases packs@.len() - p,
        {
            p += 1;
        }
        let ghost old_views = pair_views(packs@);
        proof {
            if p < old_views.len() {
                assert forall|j: int| p <= j < old_views.len() implies lex_lt(
                    x.1,
                    #[trigger] old_views[j].1,
                ) by {
                    if j > p {
                        lemma_lex_total(old_views[p as int].1, old_views[j].1);
                        if lex_lt(old_views[p as int].1, old_views[j].1) {
                            lemma_lex_transitive(x.1, old_views[p as int].1, old_views[j].1);
                        }
                    }
                }
            }
        }
        packs.insert(p, (id, display));
        proof {
            let views = pair_views(packs@);
            assert(views =~= old_views.insert(p as int, x));
            assert forall|i: int, j: int| 0 <= i < j < views.len() implies !lex_lt(
                #[trigger] views[j].1,
                #[trigger] views[i].1,
            ) by {
                if i < p && j == p {
                    lemma_lex_total(x.1, old_views[i].1);
                } else if i == p && j > p {
                    lemma_lex_asymmetric(x.1, old_views[j - 1].1);
                } else if i < p && j > p {
                    assert(!lex_lt(old_views[j - 1].1, old_views[i].1));
                } else if i > p {
                    assert(!lex_lt(old_views[j - 1].1, old_views[i - 1].1));
                }
            }
            assert(views.remove(p as int) =~= old_views);
            assert(views[p as int] == x);
            broadcast use vstd::seq_lib::group_to_multiset_ensures;
            let e = entry_views(entries@);
            assert(e.take(k + 1) =~= e.take(k as int).push(x));
            assert(views.to_multiset().remove(x) =~= old_views.to_multiset());
            assert(views.to_multiset().count(x) > 0);
            assert(views.to_multiset() =~= old_views.to_multiset().insert(x));
            lemma_insert_at(old_views, x, p as int);
            assert(e.take(k + 1).drop_last() =~= e.take(k as int));
            assert(e.take(k + 1).last() == x);
        }
        k += 1;
    }
    assert(entry_views(entries@).take(n as int) =~= entry_views(entries@));
    packs
}

/// The display name of the first pack with id `id`, else `id` itself.
pub open spec fn display_in(packs: Seq<(Seq<char>, Seq<char>)>, id: Seq<char>) -> Seq<char>
    decreases packs.len(),
{
    if packs.len() == 0 {
        id
    } else if packs[0].0 == id {
        packs[0].1
    } else {
        display_in(packs.drop_first(), id)
    }
}

/// Display name for a pack id, falling back to the id itself.
pub fn display_for(packs: &Vec<(String, String)>, id: &str) -> (display: String)
    ensures
        display@ == display_in(pair_views(packs@), id@),
{
    let ghost all = pair_views(packs@);
    let n = packs.len();
    let mut i: usize = 0;
    assert(all.skip(0) =~= all);
    while i < n
        invariant
            i <= n,
            n == packs@.len(),
            all == pair_views(packs@),
            display_in(all, id@) == display_in(all.skip(i as int), id@),
        decreases n - i,
    {
        assert(all.skip(i as int)[0] == all[i as int]);
        assert(all.skip(i as int).drop_first() =~= all.skip(i + 1));
        if str_eq(packs[i].0.as_str(), id) {
            return packs[i].1.clone();
        }
        i += 1;
    }
    let mut s = String::new();
    push_str(&mut s, id);
    s
}

/// No two entries share a pack id.
pub open spec fn ids_distinct(v: Seq<(Seq<char>, Seq<char>)>) -> bool {
    forall|i: int, j: int| 0 <= i < j < v.len() ==> #[trigger] v[i].0 != #[trigger] v[j].0
}

proof fn lemma_display_of_unique_id(s: Seq<(Seq<char>, Seq<char>)>, id: Seq<char>, d: Seq<char>)
    requires
        s.contains((id, d)),
        forall|i: int| 0 <= i < s.len() && #[trigger] s[i].0 == id ==> s[i].1 == d,
    ensures
        display_in(s, id) == d,
    decreases s.len(),
{
    if s[0].0 != id {
        let k = choose|k: int| 0 <= k < s.len() && s[k] == (id, d);
        assert(s.drop_first()[k - 1] == (id, d));
        assert forall|i: int| 0 <= i < s.drop_first().len() && #[trigger] s.drop_first()[i].0
            == id implies s.drop_first()[i].1 == d by {
            assert(s[i + 1].0 == id);
        }
        lemma_display_of_unique_id(s.drop_first(), id, d);
    }
}

/// The page shows each pack under its own display name: looking up a
/// pack's id in any list holding the same pairs as the entries (such as
/// `packs_from`'s result) gives the manifest's name, else the id, as long
/// as no two pack folders share an id.
pub proof fn law_pack_shows_its_display(
    entries: Seq<(String, Option<String>)>,
    packs: Seq<(String, String)>,
    k: int,
)
    requires
        0 <= k < entries.len(),
        ids_distinct(entry_views(entries)),
        pair_views(packs).to_multiset() == entry_views(entries).to_multiset(),
    ensures
        display_in(pair_views(packs), entry_views(entries)[k].0) == entry_views(entries)[k].1,
{
    broadcast use vstd::seq_lib::group_to_multiset_ensures;

    let e = entry_views(entries);
    let p = pair_views(packs);
    let x = e[k];
    assert(e.contains(x));
    assert(e.to_multiset().count(x) > 0);
    assert(p.to_multiset().count(x) > 0);
    assert(p.contains(x));
    assert forall|i: int| 0 <= i < p.len() && #[trigger] p[i].0 == x.0 implies p[i].1 == x.1 by {
        assert(p.contains(p[i]));
        assert(p.to_multiset().count(p[i]) > 0);
        assert(e.to_multiset().count(p[i]) > 0);
        assert(e.contains(p[i]));
        let j = choose|j: int| 0 <= j < e.len() && e[j] == p[i];
        if j < k {
            assert(e[j].0 != e[k].0);
        } else if j > k {
            assert(e[k].0 != e[j].0);
        }
    }
    lemma_display_of_unique_id(p, x.0, x.1);
}

} // verus!
