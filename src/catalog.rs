//! Per-language catalogs of templates and the lookup with its fallback chain.

use vstd::prelude::*;

verus! {

/// The language selected when no other can be, and whose catalog serves a
/// language code that has none.
pub const DEFAULT_LANG: &'static str = "ko";

/// The language whose catalog is consulted second, when the selected one has
/// no usable template.
pub const FALLBACK_LANG: &'static str = "en";

/// The value stored under the first entry whose key is `k`.
pub open spec fn first_entry<T>(s: Seq<(String, T)>, k: Seq<char>) -> Option<T>
    decreases s.len(),
{
    if s.len() == 0 {
        None
    } else if s[0].0@ == k {
        Some(s[0].1)
    } else {
        first_entry(s.drop_first(), k)
    }
}

/// The position of the first entry whose key is `k`.
fn position_of<T>(s: &Vec<(String, T)>, k: &String) -> (r: Option<usize>)
    ensures
        match r {
            Some(i) => i < s@.len() && first_entry(s@, k@) == Some(s@[i as int].1),
            None => first_entry(s@, k@) is None,
        },
{
    let mut i: usize = 0;
    assert(s@.subrange(0, s@.len() as int) =~= s@);
    while i < s.len()
        invariant
            i <= s@.len(),
            first_entry(s@, k@) == first_entry(s@.subrange(i as int, s@.len() as int), k@),
        decreases s@.len() - i,
    {
        let ghost rest = s@.subrange(i as int, s@.len() as int);
        if s[i].0 == *k {
            return Some(i);
        }
        assert(rest.drop_first() =~= s@.subrange(i + 1, s@.len() as int));
        i = i + 1;
    }
    assert(s@.subrange(i as int, s@.len() as int).len() == 0);
    None
}

proof fn lemma_first_entry_of_front<T>(s: Seq<(String, T)>, e: (String, T))
    ensures
        forall|k: Seq<char>| #[trigger]
            first_entry(seq![e] + s, k) == if k == e.0@ {
                Some(e.1)
            } else {
                first_entry(s, k)
            },
{
    assert((seq![e] + s).drop_first() =~= s);
}

/// The templates of one language, keyed by canonical key.
pub struct Catalog {
    entries: Vec<(String, String)>,
}

impl View for Catalog {
    type V = Map<Seq<char>, Seq<char>>;

    closed spec fn view(&self) -> Map<Seq<char>, Seq<char>> {
        Map::new(
            |k: Seq<char>| first_entry(self.entries@, k) is Some,
            |k: Seq<char>| first_entry(self.entries@, k)->0@,
        )
    }
}

impl Catalog {
    /// A catalog with no entry.
    pub fn new() -> (r: Catalog)
        ensures
            r@ == Map::<Seq<char>, Seq<char>>::empty(),
    {
        let r = Catalog { entries: Vec::new() };
        assert(r@ =~= Map::<Seq<char>, Seq<char>>::empty());
        r
    }

    /// Stores `template` under `key`, in place of any earlier template.
    pub fn insert(&mut self, key: String, template: String)
        ensures
            final(self)@ == old(self)@.insert(key@, template@),
    {
        let ghost before = self.entries@;
        let ghost e = (key, template);
        self.entries.insert(0, (key, template));
        proof {
            assert(self.entries@ =~= seq![e] + before);
            lemma_first_entry_of_front(before, e);
        }
        assert(self@ =~= old(self)@.insert(e.0@, e.1@));
    }

    /// The template stored under `key`, if any.
    pub fn get(&self, key: &String) -> (r: Option<&String>)
        ensures
            match r {
                Some(t) => self@.contains_key(key@) && self@[key@] == t@,
                None => !self@.contains_key(key@),
            },
    {
        match position_of(&self.entries, key) {
            Some(i) => Some(&self.entries[i].1),
            None => None,
        }
    }
}

/// The catalogs of all supported languages, keyed by language code.
pub struct Catalogs {
    langs: Vec<(String, Catalog)>,
}

impl View for Catalogs {
    type V = Map<Seq<char>, Map<Seq<char>, Seq<char>>>;

    closed spec fn view(&self) -> Map<Seq<char>, Map<Seq<char>, Seq<char>>> {
        Map::new(
            |l: Seq<char>| first_entry(self.langs@, l) is Some,
            |l: Seq<char>| first_entry(self.langs@, l)->0@,
        )
    }
}

impl Catalogs {
    /// A store with no language.
    pub fn new() -> (r: Catalogs)
        ensures
            r@ == Map::<Seq<char>, Map<Seq<char>, Seq<char>>>::empty(),
    {
        let r = Catalogs { langs: Vec::new() };
        assert(r@ =~= Map::<Seq<char>, Map<Seq<char>, Seq<char>>>::empty());
        r
    }

    /// Stores `catalog` as the catalog of `lang`, in place of any earlier one.
    pub fn insert(&mut self, lang: String, catalog: Catalog)
        ensures
            final(self)@ == old(self)@.insert(lang@, catalog@),
    {
        let ghost before = self.langs@;
        let ghost e = (lang, catalog);
        self.langs.insert(0, (lang, catalog));
        proof {
            assert(self.langs@ =~= seq![e] + before);
            lemma_first_entry_of_front(before, e);
        }
        assert(self@ =~= old(self)@.insert(e.0@, e.1@));
    }

    /// The catalog of `lang`, if there is one.
    pub fn get(&self, lang: &String) -> (r: Option<&Catalog>)
        ensures
            match r {
                Some(c) => self@.contains_key(lang@) && self@[lang@] == c@,
                None => !self@.contains_key(lang@),
            },
    {
        match position_of(&self.langs, lang) {
            Some(i) => Some(&self.langs[i].1),
            None => None,
        }
    }
}

/// The template of `key` in `m`, where it is there and not empty.
pub open spec fn usable(m: Map<Seq<char>, Seq<char>>, key: Seq<char>) -> Option<Seq<char>> {
    if m.contains_key(key) && m[key].len() > 0 {
        Some(m[key])
    } else {
        None
    }
}

/// The catalog consulted first for `lang`: its own, else the default
/// language's, else none at all.
pub open spec fn selected(
    cats: Map<Seq<char>, Map<Seq<char>, Seq<char>>>,
    lang: Seq<char>,
) -> Map<Seq<char>, Seq<char>> {
    if cats.contains_key(lang) {
        cats[lang]
    } else if cats.contains_key(DEFAULT_LANG@) {
        cats[DEFAULT_LANG@]
    } else {
        Map::empty()
    }
}

/// The template of `key` for `lang`: the selected catalog's, else the
/// fallback language's (unless `lang` is the fallback language), else `key`.
pub open spec fn looked_up(
    cats: Map<Seq<char>, Map<Seq<char>, Seq<char>>>,
    key: Seq<char>,
    lang: Seq<char>,
) -> Seq<char> {
    match usable(selected(cats, lang), key) {
        Some(t) => t,
        None => if lang != FALLBACK_LANG@ && cats.contains_key(FALLBACK_LANG@) && usable(
            cats[FALLBACK_LANG@],
            key,
        ) is Some {
            usable(cats[FALLBACK_LANG@], key)->0
        } else {
            key
        },
    }
}

/// The usable template of `key` in `cat`, if it has one.
fn usable_in(cat: &Catalog, key: &String) -> (r: Option<String>)
    ensures
        match r {
            Some(t) => usable(cat@, key@) == Some(t@),
            None => usable(cat@, key@) is None,
        },
{
    match cat.get(key) {
        Some(t) => if t.as_str().is_empty() {
            None
        } else {
            Some(t.clone())
        },
        None => None,
    }
}

/// Finds the template of the canonical key `key` for the language `lang`,
/// falling back to the fallback language's catalog and then to `key` itself.
pub fn lookup(catalogs: &Catalogs, key: &String, lang: &String) -> (r: String)
    ensures
        r@ == looked_up(catalogs@, key@, lang@),
{
    let default_lang = DEFAULT_LANG.to_owned();
    let fallback_lang = FALLBACK_LANG.to_owned();
    let first = match catalogs.get(lang) {
        Some(c) => usable_in(c, key),
        None => match catalogs.get(&default_lang) {
            Some(c) => usable_in(c, key),
            None => {
                assert(usable(Map::<Seq<char>, Seq<char>>::empty(), key@) is None);
                None
            },
        },
    };
    match first {
        Some(t) => t,
        None => {
            if *lang != fallback_lang {
                match catalogs.get(&fallback_lang) {
                    Some(c) => match usable_in(c, key) {
                        Some(t) => {
                            return t;
                        },
                        None => {},
                    },
                    None => {},
                }
            }
            key.clone()
        },
    }
}

/// Where the catalog of a language other than the fallback one has no usable
/// template for a key (none, or an empty one) and the fallback language's
/// catalog has one, the lookup gives the fallback language's template.
pub proof fn lemma_lookup_uses_fallback(
    cats: Map<Seq<char>, Map<Seq<char>, Seq<char>>>,
    key: Seq<char>,
    lang: Seq<char>,
)
    requires
        cats.contains_key(lang),
        !cats[lang].contains_key(key) || cats[lang][key].len() == 0,
        lang != FALLBACK_LANG@,
        cats.contains_key(FALLBACK_LANG@),
        cats[FALLBACK_LANG@].contains_key(key),
        cats[FALLBACK_LANG@][key].len() > 0,
    ensures
        looked_up(cats, key, lang) == cats[FALLBACK_LANG@][key],
{
}

/// Where neither the catalog selected for a language nor the fallback
/// language's catalog has a usable template for a key, the lookup gives the
/// key itself.
pub proof fn lemma_lookup_echoes_missing_key(
    cats: Map<Seq<char>, Map<Seq<char>, Seq<char>>>,
    key: Seq<char>,
    lang: Seq<char>,
)
    requires
        usable(selected(cats, lang), key) is None,
        cats.contains_key(FALLBACK_LANG@) ==> usable(cats[FALLBACK_LANG@], key) is None,
    ensures
        looked_up(cats, key, lang) == key,
{
}

} // verus!
