//! Translations supplied at run time: the set the interface sends for the
//! current language, and the dictionaries bundled with the interface.
use vstd::prelude::*;
use crate::text::{append_str, chars_of, copy_str, replace_chars, spec_replace, str_eq, string_of};

verus! {

/// A dictionary as pairs of key and text.
pub type Pairs = Seq<(Seq<char>, Seq<char>)>;

/// The views of a list of string pairs.
pub open spec fn pair_views(v: Seq<(String, String)>) -> Pairs {
    v.map_values(|p: (String, String)| (p.0@, p.1@))
}

/// The text of the first pair with this key, if any.
pub open spec fn find_text(pairs: Pairs, key: Seq<char>) -> Option<Seq<char>>
    decreases pairs.len(),
{
    if pairs.len() == 0 {
        None
    } else if pairs[0].0 == key {
        Some(pairs[0].1)
    } else {
        find_text(pairs.drop_first(), key)
    }
}

/// Each key occurs in one pair at most.
pub open spec fn keys_unique(pairs: Pairs) -> bool {
    forall|i: int, j: int| 0 <= i < j < pairs.len() ==> #[trigger] pairs[i].0 != #[trigger] pairs[j].0
}

/// With each key in one pair at most, as in a map, a key's text is the text
/// of its pair, and a key in no pair has none: the first-match lookup reads
/// the pairs as the map they stand for.
pub proof fn lemma_find_text_as_map(pairs: Pairs, key: Seq<char>)
    requires
        keys_unique(pairs),
    ensures
        forall|i: int| 0 <= i < pairs.len() && #[trigger] pairs[i].0 == key ==> find_text(pairs, key) == Some(pairs[i].1),
        (forall|i: int| 0 <= i < pairs.len() ==> #[trigger] pairs[i].0 != key) ==> find_text(pairs, key) is None,
    decreases pairs.len(),
{
    if pairs.len() > 0 {
        let rest = pairs.drop_first();
        assert forall|i: int, j: int| 0 <= i < j < rest.len() implies #[trigger] rest[i].0 != #[trigger] rest[j].0 by {
            assert(rest[i] == pairs[i + 1] && rest[j] == pairs[j + 1]);
        }
        lemma_find_text_as_map(rest, key);
        assert forall|i: int| 0 <= i < pairs.len() && #[trigger] pairs[i].0 == key implies find_text(pairs, key) == Some(pairs[i].1) by {
            if i > 0 {
                assert(pairs[0].0 != pairs[i].0);
                assert(rest[i - 1] == pairs[i]);
            }
        }
        if forall|i: int| 0 <= i < pairs.len() ==> #[trigger] pairs[i].0 != key {
            assert forall|i: int| 0 <= i < rest.len() implies #[trigger] rest[i].0 != key by {
                assert(rest[i] == pairs[i + 1]);
            }
            assert(pairs[0].0 != key);
        }
    }
}

/// The text for `key`, or the key itself.
pub open spec fn text_or_key(pairs: Pairs, key: Seq<char>) -> Seq<char> {
    match find_text(pairs, key) {
        Some(t) => t,
        None => key,
    }
}

/// Looks a key up among pairs (see `find_text`).
pub fn find_pair(pairs: &Vec<(String, String)>, key: &str) -> (r: Option<String>)
    ensures
        match r {
            Some(t) => find_text(pair_views(pairs@), key@) == Some(t@),
            None => find_text(pair_views(pairs@), key@) is None,
        },
{
    let ghost views = pair_views(pairs@);
    proof {
        assert(views.skip(0) =~= views);
    }
    let mut i: usize = 0;
    while i < pairs.len()
        invariant
            i <= pairs.len(),
            views == pair_views(pairs@),
            find_text(views, key@) == find_text(views.skip(i as int), key@),
        decreases pairs.len() - i,
    {
        proof {
            assert(views.skip(i as int).drop_first() =~= views.skip(i + 1));
            assert(views.skip(i as int)[0] == views[i as int]);
        }
        if str_eq(pairs[i].0.as_str(), key) {
            return Some(copy_str(pairs[i].1.as_str()));
        }
        i = i + 1;
    }
    proof {
        assert(views.skip(pairs.len() as int).len() == 0);
    }
    None
}

/// The translations the interface sent for its current language.
#[derive(Debug, Clone)]
pub struct TranslationCache {
    /// The language code (such as `en` or `it`).
    pub language: String,
    /// Key and translated text. A map from the interface holds each key
    /// once; should a key occur twice, its first pair counts (`find_text`).
    pub translations: Vec<(String, String)>,
}

impl Default for TranslationCache {
    fn default() -> (r: TranslationCache)
        ensures
            r.language@ == "en"@,
            r.translations@.len() == 0,
    {
        TranslationCache { language: copy_str("en"), translations: Vec::new() }
    }
}

impl TranslationCache {
    /// Replaces the cached set by the one just received.
    pub fn set_translations(&mut self, language: String, translations: Vec<(String, String)>)
        ensures
            final(self).language == language,
            final(self).translations == translations,
    {
        self.language = language;
        self.translations = translations;
    }
}

/// The cached translation of `key`, or the key itself when there is none.
pub fn get_translation(state: &TranslationCache, key: &str) -> (r: String)
    ensures
        r@ == text_or_key(pair_views(state.translations@), key@),
{
    match find_pair(&state.translations, key) {
        Some(t) => t,
        None => copy_str(key),
    }
}

/// The dictionaries bundled with the interface, one per language.
#[derive(Debug, Clone)]
pub struct Dictionaries {
    /// Language code and its pairs of key and text; should a language or a
    /// key occur twice, its first entry counts.
    pub languages: Vec<(String, Vec<(String, String)>)>,
}

/// The dictionary of the first entry for `lang`, if any.
pub open spec fn find_dictionary(langs: Seq<(String, Vec<(String, String)>)>, lang: Seq<char>) -> Option<Pairs>
    decreases langs.len(),
{
    if langs.len() == 0 {
        None
    } else if langs[0].0@ == lang {
        Some(pair_views(langs[0].1@))
    } else {
        find_dictionary(langs.drop_first(), lang)
    }
}

/// The text of `key` in `lang`; the key itself when the language or the key
/// is missing.
pub open spec fn dictionary_text(d: Dictionaries, lang: Seq<char>, key: Seq<char>) -> Seq<char> {
    match find_dictionary(d.languages@, lang) {
        Some(pairs) => text_or_key(pairs, key),
        None => key,
    }
}

/// `text` with each parameter placeholder `%name%` replaced by its value,
/// parameter after parameter.
pub open spec fn with_params(text: Seq<char>, params: Seq<(Seq<char>, Seq<char>)>) -> Seq<char>
    decreases params.len(),
{
    if params.len() == 0 {
        text
    } else {
        spec_replace(
            with_params(text, params.drop_last()),
            seq!['%'] + params.last().0 + seq!['%'],
            params.last().1,
        )
    }
}

/// The views of a list of parameters.
pub open spec fn param_views(v: Seq<(&str, &str)>) -> Pairs {
    v.map_values(|p: (&str, &str)| (p.0@, p.1@))
}

impl Dictionaries {
    /// The text of `key` in `lang` (see `dictionary_text`).
    pub fn t(&self, lang: &str, key: &str) -> (r: String)
        ensures
            r@ == dictionary_text(*self, lang@, key@),
    {
        let ghost langs = self.languages@;
        proof {
            assert(langs.skip(0) =~= langs);
        }
        let mut i: usize = 0;
        while i < self.languages.len()
            invariant
                i <= self.languages.len(),
                langs == self.languages@,
                find_dictionary(langs, lang@) == find_dictionary(langs.skip(i as int), lang@),
            decreases self.languages.len() - i,
        {
            proof {
                assert(langs.skip(i as int).drop_first() =~= langs.skip(i + 1));
                assert(langs.skip(i as int)[0] == langs[i as int]);
            }
            if str_eq(self.languages[i].0.as_str(), lang) {
                return match find_pair(&self.languages[i].1, key) {
                    Some(t) => t,
                    None => copy_str(key),
                };
            }
            i = i + 1;
        }
        proof {
            assert(langs.skip(self.languages.len() as int).len() == 0);
        }
        copy_str(key)
    }

    /// The text of `key` in `lang` with its `%name%` placeholders filled in
    /// (see `with_params`).
    pub fn t_with_params(&self, lang: &str, key: &str, params: &Vec<(&str, &str)>) -> (r: String)
        ensures
            r@ == with_params(dictionary_text(*self, lang@, key@), param_views(params@)),
    {
        let mut text = chars_of(self.t(lang, key).as_str());
        let ghost base = text@;
        let mut i: usize = 0;
        while i < params.len()
            invariant
                i <= params.len(),
                text@ == with_params(base, param_views(params@).take(i as int)),
                base == dictionary_text(*self, lang@, key@),
            decreases params.len() - i,
        {
            let (k, v) = params[i];
            let mut pattern = copy_str("%");
            append_str(&mut pattern, k);
            append_str(&mut pattern, "%");
            let pat = chars_of(pattern.as_str());
            let val = chars_of(v);
            proof {
                assert(param_views(params@).take(i + 1).drop_last() =~= param_views(params@).take(i as int));
                reveal_strlit("%");
                assert(pat@ =~= seq!['%'] + k@ + seq!['%']);
            }
            text = replace_chars(&text, &pat, &val);
            i = i + 1;
        }
        proof {
            assert(param_views(params@).take(params.len() as int) =~= param_views(params@));
        }
        string_of(&text)
    }
}

} // verus!
