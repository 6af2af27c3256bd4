use vstd::prelude::*;
use json::JsonValue;
use crate::constants::DEFAULT_LANG;
use crate::text::text_eq;
use crate::table::{NamedTable, distinct_names, lemma_distinct_entry, lemma_listed_name};

verus! {

#[verifier::external_type_specification]
#[verifier::external_body]
pub struct ExJsonValue(JsonValue);

#[verifier::external_type_specification]
#[verifier::external_body]
pub struct ExJsonError(json::Error);

/// What a JSON document holds at its top level: each member's key, with the
/// text that the member's value displays as. A document that is not an
/// object holds no members.
pub uninterp spec fn json_members(doc: JsonValue) -> Map<Seq<char>, Seq<char>>;

/// The top-level members of the document that a JSON text parses to, or
/// `None` where the text is not valid JSON.
pub uninterp spec fn json_parse_members(source: Seq<char>) -> Option<Map<Seq<char>, Seq<char>>>;

/// The text `null`, which a missing member displays as.
pub open spec fn null_text() -> Seq<char> {
    seq!['n', 'u', 'l', 'l']
}

/// The text returned for a key that no usable locale holds.
pub open spec fn not_found_text() -> Seq<char> {
    seq!['n', 'o', 't', '_', 'f', 'o', 'u', 'n', 'd']
}

/// The default locale's name.
pub open spec fn default_lang() -> Seq<char> {
    seq!['e', 'n', '-', 'U', 'S']
}

/// What indexing a document by `key` and displaying the result gives: the
/// member's text, or `null` where the document has no such member.
pub open spec fn member_text(members: Map<Seq<char>, Seq<char>>, key: Seq<char>) -> Seq<char> {
    if members.contains_key(key) {
        members[key]
    } else {
        null_text()
    }
}

/// `json::parse`: parses a JSON text.
///
/// Claimed: the result is `Ok` exactly when the text parses, and the members
/// of the document returned are those that the text's document holds. The
/// document's nested structure is left unsaid.
#[verifier::external_body]
fn json_parse(source: &str) -> (r: Result<JsonValue, json::Error>)
    ensures
        match r {
            Ok(doc) => json_parse_members(source@) == Some(json_members(doc)),
            Err(_) => json_parse_members(source@) is None,
        },
{
    json::parse(source)
}

/// Indexing a `JsonValue` by a key (`Index<&str>`), then displaying the value
/// found (`to_string`).
///
/// Claimed: the text is the member's displayed value, or `null` where the
/// document is not an object or has no member with that key.
#[verifier::external_body]
fn json_member_text(doc: &JsonValue, key: &str) -> (s: String)
    ensures
        s@ == member_text(json_members(*doc), key@),
{
    doc[key].to_string()
}

/// The locales loaded from the translation files: each locale's name with
/// its parsed document, one entry per name.
pub struct Langs {
    locales: NamedTable<JsonValue>,
}

/// The members of each document of a table of documents.
pub open spec fn documents_members(t: Map<Seq<char>, JsonValue>) -> Map<Seq<char>, Map<Seq<char>, Seq<char>>> {
    t.map_values(|d: JsonValue| json_members(d))
}

impl View for Langs {
    type V = Map<Seq<char>, Map<Seq<char>, Seq<char>>>;

    closed spec fn view(&self) -> Map<Seq<char>, Map<Seq<char>, Seq<char>>> {
        documents_members(self.locales@)
    }
}

/// The text that a key has in a locale, with the fallbacks that translation
/// lookups apply: an unknown locale reads the default locale instead; a key
/// missing from a known locale is read from the default locale; a key that
/// the default locale lacks, or a default locale that is not loaded, gives
/// `not_found`. One exception is kept as it is: for an unknown locale, the
/// default locale's text is returned even where it is `null`.
pub open spec fn lookup_text(
    langs: Map<Seq<char>, Map<Seq<char>, Seq<char>>>,
    locale: Seq<char>,
    key: Seq<char>,
) -> Seq<char> {
    if !langs.contains_key(locale) {
        if !langs.contains_key(default_lang()) {
            not_found_text()
        } else {
            member_text(langs[default_lang()], key)
        }
    } else {
        let value = member_text(langs[locale], key);
        if value == null_text() {
            if locale == default_lang() {
                not_found_text()
            } else if langs.contains_key(default_lang()) && member_text(langs[default_lang()], key)
                != null_text() {
                member_text(langs[default_lang()], key)
            } else {
                not_found_text()
            }
        } else {
            value
        }
    }
}

fn not_found_string() -> (s: String)
    ensures
        s@ == not_found_text(),
{
    let s = "not_found".to_string();
    proof {
        reveal_strlit("not_found");
        assert(s@ =~= not_found_text());
    }
    s
}

fn is_null_text(s: &String) -> (r: bool)
    ensures
        r == (s@ == null_text()),
{
    let r = text_eq(s.as_str(), "null");
    proof {
        reveal_strlit("null");
        assert("null"@ =~= null_text());
    }
    r
}

fn is_default_lang(locale: &str) -> (r: bool)
    ensures
        r == (locale@ == default_lang()),
{
    let r = text_eq(locale, DEFAULT_LANG);
    proof {
        reveal_strlit("en-US");
        assert(DEFAULT_LANG@ =~= default_lang());
    }
    r
}

impl Langs {
    #[verifier::type_invariant]
    closed spec fn one_entry_per_locale(&self) -> bool {
        distinct_names(self.locales.entries_view())
    }

    /// No locale loaded.
    pub fn new() -> (l: Langs)
        ensures
            l@ == Map::<Seq<char>, Map<Seq<char>, Seq<char>>>::empty(),
    {
        let locales = NamedTable::new();
        let l = Langs { locales };
        assert(l@ =~= Map::<Seq<char>, Map<Seq<char>, Seq<char>>>::empty());
        l
    }

    fn lookup(&self, locale: &str) -> (r: Option<&JsonValue>)
        ensures
            r is None <==> !self@.contains_key(locale@),
            r matches Some(d) ==> self@[locale@] == json_members(*d),
    {
        let name = locale.to_string();
        self.locales.get(&name)
    }

    /// Loads a locale from its JSON text. Where the text parses, the locale
    /// holds the parsed document's members (replacing a locale of the same
    /// name) and `true` is returned; otherwise nothing changes and `false` is
    /// returned.
    pub fn load_locale(&mut self, locale: &str, source: &str) -> (loaded: bool)
        ensures
            loaded == json_parse_members(source@) is Some,
            loaded ==> final(self)@ == old(self)@.insert(locale@, json_parse_members(source@)->0),
            !loaded ==> final(self)@ == old(self)@,
    {
        proof {
            use_type_invariant(&*self);
        }
        match json_parse(source) {
            Err(_) => false,
            Ok(doc) => {
                let ghost before = self.locales@;
                let mut table: NamedTable<JsonValue> = NamedTable::new();
                std::mem::swap(&mut table, &mut self.locales);
                table.insert(locale.to_string(), doc);
                self.locales = table;
                proof {
                    assert(documents_members(self.locales@) =~= documents_members(before).insert(
                        locale@,
                        json_members(doc),
                    ));
                }
                true
            },
        }
    }

    /// The text that a key displays as in each loaded locale, without any
    /// fallback: one (locale, text) pair per loaded locale, the text being
    /// `null` where the locale lacks the key.
    pub fn raw_texts(&self, key: &str) -> (texts: Vec<(String, String)>)
        ensures
            forall|i: int|
                0 <= i < texts@.len() ==> self@.contains_key(#[trigger] texts@[i].0@) && texts@[i].1@
                    == member_text(self@[texts@[i].0@], key@),
            forall|i: int, j: int|
                0 <= i < j < texts@.len() ==> #[trigger] texts@[i].0@ != #[trigger] texts@[j].0@,
            forall|name: Seq<char>|
                #[trigger] self@.contains_key(name) ==> exists|i: int|
                    0 <= i < texts@.len() && #[trigger] texts@[i].0@ == name,
    {
        proof {
            use_type_invariant(self);
            self.locales.lemma_view_is_entries();
        }
        let ghost ev = self.locales.entries_view();
        let n = self.locales.len();
        let mut texts: Vec<(String, String)> = Vec::new();
        let mut i: usize = 0;
        while i < n
            invariant
                n == ev.len(),
                ev == self.locales.entries_view(),
                i <= n,
                texts@.len() == i,
                forall|k: int|
                    0 <= k < i ==> #[trigger] texts@[k].0@ == ev[k].0 && texts@[k].1@ == member_text(
                        json_members(ev[k].1),
                        key@,
                    ),
            decreases n - i,
        {
            let (name, doc) = self.locales.entry(i);
            let text = json_member_text(doc, key);
            texts.push((name.clone(), text));
            i += 1;
        }
        proof {
            assert forall|k: int| 0 <= k < texts@.len() implies self@.contains_key(
                #[trigger] texts@[k].0@,
            ) && texts@[k].1@ == member_text(self@[texts@[k].0@], key@) by {
                lemma_distinct_entry(ev, k);
            }
            assert forall|a: int, b: int| 0 <= a < b < texts@.len() implies #[trigger] texts@[a].0@
                != #[trigger] texts@[b].0@ by {}
            assert forall|name: Seq<char>| #[trigger] self@.contains_key(name) implies exists|k: int|
                0 <= k < texts@.len() && #[trigger] texts@[k].0@ == name by {
                lemma_listed_name(ev, name);
                let j = choose|j: int| 0 <= j < ev.len() && #[trigger] ev[j].0 == name;
                assert(texts@[j].0@ == name);
            }
        }
        texts
    }
}

/// The text of a translation key in a locale, falling back to the default
/// locale as `lookup_text` says.
pub fn get_key(langs: &Langs, locale: &str, key: &str) -> (text: String)
    ensures
        text@ == lookup_text(langs@, locale@, key@),
{
    match langs.lookup(locale) {
        None => match langs.lookup(DEFAULT_LANG) {
            None => {
                proof {
                    reveal_strlit("en-US");
                    assert(DEFAULT_LANG@ =~= default_lang());
                }
                not_found_string()
            },
            Some(d) => {
                proof {
                    reveal_strlit("en-US");
                    assert(DEFAULT_LANG@ =~= default_lang());
                }
                json_member_text(d, key)
            },
        },
        Some(doc) => {
            let value = json_member_text(doc, key);
            if is_null_text(&value) {
                if is_default_lang(locale) {
                    not_found_string()
                } else {
                    proof {
                        reveal_strlit("en-US");
                        assert(DEFAULT_LANG@ =~= default_lang());
                    }
                    match langs.lookup(DEFAULT_LANG) {
                        None => not_found_string(),
                        Some(d) => {
                            let fallback = json_member_text(d, key);
                            if is_null_text(&fallback) {
                                not_found_string()
                            } else {
                                fallback
                            }
                        },
                    }
                }
            } else {
                value
            }
        },
    }
}

/// A loaded locale never answers `null`: a key it lacks is read from the
/// default locale, or answered `not_found`.
pub proof fn law_known_locale_never_null(
    langs: Map<Seq<char>, Map<Seq<char>, Seq<char>>>,
    locale: Seq<char>,
    key: Seq<char>,
)
    requires
        langs.contains_key(locale),
    ensures
        lookup_text(langs, locale, key) != null_text(),
{
    assert(not_found_text().len() != null_text().len());
}

/// Once a locale's text is loaded, a key that the text holds (with a value
/// other than `null`) reads as that value in the locale, whatever was loaded
/// before.
pub proof fn law_loaded_locale_answers(
    before: Map<Seq<char>, Map<Seq<char>, Seq<char>>>,
    locale: Seq<char>,
    source: Seq<char>,
    key: Seq<char>,
)
    requires
        json_parse_members(source) is Some,
        json_parse_members(source)->0.contains_key(key),
        json_parse_members(source)->0[key] != null_text(),
    ensures
        lookup_text(before.insert(locale, json_parse_members(source)->0), locale, key)
            == json_parse_members(source)->0[key],
{
}

} // verus!
