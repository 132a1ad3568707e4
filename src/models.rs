use crate::errors::{Error, ErrorStatus};
use crate::text::{is_plain_ascii, lemma_sanitized_is_plain_ascii, sanitize, sanitized, text_equals};
use vstd::prelude::*;
use vstd::string::*;

verus! {

/// One flavor text of a catalog entry, with the name of its language.
pub struct DescriptionEntry {
    pub flavor_text: String,
    pub language: String,
}

/// A catalog entry as the catalog sends it, before it is narrowed to a `Pokemon`.
/// `habitat` holds the name inside the habitat object, or `None` where there is no such object.
pub struct CatalogEntry {
    pub name: String,
    pub flavor_text_entries: Vec<DescriptionEntry>,
    pub habitat: Option<String>,
    pub is_legendary: bool,
}

/// The creature record handed to clients.
#[derive(Debug, Clone)]
pub struct Pokemon {
    pub name: String,
    pub description_entries: String,
    pub habitat: String,
    pub is_legendary: bool,
    pub translation: Option<TranslationType>,
}

#[derive(Debug, Clone, Copy, PartialEq, Eq, Structural)]
pub enum TranslationType {
    Shakespeare,
    Yoda,
}

/// What a translator sent back: the translated text and the kind of translation, if known.
#[derive(Debug, Clone)]
pub struct TranslationContent {
    pub translated: String,
    pub translation_type: Option<TranslationType>,
}

#[derive(Debug, Clone)]
pub struct Translation {
    pub contents: TranslationContent,
}

/// The locale whose descriptions are served.
pub open spec fn is_description_locale(language: Seq<char>) -> bool {
    language == "en"@
}

pub open spec fn locale_pred() -> spec_fn(DescriptionEntry) -> bool {
    |e: DescriptionEntry| is_description_locale(e.language@)
}

/// The entries in the description locale, in the order the catalog sent them.
pub open spec fn locale_entries(entries: Seq<DescriptionEntry>) -> Seq<DescriptionEntry> {
    entries.filter(locale_pred())
}

/// The translation kind that a kind name stands for; unknown names stand for none.
pub open spec fn translation_type_of(name: Seq<char>) -> Option<TranslationType> {
    if name == "shakespeare"@ {
        Some(TranslationType::Shakespeare)
    } else if name == "yoda"@ {
        Some(TranslationType::Yoda)
    } else {
        None
    }
}

/// The value stored under `key` in a flat key/value object; a later entry wins over an
/// earlier one with the same key.
pub open spec fn field_value(fields: Seq<(String, String)>, key: Seq<char>) -> Option<Seq<char>>
    decreases fields.len(),
{
    if fields.len() == 0 {
        None
    } else if fields.last().0@ == key {
        Some(fields.last().1@)
    } else {
        field_value(fields.drop_last(), key)
    }
}

/// The record that a catalog entry narrows to when its `choice`-th description in the
/// locale is picked.
pub open spec fn narrowed(entry: CatalogEntry, choice: int, p: Pokemon) -> bool {
    &&& p.name == entry.name
    &&& p.description_entries@ == sanitized(locale_entries(entry.flavor_text_entries@)[choice].flavor_text@)
    &&& entry.habitat matches Some(h) && p.habitat@ == h@
    &&& p.is_legendary == entry.is_legendary
    &&& p.translation is None
}

/// Relies on `rand::Rng::gen_range` with `rand::thread_rng()`: a value drawn from `0..n`.
/// It panics on an empty range, which `requires` rules out.
#[verifier::external_body]
fn random_index(n: usize) -> (r: usize)
    requires
        n > 0,
    ensures
        r < n,
{
    rand::Rng::gen_range(&mut rand::thread_rng(), 0..n)
}

/// How many of the entries are in the description locale.
pub fn count_locale_entries(entries: &Vec<DescriptionEntry>) -> (r: usize)
    ensures
        r == locale_entries(entries@).len(),
{
    let mut count: usize = 0;
    let mut i: usize = 0;
    while i < entries.len()
        invariant
            i <= entries@.len(),
            count == entries@.take(i as int).filter(locale_pred()).len(),
            count <= i,
        decreases entries@.len() - i,
    {
        let e = &entries[i];
        proof {
            assert(entries@.take(i as int + 1) =~= entries@.take(i as int).push(*e));
            entries@.take(i as int).lemma_filter_push(*e, locale_pred());
        }
        if text_equals(e.language.as_str(), "en") {
            count += 1;
        }
        i += 1;
    }
    proof {
        assert(entries@.take(entries@.len() as int) =~= entries@);
    }
    count
}

/// Index in `entries` of the `choice`-th entry in the description locale, if there is one.
fn locale_entry_position(entries: &Vec<DescriptionEntry>, choice: usize) -> (r: Option<usize>)
    ensures
        match r {
            Some(i) => choice < locale_entries(entries@).len() && i < entries@.len()
                && locale_entries(entries@)[choice as int] == entries@[i as int],
            None => choice >= locale_entries(entries@).len(),
        },
{
    let mut count: usize = 0;
    let mut i: usize = 0;
    while i < entries.len()
        invariant
            i <= entries@.len(),
            count == entries@.take(i as int).filter(locale_pred()).len(),
            count <= choice,
        decreases entries@.len() - i,
    {
        let e = &entries[i];
        let ghost prefix = entries@.take(i as int + 1);
        proof {
            assert(prefix =~= entries@.take(i as int).push(*e));
            entries@.take(i as int).lemma_filter_push(*e, locale_pred());
            assert(entries@ =~= prefix + entries@.skip(i as int + 1));
            Seq::filter_distributes_over_add(prefix, entries@.skip(i as int + 1), locale_pred());
        }
        if text_equals(e.language.as_str(), "en") {
            if count == choice {
                proof {
                    assert(prefix.filter(locale_pred())[count as int] == *e);
                    assert(locale_entries(entries@)[choice as int] == prefix.filter(locale_pred())[count as int]);
                }
                return Some(i);
            }
            count += 1;
        }
        i += 1;
    }
    proof {
        assert(entries@.take(entries@.len() as int) =~= entries@);
    }
    None
}

impl TranslationType {
    /// The translation kind that a kind name stands for: `shakespeare` or `yoda`.
    pub fn from(value: &str) -> (r: Option<Self>)
        ensures
            r == translation_type_of(value@),
    {
        if text_equals(value, "shakespeare") {
            Some(TranslationType::Shakespeare)
        } else if text_equals(value, "yoda") {
            Some(TranslationType::Yoda)
        } else {
            None
        }
    }
}

/// Position of the entry that `field_value` reads for `key`.
fn field_position(fields: &Vec<(String, String)>, key: &str) -> (r: Option<usize>)
    ensures
        match r {
            Some(i) => i < fields@.len() && field_value(fields@, key@) == Some(fields@[i as int].1@),
            None => field_value(fields@, key@) is None,
        },
{
    let mut i: usize = fields.len();
    proof {
        assert(fields@.take(i as int) =~= fields@);
    }
    while i > 0
        invariant
            i <= fields@.len(),
            field_value(fields@, key@) == field_value(fields@.take(i as int), key@),
        decreases i,
    {
        proof {
            assert(fields@.take(i as int).drop_last() =~= fields@.take(i - 1));
        }
        if text_equals(fields[i - 1].0.as_str(), key) {
            return Some(i - 1);
        }
        i -= 1;
    }
    None
}

impl Translation {
    /// Reads a translator's answer from its flat `contents` object. The `translated` key is
    /// required; the `translation` key names the kind and may be absent.
    pub fn from_fields(fields: &Vec<(String, String)>) -> (r: Result<Translation, Error>)
        ensures
            match field_value(fields@, "translated"@) {
                Some(t) => r matches Ok(tr) && tr.contents.translated@ == t
                    && tr.contents.translation_type == match field_value(fields@, "translation"@) {
                    Some(k) => translation_type_of(k),
                    None => None,
                },
                None => r matches Err(e) && e.status == ErrorStatus::DecodingError,
            },
    {
        match field_position(fields, "translated") {
            None => Err(Error::new(ErrorStatus::DecodingError, String::from_str("missing field `translated`"))),
            Some(i) => {
                let translation_type = match field_position(fields, "translation") {
                    Some(j) => TranslationType::from(fields[j].1.as_str()),
                    None => None,
                };
                Ok(Translation {
                    contents: TranslationContent { translated: fields[i].1.clone(), translation_type },
                })
            },
        }
    }
}

impl Pokemon {
    /// Narrows a catalog entry, taking its `choice`-th description in the locale (counted
    /// from zero). Fails with `DecodingError` where there is no such description or no habitat.
    pub fn from_catalog_choice(entry: CatalogEntry, choice: usize) -> (r: Result<Pokemon, Error>)
        ensures
            match r {
                Ok(p) => choice < locale_entries(entry.flavor_text_entries@).len()
                    && narrowed(entry, choice as int, p),
                Err(e) => e.status == ErrorStatus::DecodingError && (choice >= locale_entries(
                    entry.flavor_text_entries@,
                ).len() || entry.habitat is None),
            },
    {
        let position = locale_entry_position(&entry.flavor_text_entries, choice);
        let i = match position {
            Some(i) => i,
            None => {
                return Err(Error::new(ErrorStatus::DecodingError, String::from_str("Failed to fetch random description!")));
            },
        };
        let description = sanitize(entry.flavor_text_entries[i].flavor_text.as_str());
        match entry.habitat {
            Some(h) => Ok(Pokemon {
                name: entry.name,
                description_entries: description,
                habitat: h,
                is_legendary: entry.is_legendary,
                translation: None,
            }),
            None => Err(Error::new(ErrorStatus::DecodingError, String::from_str("missing field `habitat`"))),
        }
    }

    /// Narrows a catalog entry, taking one of its descriptions in the locale at random.
    /// It succeeds exactly where there is such a description and a habitat.
    pub fn from_catalog(entry: CatalogEntry) -> (r: Result<Pokemon, Error>)
        ensures
            r is Ok <==> locale_entries(entry.flavor_text_entries@).len() > 0 && entry.habitat is Some,
            r matches Ok(p) ==> is_plain_ascii(p.description_entries@) && exists|k: int|
                0 <= k < locale_entries(entry.flavor_text_entries@).len() && narrowed(entry, k, p),
            r matches Err(e) ==> e.status == ErrorStatus::DecodingError,
    {
        let n = count_locale_entries(&entry.flavor_text_entries);
        if n == 0 {
            return Err(Error::new(ErrorStatus::DecodingError, String::from_str("Failed to fetch random description!")));
        }
        let ghost before = entry;
        let k = random_index(n);
        let r = Pokemon::from_catalog_choice(entry, k);
        proof {
            if r is Ok {
                lemma_sanitized_is_plain_ascii(locale_entries(before.flavor_text_entries@)[k as int].flavor_text@);
                assert(narrowed(before, k as int, r->Ok_0));
            }
        }
        r
    }

    /// Puts a translator's answer into the record: the translated text replaces the
    /// description and the kind is recorded.
    pub fn apply_translation(&mut self, content: TranslationContent)
        ensures
            final(self).description_entries@ == content.translated@,
            final(self).translation == content.translation_type,
            final(self).name == old(self).name,
            final(self).habitat == old(self).habitat,
            final(self).is_legendary == old(self).is_legendary,
    {
        self.description_entries = content.translated;
        self.translation = content.translation_type;
    }
}

} // verus!
