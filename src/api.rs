use crate::errors::{Error, ErrorStatus};
use crate::models::{Pokemon, Translation};
use crate::text::{all_ascii, ascii_normalized_name, normalize_name, normalized_name};
use vstd::prelude::*;
use vstd::string::*;

verus! {

/// The longest lookup name, in characters, that is passed on to the catalog.
pub const MAX_NAME_LEN: usize = 24;

/// The lookup and translation service: the base URLs of the catalog and of the two translators.
#[derive(Debug, Clone)]
pub struct PokeApi {
    pub poke_api: String,
    pub yoda_api: String,
    pub shakespeare_api: String,
}

/// A translation call to make: where to send it, and the text to translate.
#[derive(Debug, Clone)]
pub struct TranslationRequest {
    pub url: String,
    pub text: String,
}

/// Whether a record is translated by the first translator (yoda): legendary creatures and
/// cave dwellers are; all others go to the second (shakespeare).
pub open spec fn routes_to_yoda(p: Pokemon) -> bool {
    p.is_legendary || p.habitat@ == "cave"@
}

/// Whether a lookup name is refused before any call is made.
pub fn name_too_long(name: &str) -> (r: bool)
    ensures
        r == (name@.len() > MAX_NAME_LEN),
{
    name.unicode_len() > MAX_NAME_LEN
}

/// Whether a failed translation leaves the untranslated record to be served: only when the
/// translator refused for too many requests.
pub fn serves_untranslated(error: &Error) -> (r: bool)
    ensures
        r == (error.status == ErrorStatus::TooManyRequests),
{
    match error.status {
        ErrorStatus::TooManyRequests => true,
        _ => false,
    }
}

impl PokeApi {
    pub fn new(poke_api: String, yoda_api: String, shakespeare_api: String) -> (r: Self)
        ensures
            r.poke_api == poke_api,
            r.yoda_api == yoda_api,
            r.shakespeare_api == shakespeare_api,
    {
        PokeApi { poke_api, yoda_api, shakespeare_api }
    }

    /// The catalog URL that a lookup name resolves to: the base URL, a slash, and the name in
    /// canonical form. A name longer than the limit is refused with `BadRequest`.
    pub fn search_url(&self, pokemon: &str) -> (r: Result<String, Error>)
        ensures
            pokemon@.len() > MAX_NAME_LEN ==> (r matches Err(e) && e.status
                == ErrorStatus::BadRequest),
            pokemon@.len() <= MAX_NAME_LEN ==> (r matches Ok(url) && url@ == self.poke_api@ + seq![
                '/',
            ] + normalized_name(pokemon@)),
            pokemon@.len() <= MAX_NAME_LEN && all_ascii(pokemon@) ==> (r matches Ok(url) && url@
                == self.poke_api@ + seq!['/'] + ascii_normalized_name(pokemon@)),
    {
        if name_too_long(pokemon) {
            return Err(Error::new(ErrorStatus::BadRequest, String::from_str("Pokemon name too long")));
        }
        let name = normalize_name(pokemon);
        let mut url = self.poke_api.clone();
        url.append("/");
        url.append(name.as_str());
        proof {
            reveal_strlit("/");
            assert("/"@ =~= seq!['/']);
        }
        Ok(url)
    }

    /// The translator URL for a record.
    pub fn translator_url(&self, pokemon: &Pokemon) -> (r: &String)
        ensures
            *r == if routes_to_yoda(*pokemon) {
                self.yoda_api
            } else {
                self.shakespeare_api
            },
    {
        if pokemon.is_legendary || crate::text::text_equals(pokemon.habitat.as_str(), "cave") {
            &self.yoda_api
        } else {
            &self.shakespeare_api
        }
    }

    /// The translation call for a record: to its translator, with its description as the text.
    pub fn translation_request(&self, pokemon: &Pokemon) -> (r: TranslationRequest)
        ensures
            r.url == if routes_to_yoda(*pokemon) {
                self.yoda_api
            } else {
                self.shakespeare_api
            },
            r.text == pokemon.description_entries,
    {
        TranslationRequest {
            url: self.translator_url(pokemon).clone(),
            text: pokemon.description_entries.clone(),
        }
    }

    /// Merges the outcome of a translation call into the record. On success the translated
    /// text and its kind replace the description and the kind; on failure the record is left
    /// as it was and the error is handed back.
    pub fn translate(pokemon: &mut Pokemon, outcome: Result<Translation, Error>) -> (r: Result<(), Error>)
        ensures
            match outcome {
                Ok(t) => r is Ok && final(pokemon).description_entries@ == t.contents.translated@
                    && final(pokemon).translation == t.contents.translation_type
                    && final(pokemon).name == old(pokemon).name
                    && final(pokemon).habitat == old(pokemon).habitat
                    && final(pokemon).is_legendary == old(pokemon).is_legendary,
                Err(e) => r == Err::<(), Error>(e) && *final(pokemon) == *old(pokemon),
            },
    {
        match outcome {
            Ok(t) => {
                pokemon.apply_translation(t.contents);
                Ok(())
            },
            Err(e) => Err(e),
        }
    }
}

/// The base URLs of the upstream services.
#[derive(Debug, Clone)]
pub struct Api {
    pub pokemon_api: String,
    pub yoda_api: String,
    pub shakespeare_api: String,
}

/// Where the server listens, and the upstream services it calls.
#[derive(Debug, Clone)]
pub struct Settings {
    pub api: Api,
    pub host: String,
    pub port: u16,
}

impl Settings {
    /// The service that these settings configure.
    pub fn poke_api(self) -> (r: PokeApi)
        ensures
            r.poke_api == self.api.pokemon_api,
            r.yoda_api == self.api.yoda_api,
            r.shakespeare_api == self.api.shakespeare_api,
    {
        PokeApi::new(self.api.pokemon_api, self.api.yoda_api, self.api.shakespeare_api)
    }
}

} // verus!
