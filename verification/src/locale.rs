//! The language of the front end's texts, and the filling of the
//! placeholders that a translated text holds.
//!
//! Texts exist in English, Spanish and French. The language is taken from
//! the first two characters of the locale that the system reports; English
//! stands in where that says nothing usable. A translated text may hold
//! placeholders of the form `%{name}`, each to be replaced by a value.

use current_locale::current_locale;
use vstd::prelude::*;
use vstd::string::StringExecFns;

verus! {

/// Whether texts exist in the language `lang`.
pub open spec fn is_supported(lang: Seq<char>) -> bool {
    lang == seq!['e', 'n'] || lang == seq!['e', 's'] || lang == seq!['f', 'r']
}

/// The language to show texts in, given what the system reports as its
/// locale: the first two characters of the report where they name a
/// supported language, and English otherwise.
pub open spec fn language_of(report: Option<Seq<char>>) -> Seq<char> {
    match report {
        Some(tag) if tag.len() >= 2 && is_supported(tag.subrange(0, 2)) => tag.subrange(0, 2),
        _ => seq!['e', 'n'],
    }
}

/// The placeholder that stands for the value called `name`.
pub open spec fn placeholder(name: Seq<char>) -> Seq<char> {
    seq!['%', '{'] + name + seq!['}']
}

/// `text` with every occurrence of `pattern` replaced by `with`. The
/// occurrences are found from the left and do not overlap: the search goes
/// on behind each one it finds.
pub open spec fn replaced(text: Seq<char>, pattern: Seq<char>, with: Seq<char>) -> Seq<char>
    decreases text.len(),
{
    if pattern.len() == 0 || text.len() < pattern.len() {
        text
    } else if text.subrange(0, pattern.len() as int) == pattern {
        with + replaced(text.subrange(pattern.len() as int, text.len() as int), pattern, with)
    } else {
        seq![text[0]] + replaced(text.drop_first(), pattern, with)
    }
}

/// `template` with the placeholders of `args` filled in, one pair of name
/// and value after the other, each on the text that the pairs before it
/// have left.
pub open spec fn filled(template: Seq<char>, args: Seq<(String, String)>) -> Seq<char>
    decreases args.len(),
{
    if args.len() == 0 {
        template
    } else {
        replaced(filled(template, args.drop_last()), placeholder(args.last().0@), args.last().1@)
    }
}

/// `current_locale::current_locale`: the locale that the system reports for
/// this process, or nothing where the lookup fails. The report depends on
/// the environment, so nothing is claimed of it.
#[verifier::external_body]
pub(crate) fn system_locale() -> Option<String> {
    current_locale().ok()
}

/// `str::replace` of std, for a pattern that is not empty. Claims what the
/// documentation says: every match of the pattern is replaced, matches being
/// found from the left without overlap.
#[verifier::external_body]
pub(crate) fn replace_all(text: &str, pattern: &str, with: &str) -> (result: String)
    requires
        pattern@.len() > 0,
    ensures
        result@ == replaced(text@, pattern@, with@),
{
    text.replace(pattern, with)
}

/// Picks the language for a reported locale.
pub fn language(report: Option<String>) -> (lang: String)
    ensures
        lang@ == language_of(
            match report {
                Some(tag) => Some(tag@),
                None => None,
            },
        ),
        is_supported(lang@),
{
    proof {
        reveal_strlit("en");
        reveal_strlit("es");
        reveal_strlit("fr");
    }
    let fallback = String::from_str("en");
    assert(fallback@ =~= seq!['e', 'n']);
    match report {
        Some(tag) => {
            if tag.as_str().unicode_len() < 2 {
                return fallback;
            }
            let locale = String::from_str(tag.as_str().substring_char(0, 2));
            let spanish = String::from_str("es");
            let french = String::from_str("fr");
            assert(spanish@ =~= seq!['e', 's']);
            assert(french@ =~= seq!['f', 'r']);
            if locale == fallback || locale == spanish || locale == french {
                locale
            } else {
                fallback
            }
        },
        None => fallback,
    }
}

/// The language to show texts in on this system. Whatever the system
/// reports, it is one of the supported languages.
pub fn current_language() -> (lang: String)
    ensures
        is_supported(lang@),
{
    language(system_locale())
}

/// Fills the placeholders of a translated text: for each pair of `args` in
/// turn, every `%{name}` becomes the pair's value.
pub fn fill_placeholders(template: String, args: &Vec<(String, String)>) -> (text: String)
    ensures
        text@ == filled(template@, args@),
{
    let mut translation = template;
    let mut i: usize = 0;
    while i < args.len()
        invariant
            i <= args@.len(),
            translation@ == filled(template@, args@.take(i as int)),
        decreases args@.len() - i,
    {
        proof {
            reveal_strlit("%{");
        }
        let mut pattern = String::from_str("%{");
        pattern.append(args[i].0.as_str());
        pattern.push('}');
        assert(pattern@ =~= placeholder(args@[i as int].0@));
        let next = replace_all(translation.as_str(), pattern.as_str(), args[i].1.as_str());
        proof {
            let before = args@.take(i as int);
            let now = args@.take(i + 1);
            assert(now.drop_last() =~= before);
            assert(now.last() == args@[i as int]);
        }
        translation = next;
        i = i + 1;
    }
    assert(args@.take(args@.len() as int) =~= args@);
    translation
}

} // verus!
