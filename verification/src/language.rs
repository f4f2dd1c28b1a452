use vstd::prelude::*;

use vstd::string::StrSliceExecFns;
use vstd::string::is_ascii;

verus! {

/// The fixed language enumeration that country codes resolve to.
#[derive(Debug, Clone, Copy, PartialEq, Eq, Structural)]
pub enum Language {
    English,
    Spanish,
    French,
    German,
    Italian,
    Portuguese,
    Russian,
    Japanese,
    Korean,
    Chinese,
    Vietnamese,
    Thai,
    Hindi,
    Arabic,
    Turkish,
    Swedish,
    Polish,
    Dutch,
    Greek,
    Unknown,
}

pub open spec fn spec_language_name(l: Language) -> Seq<char> {
    match l {
        Language::English => "English"@,
        Language::Spanish => "Spanish"@,
        Language::French => "French"@,
        Language::German => "German"@,
        Language::Italian => "Italian"@,
        Language::Portuguese => "Portuguese"@,
        Language::Russian => "Russian"@,
        Language::Japanese => "Japanese"@,
        Language::Korean => "Korean"@,
        Language::Chinese => "Chinese"@,
        Language::Vietnamese => "Vietnamese"@,
        Language::Thai => "Thai"@,
        Language::Hindi => "Hindi"@,
        Language::Arabic => "Arabic"@,
        Language::Turkish => "Turkish"@,
        Language::Swedish => "Swedish"@,
        Language::Polish => "Polish"@,
        Language::Dutch => "Dutch"@,
        Language::Greek => "Greek"@,
        Language::Unknown => "Unknown"@,
    }
}

pub open spec fn spec_language_code(l: Language) -> Seq<char> {
    match l {
        Language::English => "en"@,
        Language::Spanish => "es"@,
        Language::French => "fr"@,
        Language::German => "de"@,
        Language::Italian => "it"@,
        Language::Portuguese => "pt"@,
        Language::Russian => "ru"@,
        Language::Japanese => "ja"@,
        Language::Korean => "ko"@,
        Language::Chinese => "zh"@,
        Language::Vietnamese => "vi"@,
        Language::Thai => "th"@,
        Language::Hindi => "hi"@,
        Language::Arabic => "ar"@,
        Language::Turkish => "tr"@,
        Language::Swedish => "sv"@,
        Language::Polish => "pl"@,
        Language::Dutch => "nl"@,
        Language::Greek => "el"@,
        Language::Unknown => "unknown"@,
    }
}

impl Language {
    pub fn as_str(&self) -> (s: &'static str)
        ensures
            s@ == spec_language_name(*self),
    {
        match self {
            Language::English => "English",
            Language::Spanish => "Spanish",
            Language::French => "French",
            Language::German => "German",
            Language::Italian => "Italian",
            Language::Portuguese => "Portuguese",
            Language::Russian => "Russian",
            Language::Japanese => "Japanese",
            Language::Korean => "Korean",
            Language::Chinese => "Chinese",
            Language::Vietnamese => "Vietnamese",
            Language::Thai => "Thai",
            Language::Hindi => "Hindi",
            Language::Arabic => "Arabic",
            Language::Turkish => "Turkish",
            Language::Swedish => "Swedish",
            Language::Polish => "Polish",
            Language::Dutch => "Dutch",
            Language::Greek => "Greek",
            Language::Unknown => "Unknown",
        }
    }

    /// The ISO 639-1-style two-letter code of the language.
    pub fn code(&self) -> (s: &'static str)
        ensures
            s@ == spec_language_code(*self),
    {
        match self {
            Language::English => "en",
            Language::Spanish => "es",
            Language::French => "fr",
            Language::German => "de",
            Language::Italian => "it",
            Language::Portuguese => "pt",
            Language::Russian => "ru",
            Language::Japanese => "ja",
            Language::Korean => "ko",
            Language::Chinese => "zh",
            Language::Vietnamese => "vi",
            Language::Thai => "th",
            Language::Hindi => "hi",
            Language::Arabic => "ar",
            Language::Turkish => "tr",
            Language::Swedish => "sv",
            Language::Polish => "pl",
            Language::Dutch => "nl",
            Language::Greek => "el",
            Language::Unknown => "unknown",
        }
    }
}

/// Language resolution result: the resolved language and the original
/// country code echoed back unchanged, casing preserved.
#[derive(Debug, Clone)]
pub struct LanguageDetection {
    pub language: Language,
    pub country_code: Option<String>,
}

/// The ASCII upper-case form of one character: a lower-case letter maps to
/// its upper-case counterpart, anything else to itself.
pub open spec fn ascii_upper_char(c: char) -> char {
    if c == 'a' {
        'A'
    } else if c == 'b' {
        'B'
    } else if c == 'c' {
        'C'
    } else if c == 'd' {
        'D'
    } else if c == 'e' {
        'E'
    } else if c == 'f' {
        'F'
    } else if c == 'g' {
        'G'
    } else if c == 'h' {
        'H'
    } else if c == 'i' {
        'I'
    } else if c == 'j' {
        'J'
    } else if c == 'k' {
        'K'
    } else if c == 'l' {
        'L'
    } else if c == 'm' {
        'M'
    } else if c == 'n' {
        'N'
    } else if c == 'o' {
        'O'
    } else if c == 'p' {
        'P'
    } else if c == 'q' {
        'Q'
    } else if c == 'r' {
        'R'
    } else if c == 's' {
        'S'
    } else if c == 't' {
        'T'
    } else if c == 'u' {
        'U'
    } else if c == 'v' {
        'V'
    } else if c == 'w' {
        'W'
    } else if c == 'x' {
        'X'
    } else if c == 'y' {
        'Y'
    } else if c == 'z' {
        'Z'
    } else {
        c
    }
}

/// The ASCII upper-case form of a character sequence.
pub open spec fn ascii_upper_seq(s: Seq<char>) -> Seq<char> {
    s.map_values(|c: char| ascii_upper_char(c))
}

/// The upper-case form that `str::to_uppercase` produces. It is a function
/// of the input characters alone, named here rather than spelled out.
pub uninterp spec fn upper_of(s: Seq<char>) -> Seq<char>;

/// Relies on `str::to_uppercase`: the result depends on the input
/// characters alone, and on an ASCII string it is the ASCII upper-case
/// form, letter for letter.
#[verifier::external_body]
fn to_upper(s: &str) -> (r: String)
    ensures
        r@ == upper_of(s@),
        is_ascii(s) ==> r@ == ascii_upper_seq(s@),
{
    s.to_uppercase()
}

/// The language an upper-cased two-letter country code resolves to.
/// Each code appears in exactly one branch; for codes the source data
/// lists under several languages the branch keeps the first match of the
/// fixed table order ("CA" resolves to English, "CH" to French).
pub open spec fn spec_language_of_pair(a: char, b: char) -> Language {
    if (a == 'U' && b == 'S') || (a == 'G' && b == 'B') || (a == 'A' && b == 'U') || (a == 'N' && b
        == 'Z') || (a == 'C' && b == 'A') || (a == 'I' && b == 'E') || (a == 'Z' && b == 'A') || (a
        == 'N' && b == 'O') || (a == 'D' && b == 'K') {
        Language::English
    } else if (a == 'E' && b == 'S') || (a == 'M' && b == 'X') || (a == 'A' && b == 'R') || (a
        == 'C' && b == 'O') || (a == 'C' && b == 'L') || (a == 'P' && b == 'E') || (a == 'V' && b
        == 'E') || (a == 'C' && b == 'U') {
        Language::Spanish
    } else if (a == 'F' && b == 'R') || (a == 'B' && b == 'E') || (a == 'C' && b == 'H') || (a
        == 'S' && b == 'N') || (a == 'C' && b == 'G') || (a == 'C' && b == 'D') {
        Language::French
    } else if (a == 'D' && b == 'E') || (a == 'A' && b == 'T') {
        Language::German
    } else if (a == 'I' && b == 'T') {
        Language::Italian
    } else if (a == 'P' && b == 'T') || (a == 'B' && b == 'R') || (a == 'A' && b == 'O') || (a
        == 'M' && b == 'Z') || (a == 'C' && b == 'V') {
        Language::Portuguese
    } else if (a == 'R' && b == 'U') || (a == 'B' && b == 'Y') || (a == 'K' && b == 'Z') || (a
        == 'U' && b == 'A') {
        Language::Russian
    } else if (a == 'J' && b == 'P') {
        Language::Japanese
    } else if (a == 'K' && b == 'R') {
        Language::Korean
    } else if (a == 'C' && b == 'N') || (a == 'H' && b == 'K') || (a == 'T' && b == 'W') || (a
        == 'S' && b == 'G') {
        Language::Chinese
    } else if (a == 'V' && b == 'N') {
        Language::Vietnamese
    } else if (a == 'T' && b == 'H') {
        Language::Thai
    } else if (a == 'I' && b == 'N') {
        Language::Hindi
    } else if (a == 'S' && b == 'A') || (a == 'A' && b == 'E') || (a == 'E' && b == 'G') || (a
        == 'J' && b == 'O') || (a == 'L' && b == 'B') || (a == 'Q' && b == 'A') || (a == 'K' && b
        == 'W') {
        Language::Arabic
    } else if (a == 'T' && b == 'R') {
        Language::Turkish
    } else if (a == 'S' && b == 'E') {
        Language::Swedish
    } else if (a == 'P' && b == 'L') {
        Language::Polish
    } else if (a == 'G' && b == 'R') {
        Language::Greek
    } else if (a == 'N' && b == 'L') {
        Language::Dutch
    } else {
        Language::Unknown
    }
}

/// The language an upper-cased country code resolves to: a two-letter
/// code goes through the pair table, anything else is `Unknown`.
pub open spec fn spec_language_of_upper(u: Seq<char>) -> Language {
    if u.len() == 2 {
        spec_language_of_pair(u[0], u[1])
    } else {
        Language::Unknown
    }
}

fn language_of_pair(a: char, b: char) -> (l: Language)
    ensures
        l == spec_language_of_pair(a, b),
{
    if (a == 'U' && b == 'S') || (a == 'G' && b == 'B') || (a == 'A' && b == 'U') || (a == 'N' && b
        == 'Z') || (a == 'C' && b == 'A') || (a == 'I' && b == 'E') || (a == 'Z' && b == 'A') || (a
        == 'N' && b == 'O') || (a == 'D' && b == 'K') {
        Language::English
    } else if (a == 'E' && b == 'S') || (a == 'M' && b == 'X') || (a == 'A' && b == 'R') || (a
        == 'C' && b == 'O') || (a == 'C' && b == 'L') || (a == 'P' && b == 'E') || (a == 'V' && b
        == 'E') || (a == 'C' && b == 'U') {
        Language::Spanish
    } else if (a == 'F' && b == 'R') || (a == 'B' && b == 'E') || (a == 'C' && b == 'H') || (a
        == 'S' && b == 'N') || (a == 'C' && b == 'G') || (a == 'C' && b == 'D') {
        Language::French
    } else if (a == 'D' && b == 'E') || (a == 'A' && b == 'T') {
        Language::German
    } else if (a == 'I' && b == 'T') {
        Language::Italian
    } else if (a == 'P' && b == 'T') || (a == 'B' && b == 'R') || (a == 'A' && b == 'O') || (a
        == 'M' && b == 'Z') || (a == 'C' && b == 'V') {
        Language::Portuguese
    } else if (a == 'R' && b == 'U') || (a == 'B' && b == 'Y') || (a == 'K' && b == 'Z') || (a
        == 'U' && b == 'A') {
        Language::Russian
    } else if (a == 'J' && b == 'P') {
        Language::Japanese
    } else if (a == 'K' && b == 'R') {
        Language::Korean
    } else if (a == 'C' && b == 'N') || (a == 'H' && b == 'K') || (a == 'T' && b == 'W') || (a
        == 'S' && b == 'G') {
        Language::Chinese
    } else if (a == 'V' && b == 'N') {
        Language::Vietnamese
    } else if (a == 'T' && b == 'H') {
        Language::Thai
    } else if (a == 'I' && b == 'N') {
        Language::Hindi
    } else if (a == 'S' && b == 'A') || (a == 'A' && b == 'E') || (a == 'E' && b == 'G') || (a
        == 'J' && b == 'O') || (a == 'L' && b == 'B') || (a == 'Q' && b == 'A') || (a == 'K' && b
        == 'W') {
        Language::Arabic
    } else if (a == 'T' && b == 'R') {
        Language::Turkish
    } else if (a == 'S' && b == 'E') {
        Language::Swedish
    } else if (a == 'P' && b == 'L') {
        Language::Polish
    } else if (a == 'G' && b == 'R') {
        Language::Greek
    } else if (a == 'N' && b == 'L') {
        Language::Dutch
    } else {
        Language::Unknown
    }
}

/// Map a country code to its primary language: the code is upper-cased and
/// looked up in the fixed table; anything the table does not list — and any
/// code that is not exactly two letters — resolves to `Unknown`. The result
/// is a function of the upper-cased code alone, which makes the lookup
/// case-insensitive.
pub fn country_to_language(country_code: &str) -> (l: Language)
    ensures
        l == spec_language_of_upper(upper_of(country_code@)),
        is_ascii(country_code) ==> l == spec_language_of_upper(ascii_upper_seq(country_code@)),
{
    let upper = to_upper(country_code);
    let u = upper.as_str();
    if u.unicode_len() == 2 {
        let a = u.get_char(0);
        let b = u.get_char(1);
        language_of_pair(a, b)
    } else {
        Language::Unknown
    }
}

/// Everything `detect_language_from_country` promises of its result: no
/// code resolves to `Unknown`, a present code goes through the table
/// lookup, and the original code is echoed back unchanged.
pub open spec fn language_detection_ok(r: LanguageDetection, country_code: Option<&str>) -> bool {
    match country_code {
        None => r.language == Language::Unknown && r.country_code is None,
        Some(code) => {
            &&& r.language == spec_language_of_upper(upper_of(code@))
            &&& is_ascii(code) ==> r.language == spec_language_of_upper(ascii_upper_seq(code@))
            &&& r.country_code matches Some(echoed) && echoed@ == code@
        },
    }
}

/// Resolve the primary language of an artist's country. A missing code
/// yields `Unknown`; a present code is matched case-insensitively against
/// the fixed table and echoed back with its original casing.
pub fn detect_language_from_country(country_code: Option<&str>) -> (r: LanguageDetection)
    ensures
        language_detection_ok(r, country_code),
{
    match country_code {
        None => LanguageDetection { language: Language::Unknown, country_code: None },
        Some(code) => LanguageDetection {
            language: country_to_language(code),
            country_code: Some(code.to_owned()),
        },
    }
}

/// ASCII upper-casing is idempotent: upper-casing an already upper-cased
/// code changes nothing, so a code and its upper-cased form resolve to the
/// same language.
pub proof fn lemma_ascii_upper_idempotent(s: Seq<char>)
    ensures
        ascii_upper_seq(ascii_upper_seq(s)) == ascii_upper_seq(s),
        spec_language_of_upper(ascii_upper_seq(ascii_upper_seq(s))) == spec_language_of_upper(
            ascii_upper_seq(s),
        ),
{
    assert(ascii_upper_seq(ascii_upper_seq(s)) =~= ascii_upper_seq(s)) by {
        assert forall|i: int| 0 <= i < s.len() implies ascii_upper_seq(ascii_upper_seq(s))[i]
            == ascii_upper_seq(s)[i] by {
            assert(ascii_upper_seq(s)[i] == ascii_upper_char(s[i]));
            assert(ascii_upper_seq(ascii_upper_seq(s))[i] == ascii_upper_char(
                ascii_upper_char(s[i]),
            ));
        }
    }
}

} // verus!
