//! Locale tags as they appear on the wire (IETF-style language codes).

use vstd::prelude::*;

verus! {

/// A locale code such as `"en-US"`, kept as the raw wire string.
#[derive(Debug, Clone, PartialEq, Eq, Hash)]
pub struct Locale(String);

impl View for Locale {
    type V = Seq<char>;

    closed spec fn view(&self) -> Seq<char> {
        self.0@
    }
}

impl Locale {
    /// The raw language code.
    pub fn code(&self) -> (r: &str)
        ensures
            r@ == self@,
    {
        self.0.as_str()
    }

    pub const DANISH: &'static str = "da";

    pub fn danish() -> (r: Self)
        ensures
            r@ == Self::DANISH@,
    {
        Locale(Self::DANISH.to_owned())
    }

    pub const GERMAN: &'static str = "de";

    pub fn german() -> (r: Self)
        ensures
            r@ == Self::GERMAN@,
    {
        Locale(Self::GERMAN.to_owned())
    }

    pub const ENGLISH_UK: &'static str = "en-GB";

    pub fn english_uk() -> (r: Self)
        ensures
            r@ == "en-GB"@,
    {
        Locale("en-GB".to_owned())
    }

    pub fn english_us() -> (r: Self)
        ensures
            r@ == "en-US"@,
    {
        Locale("en-US".to_owned())
    }

    pub fn spanish() -> (r: Self)
        ensures
            r@ == "es-ES"@,
    {
        Locale("es-ES".to_owned())
    }

    pub fn french() -> (r: Self)
        ensures
            r@ == "fr"@,
    {
        Locale("fr".to_owned())
    }

    pub fn croatian() -> (r: Self)
        ensures
            r@ == "hr"@,
    {
        Locale("hr".to_owned())
    }

    pub fn italian() -> (r: Self)
        ensures
            r@ == "it"@,
    {
        Locale("it".to_owned())
    }

    pub fn lithuanian() -> (r: Self)
        ensures
            r@ == "lt"@,
    {
        Locale("lt".to_owned())
    }

    pub fn hungarian() -> (r: Self)
        ensures
            r@ == "hu"@,
    {
        Locale("hu".to_owned())
    }

    pub fn dutch() -> (r: Self)
        ensures
            r@ == "nl"@,
    {
        Locale("nl".to_owned())
    }

    pub fn norwegian() -> (r: Self)
        ensures
            r@ == "no"@,
    {
        Locale("no".to_owned())
    }

    pub fn polish() -> (r: Self)
        ensures
            r@ == "pl"@,
    {
        Locale("pl".to_owned())
    }

    pub fn portuguese_brazilian() -> (r: Self)
        ensures
            r@ == "pt-BR"@,
    {
        Locale("pt-BR".to_owned())
    }

    pub fn romanian() -> (r: Self)
        ensures
            r@ == "ro"@,
    {
        Locale("ro".to_owned())
    }

    pub fn finnish() -> (r: Self)
        ensures
            r@ == "fi"@,
    {
        Locale("fi".to_owned())
    }

    pub fn swedish() -> (r: Self)
        ensures
            r@ == "sv-SE"@,
    {
        Locale("sv-SE".to_owned())
    }

    pub fn vietnamese() -> (r: Self)
        ensures
            r@ == "vi"@,
    {
        Locale("vi".to_owned())
    }

    pub fn turkish() -> (r: Self)
        ensures
            r@ == "tr"@,
    {
        Locale("tr".to_owned())
    }

    pub fn czech() -> (r: Self)
        ensures
            r@ == "cs"@,
    {
        Locale("cs".to_owned())
    }

    pub fn greek() -> (r: Self)
        ensures
            r@ == "el"@,
    {
        Locale("el".to_owned())
    }

    pub fn bulgarian() -> (r: Self)
        ensures
            r@ == "bg"@,
    {
        Locale("bg".to_owned())
    }

    pub fn russian() -> (r: Self)
        ensures
            r@ == "ru"@,
    {
        Locale("ru".to_owned())
    }

    pub fn ukrainian() -> (r: Self)
        ensures
            r@ == "uk"@,
    {
        Locale("uk".to_owned())
    }

    pub fn hindi() -> (r: Self)
        ensures
            r@ == "hi"@,
    {
        Locale("hi".to_owned())
    }

    pub fn thai() -> (r: Self)
        ensures
            r@ == "th"@,
    {
        Locale("th".to_owned())
    }

    pub fn chinese_china() -> (r: Self)
        ensures
            r@ == "zh-CN"@,
    {
        Locale("zh-CN".to_owned())
    }

    pub fn japanese() -> (r: Self)
        ensures
            r@ == "ja"@,
    {
        Locale("ja".to_owned())
    }

    pub fn chinese_taiwan() -> (r: Self)
        ensures
            r@ == "zh-TW"@,
    {
        Locale("zh-TW".to_owned())
    }

    pub fn korean() -> (r: Self)
        ensures
            r@ == "ko"@,
    {
        Locale("ko".to_owned())
    }
}

} // verus!
