use vstd::prelude::*;

verus! {

/// The locales the service has fixed codes for.
#[derive(Debug, Clone, Copy)]
pub enum Locale {
    EN,
    TH,
}

impl Locale {
    /// The code of this locale as a sequence of characters.
    pub open spec fn code(&self) -> Seq<char> {
        match self {
            Locale::EN => seq!['e', 'n'],
            Locale::TH => seq!['t', 'h'],
        }
    }

    pub fn to_str(&self) -> (s: &'static str)
        ensures
            s@ == self.code(),
    {
        match self {
            Locale::EN => {
                proof {
                    reveal_strlit("en");
                }
                assert("en"@ =~= seq!['e', 'n']);
                "en"
            },
            Locale::TH => {
                proof {
                    reveal_strlit("th");
                }
                assert("th"@ =~= seq!['t', 'h']);
                "th"
            },
        }
    }
}

} // verus!
