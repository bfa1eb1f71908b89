//! Mapping the host's locale identifiers to a supported language tag.
//!
//! The caller reads the locale name and numeric locale code from the
//! host; the decision which of the two supported languages they select
//! is made here. A locale name counts as Russian when it starts with
//! `ru` in any letter case; the numeric fallback recognizes the Russian
//! locale codes; everything else selects English.

use vstd::prelude::*;
use vstd::string::*;
use crate::paths::lower_char;
use crate::text::char_lower_is;
use crate::text::str_eq;

verus! {

/// The locale name selects Russian: it starts with `ru`, compared
/// ASCII-case-insensitively.
pub open spec fn names_russian(name: Seq<char>) -> bool {
    name.len() >= 2 && lower_char(name[0]) == 'r' && lower_char(name[1]) == 'u'
}

/// The numeric locale code selects Russian.
pub open spec fn code_is_russian(code: Seq<char>) -> bool {
    code == "00000419"@ || code == "0419"@
}

/// The language tag the host's locale selects: the locale name decides
/// when present, the numeric code is the fallback, English the default.
pub fn locale_tag(locale_name: Option<String>, locale_code: Option<String>) -> (r: String)
    ensures
        locale_name matches Some(n) ==> r@ == (if names_russian(n@) {
            "ru"@
        } else {
            "en"@
        }),
        locale_name is None ==> (locale_code matches Some(c) ==> r@ == (if code_is_russian(c@) {
            "ru"@
        } else {
            "en"@
        })),
        locale_name is None && locale_code is None ==> r@ == "en"@,
{
    match locale_name {
        Some(n) => {
            let s = n.as_str();
            let russian = s.unicode_len() >= 2 && char_lower_is(s.get_char(0), 'r')
                && char_lower_is(s.get_char(1), 'u');
            if russian {
                "ru".to_owned()
            } else {
                "en".to_owned()
            }
        },
        None => match locale_code {
            Some(c) => {
                if str_eq(c.as_str(), "00000419") || str_eq(c.as_str(), "0419") {
                    "ru".to_owned()
                } else {
                    "en".to_owned()
                }
            },
            None => "en".to_owned(),
        },
    }
}

} // verus!
