//! Readings of the system settings: the theme and language the user chose
//! for Windows, and the scheduling priority applied to the process.
use vstd::prelude::*;
use crate::config::settings::supported_languages;
use crate::config::Priority;
use crate::text::{
    chars_of, contains_chars, copy_str, spec_contains, spec_str_to_lowercase, str_eq, str_to_lowercase,
    string_of, sub_vec,
};

verus! {

/// The theme for the `AppsUseLightTheme` registry value: 0 is dark, any
/// other value light; dark when the value could not be read.
pub fn theme_from_registry(apps_use_light_theme: Option<u32>) -> (r: &'static str)
    ensures
        r@ == (match apps_use_light_theme {
            Some(v) => if v == 0 { "dark"@ } else { "light"@ },
            None => "dark"@,
        }),
{
    match apps_use_light_theme {
        Some(v) => if v == 0 {
            "dark"
        } else {
            "light"
        },
        None => "dark",
    }
}

/// The part of `s` before its first `-` (all of it when there is none).
pub open spec fn before_dash(s: Seq<char>) -> Seq<char>
    decreases s.len(),
{
    if s.len() == 0 {
        seq![]
    } else if s[0] == '-' {
        seq![]
    } else {
        seq![s[0]] + before_dash(s.drop_first())
    }
}

/// The interface language for a Windows locale name (such as `it-IT`): its
/// language part in lower case when the interface is translated to it,
/// English otherwise.
pub open spec fn language_for_locale(locale: Seq<char>) -> Seq<char> {
    let code = spec_str_to_lowercase(before_dash(locale));
    if supported_languages().contains(code) {
        code
    } else {
        "en"@
    }
}

/// The interface language for a Windows locale name (see `language_for_locale`).
pub fn language_from_locale(locale: &str) -> (r: String)
    ensures
        r@ == language_for_locale(locale@),
{
    let c = chars_of(locale);
    let mut i: usize = 0;
    proof {
        assert(c@.skip(0) =~= c@);
        assert(c@.take(0) =~= seq![]);
    }
    while i < c.len() && c[i] != '-'
        invariant
            i <= c.len(),
            before_dash(c@) == c@.take(i as int) + before_dash(c@.skip(i as int)),
        decreases c.len() - i,
    {
        proof {
            assert(c@.skip(i as int).drop_first() =~= c@.skip(i + 1));
            assert(c@.take(i + 1) =~= c@.take(i as int) + seq![c@[i as int]]);
            assert(c@.take(i as int) + before_dash(c@.skip(i as int)) =~= c@.take(i + 1) + before_dash(c@.skip(i + 1)));
        }
        i = i + 1;
    }
    proof {
        assert(before_dash(c@.skip(i as int)) =~= seq![]);
        assert(c@.take(i as int) =~= c@.subrange(0, i as int));
    }
    let prefix = string_of(&sub_vec(&c, 0, i));
    let code = str_to_lowercase(prefix.as_str());
    proof {
        assert(prefix@ == before_dash(locale@));
    }
    let list: Vec<&str> = vec!["en", "it", "es", "fr", "pt", "de", "ar", "ja", "zh"];
    let ghost views = list@.map_values(|x: &str| x@);
    proof {
        assert(views =~= supported_languages());
    }
    let mut k: usize = 0;
    while k < list.len()
        invariant
            k <= list.len(),
            views == list@.map_values(|x: &str| x@),
            views == supported_languages(),
            code@ == spec_str_to_lowercase(before_dash(locale@)),
            forall|m: int| 0 <= m < k ==> views[m] != code@,
        decreases list.len() - k,
    {
        if str_eq(list[k], code.as_str()) {
            proof {
                assert(views[k as int] == code@);
            }
            return code;
        }
        k = k + 1;
    }
    copy_str("en")
}

/// How the process is scheduled for a priority: whether priority boosts
/// are disabled, the thread priority, and the priority class.
pub open spec fn priority_settings(p: Priority) -> (bool, i32, u32) {
    match p {
        Priority::Low => (true, -2i32, 0x40u32),
        Priority::Normal => (false, 0i32, 0x20u32),
        Priority::High => (false, 2i32, 0x80u32),
    }
}

/// How the process is scheduled for a priority: boosts off, lowest thread
/// priority and idle class for Low; normal for Normal; boosts on, highest
/// thread priority and high class for High.
pub fn scheduling_for(p: Priority) -> (r: (bool, i32, u32))
    ensures
        r == priority_settings(p),
{
    match p {
        Priority::Low => (true, -2, 0x40),
        Priority::Normal => (false, 0, 0x20),
        Priority::High => (false, 2, 0x80),
    }
}

/// A copy that runs outside the install locations (`program files`,
/// `programdata`, `appdata`, compared in lower case) counts as portable; such
/// a copy checks for the WebView2 runtime before starting.
pub open spec fn spec_outside_install_dirs(exe_path: Seq<char>) -> bool {
    let p = spec_str_to_lowercase(exe_path);
    !spec_contains(p, "program files"@) && !spec_contains(p, "programdata"@) && !spec_contains(
        p,
        "appdata"@,
    )
}

/// Whether the program runs outside the install locations (see
/// `spec_outside_install_dirs`).
pub fn outside_install_dirs(exe_path: &str) -> (r: bool)
    ensures
        r == spec_outside_install_dirs(exe_path@),
{
    let p = chars_of(str_to_lowercase(exe_path).as_str());
    !contains_chars(&p, &chars_of("program files")) && !contains_chars(&p, &chars_of("programdata"))
        && !contains_chars(&p, &chars_of("appdata"))
}

} // verus!
