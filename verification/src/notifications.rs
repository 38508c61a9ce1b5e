//! What an optimization tells the user: whether a notification is shown,
//! its title, its body, and the text handed to the notification channels.
use vstd::prelude::*;
use crate::config::{profile_areas, Profile};
use crate::memory::types::{Areas, Reason};
use crate::os::OsVersion;
use crate::text::{append_str, chars_of, copy_str, push_char, spec_replace, str_eq, replace_chars, string_of};
use crate::translations::{lookup, lookup_text, notification_entries, notification_table};

verus! {

/// The English title (and translation key) of the notification for a reason.
pub open spec fn title_key(reason: Reason) -> Seq<char> {
    match reason {
        Reason::Manual => "TMC • Optimization completed"@,
        Reason::Schedule => "TMC • Scheduled optimization"@,
        Reason::LowMemory => "TMC • Low memory optimization"@,
        Reason::Hotkey => "TMC • Hotkey optimization"@,
    }
}

/// The English name (and translation key) of a profile.
pub open spec fn profile_key(profile: Profile) -> Seq<char> {
    match profile {
        Profile::Normal => "Normal"@,
        Profile::Balanced => "Balanced"@,
        Profile::Gaming => "Gaming"@,
    }
}

/// The title key of the notification for a reason.
pub fn notification_title_key(reason: Reason) -> (r: &'static str)
    ensures
        r@ == title_key(reason),
{
    match reason {
        Reason::Manual => "TMC • Optimization completed",
        Reason::Schedule => "TMC • Scheduled optimization",
        Reason::LowMemory => "TMC • Low memory optimization",
        Reason::Hotkey => "TMC • Hotkey optimization",
    }
}

/// The name key of a profile.
pub fn profile_name_key(profile: Profile) -> (r: &'static str)
    ensures
        r@ == profile_key(profile),
{
    match profile {
        Profile::Normal => "Normal",
        Profile::Balanced => "Balanced",
        Profile::Gaming => "Gaming",
    }
}

/// The notification title for a reason, in the given language.
pub fn get_notification_title(language: &str, reason: Reason) -> (r: String)
    ensures
        r@ == lookup_text(notification_entries(), language@, title_key(reason)),
{
    let table = notification_table();
    lookup(&table, language, notification_title_key(reason))
}

/// The name of a profile in the given language.
pub fn get_profile_display_name(profile: &Profile, language: &str) -> (r: String)
    ensures
        r@ == lookup_text(notification_entries(), language@, profile_key(*profile)),
{
    let table = notification_table();
    lookup(&table, language, profile_name_key(*profile))
}

/// The body layout for a language: the freed amount, the free memory and the
/// profile name are put at `{0}`, `{1}` and `{2}`.
pub open spec fn body_parts(language: Seq<char>) -> (Seq<char>, Seq<char>, Seq<char>, Seq<char>) {
    if language == "it"@ {
        ("✅ Liberati: "@, " MB\n🧠 RAM libera: "@, " GB\n🎯 Profilo: "@, ""@)
    } else if language == "es"@ {
        ("✅ Liberado: "@, " MB\n🧠 RAM libre: "@, " GB\n🎯 Perfil: "@, ""@)
    } else if language == "fr"@ {
        ("✅ Libéré: "@, " MB\n🧠 RAM libre: "@, " GB\n🎯 Profil: "@, ""@)
    } else if language == "pt"@ {
        ("✅ Liberado: "@, " MB\n🧠 RAM livre: "@, " GB\n🎯 Perfil: "@, ""@)
    } else if language == "de"@ {
        ("✅ Freigegeben: "@, " MB\n🧠 Freier RAM: "@, " GB\n🎯 Profil: "@, ""@)
    } else if language == "ar"@ {
        ("✅ تم التحرير: "@, " ميجابايت\n🧠 ذاكرة متاحة: "@, " جيجابايت\n🎯 الملف الشخصي: "@, ""@)
    } else if language == "ja"@ {
        ("✅ 解放: "@, " MB\n🧠 空きRAM: "@, " GB\n🎯 プロファイル: "@, ""@)
    } else if language == "zh"@ {
        ("✅ 已释放: "@, " MB\n🧠 可用RAM: "@, " GB\n🎯 配置文件: "@, ""@)
    } else {
        ("✅ Freed: "@, " MB\n🧠 Free RAM: "@, " GB\n🎯 Profile: "@, ""@)
    }
}

fn body_layout(language: &str) -> (r: (&'static str, &'static str, &'static str))
    ensures
        (r.0@, r.1@, r.2@, ""@) == body_parts(language@),
{
    if str_eq(language, "it") {
        ("✅ Liberati: ", " MB\n🧠 RAM libera: ", " GB\n🎯 Profilo: ")
    } else if str_eq(language, "es") {
        ("✅ Liberado: ", " MB\n🧠 RAM libre: ", " GB\n🎯 Perfil: ")
    } else if str_eq(language, "fr") {
        ("✅ Libéré: ", " MB\n🧠 RAM libre: ", " GB\n🎯 Profil: ")
    } else if str_eq(language, "pt") {
        ("✅ Liberado: ", " MB\n🧠 RAM livre: ", " GB\n🎯 Perfil: ")
    } else if str_eq(language, "de") {
        ("✅ Freigegeben: ", " MB\n🧠 Freier RAM: ", " GB\n🎯 Profil: ")
    } else if str_eq(language, "ar") {
        ("✅ تم التحرير: ", " ميجابايت\n🧠 ذاكرة متاحة: ", " جيجابايت\n🎯 الملف الشخصي: ")
    } else if str_eq(language, "ja") {
        ("✅ 解放: ", " MB\n🧠 空きRAM: ", " GB\n🎯 プロファイル: ")
    } else if str_eq(language, "zh") {
        ("✅ 已释放: ", " MB\n🧠 可用RAM: ", " GB\n🎯 配置文件: ")
    } else {
        ("✅ Freed: ", " MB\n🧠 Free RAM: ", " GB\n🎯 Profile: ")
    }
}

/// The notification body in a language, from the freed amount (in MB) and
/// the free memory (in GB) already written as text, and the profile.
pub open spec fn body_text(language: Seq<char>, freed_mb: Seq<char>, free_gb: Seq<char>, profile: Profile) -> Seq<char> {
    body_parts(language).0 + freed_mb + body_parts(language).1 + free_gb + body_parts(language).2
        + lookup_text(notification_entries(), language, profile_key(profile))
}

/// The notification body (see `body_text`). The two amounts are passed as
/// text, written with one and two decimals.
pub fn get_notification_body(language: &str, _reason: Reason, freed_mb: &str, free_gb: &str, profile: &Profile) -> (r: String)
    ensures
        r@ == body_text(language@, freed_mb@, free_gb@, *profile),
{
    let name = get_profile_display_name(profile, language);
    let (a, b, c) = body_layout(language);
    let mut r = copy_str(a);
    append_str(&mut r, freed_mb);
    append_str(&mut r, b);
    append_str(&mut r, free_gb);
    append_str(&mut r, c);
    append_str(&mut r, name.as_str());
    r
}

/// `t` holds `.1f` (or `.2f` when `two`) right after position `i`.
pub open spec fn decimals_at(t: Seq<char>, i: int, digit: char) -> bool {
    i + 3 < t.len() && t[i + 1] == '.' && t[i + 2] == digit && t[i + 3] == 'f'
}

/// One pass over a body template: `%.1f` becomes the freed amount, `%.2f`
/// the free memory, `%s` the profile name; any other character, a lone `%`
/// included, is kept. Inserted text is not scanned again.
pub open spec fn fill_template(t: Seq<char>, freed: Seq<char>, free: Seq<char>, profile: Seq<char>) -> Seq<char>
    decreases t.len(),
{
    if t.len() == 0 {
        seq![]
    } else if t[0] == '%' && decimals_at(t, 0, '1') {
        freed + fill_template(t.skip(4), freed, free, profile)
    } else if t[0] == '%' && decimals_at(t, 0, '2') {
        free + fill_template(t.skip(4), freed, free, profile)
    } else if t[0] == '%' && t.len() >= 2 && t[1] == 's' {
        profile + fill_template(t.skip(2), freed, free, profile)
    } else {
        seq![t[0]] + fill_template(t.skip(1), freed, free, profile)
    }
}

/// Fills a translated body template (see `fill_template`).
pub fn fill_body_template(template: &str, freed: &str, free: &str, profile: &str) -> (r: String)
    ensures
        r@ == fill_template(template@, freed@, free@, profile@),
{
    let t = chars_of(template);
    let mut out = String::new();
    let mut i: usize = 0;
    proof {
        assert(t@.skip(0) =~= t@);
        assert(out@ + fill_template(t@, freed@, free@, profile@) =~= fill_template(t@, freed@, free@, profile@));
    }
    while i < t.len()
        invariant
            i <= t.len(),
            t@ == template@,
            out@ + fill_template(t@.skip(i as int), freed@, free@, profile@) == fill_template(
                template@,
                freed@,
                free@,
                profile@,
            ),
        decreases t.len() - i,
    {
        let ghost rest = t@.skip(i as int);
        let ghost before = out@;
        if t[i] == '%' && t.len() - i > 3 && t[i + 1] == '.' && t[i + 2] == '1' && t[i + 3] == 'f' {
            append_str(&mut out, freed);
            proof {
                assert(rest.skip(4) =~= t@.skip(i + 4));
                assert(out@ + fill_template(t@.skip(i + 4), freed@, free@, profile@) =~= before + (freed@ + fill_template(rest.skip(4), freed@, free@, profile@)));
            }
            i = i + 4;
        } else if t[i] == '%' && t.len() - i > 3 && t[i + 1] == '.' && t[i + 2] == '2' && t[i + 3] == 'f' {
            append_str(&mut out, free);
            proof {
                assert(rest.skip(4) =~= t@.skip(i + 4));
                assert(out@ + fill_template(t@.skip(i + 4), freed@, free@, profile@) =~= before + (free@ + fill_template(rest.skip(4), freed@, free@, profile@)));
            }
            i = i + 4;
        } else if t[i] == '%' && t.len() - i > 1 && t[i + 1] == 's' {
            append_str(&mut out, profile);
            proof {
                assert(rest.skip(2) =~= t@.skip(i + 2));
                assert(out@ + fill_template(t@.skip(i + 2), freed@, free@, profile@) =~= before + (profile@ + fill_template(rest.skip(2), freed@, free@, profile@)));
            }
            i = i + 2;
        } else {
            push_char(&mut out, t[i]);
            proof {
                assert(rest.skip(1) =~= t@.skip(i + 1));
                assert(out@ + fill_template(t@.skip(i + 1), freed@, free@, profile@) =~= before + (seq![rest[0]] + fill_template(rest.skip(1), freed@, free@, profile@)));
            }
            i = i + 1;
        }
    }
    proof {
        assert(t@.skip(t.len() as int).len() == 0);
        assert(out@ + Seq::<char>::empty() =~= out@);
    }
    out
}

/// A notification follows an optimization when notifications are on or the
/// run was asked for by hand, the run succeeded, memory could be read after
/// it, and either more than 1 MiB was freed or some area was cleaned without
/// error. `outcome` holds the freed bytes and whether some area succeeded,
/// when the run succeeded and memory was read after it.
pub open spec fn spec_should_notify(show_notifications: bool, reason: Reason, outcome: Option<(i64, bool)>) -> bool {
    (show_notifications || reason == Reason::Manual) && match outcome {
        Some((freed, any_ok)) => (if freed < 0 { -freed } else { freed as int }) > 1048576 || any_ok,
        None => false,
    }
}

/// With notifications turned off only a manual run is followed by a
/// notification; any notification needs a finished run that freed more than
/// one MiB or cleaned some area, and such a run is always followed by one
/// when it was manual or notifications are on.
pub proof fn lemma_notify_only_when_asked(show_notifications: bool, reason: Reason, outcome: Option<(i64, bool)>)
    ensures
        !show_notifications && spec_should_notify(show_notifications, reason, outcome) ==> reason
            == Reason::Manual,
        spec_should_notify(show_notifications, reason, outcome) ==> (outcome matches Some((freed, any_ok))
            && (freed > 1048576 || freed < -1048576 || any_ok)),
        (show_notifications || reason == Reason::Manual) && (outcome matches Some((freed, any_ok))
            && (freed > 1048576 || freed < -1048576 || any_ok)) ==> spec_should_notify(
            show_notifications,
            reason,
            outcome,
        ),
{
}

/// Whether an optimization is followed by a notification.
pub fn should_notify(show_notifications: bool, reason: Reason, outcome: Option<(i64, bool)>) -> (r: bool)
    requires
        outcome matches Some((freed, _)) ==> freed != i64::MIN,
    ensures
        r == spec_should_notify(show_notifications, reason, outcome),
{
    if !show_notifications && !matches!(reason, Reason::Manual) {
        return false;
    }
    match outcome {
        Some((freed, any_ok)) => {
            let big = if freed < 0 {
                freed < -1048576
            } else {
                freed > 1048576
            };
            big || any_ok
        },
        None => false,
    }
}

/// The areas an optimization cleans: those given, else the profile's.
pub fn optimization_areas(areas_override: Option<Areas>, profile: Profile, os: &OsVersion) -> (r: Areas)
    ensures
        r.bits == (match areas_override {
            Some(a) => a.bits,
            None => profile_areas(profile, *os),
        }),
{
    match areas_override {
        Some(a) => a,
        None => profile.get_memory_areas(os),
    }
}

/// A file path as a `file:///` URI, with backslashes turned into slashes.
pub open spec fn icon_uri_text(path: Seq<char>) -> Seq<char> {
    "file:///"@ + spec_replace(path, seq!['\\'], seq!['/'])
}

/// The icon of a notification as a URI (see `icon_uri_text`).
pub fn notification_icon_uri(path: &str) -> (r: String)
    ensures
        r@ == icon_uri_text(path@),
{
    let p = chars_of(path);
    let from: Vec<char> = vec!['\\'];
    let to: Vec<char> = vec!['/'];
    proof {
        assert(from@ =~= seq!['\\']);
        assert(to@ =~= seq!['/']);
    }
    let replaced = replace_chars(&p, &from, &to);
    let mut r = copy_str("file:///");
    append_str(&mut r, string_of(&replaced).as_str());
    r
}

/// Text made safe inside a single-quoted PowerShell string: each `'` doubled.
pub open spec fn ps_quoted(s: Seq<char>) -> Seq<char> {
    spec_replace(s, seq!['\''], seq!['\'', '\''])
}

/// Doubles the single quotes of a text (see `ps_quoted`).
pub fn powershell_escape(s: &str) -> (r: String)
    ensures
        r@ == ps_quoted(s@),
{
    let c = chars_of(s);
    let from: Vec<char> = vec!['\''];
    let to: Vec<char> = vec!['\'', '\''];
    proof {
        assert(from@ =~= seq!['\'']);
        assert(to@ =~= seq!['\'', '\'']);
    }
    string_of(&replace_chars(&c, &from, &to))
}

/// The PowerShell script of the last-resort balloon notification.
pub open spec fn balloon_script_text(exe: Seq<char>, title: Seq<char>, body: Seq<char>) -> Seq<char> {
    "Add-Type -AssemblyName System.Windows.Forms; Add-Type -AssemblyName System.Drawing; $icon = [System.Drawing.Icon]::ExtractAssociatedIcon('"@
        + ps_quoted(exe)
        + "'); $notify = New-Object System.Windows.Forms.NotifyIcon; $notify.Icon = $icon; $notify.Visible = $true; $notify.BalloonTipTitle = '"@
        + ps_quoted(title) + "'; $notify.BalloonTipText = '"@ + ps_quoted(body)
        + "'; $notify.BalloonTipIcon = [System.Windows.Forms.ToolTipIcon]::Info; $notify.ShowBalloonTip(5000); Start-Sleep -Seconds 6; $notify.Dispose()"@
}

/// Builds the balloon script for the given program, title and body, each
/// quoted for PowerShell.
pub fn balloon_script(exe: &str, title: &str, body: &str) -> (r: String)
    ensures
        r@ == balloon_script_text(exe@, title@, body@),
{
    let mut r = copy_str(
        "Add-Type -AssemblyName System.Windows.Forms; Add-Type -AssemblyName System.Drawing; $icon = [System.Drawing.Icon]::ExtractAssociatedIcon('",
    );
    append_str(&mut r, powershell_escape(exe).as_str());
    append_str(
        &mut r,
        "'); $notify = New-Object System.Windows.Forms.NotifyIcon; $notify.Icon = $icon; $notify.Visible = $true; $notify.BalloonTipTitle = '",
    );
    append_str(&mut r, powershell_escape(title).as_str());
    append_str(&mut r, "'; $notify.BalloonTipText = '");
    append_str(&mut r, powershell_escape(body).as_str());
    append_str(
        &mut r,
        "'; $notify.BalloonTipIcon = [System.Windows.Forms.ToolTipIcon]::Info; $notify.ShowBalloonTip(5000); Start-Sleep -Seconds 6; $notify.Dispose()",
    );
    r
}

} // verus!
