//! The decisions behind the operating-system services: dialogs and
//! notifications to show, dark-mode scripts and registry values, display ids
//! and names, and the classification of displays. The caller performs the
//! work with the values these functions return.
use vstd::prelude::*;
use crate::benchmark::{lemma_pixel_position, pixel_index};
use crate::display_config::{DisplayCategory, PanelType};
use crate::numeral::{is_isqrt, isqrt, parse_unsigned, parse_unsigned_chars};
use crate::text::{chars_of, decimal, push_decimal, push_str, string_from_chars};

verus! {

/// The display configuration or the system theme has changed.
#[derive(Debug, Clone, Copy, PartialEq, Eq, Structural)]
pub enum DisplayChangeEvent {
    Changed,
}

/// The look of a message box.
#[derive(Debug, Clone, Copy, PartialEq, Eq, Structural)]
pub enum DialogStyle {
    Critical,
    Informational,
}

/// A message box to show.
#[derive(Debug)]
pub struct Dialog {
    pub style: DialogStyle,
    pub title: String,
    pub message: String,
}

/// The message box that reports an error.
pub fn show_error_dialog(title: &str, message: &str) -> (d: Dialog)
    ensures
        d.style == DialogStyle::Critical,
        d.title@ == title@,
        d.message@ == message@,
{
    Dialog {
        style: DialogStyle::Critical,
        title: string_from_chars(&chars_of(title)),
        message: string_from_chars(&chars_of(message)),
    }
}

/// The message box that informs.
pub fn show_info_dialog(title: &str, message: &str) -> (d: Dialog)
    ensures
        d.style == DialogStyle::Informational,
        d.title@ == title@,
        d.message@ == message@,
{
    Dialog {
        style: DialogStyle::Informational,
        title: string_from_chars(&chars_of(title)),
        message: string_from_chars(&chars_of(message)),
    }
}

/// `s` with a backslash before every double quote.
pub open spec fn escape_quotes(s: Seq<char>) -> Seq<char>
    decreases s.len(),
{
    if s.len() == 0 {
        s
    } else {
        escape_quotes(s.drop_last()) + if s.last() == '"' {
            seq!['\\', '"']
        } else {
            seq![s.last()]
        }
    }
}

/// Appends `escape_quotes(s)` to `out`.
fn push_escaped(out: &mut Vec<char>, s: &str)
    ensures
        final(out)@ == old(out)@ + escape_quotes(s@),
{
    let v = chars_of(s);
    let mut i: usize = 0;
    while i < v.len()
        invariant
            v@ == s@,
            i <= v@.len(),
            out@ == old(out)@ + escape_quotes(v@.take(i as int)),
        decreases v@.len() - i,
    {
        proof {
            assert(v@.take(i + 1).drop_last() =~= v@.take(i as int));
        }
        if v[i] == '"' {
            out.push('\\');
            out.push('"');
        } else {
            out.push(v[i]);
        }
        i = i + 1;
        assert(out@ =~= old(out)@ + escape_quotes(v@.take(i as int)));
    }
    assert(v@.take(i as int) =~= v@);
}

/// The AppleScript that posts a notification.
pub open spec fn notification_script(title: Seq<char>, subtitle: Seq<char>, body: Seq<char>) -> Seq<
    char,
> {
    "display notification \""@ + escape_quotes(body) + "\" with title \""@ + escape_quotes(title)
        + "\" subtitle \""@ + escape_quotes(subtitle) + "\""@
}

/// The AppleScript that posts a notification with `title`, `subtitle` and
/// `body`, each quote in them escaped.
pub fn send_notification(title: &str, subtitle: &str, body: &str) -> (script: String)
    ensures
        script@ == notification_script(title@, subtitle@, body@),
{
    let mut out: Vec<char> = Vec::new();
    push_str(&mut out, "display notification \"");
    push_escaped(&mut out, body);
    push_str(&mut out, "\" with title \"");
    push_escaped(&mut out, title);
    push_str(&mut out, "\" subtitle \"");
    push_escaped(&mut out, subtitle);
    push_str(&mut out, "\"");
    assert(out@ =~= notification_script(title@, subtitle@, body@));
    string_from_chars(&out)
}

/// The AppleScript that turns dark mode on or off.
pub open spec fn dark_mode_script(enabled: bool) -> Seq<char> {
    "tell application \"System Events\" to tell appearance preferences to set dark mode to "@ + if enabled {
        "true"@
    } else {
        "false"@
    }
}

/// The AppleScript that turns dark mode on (`enabled`) or off.
pub fn set_dark_mode(enabled: bool) -> (script: String)
    ensures
        script@ == dark_mode_script(enabled),
{
    let mut out: Vec<char> = Vec::new();
    push_str(
        &mut out,
        "tell application \"System Events\" to tell appearance preferences to set dark mode to ",
    );
    if enabled {
        push_str(&mut out, "true");
    } else {
        push_str(&mut out, "false");
    }
    assert(out@ =~= dark_mode_script(enabled));
    string_from_chars(&out)
}

/// Whether the interface style read from the user defaults is dark: it is
/// when the style is "Dark"; a missing style is light.
pub fn is_dark_mode(interface_style: Option<String>) -> (dark: bool)
    ensures
        dark == match interface_style {
            Some(s) => s@ == "Dark"@,
            None => false,
        },
{
    match interface_style {
        Some(s) => {
            let v = chars_of(s.as_str());
            let d = chars_of("Dark");
            if v.len() != d.len() {
                assert(s@.len() != "Dark"@.len());
                return false;
            }
            let mut i: usize = 0;
            while i < v.len()
                invariant
                    interface_style == Some(s),
                    v@ == s@,
                    d@ == "Dark"@,
                    v@.len() == d@.len(),
                    i <= v@.len(),
                    forall|j: int| 0 <= j < i ==> v@[j] == d@[j],
                decreases v@.len() - i,
            {
                if v[i] != d[i] {
                    assert(s@[i as int] != "Dark"@[i as int]);
                    return false;
                }
                i = i + 1;
            }
            assert(v@ =~= d@);
            true
        },
        None => false,
    }
}

/// Whether the theme value read from the registry ("apps use light
/// theme") means dark mode: it does when the value is 0; a value that could
/// not be read is light.
pub fn is_dark_mode_value(apps_use_light_theme: Option<u32>) -> (dark: bool)
    ensures
        dark == (apps_use_light_theme == Some(0u32)),
{
    match apps_use_light_theme {
        Some(v) => v == 0,
        None => false,
    }
}

/// The registry value ("apps use light theme" and "system uses light
/// theme") that turns dark mode on or off: 0 for dark, 1 for light.
pub fn dark_mode_value(enabled: bool) -> (v: u32)
    ensures
        v == if enabled {
            0u32
        } else {
            1u32
        },
{
    if enabled {
        0
    } else {
        1
    }
}

/// The brightness percentage (0 to 100) for a level in ten-thousandths.
pub fn brightness_percent(level: u32) -> (p: u8)
    ensures
        p == if level / 100 > 100 {
            100
        } else {
            level / 100
        },
{
    let p = level / 100;
    if p > 100 {
        100
    } else {
        p as u8
    }
}

/// A display id as the display report writes it: "0x" or "0X" and
/// hexadecimal digits, else decimal digits.
pub open spec fn display_id_of_text(s: Seq<char>) -> Option<int> {
    if s.len() >= 2 && s[0] == '0' && (s[1] == 'x' || s[1] == 'X') {
        parse_unsigned(s.skip(2), 16, u64::MAX as int)
    } else {
        parse_unsigned(s, 10, u64::MAX as int)
    }
}

/// Reads a display id from the display report.
pub fn parse_display_id(text: &str) -> (id: Option<u64>)
    ensures
        match id {
            Some(v) => display_id_of_text(text@) == Some(v as int),
            None => display_id_of_text(text@) is None,
        },
{
    let v = chars_of(text);
    let n = v.len();
    assert(v@.subrange(0, n as int) =~= v@);
    if n >= 2 && v[0] == '0' && (v[1] == 'x' || v[1] == 'X') {
        assert(v@.skip(2) =~= v@.subrange(2, n as int));
        parse_unsigned_chars(&v, 2, n, 16, u64::MAX)
    } else {
        parse_unsigned_chars(&v, 0, n, 10, u64::MAX)
    }
}

/// The name given to a display that reports none: "Display " and its id in
/// decimal, or "Monitor #" and its id where `numbered` is set.
pub open spec fn fallback_name(id: u64, numbered: bool) -> Seq<char> {
    (if numbered {
        "Monitor #"@
    } else {
        "Display "@
    }) + decimal(id as nat)
}

/// The name given to a display that reports none.
pub fn fallback_monitor_name(id: u64, numbered: bool) -> (name: String)
    ensures
        name@ == fallback_name(id, numbered),
{
    let mut out: Vec<char> = Vec::new();
    if numbered {
        push_str(&mut out, "Monitor #");
    } else {
        push_str(&mut out, "Display ");
    }
    push_decimal(&mut out, id);
    string_from_chars(&out)
}

/// The diagonal in inches assumed for a display that does not report its
/// physical size: 14 for a built-in display, 27 for an external one at least
/// 3840 pixels wide, 24 for any other.
pub open spec fn assumed_diagonal(internal: bool, width: u32) -> int {
    if internal {
        14
    } else if width >= 3840 {
        27
    } else {
        24
    }
}

/// The square of the diagonal in pixels.
pub open spec fn diagonal_px_sq(width: u32, height: u32) -> int {
    width * width + height * height
}

/// The pixels per inch are at least `n`: the diagonal in pixels over the
/// diagonal in inches, taken from the physical size (in ten-thousandths of
/// a millimetre) when there is one.
pub open spec fn ppi_at_least(phys: Option<(u32, u32)>, width: u32, height: u32, internal: bool, n: int) -> bool {
    match phys {
        Some((pw, ph)) => diagonal_px_sq(width, height) * 254000 * 254000 >= n * n * (pw * pw + ph * ph),
        None => diagonal_px_sq(width, height) >= n * n * assumed_diagonal(internal, width)
            * assumed_diagonal(internal, width),
    }
}

/// The pixels per inch are more than `n`.
pub open spec fn ppi_above(phys: Option<(u32, u32)>, width: u32, height: u32, internal: bool, n: int) -> bool {
    match phys {
        Some((pw, ph)) => diagonal_px_sq(width, height) * 254000 * 254000 > n * n * (pw * pw + ph * ph),
        None => diagonal_px_sq(width, height) > n * n * assumed_diagonal(internal, width)
            * assumed_diagonal(internal, width),
    }
}

/// The diagonal is at least 26 inches.
pub open spec fn diagonal_at_least_26(phys: Option<(u32, u32)>, width: u32, internal: bool) -> bool {
    match phys {
        Some((pw, ph)) => pw * pw + ph * ph >= 6604000 * 6604000,
        None => assumed_diagonal(internal, width) >= 26,
    }
}

/// The category of a display: a built-in one is high-DPI from 180 PPI on;
/// an external one is large 4K when its diagonal is at least 26 inches and
/// it is at least 2560 pixels wide or above 130 PPI.
pub open spec fn category_of_display(phys: Option<(u32, u32)>, width: u32, height: u32, internal: bool) -> DisplayCategory {
    if internal {
        if ppi_at_least(phys, width, height, internal, 180) {
            DisplayCategory::NotebookHiDpi
        } else {
            DisplayCategory::NotebookFhd
        }
    } else {
        let k4 = width >= 2560 || ppi_above(phys, width, height, internal, 130);
        if diagonal_at_least_26(phys, width, internal) && k4 {
            DisplayCategory::ExternalLarge4K
        } else {
            DisplayCategory::ExternalGeneral
        }
    }
}

/// The square of the pixels per inch in ten-thousandths, rounded down.
pub open spec fn ppi_scaled_sq(phys: Option<(u32, u32)>, width: u32, height: u32, internal: bool) -> int {
    match phys {
        Some((pw, ph)) => diagonal_px_sq(width, height) * 2540000000 * 2540000000 / (pw * pw + ph * ph),
        None => diagonal_px_sq(width, height) * 100000000 / (assumed_diagonal(internal, width)
            * assumed_diagonal(internal, width)),
    }
}

/// Decides the category of a display and estimates its pixels per inch (in
/// ten-thousandths, rounded down, at most `u32::MAX`), from its physical
/// size in ten-thousandths of a millimetre when the platform reports one,
/// its size in pixels and whether it is built in.
pub fn detect_display_category(phys: Option<(u32, u32)>, width: u32, height: u32, internal: bool) -> (r: (
    DisplayCategory,
    u32,
))
    requires
        phys matches Some((pw, ph)) ==> pw > 0 && ph > 0,
    ensures
        r.0 == category_of_display(phys, width, height, internal),
        exists|q: int|
            is_isqrt(q, ppi_scaled_sq(phys, width, height, internal)) && r.1 == if q > u32::MAX {
                u32::MAX as int
            } else {
                q
            },
{
    let w = width as u128;
    let h = height as u128;
    proof {
        assert(w * w <= 0xffff_fffe_0000_0001u128 && h * h <= 0xffff_fffe_0000_0001u128)
            by (nonlinear_arith)
            requires
                w <= 0xffff_ffffu128,
                h <= 0xffff_ffffu128,
        ;
    }
    let dsq: u128 = w * w + h * h;
    let internal_diag: u128 = if internal {
        14
    } else if width >= 3840 {
        27
    } else {
        24
    };
    let (at_least_180, above_130, large, scaled): (bool, bool, bool, u128) = match phys {
        Some((pw, ph)) => {
            let a = pw as u128;
            let b = ph as u128;
            proof {
                assert(a * a <= 0xffff_fffe_0000_0001u128 && b * b <= 0xffff_fffe_0000_0001u128)
                    by (nonlinear_arith)
                    requires
                        a <= 0xffff_ffffu128,
                        b <= 0xffff_ffffu128,
                ;
                assert(dsq * 64516000000 <= 0x1fffffffc00000002u128 * 64516000000) by (nonlinear_arith)
                    requires
                        dsq <= 0x1fffffffc00000002u128,
                ;
                assert(dsq * 6451600000000000000 <= 0x1fffffffc00000002u128 * 6451600000000000000)
                    by (nonlinear_arith)
                    requires
                        dsq <= 0x1fffffffc00000002u128,
                ;
                assert((a * a + b * b) * 32400 <= 0x1fffffffc00000002u128 * 32400) by (nonlinear_arith)
                    requires
                        a * a + b * b <= 0x1fffffffc00000002u128,
                ;
                assert(a * a + b * b > 0) by (nonlinear_arith)
                    requires
                        a > 0,
                ;
            }
            let psq: u128 = a * a + b * b;
            let lhs: u128 = dsq * 64516000000;
            (lhs >= 32400 * psq, lhs > 16900 * psq, psq >= 43612816000000, dsq * 6451600000000000000
                / psq)
        },
        None => {
            let d2 = internal_diag * internal_diag;
            proof {
                assert(dsq * 100000000 <= 0x1fffffffc00000002u128 * 100000000) by (nonlinear_arith)
                    requires
                        dsq <= 0x1fffffffc00000002u128,
                ;
            }
            (dsq >= 32400 * d2, dsq > 16900 * d2, internal_diag >= 26, dsq * 100000000 / d2)
        },
    };
    let category = if internal {
        if at_least_180 {
            DisplayCategory::NotebookHiDpi
        } else {
            DisplayCategory::NotebookFhd
        }
    } else {
        let k4 = width >= 2560 || above_130;
        if large && k4 {
            DisplayCategory::ExternalLarge4K
        } else {
            DisplayCategory::ExternalGeneral
        }
    };
    let q = isqrt(scaled);
    let ppi: u32 = if q > 4294967295 {
        4294967295
    } else {
        q as u32
    };
    proof {
        assert(is_isqrt(q as int, ppi_scaled_sq(phys, width, height, internal)));
    }
    (category, ppi)
}

/// What `str::to_uppercase` returns for `s`.
pub uninterp spec fn uppercase(s: Seq<char>) -> Seq<char>;

/// `s` in upper case.
///
/// Trusted: calls std's `str::to_uppercase`, whose result depends on `s`
/// alone; the contract names it and says nothing more of it.
#[verifier::external_body]
fn to_upper(s: &str) -> (r: String)
    ensures
        r@ == uppercase(s@),
{
    s.to_uppercase()
}

/// `needle` occurs in `hay`.
pub open spec fn contains_text(hay: Seq<char>, needle: Seq<char>) -> bool {
    exists|i: int| 0 <= i <= hay.len() - needle.len() && #[trigger] hay.subrange(i, i + needle.len()) == needle
}

/// Whether `needle` occurs in `hay`.
fn text_contains(hay: &Vec<char>, needle: &str) -> (b: bool)
    ensures
        b == contains_text(hay@, needle@),
{
    let n = chars_of(needle);
    if n.len() > hay.len() {
        return false;
    }
    let last = hay.len() - n.len();
    let mut i: usize = 0;
    while i <= last
        invariant
            n@ == needle@,
            n@.len() <= hay@.len(),
            hay@.len() <= usize::MAX,
            last == hay@.len() - n@.len(),
            i <= last + 1,
            forall|k: int| 0 <= k < i ==> #[trigger] hay@.subrange(k, k + n@.len()) != needle@,
        decreases last + 1 - i,
    {
        let mut j: usize = 0;
        let mut same = true;
        while j < n.len()
            invariant
                n@ == needle@,
                n@.len() <= hay@.len(),
            hay@.len() <= usize::MAX,
                last == hay@.len() - n@.len(),
                i <= last,
                j <= n@.len(),
                same == forall|t: int| 0 <= t < j ==> hay@[i + t] == n@[t],
            decreases n@.len() - j,
        {
            if hay[i + j] != n[j] {
                same = false;
            }
            j = j + 1;
        }
        if same {
            assert(hay@.subrange(i as int, i + n@.len()) =~= needle@);
            return true;
        } else {
            proof {
                let t = choose|t: int| 0 <= t < n@.len() && hay@[i + t] != n@[t];
                assert(hay@.subrange(i as int, i + n@.len())[t] != needle@[t]);
            }
        }
        i = i + 1;
    }
    false
}

/// Whether `hay` ends with `needle`.
fn text_ends_with(hay: &Vec<char>, needle: &str) -> (b: bool)
    ensures
        b == needle@.is_suffix_of(hay@),
{
    let n = chars_of(needle);
    if n.len() > hay.len() {
        return false;
    }
    let start = hay.len() - n.len();
    let mut j: usize = 0;
    while j < n.len()
        invariant
            n@ == needle@,
            n@.len() <= hay@.len(),
            hay@.len() <= usize::MAX,
            start == hay@.len() - n@.len(),
            j <= n@.len(),
            forall|t: int| 0 <= t < j ==> hay@[start + t] == n@[t],
        decreases n@.len() - j,
    {
        if hay[start + j] != n[j] {
            assert(hay@.subrange(start as int, hay@.len() as int)[j as int] != needle@[j as int]);
            return false;
        }
        j = j + 1;
    }
    assert(hay@.subrange(start as int, hay@.len() as int) =~= needle@);
    true
}

/// The panel type that the scores point to: OLED when its score is the
/// highest (ties included) and positive, then TN over IPS, then IPS, and
/// unknown when no score is positive.
pub open spec fn panel_from_scores(oled: int, ips: int, tn: int) -> PanelType {
    if oled >= ips && oled >= tn && oled > 0 {
        PanelType::Oled
    } else if tn >= ips && tn > 0 {
        PanelType::LcdTn
    } else if ips > 0 {
        PanelType::LcdIps
    } else {
        PanelType::Unknown
    }
}

/// The panel type from the scores.
fn decide_panel(oled: u32, ips: u32, tn: u32) -> (p: PanelType)
    ensures
        p == panel_from_scores(oled as int, ips as int, tn as int),
{
    if oled >= ips && oled >= tn && oled > 0 {
        PanelType::Oled
    } else if tn >= ips && tn > 0 {
        PanelType::LcdTn
    } else if ips > 0 {
        PanelType::LcdIps
    } else {
        PanelType::Unknown
    }
}

/// The OLED score on macOS: 10 for "OLED" or "AMOLED" in the upper-case
/// name, 8 for an extended dynamic range above 2, 2 from 120 Hz on.
pub open spec fn mac_oled_score(upper: Seq<char>, edr: Option<u32>, hz: u32) -> int {
    (if contains_text(upper, "OLED"@) || contains_text(upper, "AMOLED"@) { 10int } else { 0int })
        + (if edr matches Some(e) && e > 20000 { 8int } else { 0int })
        + (if hz >= 120 { 2int } else { 0int })
}

/// The IPS score on macOS: 5 for "XDR" or "RETINA" in the upper-case name,
/// 3 for an extended dynamic range above 1 and at most 2, 2 from 120 Hz on.
pub open spec fn mac_ips_score(upper: Seq<char>, edr: Option<u32>, hz: u32) -> int {
    (if contains_text(upper, "XDR"@) || contains_text(upper, "RETINA"@) { 5int } else { 0int })
        + (if edr matches Some(e) && 10000 < e <= 20000 { 3int } else { 0int })
        + (if hz >= 120 { 2int } else { 0int })
}

/// The TN score on macOS: 10 when the upper-case name holds " TN " or ends
/// with " TN".
pub open spec fn mac_tn_score(upper: Seq<char>) -> int {
    if contains_text(upper, " TN "@) || " TN"@.is_suffix_of(upper) {
        10
    } else {
        0
    }
}

/// Guesses the panel type of a display on macOS from its name, the largest
/// extended-dynamic-range value of its screen in ten-thousandths (when the
/// screen was found) and its refresh rate.
pub fn detect_panel_type(name: &str, edr: Option<u32>, refresh_hz: u32) -> (p: PanelType)
    ensures
        p == panel_from_scores(
            mac_oled_score(uppercase(name@), edr, refresh_hz),
            mac_ips_score(uppercase(name@), edr, refresh_hz),
            mac_tn_score(uppercase(name@)),
        ),
{
    let upper = to_upper(name);
    let u = chars_of(upper.as_str());
    let mut oled: u32 = 0;
    let mut ips: u32 = 0;
    let mut tn: u32 = 0;
    if text_contains(&u, "OLED") || text_contains(&u, "AMOLED") {
        oled = oled + 10;
    }
    if text_contains(&u, "XDR") || text_contains(&u, "RETINA") {
        ips = ips + 5;
    }
    if text_contains(&u, " TN ") || text_ends_with(&u, " TN") {
        tn = tn + 10;
    }
    match edr {
        Some(e) => {
            if e > 20000 {
                oled = oled + 8;
            } else if e > 10000 {
                ips = ips + 3;
            }
        },
        None => {},
    }
    if refresh_hz >= 120 {
        oled = oled + 2;
        ips = ips + 2;
    }
    decide_panel(oled, ips, tn)
}

/// The OLED score on Windows: 10 for "OLED" or "AMOLED" in the upper-case
/// name, 2 from 120 Hz on.
pub open spec fn win_oled_score(upper: Seq<char>, hz: u32) -> int {
    (if contains_text(upper, "OLED"@) || contains_text(upper, "AMOLED"@) { 10int } else { 0int })
        + (if hz >= 120 { 2int } else { 0int })
}

/// The IPS score on Windows: 5 for "IPS" or "ULTRAFINE" in the upper-case
/// name, 2 from 120 Hz on.
pub open spec fn win_ips_score(upper: Seq<char>, hz: u32) -> int {
    (if contains_text(upper, "IPS"@) || contains_text(upper, "ULTRAFINE"@) { 5int } else { 0int })
        + (if hz >= 120 { 2int } else { 0int })
}

/// The TN score on Windows: 8 when the upper-case name holds " TN " or
/// "ZOWIE", or ends with " TN".
pub open spec fn win_tn_score(upper: Seq<char>) -> int {
    if contains_text(upper, " TN "@) || " TN"@.is_suffix_of(upper) || contains_text(upper, "ZOWIE"@) {
        8
    } else {
        0
    }
}

/// Guesses the panel type of a display on Windows from its name and its
/// refresh rate.
pub fn detect_panel_type_windows(name: &str, refresh_hz: u32) -> (p: PanelType)
    ensures
        p == panel_from_scores(
            win_oled_score(uppercase(name@), refresh_hz),
            win_ips_score(uppercase(name@), refresh_hz),
            win_tn_score(uppercase(name@)),
        ),
{
    let upper = to_upper(name);
    let u = chars_of(upper.as_str());
    let mut oled: u32 = 0;
    let mut ips: u32 = 0;
    let mut tn: u32 = 0;
    if text_contains(&u, "OLED") || text_contains(&u, "AMOLED") {
        oled = oled + 10;
    }
    if text_contains(&u, "IPS") || text_contains(&u, "ULTRAFINE") {
        ips = ips + 5;
    }
    if text_contains(&u, " TN ") || text_ends_with(&u, " TN") || text_contains(&u, "ZOWIE") {
        tn = tn + 8;
    }
    if refresh_hz >= 120 {
        oled = oled + 2;
        ips = ips + 2;
    }
    decide_panel(oled, ips, tn)
}

/// A display is built in on Windows when its device description (in upper
/// case) names an embedded, internal, integrated or laptop panel, or when
/// it is the primary device and at most 2560 pixels wide.
pub open spec fn internal_device(upper: Seq<char>, primary: bool, width: u32) -> bool {
    ||| contains_text(upper, "EDP"@)
    ||| contains_text(upper, "INTERNAL"@)
    ||| contains_text(upper, "INTEGRATED"@)
    ||| contains_text(upper, "LAPTOP"@)
    ||| (primary && width <= 2560)
}

/// Whether a display is built in, from its device description, whether it
/// is the primary device and its width in pixels.
pub fn is_internal_device(description: &str, primary: bool, width: u32) -> (b: bool)
    ensures
        b == internal_device(uppercase(description@), primary, width),
{
    let upper = to_upper(description);
    let u = chars_of(upper.as_str());
    if text_contains(&u, "EDP") || text_contains(&u, "INTERNAL") || text_contains(&u, "INTEGRATED")
        || text_contains(&u, "LAPTOP") {
        return true;
    }
    primary && width <= 2560
}

/// The screen data did not hold all the rows it should.
#[derive(Debug, Clone, Copy, PartialEq, Eq, Structural)]
pub enum CaptureError {
    IncompleteData,
}

/// The channel of a BGRA pixel that holds channel `c` of an RGBA pixel.
pub open spec fn bgra_channel(c: int) -> int {
    if c == 0 {
        2
    } else if c == 2 {
        0
    } else {
        c
    }
}

/// Channel `c` of pixel (`x`, `y`) of a screenshot given as BGRA rows of
/// `bytes_per_row` bytes: taken from its BGRA pixel when a row holds the
/// whole width, else 0.
pub open spec fn captured_value(raw: Seq<u8>, width: int, bytes_per_row: int, x: int, y: int, c: int) -> int {
    if bytes_per_row >= width * 4 {
        raw[y * bytes_per_row + x * 4 + bgra_channel(c)] as int
    } else {
        0
    }
}

/// The value at position `i` of the RGBA image.
pub open spec fn captured_value_at(raw: Seq<u8>, width: int, bytes_per_row: int, i: int) -> int {
    captured_value(raw, width, bytes_per_row, (i / 4) % width, (i / 4) / width, i % 4)
}

/// Turns a screenshot given as BGRA rows of `bytes_per_row` bytes into RGBA
/// pixels, `width` by `height`; fails when the data holds fewer than
/// `height` rows.
pub fn bgra_to_rgba(raw: &Vec<u8>, width: u32, height: u32, bytes_per_row: usize) -> (r: Result<Vec<u8>, CaptureError>)
    requires
        bytes_per_row > 0,
        width * height * 4 <= usize::MAX,
    ensures
        match r {
            Err(e) => e == CaptureError::IncompleteData && raw@.len() < height * bytes_per_row,
            Ok(out) => {
                &&& raw@.len() >= height * bytes_per_row
                &&& out@.len() == width * height * 4
                &&& forall|x: int, y: int, c: int|
                    0 <= x < width && 0 <= y < height && 0 <= c < 4 ==> #[trigger] out@[pixel_index(
                        width as int,
                        x,
                        y,
                        c,
                    )] == captured_value(raw@, width as int, bytes_per_row as int, x, y, c)
            },
        },
{
    let h = height as u128;
    let n = raw.len();
    proof {
        assert(h * (bytes_per_row as u128) <= 0xffff_ffffu128 * 0xffff_ffff_ffff_ffffu128) by (nonlinear_arith)
            requires
                h <= 0xffff_ffffu128,
                bytes_per_row <= 0xffff_ffff_ffff_ffffu128,
        ;
    }
    if (n as u128) < h * (bytes_per_row as u128) {
        return Err(CaptureError::IncompleteData);
    }
    let mut out: Vec<u8> = Vec::new();
    if width == 0 {
        assert(out@.len() == width * height * 4) by (nonlinear_arith)
            requires
                width == 0,
                out@.len() == 0,
        ;
        return Ok(out);
    }
    let full = (bytes_per_row as u128) >= (width as u128) * 4;
    let mut y: u32 = 0;
    while y < height
        invariant
            width > 0,
            bytes_per_row > 0,
            width * height * 4 <= usize::MAX,
            raw@.len() >= height * bytes_per_row,
            raw@.len() == n,
            full == (bytes_per_row >= width * 4),
            y <= height,
            out@.len() == y * width * 4,
            forall|i: int| 0 <= i < out@.len() ==> #[trigger] out@[i] == captured_value_at(raw@, width as int, bytes_per_row as int, i),
        decreases height - y,
    {
        let mut x: u32 = 0;
        while x < width
            invariant
                width > 0,
                bytes_per_row > 0,
                width * height * 4 <= usize::MAX,
                raw@.len() >= height * bytes_per_row,
            raw@.len() == n,
                full == (bytes_per_row >= width * 4),
                y < height,
                x <= width,
                out@.len() == (y * width + x) * 4,
                forall|i: int| 0 <= i < out@.len() ==> #[trigger] out@[i] == captured_value_at(raw@, width as int, bytes_per_row as int, i),
            decreases width - x,
        {
            let mut c: usize = 0;
            while c < 4
                invariant
                    width > 0,
                    bytes_per_row > 0,
                    width * height * 4 <= usize::MAX,
                    raw@.len() >= height * bytes_per_row,
            raw@.len() == n,
                    full == (bytes_per_row >= width * 4),
                    y < height,
                    x < width,
                    c <= 4,
                    out@.len() == (y * width + x) * 4 + c,
                    forall|i: int| 0 <= i < out@.len() ==> #[trigger] out@[i] == captured_value_at(raw@, width as int, bytes_per_row as int, i),
                decreases 4 - c,
            {
                let v: u8 = if full {
                    let ch: usize = if c == 0 {
                        2
                    } else if c == 2 {
                        0
                    } else {
                        c
                    };
                    proof {
                        assert(y * bytes_per_row + x * 4 + ch < raw@.len()) by (nonlinear_arith)
                            requires
                                bytes_per_row >= width * 4,
                                x < width,
                                ch < 4,
                                y < height,
                                raw@.len() >= height * bytes_per_row,
            raw@.len() == n,
                        ;
                    }
                    raw[(y as usize) * bytes_per_row + (x as usize) * 4 + ch]
                } else {
                    0
                };
                proof {
                    lemma_pixel_position(width as int, x as int, y as int, c as int);
                    assert(out@.len() == pixel_index(width as int, x as int, y as int, c as int));
                }
                out.push(v);
                c = c + 1;
            }
            x = x + 1;
        }
        y = y + 1;
        assert(out@.len() == y * width * 4) by (nonlinear_arith)
            requires
                out@.len() == ((y - 1) * width + width) * 4,
        ;
    }
    proof {
        assert(out@.len() == width * height * 4) by (nonlinear_arith)
            requires
                out@.len() == height * width * 4,
        ;
        assert forall|x: int, yy: int, c: int|
            0 <= x < width && 0 <= yy < height && 0 <= c < 4 implies #[trigger] out@[pixel_index(
                width as int,
                x,
                yy,
                c,
            )] == captured_value(raw@, width as int, bytes_per_row as int, x, yy, c) by {
            lemma_pixel_position(width as int, x, yy, c);
            assert(0 <= pixel_index(width as int, x, yy, c) < width * height * 4) by (nonlinear_arith)
                requires
                    0 <= x < width,
                    0 <= yy < height,
                    0 <= c < 4,
            ;
            assert(out@[pixel_index(width as int, x, yy, c)] == captured_value_at(
                raw@,
                width as int,
                bytes_per_row as int,
                pixel_index(width as int, x, yy, c),
            ));
        }
    }
    Ok(out)
}

} // verus!
