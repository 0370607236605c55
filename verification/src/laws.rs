//! Properties that span several operations of the library.
use vstd::prelude::*;
use crate::app::{
    config_of, reset_config, with_panel, display_toggled, global_toggled, shown, AppState, first_preset, has_preset, merged_settings, name_differs, saved_presets, stealth_outcome,
    OSSettingsSnapshot, StealthAction,
};
use crate::display_config::{
    recommended_mode, position_key_text, settings_of, with_settings, DisplayCategory, DisplayConfig, FilterMode, FilterSettings, MonitorId,
    PanelType,
    Preset,
};
use crate::hotplug::reconnected;
use crate::ai_detection::{
    analyzing, commanded, worker_after, AIDetectionCommand, DetectorAction, DetectorState, WorkerEvent,
};
use crate::benchmark::{recommended_preset, recorded_all, BenchmarkRecord, BenchmarkStep};
use crate::overlay::overlay_params_of;
use crate::platform::{category_of_display, contains_text, mac_ips_score, mac_oled_score, mac_tn_score, panel_from_scores};
use crate::i18n::Language;
use crate::tray::{
    ai_lines, check, close, depth_after, display_fine_tuning, display_head, display_lines, display_tail,
    displays_lines, entries_at, footer_lines, lowest_depth, menu_lines, open, optimize_lines, preset_lines,
    separator, all_enabled, shown_settings, submenu, top_level_count, tr, EntryKind, MenuLine,
};
use crate::menu::{
    AiMode, MENU_ID_AI_MODE_ENHANCED, MENU_ID_AI_MODE_OFF, MENU_ID_AI_MODE_VIGILANCE,
    MENU_ID_AUTO_START, MENU_ID_GLOBAL_TOGGLE, MENU_ID_QUIT, MENU_ID_RUN_BENCHMARK_ALL,
    category_name, category_of_name, lemma_monitor_and_value, lemma_monitor_only, lemma_option_text,
    menu_action_well_formed, menu_text, mode_name, mode_of_name, option_text, panel_name,
    panel_of_name, parse_menu_text, MenuAction, MENU_ID_ALPHA_PREFIX, MENU_ID_CATEGORY_PREFIX,
    MENU_ID_DISPLAY_TOGGLE_PREFIX, MENU_ID_INTENSITY_PREFIX, MENU_ID_MODE_PREFIX,
    MENU_ID_OVERRIDE_COVER_PREFIX, MENU_ID_OVERRIDE_PERIOD_PREFIX, MENU_ID_OVERRIDE_SPEED_PREFIX,
    MENU_ID_PANEL_PREFIX, MENU_ID_PRESET_APPLY_PREFIX, MENU_ID_PRESET_DELETE_PREFIX,
    MENU_ID_PRESET_SAVE_CURRENT, MENU_ID_PRESET_ALL_PREFIX, MENU_ID_RESET_RECOMMENDED, MENU_ID_RUN_BENCHMARK_PREFIX, parse_prefixed_rest,
};
use crate::numeral::{
    char_digit, radix_value, fixed_text, lemma_decimal_value, lemma_fixed_text_plain, lemma_parse_decimal, lemma_parse_fixed,
};
use crate::text::{decimal, signed_decimal};
use crate::store::{
    cache_after_store, find_key, has_key, keys_unique, lemma_find_stored, lemma_stored_unique, lemma_without_key,
    stored, without_key, MAX_DISCONNECTED,
};

verus! {

/// What is stored under a key is found again under that key.
pub proof fn law_store_then_find(s: Seq<DisplayConfig>, c: DisplayConfig)
    requires
        keys_unique(s),
    ensures
        find_key(stored(s, c), c.position_key@) == Some(c),
        keys_unique(stored(s, c)),
{
    lemma_find_stored(s, c, c.position_key@);
    lemma_stored_unique(s, c);
}

/// The settings of a display that was disconnected are given back, unchanged,
/// when a display appears at the same position: storing in the cache of
/// disconnected displays and then restoring by the position key returns the
/// stored settings.
pub proof fn law_cache_store_then_restore(s: Seq<DisplayConfig>, c: DisplayConfig)
    requires
        keys_unique(s),
        s.len() <= MAX_DISCONNECTED,
    ensures
        find_key(cache_after_store(s, c), c.position_key@) == Some(c),
        cache_after_store(s, c).len() <= MAX_DISCONNECTED,
        keys_unique(cache_after_store(s, c)),
{
    lemma_find_stored(s, c, c.position_key@);
    lemma_without_key(s, c.position_key@);
    let k = c.position_key@;
    let t = stored(s, c);
    s.lemma_filter_len(crate::store::key_differs(k));
    if t.len() > MAX_DISCONNECTED {
        let u = t.subrange(1, t.len() as int);
        assert(u[u.len() - 1] == c);
        assert(has_key(u, k));
        assert forall|i: int, j: int| 0 <= i < j < u.len() implies #[trigger] u[i].position_key@
            != #[trigger] u[j].position_key@ by {
            assert(u[i] == t[i + 1] && u[j] == t[j + 1]);
        }
        let w = choose|i: int| 0 <= i < u.len() && #[trigger] u[i].position_key@ == k;
        if w != u.len() - 1 {
            assert(u[w].position_key@ != u[u.len() - 1].position_key@);
        }
    }
}

/// Settings restored from the cache are taken out of it: restoring the same
/// key a second time finds nothing.
pub proof fn law_restore_only_once(s: Seq<DisplayConfig>, k: Seq<char>)
    requires
        keys_unique(s),
    ensures
        find_key(without_key(s, k), k) is None,
{
    lemma_without_key(s, k);
}

/// The saved settings survive a restart: in the settings kept for the next
/// run, the position key of a connected display finds that display's
/// settings, when no other connected display shares the key.
pub proof fn law_settings_survive_restart(
    stored_settings: Seq<DisplayConfig>,
    m: Map<u64, DisplayConfig>,
    result: Seq<DisplayConfig>,
    id: u64,
)
    requires
        merged_settings(stored_settings, m, result),
        m.contains_key(id),
        m[id].position_key@.len() > 0,
        forall|other: u64|
            #[trigger] m.contains_key(other) && other != id ==> m[other].position_key@
                != m[id].position_key@,
    ensures
        find_key(result, m[id].position_key@) == Some(m[id]),
{
    let k = m[id].position_key@;
    assert(m.contains_key(id) && m[id].position_key@ == k);
    assert(find_key(result, k) == find_key(result, k));
}

/// Stealth mode is on exactly when it is wanted: after a stealth check, once
/// the caller has recorded the snapshot that an `Activate` asks for, a
/// snapshot is held if and only if stealth mode is wanted; a `Restore` hands
/// back the snapshot that was held.
pub proof fn law_stealth_snapshot_follows_wanted(
    wanted: bool,
    before: Option<OSSettingsSnapshot>,
    after: Option<OSSettingsSnapshot>,
    action: StealthAction,
    recorded: OSSettingsSnapshot,
)
    requires
        stealth_outcome(wanted, before, after, action),
    ensures
        (match action {
            StealthAction::Activate => Some(recorded),
            _ => after,
        }) is Some <==> wanted,
        action matches StealthAction::Restore(s) ==> before == Some(s),
{
}

/// A saved preset is the one applied under its name: after saving `p`, the
/// first preset named like `p` is `p`.
pub proof fn law_saved_preset_is_found(s: Seq<Preset>, p: Preset)
    ensures
        has_preset(saved_presets(s, p), p.name@),
        forall|i: int| #[trigger]
            first_preset(saved_presets(s, p), p.name@, i) ==> saved_presets(s, p)[i] == p,
{
    let n = p.name@;
    let t = saved_presets(s, p);
    if has_preset(s, n) {
        let j = choose|i: int| first_preset(s, n, i);
        let w = choose|i: int| 0 <= i < s.len() && #[trigger] s[i].name@ == n;
        assert(0 <= w < s.len() && s[w].name@ == n);
        lemma_first_exists(s, n, w);
        assert(first_preset(s, n, j));
        assert(t[j].name@ == n);
        assert forall|i: int| #[trigger] first_preset(t, n, i) implies t[i] == p by {
            if i < j {
                assert(t[i] == s[i]);
            }
            if j < i {
                assert(t[j].name@ == n);
            }
        }
    } else {
        assert(t[s.len() as int] == p);
        assert forall|i: int| #[trigger] first_preset(t, n, i) implies t[i] == p by {
            if i < s.len() {
                assert(t[i] == s[i]);
                assert(s[i].name@ == n);
            }
        }
    }
}

/// When some preset is named `n`, a first one is.
proof fn lemma_first_exists(s: Seq<Preset>, n: Seq<char>, w: int)
    requires
        0 <= w < s.len(),
        s[w].name@ == n,
    ensures
        exists|i: int| first_preset(s, n, i),
    decreases w,
{
    if forall|j: int| 0 <= j < w ==> #[trigger] s[j].name@ != n {
        assert(first_preset(s, n, w));
    } else {
        let j = choose|j: int| 0 <= j < w && #[trigger] s[j].name@ == n;
        assert(s[j].name@ == n);
        lemma_first_exists(s, n, j);
    }
}

/// Deleting a preset leaves no preset of that name, and keeps every other
/// preset.
pub proof fn law_deleted_preset_is_gone(s: Seq<Preset>, n: Seq<char>)
    ensures
        !has_preset(s.filter(name_differs(n)), n),
        forall|p: Preset| #[trigger] s.contains(p) && p.name@ != n ==> s.filter(name_differs(n)).contains(p),
{
    broadcast use vstd::seq_lib::group_filter_ensures;
    let t = s.filter(name_differs(n));
    assert forall|i: int| 0 <= i < t.len() implies #[trigger] t[i].name@ != n by {
        assert(t.contains(t[i]));
    }
}

/// Applying settings to a display and reading them back gives the same
/// settings, and applying a display's own settings changes nothing: a
/// preset applied to a display is shown as the active one.
pub proof fn law_settings_round_trip(c: DisplayConfig, s: FilterSettings)
    ensures
        settings_of(with_settings(c, s)) == s,
        with_settings(c, settings_of(c)) == c,
{
}

/// The shortcut pressed twice leaves every filter as it was: after the global
/// switch is flipped twice, each display is shown exactly when it was
/// before, with the same settings.
pub proof fn law_global_toggle_twice(s0: AppState, s1: AppState, s2: AppState, id: MonitorId)
    requires
        global_toggled(s0, s1),
        global_toggled(s1, s2),
    ensures
        s2.global_enabled == s0.global_enabled,
        s2.displays@ == s0.displays@,
        shown(s2, id) == shown(s0, id),
{
}

/// Switching a display's filter twice gives back the displays as they were.
pub proof fn law_display_toggle_twice(m: Map<u64, DisplayConfig>, id: MonitorId)
    ensures
        display_toggled(display_toggled(m, id), id) == m,
{
    assert(display_toggled(display_toggled(m, id), id) =~= m);
}

/// Two displays get the same position key exactly when they have the same
/// position and the same size: settings are handed on only between
/// displays at the same place with the same resolution.
#[verifier::spinoff_prover]
#[verifier::rlimit(50)]
pub proof fn law_position_key_identifies(
    x1: i32,
    y1: i32,
    w1: u32,
    h1: u32,
    x2: i32,
    y2: i32,
    w2: u32,
    h2: u32,
)
    ensures
        (position_key_text(x1, y1, w1, h1) == position_key_text(x2, y2, w2, h2)) <==> (x1 == x2 && y1
            == y2 && w1 == w2 && h1 == h2),
{
    if position_key_text(x1, y1, w1, h1) == position_key_text(x2, y2, w2, h2) {
        let u = seq!['_'];
        let (a1, b1, c1, d1) = (signed_decimal(x1 as int), signed_decimal(y1 as int), decimal(w1 as nat), decimal(h1 as nat));
        let (a2, b2, c2, d2) = (signed_decimal(x2 as int), signed_decimal(y2 as int), decimal(w2 as nat), decimal(h2 as nat));
        reveal_strlit("_");
        assert(position_key_text(x1, y1, w1, h1) =~= a1 + (u + (b1 + (u + (c1 + (u + d1))))));
        assert(position_key_text(x2, y2, w2, h2) =~= a2 + (u + (b2 + (u + (c2 + (u + d2))))));
        lemma_signed_decimal_text(x1 as int);
        lemma_signed_decimal_text(x2 as int);
        lemma_signed_decimal_text(y1 as int);
        lemma_signed_decimal_text(y2 as int);
        lemma_decimal_text(w1 as nat);
        lemma_decimal_text(w2 as nat);
        lemma_split_at_underscore(a1, a2, b1 + (u + (c1 + (u + d1))), b2 + (u + (c2 + (u + d2))));
        lemma_split_at_underscore(b1, b2, c1 + (u + d1), c2 + (u + d2));
        lemma_split_at_underscore(c1, c2, d1, d2);
        lemma_signed_decimal_injective(x1 as int, x2 as int);
        lemma_signed_decimal_injective(y1 as int, y2 as int);
        lemma_decimal_injective(w1 as nat, w2 as nat);
        lemma_decimal_injective(h1 as nat, h2 as nat);
    }
}

/// A decimal rendering is made of digits: no '_' and no '-' in it.
proof fn lemma_decimal_text(n: nat)
    ensures
        decimal(n).len() > 0,
        forall|i: int| 0 <= i < decimal(n).len() ==> #[trigger] decimal(n)[i] != '_' && decimal(n)[i] != '-',
{
    lemma_decimal_value(n);
    assert forall|i: int| 0 <= i < decimal(n).len() implies #[trigger] decimal(n)[i] != '_' && decimal(n)[i]
        != '-' by {
        assert(char_digit(decimal(n)[i], 10) is Some);
    }
}

/// A signed decimal rendering holds no '_'.
proof fn lemma_signed_decimal_text(n: int)
    ensures
        forall|i: int| 0 <= i < signed_decimal(n).len() ==> #[trigger] signed_decimal(n)[i] != '_',
{
    if n < 0 {
        lemma_decimal_text((-n) as nat);
        assert forall|i: int| 0 <= i < signed_decimal(n).len() implies #[trigger] signed_decimal(n)[i] != '_' by {
            if i > 0 {
                assert(signed_decimal(n)[i] == decimal((-n) as nat)[i - 1]);
            }
        }
    } else {
        lemma_decimal_text(n as nat);
    }
}

/// Two decimal renderings are equal only for equal numbers.
proof fn lemma_decimal_injective(a: nat, b: nat)
    requires
        decimal(a) == decimal(b),
    ensures
        a == b,
{
    lemma_decimal_value(a);
    lemma_decimal_value(b);
    assert(radix_value(decimal(a), 10) == radix_value(decimal(b), 10));
}

/// Two signed decimal renderings are equal only for equal numbers.
proof fn lemma_signed_decimal_injective(a: int, b: int)
    requires
        signed_decimal(a) == signed_decimal(b),
    ensures
        a == b,
{
    if a < 0 {
        lemma_decimal_text((-a) as nat);
    }
    if b < 0 {
        lemma_decimal_text((-b) as nat);
    }
    if a >= 0 {
        lemma_decimal_text(a as nat);
        assert(signed_decimal(a)[0] != '-');
    }
    if b >= 0 {
        lemma_decimal_text(b as nat);
        assert(signed_decimal(b)[0] != '-');
    }
    if a < 0 && b < 0 {
        assert(decimal((-a) as nat) =~= signed_decimal(a).drop_first());
        assert(decimal((-b) as nat) =~= signed_decimal(b).drop_first());
        lemma_decimal_injective((-a) as nat, (-b) as nat);
    } else if a >= 0 && b >= 0 {
        lemma_decimal_injective(a as nat, b as nat);
    } else if a < 0 {
        assert(signed_decimal(a)[0] == '-');
    } else {
        assert(signed_decimal(b)[0] == '-');
    }
}

/// Texts without '_' followed by '_' split the same way only where they
/// are equal.
proof fn lemma_split_at_underscore(a1: Seq<char>, a2: Seq<char>, r1: Seq<char>, r2: Seq<char>)
    requires
        forall|i: int| 0 <= i < a1.len() ==> #[trigger] a1[i] != '_',
        forall|i: int| 0 <= i < a2.len() ==> #[trigger] a2[i] != '_',
        a1 + (seq!['_'] + r1) == a2 + (seq!['_'] + r2),
    ensures
        a1 == a2,
        r1 == r2,
{
    let s1 = a1 + (seq!['_'] + r1);
    let s2 = a2 + (seq!['_'] + r2);
    if a1.len() < a2.len() {
        assert(s1[a1.len() as int] == '_');
        assert(s2[a1.len() as int] == a2[a1.len() as int]);
    } else if a2.len() < a1.len() {
        assert(s2[a2.len() as int] == '_');
        assert(s1[a2.len() as int] == a1[a2.len() as int]);
    } else {
        assert(a1 =~= s1.subrange(0, a1.len() as int));
        assert(a2 =~= s2.subrange(0, a2.len() as int));
        assert(r1 =~= s1.skip(a1.len() as int + 1));
        assert(r2 =~= s2.skip(a2.len() as int + 1));
    }
}

/// Entries that neither open nor close a submenu.
pub open spec fn plain(v: Seq<MenuLine>) -> bool {
    forall|i: int| 0 <= i < v.len() ==> #[trigger] v[i].kind != EntryKind::Open && v[i].kind != EntryKind::Close
}

/// Entries that close every submenu they open and never close more.
pub open spec fn balanced(v: Seq<MenuLine>) -> bool {
    depth_after(v) == 0 && lowest_depth(v) == 0
}

/// The least depth is at most 0 and at most the final depth.
proof fn lemma_lowest_bounds(v: Seq<MenuLine>)
    ensures
        lowest_depth(v) <= 0,
        lowest_depth(v) <= depth_after(v),
    decreases v.len(),
{
    if v.len() > 0 {
        lemma_lowest_bounds(v.drop_last());
    }
}

/// Depth, least depth and top-level entries of two parts one after the other.
proof fn lemma_menu_append(a: Seq<MenuLine>, b: Seq<MenuLine>, d: int)
    ensures
        depth_after(a + b) == depth_after(a) + depth_after(b),
        lowest_depth(a + b) == if depth_after(a) + lowest_depth(b) < lowest_depth(a) {
            depth_after(a) + lowest_depth(b)
        } else {
            lowest_depth(a)
        },
        entries_at(a + b, d) == entries_at(a, d) + entries_at(b, d + depth_after(a)),
    decreases b.len(),
{
    lemma_lowest_bounds(a);
    if b.len() == 0 {
        assert(a + b =~= a);
    } else {
        lemma_menu_append(a, b.drop_last(), d);
        assert((a + b).drop_last() =~= a + b.drop_last());
        assert((a + b).last() == b.last());
    }
}

/// Plain entries are balanced and all stand at the level they start on.
proof fn lemma_plain(v: Seq<MenuLine>)
    requires
        plain(v),
    ensures
        balanced(v),
        entries_at(v, 0) == v.len(),
    decreases v.len(),
{
    if v.len() > 0 {
        assert(plain(v.drop_last())) by {
            assert forall|i: int| 0 <= i < v.drop_last().len() implies #[trigger] v.drop_last()[i].kind
                != EntryKind::Open && v.drop_last()[i].kind != EntryKind::Close by {
                assert(v.drop_last()[i] == v[i]);
            }
        }
        lemma_plain(v.drop_last());
        assert(v.last() == v[v.len() - 1]);
    }
}

/// Entries that stay below the top level leave nothing on it.
proof fn lemma_below(v: Seq<MenuLine>, d: int)
    requires
        d + lowest_depth(v) >= 1,
    ensures
        entries_at(v, d) == 0,
    decreases v.len(),
{
    if v.len() > 0 {
        lemma_lowest_bounds(v.drop_last());
        lemma_below(v.drop_last(), d);
    }
}

/// A single entry.
proof fn lemma_single(e: MenuLine, d: int)
    ensures
        depth_after(seq![e]) == crate::tray::depth_change(e),
        lowest_depth(seq![e]) == if crate::tray::depth_change(e) < 0 {
            crate::tray::depth_change(e)
        } else {
            0
        },
        entries_at(seq![e], d) == if d == 0 && e.kind != EntryKind::Close {
            1int
        } else {
            0int
        },
{
    let z = Seq::<MenuLine>::empty();
    assert(seq![e].drop_last() =~= z);
    assert(seq![e].last() == e);
    assert(depth_after(z) == 0);
    assert(lowest_depth(z) == 0);
    assert(entries_at(z, d) == 0);
}

/// A submenu around balanced entries is balanced and is one top-level
/// entry.
proof fn lemma_submenu(label: Seq<char>, inner: Seq<MenuLine>)
    requires
        balanced(inner),
    ensures
        balanced(submenu(label, inner)),
        entries_at(submenu(label, inner), 0) == 1,
{
    let o = seq![open(label)];
    let c = seq![close()];
    lemma_single(open(label), 0);
    lemma_single(close(), 1);
    lemma_single(close(), 0);
    lemma_menu_append(o, inner, 0);
    lemma_menu_append(o + inner, c, 0);
    lemma_below(inner, 1);
}

/// Two balanced parts one after the other are balanced, and their
/// top-level entries add up.
proof fn lemma_concat(a: Seq<MenuLine>, b: Seq<MenuLine>)
    requires
        balanced(a),
        balanced(b),
    ensures
        balanced(a + b),
        entries_at(a + b, 0) == entries_at(a, 0) + entries_at(b, 0),
{
    lemma_menu_append(a, b, 0);
}

/// The submenu of one display is balanced and is one top-level entry.
#[verifier::rlimit(100)]
#[verifier::spinoff_prover]
proof fn lemma_display_block(id: MonitorId, name: Seq<char>, v: crate::tray::ShownSettings, presets: Seq<Preset>, lang: Language)
    ensures
        balanced(display_lines(id, name, v, presets, lang)),
        entries_at(display_lines(id, name, v, presets, lang), 0) == 1,
{
    let head = display_head(id, name, v, lang);
    let h3 = head.subrange(1, 4);
    let modes = head.subrange(5, 11);
    let alphas = head.subrange(13, 24);
    let ints = head.subrange(26, 31);
    let lm = head[4].label;
    let la = head[12].label;
    let li = head[25].label;
    assert(head =~= seq![open(name)] + (h3 + submenu(lm, modes) + submenu(la, alphas) + submenu(li, ints) + seq![separator()]));
    lemma_plain(h3);
    lemma_plain(modes);
    lemma_plain(alphas);
    lemma_plain(ints);
    lemma_plain(seq![separator()]);
    lemma_submenu(lm, modes);
    lemma_submenu(la, alphas);
    lemma_submenu(li, ints);
    lemma_concat(h3, submenu(lm, modes));
    lemma_concat(h3 + submenu(lm, modes), submenu(la, alphas));
    lemma_concat(h3 + submenu(lm, modes) + submenu(la, alphas), submenu(li, ints));
    lemma_concat(h3 + submenu(lm, modes) + submenu(la, alphas) + submenu(li, ints), seq![separator()]);
    let hin = h3 + submenu(lm, modes) + submenu(la, alphas) + submenu(li, ints) + seq![separator()];
    // the presets
    let pl = preset_lines(id, v, presets, lang);
    let pin = pl.subrange(1, pl.len() - 1);
    assert(pl =~= submenu(pl[0].label, pin));
    let save = seq![pl[pl.len() - 2]];
    if presets.len() == 0 {
        assert(pin =~= seq![pin[0]] + save);
        lemma_plain(seq![pin[0]]);
        lemma_plain(save);
        lemma_concat(seq![pin[0]], save);
    } else {
        let n = presets.len() as int;
        let applies = pin.subrange(1, n + 1);
        let deletes = pin.subrange(n + 3, 2 * n + 3);
        assert(pin =~= submenu(pin[0].label, applies) + submenu(pin[n + 2].label, deletes) + save);
        lemma_plain(applies);
        lemma_plain(deletes);
        lemma_plain(save);
        lemma_submenu(pin[0].label, applies);
        lemma_submenu(pin[n + 2].label, deletes);
        lemma_concat(submenu(pin[0].label, applies), submenu(pin[n + 2].label, deletes));
        lemma_concat(submenu(pin[0].label, applies) + submenu(pin[n + 2].label, deletes), save);
    }
    lemma_submenu(pl[0].label, pin);
    // the reset item
    let reset = display_lines(id, name, v, presets, lang).subrange((head.len() + pl.len()) as int, (head.len() + pl.len() + 2) as int);
    lemma_plain(reset);
    // the fine tuning
    let ft = display_fine_tuning(id, v, lang);
    let fin = ft.subrange(1, ft.len() - 1);
    assert(ft =~= submenu(ft[0].label, fin));
    let pe = fin.subrange(1, 6);
    let co = fin.subrange(8, 13);
    let sp = fin.subrange(15, 20);
    assert(fin =~= submenu(fin[0].label, pe) + submenu(fin[7].label, co) + submenu(fin[14].label, sp));
    lemma_plain(pe);
    lemma_plain(co);
    lemma_plain(sp);
    lemma_submenu(fin[0].label, pe);
    lemma_submenu(fin[7].label, co);
    lemma_submenu(fin[14].label, sp);
    lemma_concat(submenu(fin[0].label, pe), submenu(fin[7].label, co));
    lemma_concat(submenu(fin[0].label, pe) + submenu(fin[7].label, co), submenu(fin[14].label, sp));
    lemma_submenu(ft[0].label, fin);
    // the panel type and the category
    let tl = display_tail(id, v, lang);
    let pa = tl.subrange(1, 5);
    let ca = tl.subrange(7, 11);
    let tin = submenu(tl[0].label, pa) + submenu(tl[6].label, ca);
    assert(tl =~= tin + seq![close()]);
    lemma_plain(pa);
    lemma_plain(ca);
    lemma_submenu(tl[0].label, pa);
    lemma_submenu(tl[6].label, ca);
    lemma_concat(submenu(tl[0].label, pa), submenu(tl[6].label, ca));
    // the whole display
    lemma_concat(hin, pl);
    lemma_concat(hin + pl, reset);
    lemma_concat(hin + pl + reset, ft);
    lemma_concat(hin + pl + reset + ft, tin);
    let all = hin + pl + reset + ft + tin;
    assert(display_lines(id, name, v, presets, lang) =~= submenu(name, all));
    lemma_submenu(name, all);
}

/// The submenus of the displays are balanced, one top-level entry each.
proof fn lemma_displays_block(s: AppState, ov: Seq<(MonitorId, String)>, lang: Language)
    ensures
        balanced(displays_lines(s, ov, lang)),
        entries_at(displays_lines(s, ov, lang), 0) == ov.len(),
    decreases ov.len(),
{
    if ov.len() == 0 {
        lemma_plain(Seq::<MenuLine>::empty());
    } else {
        let (id, name) = ov.last();
        lemma_displays_block(s, ov.drop_last(), lang);
        lemma_display_block(id, name@, shown_settings(s.displays@, id), s.presets@, lang);
        lemma_concat(
            displays_lines(s, ov.drop_last(), lang),
            display_lines(id, name@, shown_settings(s.displays@, id), s.presets@, lang),
        );
    }
}

/// The top level of the tray menu holds nine entries besides one submenu
/// per display: the global switch (first, checked when every filter is
/// shown), a separator, the displays, the optimisation submenu between two
/// separators, the camera-watch submenu, start at login, a separator and
/// quit.
pub proof fn law_menu_top_level(s: AppState, ov: Seq<(MonitorId, String)>, lang: Language)
    ensures
        top_level_count(menu_lines(s, ov, lang)) == 9 + ov.len(),
        menu_lines(s, ov, lang)[0] == check(
            MENU_ID_GLOBAL_TOGGLE@,
            tr(lang, "フィルター：すべてオン", "Filter: All On"),
            true,
            all_enabled(s),
        ),
{
    let m = menu_lines(s, ov, lang);
    let head = seq![m[0], m[1]];
    lemma_plain(head);
    lemma_displays_block(s, ov, lang);
    let op = optimize_lines(s, ov, lang);
    let oin = op.subrange(2, op.len() - 2);
    assert(op =~= seq![op[0]] + submenu(op[1].label, oin) + seq![op[op.len() - 1]]);
    lemma_plain(oin);
    lemma_plain(seq![op[0]]);
    lemma_plain(seq![op[op.len() - 1]]);
    lemma_submenu(op[1].label, oin);
    lemma_concat(seq![op[0]], submenu(op[1].label, oin));
    lemma_concat(seq![op[0]] + submenu(op[1].label, oin), seq![op[op.len() - 1]]);
    let ai = ai_lines(s, lang);
    let ain = ai.subrange(1, 4);
    assert(ai =~= submenu(ai[0].label, ain));
    lemma_plain(ain);
    lemma_submenu(ai[0].label, ain);
    let ft = footer_lines(s, lang);
    lemma_plain(ft);
    let dl = displays_lines(s, ov, lang);
    assert(m =~= head + dl + op + ai + ft);
    lemma_concat(head, dl);
    lemma_concat(head + dl, op);
    lemma_concat(head + dl + op, ai);
    lemma_concat(head + dl + op + ai, ft);
}

/// The submenu of the display at `k` stands in the display part of the menu
/// right after the submenus of the displays before it.
proof fn lemma_display_at(s: AppState, ov: Seq<(MonitorId, String)>, lang: Language, k: int, j: int)
    requires
        0 <= k < ov.len(),
        0 <= j < display_lines(ov[k].0, ov[k].1@, shown_settings(s.displays@, ov[k].0), s.presets@, lang).len(),
    ensures
        displays_lines(s, ov.take(k), lang).len() + j < displays_lines(s, ov, lang).len(),
        displays_lines(s, ov, lang)[displays_lines(s, ov.take(k), lang).len() + j] == display_lines(
            ov[k].0,
            ov[k].1@,
            shown_settings(s.displays@, ov[k].0),
            s.presets@,
            lang,
        )[j],
    decreases ov.len(),
{
    let last = ov.len() - 1;
    if k == last {
        assert(ov.drop_last() =~= ov.take(k));
    } else {
        lemma_display_at(s, ov.drop_last(), lang, k, j);
        assert(ov.drop_last().take(k) =~= ov.take(k));
        assert(ov.drop_last()[k] == ov[k]);
    }
}

/// Each display's submenu is named after the display and holds, third,
/// the display's own switch, checked when its filter is enabled (a display
/// without settings counts as enabled).
pub proof fn law_menu_display_switch(s: AppState, ov: Seq<(MonitorId, String)>, lang: Language, k: int)
    requires
        0 <= k < ov.len(),
    ensures
        ({
            let p = 2 + displays_lines(s, ov.take(k), lang).len() as int;
            &&& menu_lines(s, ov, lang)[p] == open(ov[k].1@)
            &&& menu_lines(s, ov, lang)[p + 2] == check(
                menu_text(MenuAction::DisplayToggle(ov[k].0)),
                tr(lang, "フィルターを有効", "Enable Filter"),
                true,
                shown_settings(s.displays@, ov[k].0).enabled,
            )
        }),
{
    let v = shown_settings(s.displays@, ov[k].0);
    let dl = display_lines(ov[k].0, ov[k].1@, v, s.presets@, lang);
    assert(dl[0] == open(ov[k].1@));
    assert(dl[2] == display_head(ov[k].0, ov[k].1@, v, lang)[2]);
    lemma_display_at(s, ov, lang, k, 0);
    lemma_display_at(s, ov, lang, k, 2);
}

/// The search keeps the first best pair: after the scored search steps
/// `events` are recorded into a fresh record, no pair is kept when no step
/// was scored; otherwise the pair kept is that of a step with the highest
/// score, the first such step, with its score; the best measurement is
/// left alone.
pub proof fn law_search_keeps_first_best(events: Seq<(BenchmarkStep, u32)>)
    requires
        forall|i: int| 0 <= i < events.len() ==> #[trigger] events[i].0 is Search,
    ensures
        recorded_all(BenchmarkRecord { best_score: None, best_params: None }, events).best_score is None,
        match recorded_all(BenchmarkRecord { best_score: None, best_params: None }, events).best_params {
            None => events.len() == 0,
            Some((score, period, cover)) => exists|i: int|
                0 <= i < events.len() && #[trigger] events[i] == (BenchmarkStep::Search { period, cover }, score)
                    && forall|j: int|
                    0 <= j < events.len() ==> #[trigger] events[j].1 <= score && (j < i ==> events[j].1 < score),
        },
    decreases events.len(),
{
    let fresh = BenchmarkRecord { best_score: None, best_params: None };
    if events.len() > 0 {
        let d = events.drop_last();
        assert forall|i: int| 0 <= i < d.len() implies #[trigger] d[i].0 is Search by {
            assert(d[i] == events[i]);
        }
        law_search_keeps_first_best(d);
        let n = events.len() - 1;
        let e = events[n];
        assert(events.last() == e);
        assert(e.0 is Search);
        let before = recorded_all(fresh, d);
        let after = recorded_all(fresh, events);
        match before.best_params {
            None => {
                assert(d.len() == 0);
                assert(after.best_params == Some((e.1, e.0->period, e.0->cover)));
                assert(events[n] == (BenchmarkStep::Search { period: e.0->period, cover: e.0->cover }, e.1));
                assert forall|j: int| 0 <= j < events.len() implies #[trigger] events[j].1 <= e.1 && (j < n
                    ==> events[j].1 < e.1) by {}
            },
            Some((b, p, c)) => {
                let i = choose|i: int|
                    0 <= i < d.len() && #[trigger] d[i] == (BenchmarkStep::Search { period: p, cover: c }, b)
                        && forall|j: int| 0 <= j < d.len() ==> #[trigger] d[j].1 <= b && (j < i ==> d[j].1 < b);
                if e.1 > b {
                    assert(after.best_params == Some((e.1, e.0->period, e.0->cover)));
                    assert(events[n] == (BenchmarkStep::Search { period: e.0->period, cover: e.0->cover }, e.1));
                    assert forall|j: int| 0 <= j < events.len() implies #[trigger] events[j].1 <= e.1 && (j < n
                        ==> events[j].1 < e.1) by {
                        if j < n {
                            assert(events[j] == d[j]);
                            assert(d[j].1 <= b);
                        }
                    }
                } else {
                    assert(after.best_params == Some((b, p, c)));
                    assert(events[i] == d[i]);
                    assert forall|j: int| 0 <= j < events.len() implies #[trigger] events[j].1 <= b && (j < i
                        ==> events[j].1 < b) by {
                        if j < n {
                            assert(events[j] == d[j]);
                            assert(d[j].1 <= b && (j < i ==> d[j].1 < b));
                        }
                    }
                }
            },
        }
    }
}

/// Stopping the camera watch clears the detection once, and nothing is
/// analysed afterwards until the next start: after a stop, whatever
/// happens without a start leaves the worker idle.
pub proof fn law_stop_silences_worker(s: DetectorState, evs: Seq<WorkerEvent>)
    requires
        forall|i: int| 0 <= i < evs.len() ==> #[trigger] evs[i] != WorkerEvent::Command(AIDetectionCommand::Start),
    ensures
        commanded(s, AIDetectionCommand::Stop).1 == DetectorAction::StopCameraAndClear,
        !worker_after(commanded(s, AIDetectionCommand::Stop).0, evs).running,
        !analyzing(worker_after(commanded(s, AIDetectionCommand::Stop).0, evs)),
    decreases evs.len(),
{
    if evs.len() > 0 {
        let d = evs.drop_last();
        assert forall|i: int| 0 <= i < d.len() implies #[trigger] d[i] != WorkerEvent::Command(
            AIDetectionCommand::Start,
        ) by {
            assert(d[i] == evs[i]);
        }
        law_stop_silences_worker(s, d);
        assert(evs.last() == evs[evs.len() - 1]);
    }
}

/// A started worker with its model loaded analyses a frame in every round
/// once its camera is open, until it is stopped or its camera fails: after
/// a start (and, when the start asked for it, the camera opening), events
/// without a stop and without a failed camera keep it analysing.
pub proof fn law_started_worker_analyses(s: DetectorState, evs: Seq<WorkerEvent>)
    requires
        s.model_loaded,
        forall|i: int| 0 <= i < evs.len() ==> #[trigger] evs[i] != WorkerEvent::Command(AIDetectionCommand::Stop)
            && evs[i] != WorkerEvent::CameraOpened(false),
    ensures
        ({
            let (s1, action) = commanded(s, AIDetectionCommand::Start);
            let s2 = if action == DetectorAction::OpenCamera {
                DetectorState { camera_open: true, ..s1 }
            } else {
                s1
            };
            analyzing(worker_after(s2, evs))
        }),
    decreases evs.len(),
{
    if evs.len() > 0 {
        let d = evs.drop_last();
        assert forall|i: int| 0 <= i < d.len() implies #[trigger] d[i] != WorkerEvent::Command(
            AIDetectionCommand::Stop,
        ) && d[i] != WorkerEvent::CameraOpened(false) by {
            assert(d[i] == evs[i]);
        }
        law_started_worker_analyses(s, d);
        assert(evs.last() == evs[evs.len() - 1]);
    }
}

/// An external display with a diagonal of at least 26 inches that is at
/// least 2560 pixels wide is a large 4K display, whatever its PPI; the
/// diagonal is its reported physical size (26 inches are 660.4 mm), or, when
/// it reports none, the 27 inches assumed from 3840 pixels on.
pub proof fn law_wide_large_external_is_4k(phys: Option<(u32, u32)>, width: u32, height: u32)
    requires
        width >= 2560,
        match phys {
            Some((pw, ph)) => pw * pw + ph * ph >= 6604000 * 6604000,
            None => width >= 3840,
        },
    ensures
        category_of_display(phys, width, height, false) == DisplayCategory::ExternalLarge4K,
{
}

/// An external display whose reported diagonal is under 26 inches is never
/// a large 4K display, and a built-in display is always a notebook one.
pub proof fn law_small_or_built_in_category(phys: Option<(u32, u32)>, width: u32, height: u32)
    ensures
        (phys matches Some((pw, ph)) && pw * pw + ph * ph < 6604000 * 6604000) ==> category_of_display(
            phys,
            width,
            height,
            false,
        ) == DisplayCategory::ExternalGeneral,
        category_of_display(phys, width, height, true) == DisplayCategory::NotebookFhd
            || category_of_display(phys, width, height, true) == DisplayCategory::NotebookHiDpi,
{
}

/// On macOS a display named as a Retina or XDR display (and named neither
/// OLED nor TN) is an IPS panel, or an OLED one when its extended dynamic
/// range is above 2: it is never of unknown type.
pub proof fn law_retina_is_ips(upper: Seq<char>, edr: Option<u32>, hz: u32)
    requires
        contains_text(upper, "RETINA"@) || contains_text(upper, "XDR"@),
        !contains_text(upper, "OLED"@),
        !contains_text(upper, "AMOLED"@),
        !contains_text(upper, " TN "@),
        !" TN"@.is_suffix_of(upper),
    ensures
        panel_from_scores(mac_oled_score(upper, edr, hz), mac_ips_score(upper, edr, hz), mac_tn_score(upper))
            == if edr matches Some(e) && e > 20000 {
            PanelType::Oled
        } else {
            PanelType::LcdIps
        },
        panel_from_scores(mac_oled_score(upper, edr, hz), mac_ips_score(upper, edr, hz), mac_tn_score(upper))
            != PanelType::Unknown,
{
}

/// The shader receives each display's filter mode under a fixed number:
/// black layer 0, vertical louver 1, OCR jammer 2, SPD protect 3, stealth
/// dark 4, stealth light 5 (a display without settings shows the black
/// layer); different modes get different numbers.
pub proof fn law_overlay_mode_numbers(s: AppState, id: MonitorId, dark_mode: bool)
    ensures
        ({
            let code = overlay_params_of(s, id, dark_mode).mode_code;
            match config_of(s.displays@, id) {
                Some(c) => {
                    &&& c.filter_mode == FilterMode::BlackLayer ==> code == 0
                    &&& c.filter_mode == FilterMode::VerticalLouver ==> code == 1
                    &&& c.filter_mode == FilterMode::AIOcrInterference ==> code == 2
                    &&& c.filter_mode == FilterMode::HighIntensitySPD ==> code == 3
                    &&& c.filter_mode == FilterMode::StealthDark ==> code == 4
                    &&& c.filter_mode == FilterMode::StealthLight ==> code == 5
                },
                None => code == 0,
            }
        }),
        forall|a: MonitorId, b: MonitorId|
            #![trigger config_of(s.displays@, a), config_of(s.displays@, b)]
            (config_of(s.displays@, a) matches Some(ca) && config_of(s.displays@, b) matches Some(cb)
                && ca.filter_mode != cb.filter_mode) ==> overlay_params_of(s, a, dark_mode).mode_code
                != overlay_params_of(s, b, dark_mode).mode_code,
{
}

/// The presets the benchmark proposes: the office and night presets keep
/// the pattern still (scroll speed 0), only the transit preset scrolls, at
/// 10 mm/s; office is stealth light at alpha 0.3, transit SPD protect at
/// alpha 0.5 and intensity 0.8, night stealth dark at alpha 0.3; office and
/// night take the best period and cover ratio as found, transit three
/// quarters of the period and a cover ratio of at least 0.85.
pub proof fn law_recommended_presets(period: u32, cover: u32, name: Seq<char>)
    ensures
        ({
            let office = recommended_preset(0, period, cover, name).1;
            let transit = recommended_preset(1, period, cover, name).1;
            let night = recommended_preset(2, period, cover, name).1;
            &&& office.override_scroll_speed == Some(0u32)
            &&& night.override_scroll_speed == Some(0u32)
            &&& transit.override_scroll_speed == Some(100000u32)
            &&& office.filter_mode == FilterMode::StealthLight && office.alpha == 3000 && office.filter_intensity
                == 10000
            &&& transit.filter_mode == FilterMode::HighIntensitySPD && transit.alpha == 5000
                && transit.filter_intensity == 8000
            &&& night.filter_mode == FilterMode::StealthDark && night.alpha == 3000 && night.filter_intensity
                == 10000
            &&& office.override_period_mm == Some(period) && night.override_period_mm == Some(period)
            &&& office.override_cover_ratio == Some(cover) && night.override_cover_ratio == Some(cover)
            &&& transit.override_period_mm matches Some(p) && 4 * p <= 3 * period && 3 * period < 4 * p + 4
            &&& transit.override_cover_ratio matches Some(c) && c >= 8500 && c >= cover && (c == cover || c
                == 8500)
        }),
{
}

/// The recommended filter mode is the black layer only for a panel of
/// unknown type; every known panel (OLED, IPS, TN) gets SPD protect. So a
/// display in black-layer mode whose panel type is set to a known one, or a
/// display of known panel reset to the recommendation, shows SPD protect.
pub proof fn law_recommended_mode(p: PanelType, c: DisplayConfig)
    ensures
        (recommended_mode(p) == FilterMode::BlackLayer) <==> (p == PanelType::Unknown),
        p != PanelType::Unknown ==> recommended_mode(p) == FilterMode::HighIntensitySPD,
        (c.filter_mode == FilterMode::BlackLayer && p != PanelType::Unknown) ==> with_panel(c, p).filter_mode
            == FilterMode::HighIntensitySPD,
        c.panel_type != PanelType::Unknown ==> reset_config(c).filter_mode == FilterMode::HighIntensitySPD,
        c.panel_type == PanelType::Unknown ==> reset_config(c).filter_mode == FilterMode::BlackLayer,
{
}

/// Every menu item does what it was built for: the id written for an action
/// reads back as that action.
pub proof fn law_menu_id_round_trip(a: MenuAction)
    requires
        menu_action_well_formed(a),
    ensures
        parse_menu_text(menu_text(a)) == Some(a),
{
    match a {
        MenuAction::DisplayToggle(id) => lemma_round_trip_displaytoggle(id),
        MenuAction::ResetRecommended(id) => lemma_round_trip_resetrecommended(id),
        MenuAction::PresetSaveCurrent(id) => lemma_round_trip_presetsavecurrent(id),
        MenuAction::RunBenchmark(id) => lemma_round_trip_runbenchmark(id),
        MenuAction::Alpha(id, p) => lemma_round_trip_alpha(id, p),
        MenuAction::Mode(id, m) => lemma_round_trip_mode(id, m),
        MenuAction::Category(id, c) => lemma_round_trip_category(id, c),
        MenuAction::Panel(id, t) => lemma_round_trip_panel(id, t),
        MenuAction::Intensity(id, v) => lemma_round_trip_intensity(id, v),
        MenuAction::OverridePeriod(id, o) => lemma_round_trip_overrideperiod(id, o),
        MenuAction::OverrideCover(id, o) => lemma_round_trip_overridecover(id, o),
        MenuAction::OverrideSpeed(id, o) => lemma_round_trip_overridespeed(id, o),
        MenuAction::PresetApply(id, n) => lemma_round_trip_presetapply(id, n),
        MenuAction::PresetDelete(n) => lemma_round_trip_presetdelete(n),
        MenuAction::PresetApplyAll(n) => lemma_round_trip_presetapplyall(n),
        _ => lemma_round_trip_plain(a),
    }
}

/// The id of `MenuAction::DisplayToggle(id)` reads back as that action.
#[verifier::spinoff_prover]
#[verifier::rlimit(80)]
proof fn lemma_round_trip_displaytoggle(id: MonitorId)
    ensures
        parse_menu_text(menu_text(MenuAction::DisplayToggle(id))) == Some(MenuAction::DisplayToggle(id)),
{
    reveal_strlit("global_toggle");
    reveal_strlit("display_toggle:");
    reveal_strlit("alpha:");
    reveal_strlit("mode:");
    reveal_strlit("panel:");
    reveal_strlit("category:");
    reveal_strlit("intensity:");
    reveal_strlit("ov_period:");
    reveal_strlit("ov_cover:");
    reveal_strlit("ov_speed:");
    reveal_strlit("reset_recommended:");
    reveal_strlit("auto_start");
    reveal_strlit("ai_mode_off");
    reveal_strlit("ai_mode_vigilance");
    reveal_strlit("ai_mode_enhanced");
    reveal_strlit("preset_apply:");
    reveal_strlit("preset_delete:");
    reveal_strlit("preset_save_current");
    reveal_strlit("run_benchmark:");
    reveal_strlit("run_benchmark_all");
    reveal_strlit("quit");
    let s = menu_text(MenuAction::DisplayToggle(id));
            lemma_monitor_only(MENU_ID_DISPLAY_TOGGLE_PREFIX@, id);
            lemma_differs_at(s, MENU_ID_GLOBAL_TOGGLE@, 0);
            lemma_differs_at(s, MENU_ID_AUTO_START@, 0);
            lemma_differs_at(s, MENU_ID_AI_MODE_OFF@, 0);
            lemma_differs_at(s, MENU_ID_AI_MODE_VIGILANCE@, 0);
            lemma_differs_at(s, MENU_ID_AI_MODE_ENHANCED@, 0);
            lemma_differs_at(s, MENU_ID_RUN_BENCHMARK_ALL@, 0);
            lemma_differs_at(s, MENU_ID_QUIT@, 0);
}

/// The id of `MenuAction::ResetRecommended(id)` reads back as that action.
#[verifier::spinoff_prover]
#[verifier::rlimit(80)]
proof fn lemma_round_trip_resetrecommended(id: MonitorId)
    ensures
        parse_menu_text(menu_text(MenuAction::ResetRecommended(id))) == Some(MenuAction::ResetRecommended(id)),
{
    reveal_strlit("global_toggle");
    reveal_strlit("display_toggle:");
    reveal_strlit("alpha:");
    reveal_strlit("mode:");
    reveal_strlit("panel:");
    reveal_strlit("category:");
    reveal_strlit("intensity:");
    reveal_strlit("ov_period:");
    reveal_strlit("ov_cover:");
    reveal_strlit("ov_speed:");
    reveal_strlit("reset_recommended:");
    reveal_strlit("auto_start");
    reveal_strlit("ai_mode_off");
    reveal_strlit("ai_mode_vigilance");
    reveal_strlit("ai_mode_enhanced");
    reveal_strlit("preset_apply:");
    reveal_strlit("preset_delete:");
    reveal_strlit("preset_save_current");
    reveal_strlit("run_benchmark:");
    reveal_strlit("run_benchmark_all");
    reveal_strlit("quit");
    let s = menu_text(MenuAction::ResetRecommended(id));
            lemma_monitor_only(MENU_ID_RESET_RECOMMENDED@, id);
            lemma_differs_at(s, MENU_ID_GLOBAL_TOGGLE@, 0);
            lemma_differs_at(s, MENU_ID_AUTO_START@, 0);
            lemma_differs_at(s, MENU_ID_AI_MODE_OFF@, 0);
            lemma_differs_at(s, MENU_ID_AI_MODE_VIGILANCE@, 0);
            lemma_differs_at(s, MENU_ID_AI_MODE_ENHANCED@, 0);
            lemma_differs_at(s, MENU_ID_RUN_BENCHMARK_ALL@, 1);
            lemma_differs_at(s, MENU_ID_QUIT@, 0);
            lemma_differs_at(s, MENU_ID_DISPLAY_TOGGLE_PREFIX@, 0);
            lemma_differs_at(s, MENU_ID_ALPHA_PREFIX@, 0);
            lemma_differs_at(s, MENU_ID_MODE_PREFIX@, 0);
            lemma_differs_at(s, MENU_ID_CATEGORY_PREFIX@, 0);
            lemma_differs_at(s, MENU_ID_PANEL_PREFIX@, 0);
            lemma_differs_at(s, MENU_ID_INTENSITY_PREFIX@, 0);
            lemma_differs_at(s, MENU_ID_OVERRIDE_PERIOD_PREFIX@, 0);
            lemma_differs_at(s, MENU_ID_OVERRIDE_COVER_PREFIX@, 0);
            lemma_differs_at(s, MENU_ID_OVERRIDE_SPEED_PREFIX@, 0);
}

/// The id of `MenuAction::PresetSaveCurrent(id)` reads back as that action.
#[verifier::spinoff_prover]
#[verifier::rlimit(80)]
proof fn lemma_round_trip_presetsavecurrent(id: MonitorId)
    ensures
        parse_menu_text(menu_text(MenuAction::PresetSaveCurrent(id))) == Some(MenuAction::PresetSaveCurrent(id)),
{
    reveal_strlit("global_toggle");
    reveal_strlit("display_toggle:");
    reveal_strlit("alpha:");
    reveal_strlit("mode:");
    reveal_strlit("panel:");
    reveal_strlit("category:");
    reveal_strlit("intensity:");
    reveal_strlit("ov_period:");
    reveal_strlit("ov_cover:");
    reveal_strlit("ov_speed:");
    reveal_strlit("reset_recommended:");
    reveal_strlit("auto_start");
    reveal_strlit("ai_mode_off");
    reveal_strlit("ai_mode_vigilance");
    reveal_strlit("ai_mode_enhanced");
    reveal_strlit("preset_apply:");
    reveal_strlit("preset_delete:");
    reveal_strlit("preset_save_current");
    reveal_strlit("run_benchmark:");
    reveal_strlit("run_benchmark_all");
    reveal_strlit("quit");
    let s = menu_text(MenuAction::PresetSaveCurrent(id));
            lemma_monitor_only(MENU_ID_PRESET_SAVE_CURRENT@, id);
            lemma_differs_at(s, MENU_ID_GLOBAL_TOGGLE@, 0);
            lemma_differs_at(s, MENU_ID_AUTO_START@, 0);
            lemma_differs_at(s, MENU_ID_AI_MODE_OFF@, 0);
            lemma_differs_at(s, MENU_ID_AI_MODE_VIGILANCE@, 0);
            lemma_differs_at(s, MENU_ID_AI_MODE_ENHANCED@, 0);
            lemma_differs_at(s, MENU_ID_RUN_BENCHMARK_ALL@, 0);
            lemma_differs_at(s, MENU_ID_QUIT@, 0);
            lemma_differs_at(s, MENU_ID_DISPLAY_TOGGLE_PREFIX@, 0);
            lemma_differs_at(s, MENU_ID_ALPHA_PREFIX@, 0);
            lemma_differs_at(s, MENU_ID_MODE_PREFIX@, 0);
            lemma_differs_at(s, MENU_ID_CATEGORY_PREFIX@, 0);
            lemma_differs_at(s, MENU_ID_PANEL_PREFIX@, 1);
            lemma_differs_at(s, MENU_ID_INTENSITY_PREFIX@, 0);
            lemma_differs_at(s, MENU_ID_OVERRIDE_PERIOD_PREFIX@, 0);
            lemma_differs_at(s, MENU_ID_OVERRIDE_COVER_PREFIX@, 0);
            lemma_differs_at(s, MENU_ID_OVERRIDE_SPEED_PREFIX@, 0);
            lemma_differs_at(s, MENU_ID_RESET_RECOMMENDED@, 0);
            lemma_differs_at(s, MENU_ID_PRESET_APPLY_PREFIX@, 7);
            lemma_differs_at(s, MENU_ID_PRESET_DELETE_PREFIX@, 7);
}

/// The id of `MenuAction::RunBenchmark(id)` reads back as that action.
#[verifier::spinoff_prover]
#[verifier::rlimit(80)]
proof fn lemma_round_trip_runbenchmark(id: MonitorId)
    ensures
        parse_menu_text(menu_text(MenuAction::RunBenchmark(id))) == Some(MenuAction::RunBenchmark(id)),
{
    reveal_strlit("global_toggle");
    reveal_strlit("display_toggle:");
    reveal_strlit("alpha:");
    reveal_strlit("mode:");
    reveal_strlit("panel:");
    reveal_strlit("category:");
    reveal_strlit("intensity:");
    reveal_strlit("ov_period:");
    reveal_strlit("ov_cover:");
    reveal_strlit("ov_speed:");
    reveal_strlit("reset_recommended:");
    reveal_strlit("auto_start");
    reveal_strlit("ai_mode_off");
    reveal_strlit("ai_mode_vigilance");
    reveal_strlit("ai_mode_enhanced");
    reveal_strlit("preset_apply:");
    reveal_strlit("preset_delete:");
    reveal_strlit("preset_save_current");
    reveal_strlit("run_benchmark:");
    reveal_strlit("run_benchmark_all");
    reveal_strlit("quit");
    let s = menu_text(MenuAction::RunBenchmark(id));
            lemma_monitor_only(MENU_ID_RUN_BENCHMARK_PREFIX@, id);
            lemma_differs_at(s, MENU_ID_GLOBAL_TOGGLE@, 0);
            lemma_differs_at(s, MENU_ID_AUTO_START@, 0);
            lemma_differs_at(s, MENU_ID_AI_MODE_OFF@, 0);
            lemma_differs_at(s, MENU_ID_AI_MODE_VIGILANCE@, 0);
            lemma_differs_at(s, MENU_ID_AI_MODE_ENHANCED@, 0);
            lemma_differs_at(s, MENU_ID_RUN_BENCHMARK_ALL@, 13);
            lemma_differs_at(s, MENU_ID_QUIT@, 0);
            lemma_differs_at(s, MENU_ID_DISPLAY_TOGGLE_PREFIX@, 0);
            lemma_differs_at(s, MENU_ID_ALPHA_PREFIX@, 0);
            lemma_differs_at(s, MENU_ID_MODE_PREFIX@, 0);
            lemma_differs_at(s, MENU_ID_CATEGORY_PREFIX@, 0);
            lemma_differs_at(s, MENU_ID_PANEL_PREFIX@, 0);
            lemma_differs_at(s, MENU_ID_INTENSITY_PREFIX@, 0);
            lemma_differs_at(s, MENU_ID_OVERRIDE_PERIOD_PREFIX@, 0);
            lemma_differs_at(s, MENU_ID_OVERRIDE_COVER_PREFIX@, 0);
            lemma_differs_at(s, MENU_ID_OVERRIDE_SPEED_PREFIX@, 0);
            lemma_differs_at(s, MENU_ID_RESET_RECOMMENDED@, 1);
            lemma_differs_at(s, MENU_ID_PRESET_APPLY_PREFIX@, 0);
            lemma_differs_at(s, MENU_ID_PRESET_DELETE_PREFIX@, 0);
            lemma_differs_at(s, MENU_ID_PRESET_SAVE_CURRENT@, 0);
}

/// The id of `MenuAction::Alpha(id, p)` reads back as that action.
#[verifier::spinoff_prover]
#[verifier::rlimit(80)]
proof fn lemma_round_trip_alpha(id: MonitorId, p: u32)
    ensures
        parse_menu_text(menu_text(MenuAction::Alpha(id, p))) == Some(MenuAction::Alpha(id, p)),
{
    reveal_strlit("global_toggle");
    reveal_strlit("display_toggle:");
    reveal_strlit("alpha:");
    reveal_strlit("mode:");
    reveal_strlit("panel:");
    reveal_strlit("category:");
    reveal_strlit("intensity:");
    reveal_strlit("ov_period:");
    reveal_strlit("ov_cover:");
    reveal_strlit("ov_speed:");
    reveal_strlit("reset_recommended:");
    reveal_strlit("auto_start");
    reveal_strlit("ai_mode_off");
    reveal_strlit("ai_mode_vigilance");
    reveal_strlit("ai_mode_enhanced");
    reveal_strlit("preset_apply:");
    reveal_strlit("preset_delete:");
    reveal_strlit("preset_save_current");
    reveal_strlit("run_benchmark:");
    reveal_strlit("run_benchmark_all");
    reveal_strlit("quit");
    let s = menu_text(MenuAction::Alpha(id, p));
            lemma_decimal_value(p as nat);
            lemma_parse_decimal(p);
            lemma_monitor_and_value(MENU_ID_ALPHA_PREFIX@, id, decimal(p as nat));
            lemma_differs_at(s, MENU_ID_GLOBAL_TOGGLE@, 0);
            lemma_differs_at(s, MENU_ID_AUTO_START@, 1);
            lemma_differs_at(s, MENU_ID_AI_MODE_OFF@, 1);
            lemma_differs_at(s, MENU_ID_AI_MODE_VIGILANCE@, 1);
            lemma_differs_at(s, MENU_ID_AI_MODE_ENHANCED@, 1);
            lemma_differs_at(s, MENU_ID_RUN_BENCHMARK_ALL@, 0);
            lemma_differs_at(s, MENU_ID_QUIT@, 0);
            lemma_differs_at(s, MENU_ID_DISPLAY_TOGGLE_PREFIX@, 0);
}

/// The id of `MenuAction::Mode(id, m)` reads back as that action.
#[verifier::spinoff_prover]
#[verifier::rlimit(80)]
proof fn lemma_round_trip_mode(id: MonitorId, m: FilterMode)
    ensures
        parse_menu_text(menu_text(MenuAction::Mode(id, m))) == Some(MenuAction::Mode(id, m)),
{
    reveal_strlit("global_toggle");
    reveal_strlit("display_toggle:");
    reveal_strlit("alpha:");
    reveal_strlit("mode:");
    reveal_strlit("panel:");
    reveal_strlit("category:");
    reveal_strlit("intensity:");
    reveal_strlit("ov_period:");
    reveal_strlit("ov_cover:");
    reveal_strlit("ov_speed:");
    reveal_strlit("reset_recommended:");
    reveal_strlit("auto_start");
    reveal_strlit("ai_mode_off");
    reveal_strlit("ai_mode_vigilance");
    reveal_strlit("ai_mode_enhanced");
    reveal_strlit("preset_apply:");
    reveal_strlit("preset_delete:");
    reveal_strlit("preset_save_current");
    reveal_strlit("run_benchmark:");
    reveal_strlit("run_benchmark_all");
    reveal_strlit("quit");
    let s = menu_text(MenuAction::Mode(id, m));
            lemma_names();
            lemma_monitor_and_value(MENU_ID_MODE_PREFIX@, id, mode_name(m));
            lemma_differs_at(s, MENU_ID_GLOBAL_TOGGLE@, 0);
            lemma_differs_at(s, MENU_ID_AUTO_START@, 0);
            lemma_differs_at(s, MENU_ID_AI_MODE_OFF@, 0);
            lemma_differs_at(s, MENU_ID_AI_MODE_VIGILANCE@, 0);
            lemma_differs_at(s, MENU_ID_AI_MODE_ENHANCED@, 0);
            lemma_differs_at(s, MENU_ID_RUN_BENCHMARK_ALL@, 0);
            lemma_differs_at(s, MENU_ID_QUIT@, 0);
            lemma_differs_at(s, MENU_ID_DISPLAY_TOGGLE_PREFIX@, 0);
            lemma_differs_at(s, MENU_ID_ALPHA_PREFIX@, 0);
    lemma_differs_at(MENU_ID_MODE_PREFIX@, MENU_ID_ALPHA_PREFIX@, 0);
}

/// The id of `MenuAction::Category(id, c)` reads back as that action.
#[verifier::spinoff_prover]
#[verifier::rlimit(80)]
proof fn lemma_round_trip_category(id: MonitorId, c: DisplayCategory)
    requires
        c != DisplayCategory::Unknown,
    ensures
        parse_menu_text(menu_text(MenuAction::Category(id, c))) == Some(MenuAction::Category(id, c)),
{
    reveal_strlit("global_toggle");
    reveal_strlit("display_toggle:");
    reveal_strlit("alpha:");
    reveal_strlit("mode:");
    reveal_strlit("panel:");
    reveal_strlit("category:");
    reveal_strlit("intensity:");
    reveal_strlit("ov_period:");
    reveal_strlit("ov_cover:");
    reveal_strlit("ov_speed:");
    reveal_strlit("reset_recommended:");
    reveal_strlit("auto_start");
    reveal_strlit("ai_mode_off");
    reveal_strlit("ai_mode_vigilance");
    reveal_strlit("ai_mode_enhanced");
    reveal_strlit("preset_apply:");
    reveal_strlit("preset_delete:");
    reveal_strlit("preset_save_current");
    reveal_strlit("run_benchmark:");
    reveal_strlit("run_benchmark_all");
    reveal_strlit("quit");
    let s = menu_text(MenuAction::Category(id, c));
            lemma_names();
            lemma_monitor_and_value(MENU_ID_CATEGORY_PREFIX@, id, category_name(c));
            lemma_differs_at(s, MENU_ID_GLOBAL_TOGGLE@, 0);
            lemma_differs_at(s, MENU_ID_AUTO_START@, 0);
            lemma_differs_at(s, MENU_ID_AI_MODE_OFF@, 0);
            lemma_differs_at(s, MENU_ID_AI_MODE_VIGILANCE@, 0);
            lemma_differs_at(s, MENU_ID_AI_MODE_ENHANCED@, 0);
            lemma_differs_at(s, MENU_ID_RUN_BENCHMARK_ALL@, 0);
            lemma_differs_at(s, MENU_ID_QUIT@, 0);
            lemma_differs_at(s, MENU_ID_DISPLAY_TOGGLE_PREFIX@, 0);
            lemma_differs_at(s, MENU_ID_ALPHA_PREFIX@, 0);
            lemma_differs_at(s, MENU_ID_MODE_PREFIX@, 0);
    lemma_differs_at(MENU_ID_CATEGORY_PREFIX@, MENU_ID_ALPHA_PREFIX@, 0);
    lemma_differs_at(MENU_ID_CATEGORY_PREFIX@, MENU_ID_MODE_PREFIX@, 0);
}

/// The id of `MenuAction::Panel(id, t)` reads back as that action.
#[verifier::spinoff_prover]
#[verifier::rlimit(80)]
proof fn lemma_round_trip_panel(id: MonitorId, t: PanelType)
    ensures
        parse_menu_text(menu_text(MenuAction::Panel(id, t))) == Some(MenuAction::Panel(id, t)),
{
    reveal_strlit("global_toggle");
    reveal_strlit("display_toggle:");
    reveal_strlit("alpha:");
    reveal_strlit("mode:");
    reveal_strlit("panel:");
    reveal_strlit("category:");
    reveal_strlit("intensity:");
    reveal_strlit("ov_period:");
    reveal_strlit("ov_cover:");
    reveal_strlit("ov_speed:");
    reveal_strlit("reset_recommended:");
    reveal_strlit("auto_start");
    reveal_strlit("ai_mode_off");
    reveal_strlit("ai_mode_vigilance");
    reveal_strlit("ai_mode_enhanced");
    reveal_strlit("preset_apply:");
    reveal_strlit("preset_delete:");
    reveal_strlit("preset_save_current");
    reveal_strlit("run_benchmark:");
    reveal_strlit("run_benchmark_all");
    reveal_strlit("quit");
    let s = menu_text(MenuAction::Panel(id, t));
            lemma_names();
            lemma_monitor_and_value(MENU_ID_PANEL_PREFIX@, id, panel_name(t));
            lemma_differs_at(s, MENU_ID_GLOBAL_TOGGLE@, 0);
            lemma_differs_at(s, MENU_ID_AUTO_START@, 0);
            lemma_differs_at(s, MENU_ID_AI_MODE_OFF@, 0);
            lemma_differs_at(s, MENU_ID_AI_MODE_VIGILANCE@, 0);
            lemma_differs_at(s, MENU_ID_AI_MODE_ENHANCED@, 0);
            lemma_differs_at(s, MENU_ID_RUN_BENCHMARK_ALL@, 0);
            lemma_differs_at(s, MENU_ID_QUIT@, 0);
            lemma_differs_at(s, MENU_ID_DISPLAY_TOGGLE_PREFIX@, 0);
            lemma_differs_at(s, MENU_ID_ALPHA_PREFIX@, 0);
            lemma_differs_at(s, MENU_ID_MODE_PREFIX@, 0);
            lemma_differs_at(s, MENU_ID_CATEGORY_PREFIX@, 0);
    lemma_differs_at(MENU_ID_PANEL_PREFIX@, MENU_ID_ALPHA_PREFIX@, 0);
    lemma_differs_at(MENU_ID_PANEL_PREFIX@, MENU_ID_MODE_PREFIX@, 0);
    lemma_differs_at(MENU_ID_PANEL_PREFIX@, MENU_ID_CATEGORY_PREFIX@, 0);
}

/// The id of `MenuAction::PresetApply(id, n)` reads back as that action.
#[verifier::spinoff_prover]
#[verifier::rlimit(80)]
proof fn lemma_round_trip_presetapply(id: MonitorId, n: Seq<char>)
    requires
        forall|i: int| 0 <= i < n.len() ==> n[i] != ':',
    ensures
        parse_menu_text(menu_text(MenuAction::PresetApply(id, n))) == Some(MenuAction::PresetApply(id, n)),
{
    reveal_strlit("global_toggle");
    reveal_strlit("display_toggle:");
    reveal_strlit("alpha:");
    reveal_strlit("mode:");
    reveal_strlit("panel:");
    reveal_strlit("category:");
    reveal_strlit("intensity:");
    reveal_strlit("ov_period:");
    reveal_strlit("ov_cover:");
    reveal_strlit("ov_speed:");
    reveal_strlit("reset_recommended:");
    reveal_strlit("auto_start");
    reveal_strlit("ai_mode_off");
    reveal_strlit("ai_mode_vigilance");
    reveal_strlit("ai_mode_enhanced");
    reveal_strlit("preset_apply:");
    reveal_strlit("preset_delete:");
    reveal_strlit("preset_save_current");
    reveal_strlit("run_benchmark:");
    reveal_strlit("run_benchmark_all");
    reveal_strlit("quit");
    let s = menu_text(MenuAction::PresetApply(id, n));
            lemma_monitor_and_value(MENU_ID_PRESET_APPLY_PREFIX@, id, n);
            lemma_differs_at(s, MENU_ID_GLOBAL_TOGGLE@, 0);
            lemma_differs_at(s, MENU_ID_AUTO_START@, 0);
            lemma_differs_at(s, MENU_ID_AI_MODE_OFF@, 0);
            lemma_differs_at(s, MENU_ID_AI_MODE_VIGILANCE@, 0);
            lemma_differs_at(s, MENU_ID_AI_MODE_ENHANCED@, 0);
            lemma_differs_at(s, MENU_ID_RUN_BENCHMARK_ALL@, 0);
            lemma_differs_at(s, MENU_ID_QUIT@, 0);
            lemma_differs_at(s, MENU_ID_DISPLAY_TOGGLE_PREFIX@, 0);
            lemma_differs_at(s, MENU_ID_ALPHA_PREFIX@, 0);
            lemma_differs_at(s, MENU_ID_MODE_PREFIX@, 0);
            lemma_differs_at(s, MENU_ID_CATEGORY_PREFIX@, 0);
            lemma_differs_at(s, MENU_ID_PANEL_PREFIX@, 1);
            lemma_differs_at(s, MENU_ID_INTENSITY_PREFIX@, 0);
            lemma_differs_at(s, MENU_ID_OVERRIDE_PERIOD_PREFIX@, 0);
            lemma_differs_at(s, MENU_ID_OVERRIDE_COVER_PREFIX@, 0);
            lemma_differs_at(s, MENU_ID_OVERRIDE_SPEED_PREFIX@, 0);
            lemma_differs_at(s, MENU_ID_RESET_RECOMMENDED@, 0);
    lemma_differs_at(MENU_ID_PRESET_APPLY_PREFIX@, MENU_ID_ALPHA_PREFIX@, 0);
    lemma_differs_at(MENU_ID_PRESET_APPLY_PREFIX@, MENU_ID_MODE_PREFIX@, 0);
    lemma_differs_at(MENU_ID_PRESET_APPLY_PREFIX@, MENU_ID_CATEGORY_PREFIX@, 0);
    lemma_differs_at(MENU_ID_PRESET_APPLY_PREFIX@, MENU_ID_PANEL_PREFIX@, 1);
    lemma_differs_at(MENU_ID_PRESET_APPLY_PREFIX@, MENU_ID_INTENSITY_PREFIX@, 0);
    lemma_differs_at(MENU_ID_PRESET_APPLY_PREFIX@, MENU_ID_OVERRIDE_PERIOD_PREFIX@, 0);
    lemma_differs_at(MENU_ID_PRESET_APPLY_PREFIX@, MENU_ID_OVERRIDE_COVER_PREFIX@, 0);
    lemma_differs_at(MENU_ID_PRESET_APPLY_PREFIX@, MENU_ID_OVERRIDE_SPEED_PREFIX@, 0);
}

/// The id of `MenuAction::PresetDelete(n)` reads back as that action.
#[verifier::spinoff_prover]
#[verifier::rlimit(80)]
proof fn lemma_round_trip_presetdelete(n: Seq<char>)
    ensures
        parse_menu_text(menu_text(MenuAction::PresetDelete(n))) == Some(MenuAction::PresetDelete(n)),
{
    reveal_strlit("global_toggle");
    reveal_strlit("display_toggle:");
    reveal_strlit("alpha:");
    reveal_strlit("mode:");
    reveal_strlit("panel:");
    reveal_strlit("category:");
    reveal_strlit("intensity:");
    reveal_strlit("ov_period:");
    reveal_strlit("ov_cover:");
    reveal_strlit("ov_speed:");
    reveal_strlit("reset_recommended:");
    reveal_strlit("auto_start");
    reveal_strlit("ai_mode_off");
    reveal_strlit("ai_mode_vigilance");
    reveal_strlit("ai_mode_enhanced");
    reveal_strlit("preset_apply:");
    reveal_strlit("preset_delete:");
    reveal_strlit("preset_save_current");
    reveal_strlit("run_benchmark:");
    reveal_strlit("run_benchmark_all");
    reveal_strlit("quit");
    let s = menu_text(MenuAction::PresetDelete(n));
            assert(s.subrange(0, 14) =~= MENU_ID_PRESET_DELETE_PREFIX@);
            assert(s.skip(14) =~= n);
            lemma_differs_at(s, MENU_ID_GLOBAL_TOGGLE@, 0);
            lemma_differs_at(s, MENU_ID_AUTO_START@, 0);
            lemma_differs_at(s, MENU_ID_AI_MODE_OFF@, 0);
            lemma_differs_at(s, MENU_ID_AI_MODE_VIGILANCE@, 0);
            lemma_differs_at(s, MENU_ID_AI_MODE_ENHANCED@, 0);
            lemma_differs_at(s, MENU_ID_RUN_BENCHMARK_ALL@, 0);
            lemma_differs_at(s, MENU_ID_QUIT@, 0);
            lemma_differs_at(s, MENU_ID_DISPLAY_TOGGLE_PREFIX@, 0);
            lemma_differs_at(s, MENU_ID_ALPHA_PREFIX@, 0);
            lemma_differs_at(s, MENU_ID_MODE_PREFIX@, 0);
            lemma_differs_at(s, MENU_ID_CATEGORY_PREFIX@, 0);
            lemma_differs_at(s, MENU_ID_PANEL_PREFIX@, 1);
            lemma_differs_at(s, MENU_ID_INTENSITY_PREFIX@, 0);
            lemma_differs_at(s, MENU_ID_OVERRIDE_PERIOD_PREFIX@, 0);
            lemma_differs_at(s, MENU_ID_OVERRIDE_COVER_PREFIX@, 0);
            lemma_differs_at(s, MENU_ID_OVERRIDE_SPEED_PREFIX@, 0);
            lemma_differs_at(s, MENU_ID_RESET_RECOMMENDED@, 0);
            lemma_differs_at(s, MENU_ID_PRESET_APPLY_PREFIX@, 7);
}

/// The id of `MenuAction::PresetApplyAll(n)` reads back as that action.
#[verifier::spinoff_prover]
#[verifier::rlimit(80)]
proof fn lemma_round_trip_presetapplyall(n: Seq<char>)
    ensures
        parse_menu_text(menu_text(MenuAction::PresetApplyAll(n))) == Some(MenuAction::PresetApplyAll(n)),
{
    reveal_strlit("global_toggle");
    reveal_strlit("display_toggle:");
    reveal_strlit("alpha:");
    reveal_strlit("mode:");
    reveal_strlit("panel:");
    reveal_strlit("category:");
    reveal_strlit("intensity:");
    reveal_strlit("ov_period:");
    reveal_strlit("ov_cover:");
    reveal_strlit("ov_speed:");
    reveal_strlit("reset_recommended:");
    reveal_strlit("auto_start");
    reveal_strlit("ai_mode_off");
    reveal_strlit("ai_mode_vigilance");
    reveal_strlit("ai_mode_enhanced");
    reveal_strlit("preset_apply:");
    reveal_strlit("preset_delete:");
    reveal_strlit("preset_save_current");
    reveal_strlit("preset_all:");
    reveal_strlit("run_benchmark:");
    reveal_strlit("run_benchmark_all");
    reveal_strlit("quit");
    let s = menu_text(MenuAction::PresetApplyAll(n));
    assert(s.subrange(0, 11) =~= MENU_ID_PRESET_ALL_PREFIX@);
    assert(s.skip(11) =~= n);
    lemma_differs_at(s, MENU_ID_GLOBAL_TOGGLE@, 0);
    lemma_differs_at(s, MENU_ID_AUTO_START@, 0);
    lemma_differs_at(s, MENU_ID_AI_MODE_OFF@, 0);
    lemma_differs_at(s, MENU_ID_AI_MODE_VIGILANCE@, 0);
    lemma_differs_at(s, MENU_ID_AI_MODE_ENHANCED@, 0);
    lemma_differs_at(s, MENU_ID_RUN_BENCHMARK_ALL@, 0);
    lemma_differs_at(s, MENU_ID_QUIT@, 0);
    lemma_differs_at(s, MENU_ID_DISPLAY_TOGGLE_PREFIX@, 0);
    lemma_differs_at(s, MENU_ID_ALPHA_PREFIX@, 0);
    lemma_differs_at(s, MENU_ID_MODE_PREFIX@, 0);
    lemma_differs_at(s, MENU_ID_CATEGORY_PREFIX@, 0);
    lemma_differs_at(s, MENU_ID_PANEL_PREFIX@, 1);
    lemma_differs_at(s, MENU_ID_INTENSITY_PREFIX@, 0);
    lemma_differs_at(s, MENU_ID_OVERRIDE_PERIOD_PREFIX@, 0);
    lemma_differs_at(s, MENU_ID_OVERRIDE_COVER_PREFIX@, 0);
    lemma_differs_at(s, MENU_ID_OVERRIDE_SPEED_PREFIX@, 0);
    lemma_differs_at(s, MENU_ID_RESET_RECOMMENDED@, 0);
    lemma_differs_at(s, MENU_ID_PRESET_APPLY_PREFIX@, 8);
    lemma_differs_at(s, MENU_ID_PRESET_DELETE_PREFIX@, 7);
    lemma_differs_at(s, MENU_ID_PRESET_SAVE_CURRENT@, 7);
    lemma_differs_at(s, MENU_ID_RUN_BENCHMARK_PREFIX@, 0);
}

/// The ids without values read back as their actions.
#[verifier::spinoff_prover]
#[verifier::rlimit(80)]
proof fn lemma_round_trip_plain(a: MenuAction)
    requires
        a is GlobalToggle || a is AutoStart || a is SetAiMode || a is RunBenchmarkAll || a is Quit,
    ensures
        parse_menu_text(menu_text(a)) == Some(a),
{
    reveal_strlit("global_toggle");
    reveal_strlit("display_toggle:");
    reveal_strlit("alpha:");
    reveal_strlit("mode:");
    reveal_strlit("panel:");
    reveal_strlit("category:");
    reveal_strlit("intensity:");
    reveal_strlit("ov_period:");
    reveal_strlit("ov_cover:");
    reveal_strlit("ov_speed:");
    reveal_strlit("reset_recommended:");
    reveal_strlit("auto_start");
    reveal_strlit("ai_mode_off");
    reveal_strlit("ai_mode_vigilance");
    reveal_strlit("ai_mode_enhanced");
    reveal_strlit("preset_apply:");
    reveal_strlit("preset_delete:");
    reveal_strlit("preset_save_current");
    reveal_strlit("run_benchmark:");
    reveal_strlit("run_benchmark_all");
    reveal_strlit("quit");
    let s = menu_text(a);
    match a {
        MenuAction::GlobalToggle => {
        },
        MenuAction::AutoStart => {
            lemma_differs_at(s, MENU_ID_GLOBAL_TOGGLE@, 0);
        },
        MenuAction::SetAiMode(AiMode::Off) => {
            lemma_differs_at(s, MENU_ID_GLOBAL_TOGGLE@, 0);
            lemma_differs_at(s, MENU_ID_AUTO_START@, 1);
        },
        MenuAction::SetAiMode(AiMode::Vigilance) => {
            lemma_differs_at(s, MENU_ID_GLOBAL_TOGGLE@, 0);
            lemma_differs_at(s, MENU_ID_AUTO_START@, 1);
            lemma_differs_at(s, MENU_ID_AI_MODE_OFF@, 8);
        },
        MenuAction::SetAiMode(AiMode::Enhanced) => {
            lemma_differs_at(s, MENU_ID_GLOBAL_TOGGLE@, 0);
            lemma_differs_at(s, MENU_ID_AUTO_START@, 1);
            lemma_differs_at(s, MENU_ID_AI_MODE_OFF@, 8);
            lemma_differs_at(s, MENU_ID_AI_MODE_VIGILANCE@, 8);
        },
        MenuAction::RunBenchmarkAll => {
            lemma_differs_at(s, MENU_ID_GLOBAL_TOGGLE@, 0);
            lemma_differs_at(s, MENU_ID_AUTO_START@, 0);
            lemma_differs_at(s, MENU_ID_AI_MODE_OFF@, 0);
            lemma_differs_at(s, MENU_ID_AI_MODE_VIGILANCE@, 0);
            lemma_differs_at(s, MENU_ID_AI_MODE_ENHANCED@, 0);
        },
        MenuAction::Quit => {
            lemma_differs_at(s, MENU_ID_GLOBAL_TOGGLE@, 0);
            lemma_differs_at(s, MENU_ID_AUTO_START@, 0);
            lemma_differs_at(s, MENU_ID_AI_MODE_OFF@, 0);
            lemma_differs_at(s, MENU_ID_AI_MODE_VIGILANCE@, 0);
            lemma_differs_at(s, MENU_ID_AI_MODE_ENHANCED@, 0);
            lemma_differs_at(s, MENU_ID_RUN_BENCHMARK_ALL@, 0);
        },
        _ => {},
    }
}

/// An id starting with 'o' or 'i' is read by `parse_prefixed_rest`.
proof fn lemma_parse_starts_o_or_i(s: Seq<char>)
    requires
        s.len() > 0,
        s[0] == 'o' || s[0] == 'i',
    ensures
        parse_menu_text(s) == parse_prefixed_rest(s),
{
    reveal_strlit("global_toggle");
    reveal_strlit("auto_start");
    reveal_strlit("ai_mode_off");
    reveal_strlit("ai_mode_vigilance");
    reveal_strlit("ai_mode_enhanced");
    reveal_strlit("run_benchmark_all");
    reveal_strlit("quit");
    reveal_strlit("display_toggle:");
    reveal_strlit("alpha:");
    reveal_strlit("mode:");
    reveal_strlit("category:");
    reveal_strlit("panel:");
    lemma_differs_at(s, MENU_ID_GLOBAL_TOGGLE@, 0);
    lemma_differs_at(s, MENU_ID_AUTO_START@, 0);
    lemma_differs_at(s, MENU_ID_AI_MODE_OFF@, 0);
    lemma_differs_at(s, MENU_ID_AI_MODE_VIGILANCE@, 0);
    lemma_differs_at(s, MENU_ID_AI_MODE_ENHANCED@, 0);
    lemma_differs_at(s, MENU_ID_RUN_BENCHMARK_ALL@, 0);
    lemma_differs_at(s, MENU_ID_QUIT@, 0);
    lemma_differs_at(s, MENU_ID_DISPLAY_TOGGLE_PREFIX@, 0);
    lemma_differs_at(s, MENU_ID_ALPHA_PREFIX@, 0);
    lemma_differs_at(s, MENU_ID_MODE_PREFIX@, 0);
    lemma_differs_at(s, MENU_ID_CATEGORY_PREFIX@, 0);
    lemma_differs_at(s, MENU_ID_PANEL_PREFIX@, 0);
}

/// The id of `MenuAction::Intensity(id, v)` reads back as that action.
#[verifier::spinoff_prover]
proof fn lemma_round_trip_intensity(id: MonitorId, v: u32)
    ensures
        parse_menu_text(menu_text(MenuAction::Intensity(id, v))) == Some(MenuAction::Intensity(id, v)),
{
    reveal_strlit("intensity:");
    reveal_strlit("alpha:");
    reveal_strlit("mode:");
    reveal_strlit("category:");
    reveal_strlit("panel:");
    let s = menu_text(MenuAction::Intensity(id, v));
    assert(s[0] == MENU_ID_INTENSITY_PREFIX@[0]);
    lemma_parse_starts_o_or_i(s);
    lemma_parse_fixed(v, false);
    lemma_fixed_text_plain(v as nat, false);
    lemma_monitor_and_value(MENU_ID_INTENSITY_PREFIX@, id, fixed_text(v as nat, false));
    lemma_differs_at(MENU_ID_INTENSITY_PREFIX@, MENU_ID_ALPHA_PREFIX@, 0);
    lemma_differs_at(MENU_ID_INTENSITY_PREFIX@, MENU_ID_MODE_PREFIX@, 0);
    lemma_differs_at(MENU_ID_INTENSITY_PREFIX@, MENU_ID_CATEGORY_PREFIX@, 0);
    lemma_differs_at(MENU_ID_INTENSITY_PREFIX@, MENU_ID_PANEL_PREFIX@, 0);
}

/// The id of `MenuAction::OverridePeriod(id, o)` reads back as that action.
#[verifier::spinoff_prover]
proof fn lemma_round_trip_overrideperiod(id: MonitorId, o: Option<u32>)
    ensures
        parse_menu_text(menu_text(MenuAction::OverridePeriod(id, o))) == Some(MenuAction::OverridePeriod(id, o)),
{
    reveal_strlit("ov_period:");
    reveal_strlit("intensity:");
    reveal_strlit("alpha:");
    reveal_strlit("mode:");
    reveal_strlit("category:");
    reveal_strlit("panel:");
    let s = menu_text(MenuAction::OverridePeriod(id, o));
    assert(s[0] == MENU_ID_OVERRIDE_PERIOD_PREFIX@[0]);
    lemma_parse_starts_o_or_i(s);
    lemma_option_text(o);
    lemma_monitor_and_value(MENU_ID_OVERRIDE_PERIOD_PREFIX@, id, option_text(o));
    lemma_differs_at(s, MENU_ID_INTENSITY_PREFIX@, 0);
    lemma_differs_at(MENU_ID_OVERRIDE_PERIOD_PREFIX@, MENU_ID_INTENSITY_PREFIX@, 0);
    lemma_differs_at(MENU_ID_OVERRIDE_PERIOD_PREFIX@, MENU_ID_ALPHA_PREFIX@, 0);
    lemma_differs_at(MENU_ID_OVERRIDE_PERIOD_PREFIX@, MENU_ID_MODE_PREFIX@, 0);
    lemma_differs_at(MENU_ID_OVERRIDE_PERIOD_PREFIX@, MENU_ID_CATEGORY_PREFIX@, 0);
    lemma_differs_at(MENU_ID_OVERRIDE_PERIOD_PREFIX@, MENU_ID_PANEL_PREFIX@, 0);
}

/// The id of `MenuAction::OverrideCover(id, o)` reads back as that action.
#[verifier::spinoff_prover]
proof fn lemma_round_trip_overridecover(id: MonitorId, o: Option<u32>)
    ensures
        parse_menu_text(menu_text(MenuAction::OverrideCover(id, o))) == Some(MenuAction::OverrideCover(id, o)),
{
    reveal_strlit("ov_cover:");
    reveal_strlit("intensity:");
    reveal_strlit("ov_period:");
    reveal_strlit("alpha:");
    reveal_strlit("mode:");
    reveal_strlit("category:");
    reveal_strlit("panel:");
    let s = menu_text(MenuAction::OverrideCover(id, o));
    assert(s[0] == MENU_ID_OVERRIDE_COVER_PREFIX@[0]);
    lemma_parse_starts_o_or_i(s);
    lemma_option_text(o);
    lemma_monitor_and_value(MENU_ID_OVERRIDE_COVER_PREFIX@, id, option_text(o));
    lemma_differs_at(s, MENU_ID_INTENSITY_PREFIX@, 0);
    lemma_differs_at(MENU_ID_OVERRIDE_COVER_PREFIX@, MENU_ID_INTENSITY_PREFIX@, 0);
    lemma_differs_at(s, MENU_ID_OVERRIDE_PERIOD_PREFIX@, 3);
    lemma_differs_at(MENU_ID_OVERRIDE_COVER_PREFIX@, MENU_ID_OVERRIDE_PERIOD_PREFIX@, 3);
    lemma_differs_at(MENU_ID_OVERRIDE_COVER_PREFIX@, MENU_ID_ALPHA_PREFIX@, 0);
    lemma_differs_at(MENU_ID_OVERRIDE_COVER_PREFIX@, MENU_ID_MODE_PREFIX@, 0);
    lemma_differs_at(MENU_ID_OVERRIDE_COVER_PREFIX@, MENU_ID_CATEGORY_PREFIX@, 0);
    lemma_differs_at(MENU_ID_OVERRIDE_COVER_PREFIX@, MENU_ID_PANEL_PREFIX@, 0);
}

/// The id of `MenuAction::OverrideSpeed(id, o)` reads back as that action.
#[verifier::spinoff_prover]
proof fn lemma_round_trip_overridespeed(id: MonitorId, o: Option<u32>)
    ensures
        parse_menu_text(menu_text(MenuAction::OverrideSpeed(id, o))) == Some(MenuAction::OverrideSpeed(id, o)),
{
    reveal_strlit("ov_speed:");
    reveal_strlit("intensity:");
    reveal_strlit("ov_period:");
    reveal_strlit("ov_cover:");
    reveal_strlit("alpha:");
    reveal_strlit("mode:");
    reveal_strlit("category:");
    reveal_strlit("panel:");
    let s = menu_text(MenuAction::OverrideSpeed(id, o));
    assert(s[0] == MENU_ID_OVERRIDE_SPEED_PREFIX@[0]);
    lemma_parse_starts_o_or_i(s);
    lemma_option_text(o);
    lemma_monitor_and_value(MENU_ID_OVERRIDE_SPEED_PREFIX@, id, option_text(o));
    lemma_differs_at(s, MENU_ID_INTENSITY_PREFIX@, 0);
    lemma_differs_at(MENU_ID_OVERRIDE_SPEED_PREFIX@, MENU_ID_INTENSITY_PREFIX@, 0);
    lemma_differs_at(s, MENU_ID_OVERRIDE_PERIOD_PREFIX@, 3);
    lemma_differs_at(MENU_ID_OVERRIDE_SPEED_PREFIX@, MENU_ID_OVERRIDE_PERIOD_PREFIX@, 3);
    lemma_differs_at(s, MENU_ID_OVERRIDE_COVER_PREFIX@, 3);
    lemma_differs_at(MENU_ID_OVERRIDE_SPEED_PREFIX@, MENU_ID_OVERRIDE_COVER_PREFIX@, 3);
    lemma_differs_at(MENU_ID_OVERRIDE_SPEED_PREFIX@, MENU_ID_ALPHA_PREFIX@, 0);
    lemma_differs_at(MENU_ID_OVERRIDE_SPEED_PREFIX@, MENU_ID_MODE_PREFIX@, 0);
    lemma_differs_at(MENU_ID_OVERRIDE_SPEED_PREFIX@, MENU_ID_CATEGORY_PREFIX@, 0);
    lemma_differs_at(MENU_ID_OVERRIDE_SPEED_PREFIX@, MENU_ID_PANEL_PREFIX@, 0);
}

/// Two texts that differ at `k` are not equal, and neither starts with the
/// other.
proof fn lemma_differs_at(s: Seq<char>, q: Seq<char>, k: int)
    requires
        0 <= k < s.len(),
        k < q.len(),
        s[k] != q[k],
    ensures
        s != q,
        !q.is_prefix_of(s),
{
    if q.is_prefix_of(s) {
        assert(s.subrange(0, q.len() as int)[k] == s[k]);
    }
}

/// The names of modes, panels and categories in menu ids: each reads back
/// as itself and has no ':'.
proof fn lemma_names()
    ensures
        forall|m: FilterMode| #[trigger] mode_of_name(mode_name(m)) == Some(m),
        forall|t: PanelType| #[trigger] panel_of_name(panel_name(t)) == Some(t),
        forall|c: DisplayCategory|
            c != DisplayCategory::Unknown ==> #[trigger] category_of_name(category_name(c)) == Some(c),
        forall|m: FilterMode, i: int| 0 <= i < mode_name(m).len() ==> #[trigger] mode_name(m)[i] != ':',
        forall|t: PanelType, i: int| 0 <= i < panel_name(t).len() ==> #[trigger] panel_name(t)[i] != ':',
        forall|c: DisplayCategory, i: int|
            0 <= i < category_name(c).len() ==> #[trigger] category_name(c)[i] != ':',
{
        reveal_strlit("BlackLayer");
        reveal_strlit("VerticalLouver");
        reveal_strlit("AIOcrInterference");
        reveal_strlit("HighIntensitySPD");
        reveal_strlit("StealthDark");
        reveal_strlit("StealthLight");
        reveal_strlit("StealthLightSubpixel");
        reveal_strlit("Unknown");
        reveal_strlit("Oled");
        reveal_strlit("LcdIps");
        reveal_strlit("LcdTn");
        reveal_strlit("NotebookFhd");
        reveal_strlit("NotebookHiDpi");
        reveal_strlit("ExternalLarge4K");
        reveal_strlit("ExternalGeneral");
    assert("BlackLayer"@.len() == 10);
    assert("VerticalLouver"@.len() == 14);
    assert("AIOcrInterference"@.len() == 17);
    assert("HighIntensitySPD"@.len() == 16);
    assert("StealthDark"@.len() == 11);
    assert("StealthLight"@.len() == 12);
    assert("StealthLightSubpixel"@.len() == 20);
    assert("Unknown"@.len() == 7);
    assert("Oled"@.len() == 4);
    assert("LcdIps"@.len() == 6);
    assert("LcdTn"@.len() == 5);
    assert("NotebookFhd"@.len() == 11);
    assert("NotebookHiDpi"@.len() == 13);
    assert("ExternalLarge4K"@.len() == 15);
    assert("ExternalGeneral"@.len() == 15);
    assert("ExternalLarge4K"@[8] != "ExternalGeneral"@[8]);
    assert forall|m: FilterMode| #[trigger] mode_of_name(mode_name(m)) == Some(m) by {
        match m {
            FilterMode::BlackLayer => {},
            FilterMode::VerticalLouver => {},
            FilterMode::AIOcrInterference => {},
            FilterMode::HighIntensitySPD => {},
            FilterMode::StealthDark => {
                assert("StealthDark"@[0] != "BlackLayer"@[0]);
                assert("StealthDark"@.len() != "VerticalLouver"@.len());
            },
            FilterMode::StealthLight => {},
        }
    }
    assert forall|t: PanelType| #[trigger] panel_of_name(panel_name(t)) == Some(t) by {
        match t {
            PanelType::Unknown => {},
            PanelType::Oled => {},
            PanelType::LcdIps => {},
            PanelType::LcdTn => {},
        }
    }
}

/// A display unplugged and plugged back in at the same position gets its
/// settings back: after its settings are kept in the cache of disconnected
/// displays, connecting a display at that position gives it those settings
/// (a known category is kept; an unknown one takes the detected category).
pub proof fn law_replug_restores_settings(
    cache: Seq<DisplayConfig>,
    c: DisplayConfig,
    stored_settings: Seq<DisplayConfig>,
    default: DisplayConfig,
    pos_key: String,
    category: DisplayCategory,
    ppi: u32,
)
    requires
        keys_unique(cache),
        cache.len() <= MAX_DISCONNECTED,
        pos_key@ == c.position_key@,
    ensures
        reconnected(
            find_key(cache_after_store(cache, c), pos_key@),
            stored_settings,
            default,
            pos_key,
            category,
            ppi,
        ) == if c.display_category == DisplayCategory::Unknown {
            DisplayConfig { display_category: category, ppi, ..c }
        } else {
            c
        },
{
    law_cache_store_then_restore(cache, c);
}

} // verus!
