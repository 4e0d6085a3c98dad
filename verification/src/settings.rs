//! The companion's preferences: their defaults, how a saved file is read back
//! over the defaults, and the normalisation applied before they are used or
//! stored.

use vstd::prelude::*;
use crate::float_bits::{
    clamp_bits, clamped, is_nan, lemma_clamped_idempotent, lemma_clamped_in_range, less_than, rank,
};
use crate::text::{
    is_trimmed, is_white_space, lemma_trimmed_fixed, lemma_trimmed_is_trimmed, lemma_trimmed_shape,
    take_at_most,
    take_chars, trim, trimmed,
};

verus! {

/// Smallest pet scale, 0.5, as a binary64 encoding.
pub const MIN_SCALE_BITS: u64 = 0x3fe0_0000_0000_0000;

/// Largest pet scale, 1.25, as a binary64 encoding.
pub const MAX_SCALE_BITS: u64 = 0x3ff4_0000_0000_0000;

/// Default pet scale, 0.82, as a binary64 encoding.
pub const DEFAULT_SCALE_BITS: u64 = 0x3fea_3d70_a3d7_0a3d;

/// Lowest control panel opacity, 0.1, as a binary64 encoding.
pub const MIN_PANEL_OPACITY_BITS: u64 = 0x3fb9_9999_9999_999a;

/// Highest control panel opacity, 1.0, as a binary64 encoding.
pub const MAX_PANEL_OPACITY_BITS: u64 = 0x3ff0_0000_0000_0000;

/// Default control panel opacity, 0.94, as a binary64 encoding.
pub const DEFAULT_PANEL_OPACITY_BITS: u64 = 0x3fee_147a_e147_ae14;

/// Longest city name kept, in characters.
pub const MAX_CITY_CHARS: usize = 40;

/// Most alarms kept.
pub const MAX_ALARMS: usize = 30;

/// A daily alarm.
#[derive(Clone, Debug)]
pub struct Alarm {
    pub id: String,
    /// The time of day, compared with `HH:MM`.
    pub time: String,
    pub label: String,
    pub enabled: bool,
}

/// The mathematical content of an alarm.
pub ghost struct AlarmView {
    pub id: Seq<char>,
    pub time: Seq<char>,
    pub label: Seq<char>,
    pub enabled: bool,
}

impl View for Alarm {
    type V = AlarmView;

    open spec fn view(&self) -> AlarmView {
        AlarmView { id: self.id@, time: self.time@, label: self.label@, enabled: self.enabled }
    }
}

/// The views of a list of alarms.
pub open spec fn alarm_views(alarms: Seq<Alarm>) -> Seq<AlarmView> {
    alarms.map_values(|a: Alarm| a@)
}

/// The user's preferences. The pet scale and the panel opacity are binary64
/// numbers held as their encodings (`f64::to_bits`).
#[derive(Clone, Debug)]
pub struct Settings {
    pub alarms: Vec<Alarm>,
    pub sleeping: bool,
    pub scale_bits: u64,
    pub panel_opacity_bits: u64,
    pub desktop_level: bool,
    pub edge_hide_enabled: bool,
    pub free_roam_enabled: bool,
    pub liquid_glass: bool,
    pub liquid_glass_initialized: bool,
    pub liquid_glass_default_off_v020_migrated: bool,
    pub mirrored: bool,
    pub snap_enabled: bool,
    pub weather_enabled: bool,
    pub city: String,
}

/// The mathematical content of the preferences.
pub ghost struct SettingsView {
    pub alarms: Seq<AlarmView>,
    pub sleeping: bool,
    pub scale_bits: u64,
    pub panel_opacity_bits: u64,
    pub desktop_level: bool,
    pub edge_hide_enabled: bool,
    pub free_roam_enabled: bool,
    pub liquid_glass: bool,
    pub liquid_glass_initialized: bool,
    pub liquid_glass_default_off_v020_migrated: bool,
    pub mirrored: bool,
    pub snap_enabled: bool,
    pub weather_enabled: bool,
    pub city: Seq<char>,
}

impl View for Settings {
    type V = SettingsView;

    open spec fn view(&self) -> SettingsView {
        SettingsView {
            alarms: alarm_views(self.alarms@),
            sleeping: self.sleeping,
            scale_bits: self.scale_bits,
            panel_opacity_bits: self.panel_opacity_bits,
            desktop_level: self.desktop_level,
            edge_hide_enabled: self.edge_hide_enabled,
            free_roam_enabled: self.free_roam_enabled,
            liquid_glass: self.liquid_glass,
            liquid_glass_initialized: self.liquid_glass_initialized,
            liquid_glass_default_off_v020_migrated: self.liquid_glass_default_off_v020_migrated,
            mirrored: self.mirrored,
            snap_enabled: self.snap_enabled,
            weather_enabled: self.weather_enabled,
            city: self.city@,
        }
    }
}

/// The default city, Shanghai.
pub open spec fn default_city() -> Seq<char> {
    seq!['上', '海']
}

/// The preferences of a first start.
pub open spec fn default_settings() -> SettingsView {
    SettingsView {
        alarms: Seq::empty(),
        sleeping: false,
        scale_bits: DEFAULT_SCALE_BITS,
        panel_opacity_bits: DEFAULT_PANEL_OPACITY_BITS,
        desktop_level: false,
        edge_hide_enabled: false,
        free_roam_enabled: true,
        liquid_glass: false,
        liquid_glass_initialized: true,
        liquid_glass_default_off_v020_migrated: true,
        mirrored: false,
        snap_enabled: true,
        weather_enabled: true,
        city: default_city(),
    }
}

/// At most the first `n` alarms.
pub open spec fn first_alarms(alarms: Seq<AlarmView>, n: nat) -> Seq<AlarmView> {
    if alarms.len() <= n {
        alarms
    } else {
        alarms.take(n as int)
    }
}

/// The normalised preferences: liquid glass is switched off by either pending
/// migration, both migration flags end up set, the scale is clamped to
/// [0.5, 1.25], the opacity to [0.1, 1.0], the city is trimmed and cut to 40
/// characters, and at most 30 alarms are kept.
pub open spec fn sanitized(v: SettingsView) -> SettingsView {
    SettingsView {
        alarms: first_alarms(v.alarms, MAX_ALARMS as nat),
        scale_bits: clamped(v.scale_bits, MIN_SCALE_BITS, MAX_SCALE_BITS),
        panel_opacity_bits: clamped(
            v.panel_opacity_bits,
            MIN_PANEL_OPACITY_BITS,
            MAX_PANEL_OPACITY_BITS,
        ),
        liquid_glass: v.liquid_glass && v.liquid_glass_initialized
            && v.liquid_glass_default_off_v020_migrated,
        liquid_glass_initialized: true,
        liquid_glass_default_off_v020_migrated: true,
        city: take_at_most(trimmed(v.city), MAX_CITY_CHARS as nat),
        ..v
    }
}

impl Default for Settings {
    fn default() -> (r: Settings)
        ensures
            r@ == default_settings(),
    {
        let city = "上海";
        proof {
            reveal_strlit("上海");
        }
        let s = Settings {
            alarms: Vec::new(),
            sleeping: false,
            scale_bits: DEFAULT_SCALE_BITS,
            panel_opacity_bits: DEFAULT_PANEL_OPACITY_BITS,
            desktop_level: false,
            edge_hide_enabled: false,
            free_roam_enabled: true,
            liquid_glass: false,
            liquid_glass_initialized: true,
            liquid_glass_default_off_v020_migrated: true,
            mirrored: false,
            snap_enabled: true,
            weather_enabled: true,
            city: city.to_owned(),
        };
        assert(s@.alarms =~= Seq::<AlarmView>::empty());
        assert(s@.city =~= default_city());
        s
    }
}

/// Normalises preferences before they are used or stored.
pub fn sanitize_settings(settings: Settings) -> (r: Settings)
    ensures
        r@ == sanitized(settings@),
{
    let mut settings = settings;
    if !settings.liquid_glass_initialized {
        settings.liquid_glass = false;
        settings.liquid_glass_initialized = true;
    }
    if !settings.liquid_glass_default_off_v020_migrated {
        settings.liquid_glass = false;
        settings.liquid_glass_default_off_v020_migrated = true;
    }
    settings.scale_bits = clamp_scale(settings.scale_bits);
    settings.panel_opacity_bits = clamp_bits(
        settings.panel_opacity_bits,
        MIN_PANEL_OPACITY_BITS,
        MAX_PANEL_OPACITY_BITS,
    );
    let city = take_chars(trim(settings.city.as_str()), MAX_CITY_CHARS);
    settings.city = city;
    let ghost before = settings.alarms@;
    settings.alarms.truncate(MAX_ALARMS);
    assert(alarm_views(settings.alarms@) =~= first_alarms(alarm_views(before), MAX_ALARMS as nat));
    settings
}

/// The pet scale clamped to [0.5, 1.25], as binary64 encodings.
pub fn clamp_scale(scale_bits: u64) -> (r: u64)
    ensures
        r == clamped(scale_bits, MIN_SCALE_BITS, MAX_SCALE_BITS),
{
    clamp_bits(scale_bits, MIN_SCALE_BITS, MAX_SCALE_BITS)
}


/// Preferences as read back from a saved file: each one that the file holds,
/// and `None` for each that it lacks.
#[derive(Clone, Debug, Default)]
pub struct SavedSettings {
    pub alarms: Option<Vec<Alarm>>,
    pub sleeping: Option<bool>,
    pub scale_bits: Option<u64>,
    pub panel_opacity_bits: Option<u64>,
    pub desktop_level: Option<bool>,
    pub edge_hide_enabled: Option<bool>,
    pub free_roam_enabled: Option<bool>,
    pub liquid_glass: Option<bool>,
    pub liquid_glass_initialized: Option<bool>,
    pub liquid_glass_default_off_v020_migrated: Option<bool>,
    pub mirrored: Option<bool>,
    pub snap_enabled: Option<bool>,
    pub weather_enabled: Option<bool>,
    pub city: Option<String>,
}

impl Settings {
    /// The preferences in the form in which they are saved: every one present.
    pub fn into_saved(self) -> (r: SavedSettings)
        ensures
            r.alarms == Some(self.alarms),
            r.sleeping == Some(self.sleeping),
            r.scale_bits == Some(self.scale_bits),
            r.panel_opacity_bits == Some(self.panel_opacity_bits),
            r.desktop_level == Some(self.desktop_level),
            r.edge_hide_enabled == Some(self.edge_hide_enabled),
            r.free_roam_enabled == Some(self.free_roam_enabled),
            r.liquid_glass == Some(self.liquid_glass),
            r.liquid_glass_initialized == Some(self.liquid_glass_initialized),
            r.liquid_glass_default_off_v020_migrated == Some(
                self.liquid_glass_default_off_v020_migrated,
            ),
            r.mirrored == Some(self.mirrored),
            r.snap_enabled == Some(self.snap_enabled),
            r.weather_enabled == Some(self.weather_enabled),
            r.city == Some(self.city),
            r.restored() == self@,
    {
        let ghost before = self@;
        let r = SavedSettings {
            alarms: Some(self.alarms),
            sleeping: Some(self.sleeping),
            scale_bits: Some(self.scale_bits),
            panel_opacity_bits: Some(self.panel_opacity_bits),
            desktop_level: Some(self.desktop_level),
            edge_hide_enabled: Some(self.edge_hide_enabled),
            free_roam_enabled: Some(self.free_roam_enabled),
            liquid_glass: Some(self.liquid_glass),
            liquid_glass_initialized: Some(self.liquid_glass_initialized),
            liquid_glass_default_off_v020_migrated: Some(self.liquid_glass_default_off_v020_migrated),
            mirrored: Some(self.mirrored),
            snap_enabled: Some(self.snap_enabled),
            weather_enabled: Some(self.weather_enabled),
            city: Some(self.city),
        };
        assert(r.restored() == before);
        r
    }
}

/// The value held, or `d`.
pub open spec fn value_or<T>(o: Option<T>, d: T) -> T {
    match o {
        Some(v) => v,
        None => d,
    }
}

impl SavedSettings {
    /// Each saved preference over the default one; a file written before the
    /// liquid glass migration existed lacks its flag, which then reads as unset.
    pub open spec fn restored(&self) -> SettingsView {
        let d = default_settings();
        SettingsView {
            alarms: match self.alarms {
                Some(a) => alarm_views(a@),
                None => d.alarms,
            },
            sleeping: value_or(self.sleeping, d.sleeping),
            scale_bits: value_or(self.scale_bits, d.scale_bits),
            panel_opacity_bits: value_or(self.panel_opacity_bits, d.panel_opacity_bits),
            desktop_level: value_or(self.desktop_level, d.desktop_level),
            edge_hide_enabled: value_or(self.edge_hide_enabled, d.edge_hide_enabled),
            free_roam_enabled: value_or(self.free_roam_enabled, d.free_roam_enabled),
            liquid_glass: value_or(self.liquid_glass, d.liquid_glass),
            liquid_glass_initialized: value_or(
                self.liquid_glass_initialized,
                d.liquid_glass_initialized,
            ),
            liquid_glass_default_off_v020_migrated: value_or(
                self.liquid_glass_default_off_v020_migrated,
                false,
            ),
            mirrored: value_or(self.mirrored, d.mirrored),
            snap_enabled: value_or(self.snap_enabled, d.snap_enabled),
            weather_enabled: value_or(self.weather_enabled, d.weather_enabled),
            city: match self.city {
                Some(c) => c@,
                None => d.city,
            },
        }
    }

    /// The preferences that the file holds, completed as `restored` says.
    pub fn into_settings(self) -> (r: Settings)
        ensures
            r@ == self.restored(),
    {
        let ghost saved = self;
        let d = Settings::default();
        let alarms = match self.alarms {
            Some(a) => a,
            None => d.alarms,
        };
        let city = match self.city {
            Some(c) => c,
            None => d.city,
        };
        let r = Settings {
            alarms,
            sleeping: bool_or(self.sleeping, d.sleeping),
            scale_bits: bits_or(self.scale_bits, d.scale_bits),
            panel_opacity_bits: bits_or(self.panel_opacity_bits, d.panel_opacity_bits),
            desktop_level: bool_or(self.desktop_level, d.desktop_level),
            edge_hide_enabled: bool_or(self.edge_hide_enabled, d.edge_hide_enabled),
            free_roam_enabled: bool_or(self.free_roam_enabled, d.free_roam_enabled),
            liquid_glass: bool_or(self.liquid_glass, d.liquid_glass),
            liquid_glass_initialized: bool_or(
                self.liquid_glass_initialized,
                d.liquid_glass_initialized,
            ),
            liquid_glass_default_off_v020_migrated: bool_or(
                self.liquid_glass_default_off_v020_migrated,
                false,
            ),
            mirrored: bool_or(self.mirrored, d.mirrored),
            snap_enabled: bool_or(self.snap_enabled, d.snap_enabled),
            weather_enabled: bool_or(self.weather_enabled, d.weather_enabled),
            city,
        };
        assert(r@ == saved.restored());
        r
    }
}

fn bool_or(o: Option<bool>, d: bool) -> (r: bool)
    ensures
        r == value_or(o, d),
{
    match o {
        Some(v) => v,
        None => d,
    }
}

fn bits_or(o: Option<u64>, d: u64) -> (r: u64)
    ensures
        r == value_or(o, d),
{
    match o {
        Some(v) => v,
        None => d,
    }
}

/// The preferences to start with: the saved ones, completed and normalised,
/// or the defaults when no saved file could be read.
pub fn load_settings(saved: Option<SavedSettings>) -> (r: Settings)
    ensures
        r@ == match saved {
            Some(s) => sanitized(s.restored()),
            None => default_settings(),
        },
{
    match saved {
        Some(s) => sanitize_settings(s.into_settings()),
        None => Settings::default(),
    }
}

/// The defaults are already normalised.
pub proof fn lemma_default_is_sanitized()
    ensures
        sanitized(default_settings()) == default_settings(),
{
    let d = default_settings();
    assert(is_trimmed(d.city));
    lemma_trimmed_fixed(d.city);
    assert(sanitized(d) =~= d);
}

/// Normalised preferences keep at most 30 alarms and a city of at most 40
/// characters that neither starts nor ends with white space unless cut there,
/// hold a scale in [0.5, 1.25] and an opacity in [0.1, 1.0] unless the input
/// was NaN, have both migration flags set, and have liquid glass on only if it
/// was on before.
pub proof fn lemma_sanitized_bounds(v: SettingsView)
    ensures
        sanitized(v).alarms.len() <= MAX_ALARMS,
        sanitized(v).alarms =~= v.alarms.take(sanitized(v).alarms.len() as int),
        sanitized(v).city.len() <= MAX_CITY_CHARS,
        sanitized(v).city.len() > 0 ==> !is_white_space(sanitized(v).city[0]),
        !is_nan(v.scale_bits) ==> rank(MIN_SCALE_BITS) <= rank(sanitized(v).scale_bits) <= rank(
            MAX_SCALE_BITS,
        ),
        !is_nan(v.panel_opacity_bits) ==> rank(MIN_PANEL_OPACITY_BITS) <= rank(
            sanitized(v).panel_opacity_bits,
        ) <= rank(MAX_PANEL_OPACITY_BITS),
        sanitized(v).liquid_glass_initialized,
        sanitized(v).liquid_glass_default_off_v020_migrated,
        sanitized(v).liquid_glass ==> v.liquid_glass,
{
    lemma_trimmed_is_trimmed(v.city);
    lemma_clamped_in_range(v.scale_bits, MIN_SCALE_BITS, MAX_SCALE_BITS);
    lemma_clamped_in_range(v.panel_opacity_bits, MIN_PANEL_OPACITY_BITS, MAX_PANEL_OPACITY_BITS);
}

/// Normalising twice is normalising once, unless the 40-character cut of the
/// trimmed city ends in white space, which the second pass would trim.
pub proof fn lemma_sanitize_idempotent(v: SettingsView)
    requires
        !(trimmed(v.city).len() > MAX_CITY_CHARS && is_white_space(
            trimmed(v.city)[MAX_CITY_CHARS - 1],
        )),
    ensures
        sanitized(sanitized(v)) == sanitized(v),
{
    let t = trimmed(v.city);
    let c = take_at_most(t, MAX_CITY_CHARS as nat);
    lemma_trimmed_is_trimmed(v.city);
    if t.len() > MAX_CITY_CHARS {
        assert(c[0] == t[0]);
        assert(c.last() == t[MAX_CITY_CHARS - 1]);
    }
    assert(is_trimmed(c));
    lemma_trimmed_fixed(c);
    lemma_clamped_idempotent(v.scale_bits, MIN_SCALE_BITS, MAX_SCALE_BITS);
    lemma_clamped_idempotent(v.panel_opacity_bits, MIN_PANEL_OPACITY_BITS, MAX_PANEL_OPACITY_BITS);
    assert(sanitized(sanitized(v)) =~= sanitized(v));
}

/// Normalised preferences, saved and loaded again, come back as they were,
/// unless their city was cut at 40 characters just after white space.
pub proof fn lemma_saved_settings_load_back(u: SettingsView, saved: SavedSettings)
    requires
        !(trimmed(u.city).len() > MAX_CITY_CHARS && is_white_space(
            trimmed(u.city)[MAX_CITY_CHARS - 1],
        )),
        saved.restored() == sanitized(u),
    ensures
        sanitized(saved.restored()) == sanitized(u),
{
    lemma_sanitize_idempotent(u);
}

/// Preferences saved before the liquid glass migration, or never initialised,
/// come back with liquid glass off; others keep it as saved.
pub proof fn lemma_liquid_glass_migration(s: SavedSettings)
    ensures
        s.liquid_glass_default_off_v020_migrated is None ==> !sanitized(s.restored()).liquid_glass,
        s.liquid_glass_initialized == Some(false) ==> !sanitized(s.restored()).liquid_glass,
        s.liquid_glass_default_off_v020_migrated == Some(true) && s.liquid_glass_initialized
            != Some(false) ==> sanitized(s.restored()).liquid_glass == s.restored().liquid_glass,
{
}


/// A preference that a saved file lacks loads as its first-start value, and
/// one that it holds loads as saved; only the liquid glass migration flag,
/// which older files lack, loads as unset when missing.
pub proof fn lemma_missing_preferences_load_as_defaults(s: SavedSettings)
    ensures
        s.alarms is None ==> s.restored().alarms.len() == 0,
        s.alarms matches Some(a) ==> s.restored().alarms == alarm_views(a@),
        s.sleeping is None ==> !s.restored().sleeping,
        s.scale_bits is None ==> s.restored().scale_bits == 0x3fea_3d70_a3d7_0a3du64,
        s.panel_opacity_bits is None ==> s.restored().panel_opacity_bits == 0x3fee_147a_e147_ae14u64,
        s.desktop_level is None ==> !s.restored().desktop_level,
        s.edge_hide_enabled is None ==> !s.restored().edge_hide_enabled,
        s.free_roam_enabled is None ==> s.restored().free_roam_enabled,
        s.liquid_glass is None ==> !s.restored().liquid_glass,
        s.liquid_glass_initialized is None ==> s.restored().liquid_glass_initialized,
        s.liquid_glass_default_off_v020_migrated is None
            ==> !s.restored().liquid_glass_default_off_v020_migrated,
        s.mirrored is None ==> !s.restored().mirrored,
        s.snap_enabled is None ==> s.restored().snap_enabled,
        s.weather_enabled is None ==> s.restored().weather_enabled,
        s.city is None ==> s.restored().city == seq!['上', '海'],
        s.city matches Some(c) ==> s.restored().city == c@,
        s.sleeping matches Some(b) ==> s.restored().sleeping == b,
        s.scale_bits matches Some(b) ==> s.restored().scale_bits == b,
        s.panel_opacity_bits matches Some(b) ==> s.restored().panel_opacity_bits == b,
        s.desktop_level matches Some(b) ==> s.restored().desktop_level == b,
        s.edge_hide_enabled matches Some(b) ==> s.restored().edge_hide_enabled == b,
        s.free_roam_enabled matches Some(b) ==> s.restored().free_roam_enabled == b,
        s.liquid_glass matches Some(b) ==> s.restored().liquid_glass == b,
        s.liquid_glass_initialized matches Some(b) ==> s.restored().liquid_glass_initialized == b,
        s.liquid_glass_default_off_v020_migrated matches Some(b)
            ==> s.restored().liquid_glass_default_off_v020_migrated == b,
        s.mirrored matches Some(b) ==> s.restored().mirrored == b,
        s.snap_enabled matches Some(b) ==> s.restored().snap_enabled == b,
        s.weather_enabled matches Some(b) ==> s.restored().weather_enabled == b,
{
}

/// The normalised city is the piece of the entered city that starts at its
/// first character that is not white space (index `i`) and runs for at most
/// 40 characters: it stops early only where nothing but white space follows,
/// it ends in white space only where the 40-character cut fell there, and it
/// is empty only when the city is all white space.
pub proof fn lemma_sanitized_city(v: SettingsView) -> (i: int)
    ensures
        sanitized(v).city.len() <= 40,
        0 <= i && i + sanitized(v).city.len() <= v.city.len(),
        sanitized(v).city == v.city.subrange(i, i + sanitized(v).city.len()),
        forall|j: int| 0 <= j < i ==> is_white_space(#[trigger] v.city[j]),
        sanitized(v).city.len() > 0 ==> !is_white_space(sanitized(v).city[0]),
        sanitized(v).city.len() < 40 ==> forall|j: int|
            i + sanitized(v).city.len() <= j < v.city.len() ==> is_white_space(
                #[trigger] v.city[j],
            ),
        sanitized(v).city.len() > 0 && is_white_space(sanitized(v).city.last()) ==> exists|j: int|
            i + sanitized(v).city.len() <= j < v.city.len() && !is_white_space(
                #[trigger] v.city[j],
            ),
        (exists|j: int| 0 <= j < v.city.len() && !is_white_space(#[trigger] v.city[j]))
            ==> sanitized(v).city.len() > 0,
{
    let c = v.city;
    let tr = trimmed(c);
    let i = lemma_trimmed_shape(c);
    let t = sanitized(v).city;
    assert(t == take_at_most(tr, 40));
    if tr.len() > 40 {
        assert(t =~= c.subrange(i, i + 40));
        let last = i + tr.len() - 1;
        assert(c[last] == tr.last());
        assert(i + t.len() <= last < c.len() && !is_white_space(c[last]));
    } else {
        assert(t == tr);
    }
    if exists|j: int| 0 <= j < c.len() && !is_white_space(#[trigger] c[j]) {
        let j = choose|j: int| 0 <= j < c.len() && !is_white_space(#[trigger] c[j]);
        if tr.len() == 0 {
            assert(is_white_space(c[j]));
        }
    }
    i
}

/// Normalising keeps a list of at most 30 alarms as it is and cuts a longer
/// one to exactly its first 30, in order.
pub proof fn lemma_sanitize_keeps_alarms(v: SettingsView)
    ensures
        v.alarms.len() <= 30 ==> sanitized(v).alarms == v.alarms,
        v.alarms.len() > 30 ==> sanitized(v).alarms.len() == 30,
        v.alarms.len() > 30 ==> forall|i: int|
            0 <= i < 30 ==> #[trigger] sanitized(v).alarms[i] == v.alarms[i],
{
}

/// Normalising touches only the scale, the opacity, the liquid glass flags,
/// the city and the alarms; every other preference keeps its value. Liquid
/// glass stays on exactly when it was on and both migration flags were set.
pub proof fn lemma_sanitize_keeps_other_preferences(v: SettingsView)
    ensures
        sanitized(v).sleeping == v.sleeping,
        sanitized(v).desktop_level == v.desktop_level,
        sanitized(v).edge_hide_enabled == v.edge_hide_enabled,
        sanitized(v).free_roam_enabled == v.free_roam_enabled,
        sanitized(v).mirrored == v.mirrored,
        sanitized(v).snap_enabled == v.snap_enabled,
        sanitized(v).weather_enabled == v.weather_enabled,
        sanitized(v).liquid_glass <==> (v.liquid_glass && v.liquid_glass_initialized
            && v.liquid_glass_default_off_v020_migrated),
        sanitized(v).liquid_glass_initialized,
        sanitized(v).liquid_glass_default_off_v020_migrated,
{
}

/// The scale and the opacity are clamped: a value below the lower bound (in
/// the binary64 order) becomes the bound, one above the upper bound becomes
/// that bound, and any other value, NaN included, is kept.
pub proof fn lemma_sanitize_clamps(v: SettingsView)
    ensures
        less_than(v.scale_bits, 0x3fe0_0000_0000_0000u64) ==> sanitized(v).scale_bits
            == 0x3fe0_0000_0000_0000u64,
        less_than(0x3ff4_0000_0000_0000u64, v.scale_bits) ==> sanitized(v).scale_bits
            == 0x3ff4_0000_0000_0000u64,
        !less_than(v.scale_bits, 0x3fe0_0000_0000_0000u64) && !less_than(
            0x3ff4_0000_0000_0000u64,
            v.scale_bits,
        ) ==> sanitized(v).scale_bits == v.scale_bits,
        less_than(v.panel_opacity_bits, 0x3fb9_9999_9999_999au64) ==> sanitized(
            v,
        ).panel_opacity_bits == 0x3fb9_9999_9999_999au64,
        less_than(0x3ff0_0000_0000_0000u64, v.panel_opacity_bits) ==> sanitized(
            v,
        ).panel_opacity_bits == 0x3ff0_0000_0000_0000u64,
        !less_than(v.panel_opacity_bits, 0x3fb9_9999_9999_999au64) && !less_than(
            0x3ff0_0000_0000_0000u64,
            v.panel_opacity_bits,
        ) ==> sanitized(v).panel_opacity_bits == v.panel_opacity_bits,
{
    lemma_clamped_in_range(v.scale_bits, MIN_SCALE_BITS, MAX_SCALE_BITS);
    lemma_clamped_in_range(v.panel_opacity_bits, MIN_PANEL_OPACITY_BITS, MAX_PANEL_OPACITY_BITS);
}

} // verus!
