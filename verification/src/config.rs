use vstd::prelude::*;
use vstd::string::StringExecFns;

use crate::json::{bool_text, decimal_text, json_bool, json_quoted, json_string};
use crate::text::{chars_of, decimal, parse_u32, same_chars, u32_text};

verus! {

/// The user's settings, as the settings file and the page hold them.
pub struct Config {
    pub theme: String,
    pub font_size: u32,
    pub font_family: String,
    pub auto_copy: bool,
    pub copy_delay: u32,
    pub width: u32,
    pub height: u32,
    pub auto_start: bool,
    pub close_to_tray: bool,
}

/// The settings, with their texts as character sequences.
pub struct ConfigView {
    pub theme: Seq<char>,
    pub font_size: u32,
    pub font_family: Seq<char>,
    pub auto_copy: bool,
    pub copy_delay: u32,
    pub width: u32,
    pub height: u32,
    pub auto_start: bool,
    pub close_to_tray: bool,
}

impl View for Config {
    type V = ConfigView;

    open spec fn view(&self) -> ConfigView {
        ConfigView {
            theme: self.theme@,
            font_size: self.font_size,
            font_family: self.font_family@,
            auto_copy: self.auto_copy,
            copy_delay: self.copy_delay,
            width: self.width,
            height: self.height,
            auto_start: self.auto_start,
            close_to_tray: self.close_to_tray,
        }
    }
}

/// The settings used when none are stored: light theme, 16 px font, no font
/// family, no automatic copy, a copy delay of 2, a 400 by 600 window, no
/// start with the system and no closing to the tray.
pub open spec fn default_config() -> ConfigView {
    ConfigView {
        theme: "light"@,
        font_size: 16,
        font_family: Seq::empty(),
        auto_copy: false,
        copy_delay: 2,
        width: 400,
        height: 600,
        auto_start: false,
        close_to_tray: false,
    }
}

/// The settings after the page has set `key` to `value`. Texts are taken as
/// they come, numbers only when they parse as a `u32` (else the old number
/// stays), and flags are on exactly when the value is `true`. Unknown keys
/// change nothing.
pub open spec fn with_setting(c: ConfigView, key: Seq<char>, value: Seq<char>) -> ConfigView {
    if key == "theme"@ {
        ConfigView { theme: value, ..c }
    } else if key == "fontSize"@ {
        match u32_text(value) {
            Some(n) => ConfigView { font_size: n, ..c },
            None => c,
        }
    } else if key == "fontFamily"@ {
        ConfigView { font_family: value, ..c }
    } else if key == "autoCopy"@ {
        ConfigView { auto_copy: value == "true"@, ..c }
    } else if key == "copyDelay"@ {
        match u32_text(value) {
            Some(n) => ConfigView { copy_delay: n, ..c },
            None => c,
        }
    } else if key == "autoStart"@ {
        ConfigView { auto_start: value == "true"@, ..c }
    } else if key == "closeToTray"@ {
        ConfigView { close_to_tray: value == "true"@, ..c }
    } else {
        c
    }
}

/// One member of a JSON object: the separator before it, the quoted name, the
/// colon and the value. The pretty layout puts each member on a line of its
/// own, indented by two spaces, with a space after the colon.
pub open spec fn member_text(first: bool, name: Seq<char>, value: Seq<char>, pretty: bool) -> Seq<char> {
    let sep = if pretty {
        if first {
            "\n  "@
        } else {
            ",\n  "@
        }
    } else {
        if first {
            Seq::empty()
        } else {
            ","@
        }
    };
    let colon = if pretty {
        ": "@
    } else {
        ":"@
    };
    sep + seq!['"'] + name + seq!['"'] + colon + value
}

/// The settings as a JSON object with the members in field order, compact or
/// pretty.
pub open spec fn config_json(c: ConfigView, pretty: bool) -> Seq<char> {
    "{"@ + member_text(true, "theme"@, json_quoted(c.theme), pretty) + member_text(
        false,
        "font_size"@,
        decimal(c.font_size as nat),
        pretty,
    ) + member_text(false, "font_family"@, json_quoted(c.font_family), pretty) + member_text(
        false,
        "auto_copy"@,
        json_bool(c.auto_copy),
        pretty,
    ) + member_text(false, "copy_delay"@, decimal(c.copy_delay as nat), pretty) + member_text(
        false,
        "width"@,
        decimal(c.width as nat),
        pretty,
    ) + member_text(false, "height"@, decimal(c.height as nat), pretty) + member_text(
        false,
        "auto_start"@,
        json_bool(c.auto_start),
        pretty,
    ) + member_text(false, "close_to_tray"@, json_bool(c.close_to_tray), pretty) + (if pretty {
        "\n}"@
    } else {
        "}"@
    })
}

impl Default for Config {
    fn default() -> (c: Self)
        ensures
            c@ == default_config(),
    {
        Config {
            theme: "light".to_string(),
            font_size: 16,
            font_family: String::new(),
            auto_copy: false,
            copy_delay: 2,
            width: 400,
            height: 600,
            auto_start: false,
            close_to_tray: false,
        }
    }
}

/// Appends one member of a JSON object to `out`.
fn push_member(out: &mut String, first: bool, name: &str, value: &str, pretty: bool)
    ensures
        final(out)@ == old(out)@ + member_text(first, name@, value@, pretty),
{
    let ghost before = out@;
    if pretty {
        if first {
            out.append("\n  ");
        } else {
            out.append(",\n  ");
        }
    } else {
        if !first {
            out.append(",");
        }
    }
    let ghost sep = out@.subrange(before.len() as int, out@.len() as int);
    out.append("\"");
    out.append(name);
    out.append("\"");
    if pretty {
        out.append(": ");
    } else {
        out.append(":");
    }
    out.append(value);
    proof {
        let sep_spec: Seq<char> = if pretty {
            if first {
                "\n  "@
            } else {
                ",\n  "@
            }
        } else {
            if first {
                Seq::empty()
            } else {
                ","@
            }
        };
        assert(sep =~= sep_spec);
        reveal_strlit("\"");
        assert(out@ =~= before + member_text(first, name@, value@, pretty));
    }
}

impl Config {
    /// Sets `key` to `value` the way the page's settings messages do.
    pub fn apply_setting(&mut self, key: &str, value: &str)
        ensures
            final(self)@ == with_setting(old(self)@, key@, value@),
    {
        let k = chars_of(key);
        let v = chars_of(value);
        let is_true = same_chars(&v, &chars_of("true"));
        if same_chars(&k, &chars_of("theme")) {
            self.theme = value.to_string();
        } else if same_chars(&k, &chars_of("fontSize")) {
            match parse_u32(&v) {
                Some(n) => {
                    self.font_size = n;
                },
                None => {},
            }
        } else if same_chars(&k, &chars_of("fontFamily")) {
            self.font_family = value.to_string();
        } else if same_chars(&k, &chars_of("autoCopy")) {
            self.auto_copy = is_true;
        } else if same_chars(&k, &chars_of("copyDelay")) {
            match parse_u32(&v) {
                Some(n) => {
                    self.copy_delay = n;
                },
                None => {},
            }
        } else if same_chars(&k, &chars_of("autoStart")) {
            self.auto_start = is_true;
        } else if same_chars(&k, &chars_of("closeToTray")) {
            self.close_to_tray = is_true;
        }
    }

    /// Records the window's inner size.
    pub fn set_size(&mut self, width: u32, height: u32)
        ensures
            final(self)@ == (ConfigView { width, height, ..old(self)@ }),
    {
        self.width = width;
        self.height = height;
    }

    fn json_text(&self, pretty: bool) -> (s: String)
        ensures
            s@ == config_json(self@, pretty),
    {
        let mut out = "{".to_string();
        let theme = json_string(self.theme.as_str());
        push_member(&mut out, true, "theme", theme.as_str(), pretty);
        let font_size = decimal_text(self.font_size as u64);
        push_member(&mut out, false, "font_size", font_size.as_str(), pretty);
        let font_family = json_string(self.font_family.as_str());
        push_member(&mut out, false, "font_family", font_family.as_str(), pretty);
        let auto_copy = bool_text(self.auto_copy);
        push_member(&mut out, false, "auto_copy", auto_copy.as_str(), pretty);
        let copy_delay = decimal_text(self.copy_delay as u64);
        push_member(&mut out, false, "copy_delay", copy_delay.as_str(), pretty);
        let width = decimal_text(self.width as u64);
        push_member(&mut out, false, "width", width.as_str(), pretty);
        let height = decimal_text(self.height as u64);
        push_member(&mut out, false, "height", height.as_str(), pretty);
        let auto_start = bool_text(self.auto_start);
        push_member(&mut out, false, "auto_start", auto_start.as_str(), pretty);
        let close_to_tray = bool_text(self.close_to_tray);
        push_member(&mut out, false, "close_to_tray", close_to_tray.as_str(), pretty);
        if pretty {
            out.append("\n}");
        } else {
            out.append("}");
        }
        out
    }

    /// The settings as compact JSON, the form the page receives.
    pub fn to_json(&self) -> (s: String)
        ensures
            s@ == config_json(self@, false),
    {
        self.json_text(false)
    }

    /// The settings as pretty-printed JSON, the form the settings file holds.
    pub fn to_json_pretty(&self) -> (s: String)
        ensures
            s@ == config_json(self@, true),
    {
        self.json_text(true)
    }
}

/// Applying the same setting twice is the same as applying it once.
pub proof fn setting_is_idempotent(c: ConfigView, key: Seq<char>, value: Seq<char>)
    ensures
        with_setting(with_setting(c, key, value), key, value) == with_setting(c, key, value),
{
}

/// Settings with different keys do not interfere: they can be applied in
/// either order.
pub proof fn settings_commute(c: ConfigView, k1: Seq<char>, v1: Seq<char>, k2: Seq<char>, v2: Seq<char>)
    requires
        k1 != k2,
    ensures
        with_setting(with_setting(c, k1, v1), k2, v2) == with_setting(with_setting(c, k2, v2), k1, v1),
{
}

/// A setting with an unknown key changes nothing.
pub proof fn unknown_setting_changes_nothing(c: ConfigView, key: Seq<char>, value: Seq<char>)
    requires
        key != "theme"@,
        key != "fontSize"@,
        key != "fontFamily"@,
        key != "autoCopy"@,
        key != "copyDelay"@,
        key != "autoStart"@,
        key != "closeToTray"@,
    ensures
        with_setting(c, key, value) == c,
{
}

proof fn reveal_setting_keys()
    ensures
        "theme"@.len() == 5,
        "fontSize"@ == seq!['f', 'o', 'n', 't', 'S', 'i', 'z', 'e'],
        "fontFamily"@ == seq!['f', 'o', 'n', 't', 'F', 'a', 'm', 'i', 'l', 'y'],
        "autoCopy"@ == seq!['a', 'u', 't', 'o', 'C', 'o', 'p', 'y'],
        "copyDelay"@ == seq!['c', 'o', 'p', 'y', 'D', 'e', 'l', 'a', 'y'],
        "autoStart"@ == seq!['a', 'u', 't', 'o', 'S', 't', 'a', 'r', 't'],
        "closeToTray"@.len() == 11,
{
    reveal_strlit("theme");
    reveal_strlit("fontSize");
    reveal_strlit("fontFamily");
    reveal_strlit("autoCopy");
    reveal_strlit("copyDelay");
    reveal_strlit("autoStart");
    reveal_strlit("closeToTray");
    assert("fontSize"@ =~= seq!['f', 'o', 'n', 't', 'S', 'i', 'z', 'e']);
    assert("fontFamily"@ =~= seq!['f', 'o', 'n', 't', 'F', 'a', 'm', 'i', 'l', 'y']);
    assert("autoCopy"@ =~= seq!['a', 'u', 't', 'o', 'C', 'o', 'p', 'y']);
    assert("copyDelay"@ =~= seq!['c', 'o', 'p', 'y', 'D', 'e', 'l', 'a', 'y']);
    assert("autoStart"@ =~= seq!['a', 'u', 't', 'o', 'S', 't', 'a', 'r', 't']);
}

/// Each setting sets its own field to what the value says, whatever the field
/// held before, and leaves every other field as it was: texts are taken
/// whole (the empty text too), flags are on exactly when the value is
/// `true`, and numbers are taken when the value parses as a `u32`.
pub proof fn each_setting_sets_its_own_field(c: ConfigView, value: Seq<char>)
    ensures
        ({
            let r = with_setting(c, "theme"@, value);
            r.theme == value && r.font_size == c.font_size && r.font_family == c.font_family
                && r.auto_copy == c.auto_copy && r.copy_delay == c.copy_delay && r.width == c.width
                && r.height == c.height && r.auto_start == c.auto_start && r.close_to_tray
                == c.close_to_tray
        }),
        ({
            let r = with_setting(c, "fontFamily"@, value);
            r.font_family == value && r.theme == c.theme && r.font_size == c.font_size
                && r.auto_copy == c.auto_copy && r.copy_delay == c.copy_delay && r.width == c.width
                && r.height == c.height && r.auto_start == c.auto_start && r.close_to_tray
                == c.close_to_tray
        }),
        ({
            let r = with_setting(c, "autoCopy"@, value);
            r.auto_copy == (value == "true"@) && r.theme == c.theme && r.font_size == c.font_size
                && r.font_family == c.font_family && r.copy_delay == c.copy_delay && r.width
                == c.width && r.height == c.height && r.auto_start == c.auto_start
                && r.close_to_tray == c.close_to_tray
        }),
        ({
            let r = with_setting(c, "autoStart"@, value);
            r.auto_start == (value == "true"@) && r.theme == c.theme && r.font_size == c.font_size
                && r.font_family == c.font_family && r.auto_copy == c.auto_copy && r.copy_delay
                == c.copy_delay && r.width == c.width && r.height == c.height && r.close_to_tray
                == c.close_to_tray
        }),
        ({
            let r = with_setting(c, "closeToTray"@, value);
            r.close_to_tray == (value == "true"@) && r.theme == c.theme && r.font_size
                == c.font_size && r.font_family == c.font_family && r.auto_copy == c.auto_copy
                && r.copy_delay == c.copy_delay && r.width == c.width && r.height == c.height
                && r.auto_start == c.auto_start
        }),
        ({
            let r = with_setting(c, "fontSize"@, value);
            &&& u32_text(value) matches Some(n) ==> r.font_size == n
            &&& u32_text(value) is None ==> r.font_size == c.font_size
            &&& r.theme == c.theme && r.font_family == c.font_family && r.auto_copy == c.auto_copy
                && r.copy_delay == c.copy_delay && r.width == c.width && r.height == c.height
                && r.auto_start == c.auto_start && r.close_to_tray == c.close_to_tray
        }),
        ({
            let r = with_setting(c, "copyDelay"@, value);
            &&& u32_text(value) matches Some(n) ==> r.copy_delay == n
            &&& u32_text(value) is None ==> r.copy_delay == c.copy_delay
            &&& r.theme == c.theme && r.font_size == c.font_size && r.font_family == c.font_family
                && r.auto_copy == c.auto_copy && r.width == c.width && r.height == c.height
                && r.auto_start == c.auto_start && r.close_to_tray == c.close_to_tray
        }),
{
    reveal_setting_keys();
}

/// The later of two settings with the same key wins, so a setting can always
/// be switched back (a flag off again, a text back to the empty one), unless
/// the later value is a number that does not parse.
pub proof fn later_setting_wins(c: ConfigView, key: Seq<char>, v1: Seq<char>, v2: Seq<char>)
    requires
        key == "fontSize"@ || key == "copyDelay"@ ==> u32_text(v2) is Some,
    ensures
        with_setting(with_setting(c, key, v1), key, v2) == with_setting(c, key, v2),
{
    reveal_setting_keys();
}

/// The text that stands for the JSON member `name` with `value`: the quoted
/// name, the colon (with a space in the pretty layout) and the value.
pub open spec fn member_entry(name: Seq<char>, value: Seq<char>, pretty: bool) -> Seq<char> {
    seq!['"'] + name + seq!['"'] + (if pretty {
        ": "@
    } else {
        ":"@
    }) + value
}

/// `json` holds the member `name` with `value` somewhere.
pub open spec fn has_member(json: Seq<char>, name: Seq<char>, value: Seq<char>, pretty: bool) -> bool {
    exists|p: Seq<char>, r: Seq<char>| json == p + member_entry(name, value, pretty) + r
}

proof fn lemma_member_split(first: bool, name: Seq<char>, value: Seq<char>, pretty: bool)
    ensures
        exists|sep: Seq<char>|
            member_text(first, name, value, pretty) == sep + member_entry(name, value, pretty),
{
    let sep: Seq<char> = if pretty {
        if first {
            "\n  "@
        } else {
            ",\n  "@
        }
    } else {
        if first {
            Seq::empty()
        } else {
            ","@
        }
    };
    assert(member_text(first, name, value, pretty) =~= sep + member_entry(name, value, pretty));
}

proof fn lemma_member_found(
    before: Seq<char>,
    first: bool,
    name: Seq<char>,
    value: Seq<char>,
    pretty: bool,
    after: Seq<char>,
)
    ensures
        has_member(before + member_text(first, name, value, pretty) + after, name, value, pretty),
{
    lemma_member_split(first, name, value, pretty);
    let sep = choose|sep: Seq<char>|
        member_text(first, name, value, pretty) == sep + member_entry(name, value, pretty);
    let e = member_entry(name, value, pretty);
    let json = before + member_text(first, name, value, pretty) + after;
    assert(json =~= (before + sep) + e + after);
}

/// The settings' JSON holds every field under its own name, with that
/// field's value written as JSON: texts quoted, numbers in decimal, flags as
/// `true` or `false`.
pub proof fn json_holds_each_field_under_its_name(c: ConfigView, pretty: bool)
    ensures
        has_member(config_json(c, pretty), "theme"@, json_quoted(c.theme), pretty),
        has_member(config_json(c, pretty), "font_size"@, decimal(c.font_size as nat), pretty),
        has_member(config_json(c, pretty), "font_family"@, json_quoted(c.font_family), pretty),
        has_member(config_json(c, pretty), "auto_copy"@, json_bool(c.auto_copy), pretty),
        has_member(config_json(c, pretty), "copy_delay"@, decimal(c.copy_delay as nat), pretty),
        has_member(config_json(c, pretty), "width"@, decimal(c.width as nat), pretty),
        has_member(config_json(c, pretty), "height"@, decimal(c.height as nat), pretty),
        has_member(config_json(c, pretty), "auto_start"@, json_bool(c.auto_start), pretty),
        has_member(config_json(c, pretty), "close_to_tray"@, json_bool(c.close_to_tray), pretty),
{
    let m1 = member_text(true, "theme"@, json_quoted(c.theme), pretty);
    let m2 = member_text(false, "font_size"@, decimal(c.font_size as nat), pretty);
    let m3 = member_text(false, "font_family"@, json_quoted(c.font_family), pretty);
    let m4 = member_text(false, "auto_copy"@, json_bool(c.auto_copy), pretty);
    let m5 = member_text(false, "copy_delay"@, decimal(c.copy_delay as nat), pretty);
    let m6 = member_text(false, "width"@, decimal(c.width as nat), pretty);
    let m7 = member_text(false, "height"@, decimal(c.height as nat), pretty);
    let m8 = member_text(false, "auto_start"@, json_bool(c.auto_start), pretty);
    let m9 = member_text(false, "close_to_tray"@, json_bool(c.close_to_tray), pretty);
    let close: Seq<char> = if pretty {
        "\n}"@
    } else {
        "}"@
    };
    let p0 = "{"@;
    let p1 = p0 + m1;
    let p2 = p1 + m2;
    let p3 = p2 + m3;
    let p4 = p3 + m4;
    let p5 = p4 + m5;
    let p6 = p5 + m6;
    let p7 = p6 + m7;
    let p8 = p7 + m8;
    let p9 = p8 + m9;
    let json = config_json(c, pretty);
    assert(json == p9 + close);
    assert(has_member(json, "theme"@, json_quoted(c.theme), pretty)) by {
        lemma_member_found(p0, true, "theme"@, json_quoted(c.theme), pretty, Seq::empty());
        assert(p0 + m1 + Seq::<char>::empty() =~= p1);
        lemma_member_extend(p1, m2, "theme"@, json_quoted(c.theme), pretty);
        lemma_member_extend(p2, m3, "theme"@, json_quoted(c.theme), pretty);
        lemma_member_extend(p3, m4, "theme"@, json_quoted(c.theme), pretty);
        lemma_member_extend(p4, m5, "theme"@, json_quoted(c.theme), pretty);
        lemma_member_extend(p5, m6, "theme"@, json_quoted(c.theme), pretty);
        lemma_member_extend(p6, m7, "theme"@, json_quoted(c.theme), pretty);
        lemma_member_extend(p7, m8, "theme"@, json_quoted(c.theme), pretty);
        lemma_member_extend(p8, m9, "theme"@, json_quoted(c.theme), pretty);
        lemma_member_extend(p9, close, "theme"@, json_quoted(c.theme), pretty);
    }
    assert(has_member(json, "font_size"@, decimal(c.font_size as nat), pretty)) by {
        lemma_member_found(p1, false, "font_size"@, decimal(c.font_size as nat), pretty, Seq::empty());
        assert(p1 + m2 + Seq::<char>::empty() =~= p2);
        lemma_member_extend(p2, m3, "font_size"@, decimal(c.font_size as nat), pretty);
        lemma_member_extend(p3, m4, "font_size"@, decimal(c.font_size as nat), pretty);
        lemma_member_extend(p4, m5, "font_size"@, decimal(c.font_size as nat), pretty);
        lemma_member_extend(p5, m6, "font_size"@, decimal(c.font_size as nat), pretty);
        lemma_member_extend(p6, m7, "font_size"@, decimal(c.font_size as nat), pretty);
        lemma_member_extend(p7, m8, "font_size"@, decimal(c.font_size as nat), pretty);
        lemma_member_extend(p8, m9, "font_size"@, decimal(c.font_size as nat), pretty);
        lemma_member_extend(p9, close, "font_size"@, decimal(c.font_size as nat), pretty);
    }
    assert(has_member(json, "font_family"@, json_quoted(c.font_family), pretty)) by {
        lemma_member_found(p2, false, "font_family"@, json_quoted(c.font_family), pretty, Seq::empty());
        assert(p2 + m3 + Seq::<char>::empty() =~= p3);
        lemma_member_extend(p3, m4, "font_family"@, json_quoted(c.font_family), pretty);
        lemma_member_extend(p4, m5, "font_family"@, json_quoted(c.font_family), pretty);
        lemma_member_extend(p5, m6, "font_family"@, json_quoted(c.font_family), pretty);
        lemma_member_extend(p6, m7, "font_family"@, json_quoted(c.font_family), pretty);
        lemma_member_extend(p7, m8, "font_family"@, json_quoted(c.font_family), pretty);
        lemma_member_extend(p8, m9, "font_family"@, json_quoted(c.font_family), pretty);
        lemma_member_extend(p9, close, "font_family"@, json_quoted(c.font_family), pretty);
    }
    assert(has_member(json, "auto_copy"@, json_bool(c.auto_copy), pretty)) by {
        lemma_member_found(p3, false, "auto_copy"@, json_bool(c.auto_copy), pretty, Seq::empty());
        assert(p3 + m4 + Seq::<char>::empty() =~= p4);
        lemma_member_extend(p4, m5, "auto_copy"@, json_bool(c.auto_copy), pretty);
        lemma_member_extend(p5, m6, "auto_copy"@, json_bool(c.auto_copy), pretty);
        lemma_member_extend(p6, m7, "auto_copy"@, json_bool(c.auto_copy), pretty);
        lemma_member_extend(p7, m8, "auto_copy"@, json_bool(c.auto_copy), pretty);
        lemma_member_extend(p8, m9, "auto_copy"@, json_bool(c.auto_copy), pretty);
        lemma_member_extend(p9, close, "auto_copy"@, json_bool(c.auto_copy), pretty);
    }
    assert(has_member(json, "copy_delay"@, decimal(c.copy_delay as nat), pretty)) by {
        lemma_member_found(p4, false, "copy_delay"@, decimal(c.copy_delay as nat), pretty, Seq::empty());
        assert(p4 + m5 + Seq::<char>::empty() =~= p5);
        lemma_member_extend(p5, m6, "copy_delay"@, decimal(c.copy_delay as nat), pretty);
        lemma_member_extend(p6, m7, "copy_delay"@, decimal(c.copy_delay as nat), pretty);
        lemma_member_extend(p7, m8, "copy_delay"@, decimal(c.copy_delay as nat), pretty);
        lemma_member_extend(p8, m9, "copy_delay"@, decimal(c.copy_delay as nat), pretty);
        lemma_member_extend(p9, close, "copy_delay"@, decimal(c.copy_delay as nat), pretty);
    }
    assert(has_member(json, "width"@, decimal(c.width as nat), pretty)) by {
        lemma_member_found(p5, false, "width"@, decimal(c.width as nat), pretty, Seq::empty());
        assert(p5 + m6 + Seq::<char>::empty() =~= p6);
        lemma_member_extend(p6, m7, "width"@, decimal(c.width as nat), pretty);
        lemma_member_extend(p7, m8, "width"@, decimal(c.width as nat), pretty);
        lemma_member_extend(p8, m9, "width"@, decimal(c.width as nat), pretty);
        lemma_member_extend(p9, close, "width"@, decimal(c.width as nat), pretty);
    }
    assert(has_member(json, "height"@, decimal(c.height as nat), pretty)) by {
        lemma_member_found(p6, false, "height"@, decimal(c.height as nat), pretty, Seq::empty());
        assert(p6 + m7 + Seq::<char>::empty() =~= p7);
        lemma_member_extend(p7, m8, "height"@, decimal(c.height as nat), pretty);
        lemma_member_extend(p8, m9, "height"@, decimal(c.height as nat), pretty);
        lemma_member_extend(p9, close, "height"@, decimal(c.height as nat), pretty);
    }
    assert(has_member(json, "auto_start"@, json_bool(c.auto_start), pretty)) by {
        lemma_member_found(p7, false, "auto_start"@, json_bool(c.auto_start), pretty, Seq::empty());
        assert(p7 + m8 + Seq::<char>::empty() =~= p8);
        lemma_member_extend(p8, m9, "auto_start"@, json_bool(c.auto_start), pretty);
        lemma_member_extend(p9, close, "auto_start"@, json_bool(c.auto_start), pretty);
    }
    assert(has_member(json, "close_to_tray"@, json_bool(c.close_to_tray), pretty)) by {
        lemma_member_found(p8, false, "close_to_tray"@, json_bool(c.close_to_tray), pretty, Seq::empty());
        assert(p8 + m9 + Seq::<char>::empty() =~= p9);
        lemma_member_extend(p9, close, "close_to_tray"@, json_bool(c.close_to_tray), pretty);
    }
}

proof fn lemma_member_extend(x: Seq<char>, y: Seq<char>, name: Seq<char>, value: Seq<char>, pretty: bool)
    requires
        has_member(x, name, value, pretty),
    ensures
        has_member(x + y, name, value, pretty),
{
    let (p, r) = choose|p: Seq<char>, r: Seq<char>| x == p + member_entry(name, value, pretty) + r;
    assert(x + y =~= p + member_entry(name, value, pretty) + (r + y));
}

} // verus!
