//! The prompt configuration record: one field per setting, each with a
//! fixed default, built from a mapping of raw key/value strings.
//!
//! A recognized key that is present must parse; any parse failure aborts
//! construction of the whole record. Absent keys fall back to the field's
//! default, and unrecognized keys are ignored.

use vstd::prelude::*;
use crate::color::{Color, ColorError, spec_parse_color, lower_of, parse_color};
use crate::strutil::str_eq;

verus! {

/// Why a configuration value was rejected.
#[derive(Clone, Copy, Debug, PartialEq, Eq, Structural)]
pub enum ErrorKind {
    /// A boolean field's value was not one of `0`, `false`, `1`, `true`.
    InvalidBoolValue,
    /// A color field's value matched no accepted color form.
    InvalidColorValue,
    /// A color field's hex string held a non-hex character.
    InvalidHexDigit,
    /// A color field's decimal palette index exceeded 255.
    NumericOverflow,
}

/// A rejected configuration entry: the field it was for, the raw value,
/// and what was wrong with it.
#[derive(Clone, Debug, PartialEq)]
pub struct ConfigError {
    pub field: String,
    pub value: String,
    pub kind: ErrorKind,
}

/// What parsing a boolean string yields. The accepted forms are exactly
/// `0`, `false`, `1` and `true`, case-sensitively.
pub open spec fn spec_parse_bool(s: Seq<char>) -> Option<bool> {
    if s == "0"@ || s == "false"@ {
        Some(false)
    } else if s == "1"@ || s == "true"@ {
        Some(true)
    } else {
        None
    }
}

/// Parse a boolean string: `0` and `false` are false, `1` and `true` are
/// true, and nothing else is accepted. No case-folding is applied.
pub fn parse_bool(s: &str) -> (r: Option<bool>)
    ensures
        r == spec_parse_bool(s@),
{
    if str_eq(s, "0") || str_eq(s, "false") {
        Some(false)
    } else if str_eq(s, "1") || str_eq(s, "true") {
        Some(true)
    } else {
        None
    }
}

/// The canonical configuration string of a boolean.
pub open spec fn spec_bool_string(b: bool) -> Seq<char> {
    if b {
        "1"@
    } else {
        "0"@
    }
}

/// The canonical configuration string of a boolean. Parsing it yields the
/// value back (`lemma_bool_round_trip`).
pub fn bool_config_str(b: bool) -> (r: &'static str)
    ensures
        r@ == spec_bool_string(b),
{
    if b {
        "1"
    } else {
        "0"
    }
}

/// Round trip: parsing the canonical string of a boolean yields that
/// boolean back, whatever the boolean.
pub proof fn lemma_bool_round_trip(b: bool)
    ensures
        spec_parse_bool(spec_bool_string(b)) is Some,
        spec_parse_bool(spec_bool_string(b))->0 == b,
{
    reveal_strlit("0");
    reveal_strlit("1");
    reveal_strlit("false");
    reveal_strlit("true");
    assert("0"@[0] == '0');
    assert("1"@[0] == '1');
}

/// The ErrorKind a color parse error surfaces as.
pub open spec fn spec_color_error_kind(e: ColorError) -> ErrorKind {
    match e {
        ColorError::InvalidColorValue => ErrorKind::InvalidColorValue,
        ColorError::InvalidHexDigit => ErrorKind::InvalidHexDigit,
        ColorError::NumericOverflow => ErrorKind::NumericOverflow,
    }
}

fn color_error_kind(e: ColorError) -> (r: ErrorKind)
    ensures
        r == spec_color_error_kind(e),
{
    match e {
        ColorError::InvalidColorValue => ErrorKind::InvalidColorValue,
        ColorError::InvalidHexDigit => ErrorKind::InvalidHexDigit,
        ColorError::NumericOverflow => ErrorKind::NumericOverflow,
    }
}

/// The key/value pairs as sequences of characters.
pub open spec fn pairs_view(pairs: Seq<(String, String)>) -> Seq<(Seq<char>, Seq<char>)> {
    Seq::new(pairs.len(), |i: int| (pairs[i].0@, pairs[i].1@))
}

/// The value under `key`: the first entry with that key, if any.
pub open spec fn spec_lookup(m: Seq<(Seq<char>, Seq<char>)>, key: Seq<char>) -> Option<Seq<char>>
    decreases m.len(),
{
    if m.len() == 0 {
        None
    } else if m[0].0 == key {
        Some(m[0].1)
    } else {
        spec_lookup(m.drop_first(), key)
    }
}

/// Find the first entry under `key`.
fn lookup<'a>(pairs: &'a Vec<(String, String)>, key: &str) -> (r: Option<&'a String>)
    ensures
        r matches Some(v) ==> spec_lookup(pairs_view(pairs@), key@) == Some(v@),
        r is None ==> spec_lookup(pairs_view(pairs@), key@) is None,
{
    let ghost m = pairs_view(pairs@);
    let n = pairs.len();
    let mut i: usize = 0;
    proof {
        assert(m.skip(0) =~= m);
    }
    while i < n
        invariant
            n == pairs.len(),
            i <= n,
            m == pairs_view(pairs@),
            spec_lookup(m, key@) == spec_lookup(m.skip(i as int), key@),
        decreases n - i,
    {
        if str_eq(pairs[i].0.as_str(), key) {
            proof {
                assert(m.skip(i as int)[0] == m[i as int]);
            }
            return Some(&pairs[i].1);
        }
        proof {
            assert(m.skip(i as int)[0] == m[i as int]);
            assert(m.skip(i as int).drop_first() =~= m.skip(i as int + 1));
        }
        i = i + 1;
    }
    proof {
        assert(m.skip(n as int) =~= Seq::<(Seq<char>, Seq<char>)>::empty());
    }
    None
}

/// What a color field holds: the default when the key is absent, the
/// parsed color when it parses, and otherwise the raw value with the
/// error kind.
pub open spec fn spec_color_field(
    m: Seq<(Seq<char>, Seq<char>)>,
    key: Seq<char>,
    dflt: Color,
) -> Result<Color, (Seq<char>, ErrorKind)> {
    match spec_lookup(m, key) {
        Option::None => Ok(dflt),
        Option::Some(v) => match spec_parse_color(lower_of(v)) {
            Ok(c) => Ok(c),
            Err(e) => Err((v, spec_color_error_kind(e))),
        },
    }
}

/// What a boolean field holds, in the same way.
pub open spec fn spec_bool_field(
    m: Seq<(Seq<char>, Seq<char>)>,
    key: Seq<char>,
    dflt: bool,
) -> Result<bool, (Seq<char>, ErrorKind)> {
    match spec_lookup(m, key) {
        Option::None => Ok(dflt),
        Option::Some(v) => match spec_parse_bool(v) {
            Option::Some(b) => Ok(b),
            Option::None => Err((v, ErrorKind::InvalidBoolValue)),
        },
    }
}

/// What a string field holds: the raw value, or the default when the key
/// is absent. String fields cannot fail.
pub open spec fn spec_string_field(
    m: Seq<(Seq<char>, Seq<char>)>,
    key: Seq<char>,
    dflt: Seq<char>,
) -> Seq<char> {
    match spec_lookup(m, key) {
        Option::None => dflt,
        Option::Some(v) => v,
    }
}

/// The prompt configuration: colors, icons and toggles for the path,
/// git-branch, git-status and user/root prompt segments.
#[derive(Clone, Debug, PartialEq)]
pub struct Config {
    pub path_color: Color,
    pub git_branch_icon: String,
    pub git_branch_color: Color,
    pub git_branch_disable: bool,
    pub git_status_staged_icon: String,
    pub git_status_unstaged_icon: String,
    pub git_status_untracked_icon: String,
    pub git_status_ahead_icon: String,
    pub git_status_behind_icon: String,
    pub git_status_color: Color,
    pub git_status_disable: bool,
    pub char_user_icon: String,
    pub char_user_color: Color,
    pub char_user_failed_icon: String,
    pub char_user_failed_color: Color,
    pub char_root_icon: String,
    pub char_root_color: Color,
    pub char_root_failed_icon: String,
    pub char_root_failed_color: Color,
}

/// Every field of `c` holds its documented default.
pub open spec fn config_is_default(c: Config) -> bool {
    &&& c.path_color == Color::Blue
    &&& c.git_branch_icon@ == ""@
    &&& c.git_branch_color == Color::Cyan
    &&& c.git_branch_disable == false
    &&& c.git_status_staged_icon@ == "+"@
    &&& c.git_status_unstaged_icon@ == "!"@
    &&& c.git_status_untracked_icon@ == "?"@
    &&& c.git_status_ahead_icon@ == "↥"@
    &&& c.git_status_behind_icon@ == "↧"@
    &&& c.git_status_color == Color::Cyan
    &&& c.git_status_disable == false
    &&& c.char_user_icon@ == "$"@
    &&& c.char_user_color == Color::Green
    &&& c.char_user_failed_icon@ == "$"@
    &&& c.char_user_failed_color == Color::Red
    &&& c.char_root_icon@ == "#"@
    &&& c.char_root_color == Color::Green
    &&& c.char_root_failed_icon@ == "#"@
    &&& c.char_root_failed_color == Color::Red
}

impl Default for Config {
    /// The record with every field at its documented default.
    fn default() -> (r: Config)
        ensures
            config_is_default(r),
    {
        Config {
            path_color: Color::Blue,
            git_branch_icon: String::from_str(""),
            git_branch_color: Color::Cyan,
            git_branch_disable: false,
            git_status_staged_icon: String::from_str("+"),
            git_status_unstaged_icon: String::from_str("!"),
            git_status_untracked_icon: String::from_str("?"),
            git_status_ahead_icon: String::from_str("↥"),
            git_status_behind_icon: String::from_str("↧"),
            git_status_color: Color::Cyan,
            git_status_disable: false,
            char_user_icon: String::from_str("$"),
            char_user_color: Color::Green,
            char_user_failed_icon: String::from_str("$"),
            char_user_failed_color: Color::Red,
            char_root_icon: String::from_str("#"),
            char_root_color: Color::Green,
            char_root_failed_icon: String::from_str("#"),
            char_root_failed_color: Color::Red,
        }
    }
}

/// The first field, in declaration order, whose present value does not
/// parse: its key, the raw value, and the error kind. `None` when the
/// whole mapping is acceptable.
pub open spec fn spec_first_error(m: Seq<(Seq<char>, Seq<char>)>) -> Option<
    (Seq<char>, Seq<char>, ErrorKind),
> {
    let f0 = spec_color_field(m, "path_color"@, Color::Blue);
    let f1 = spec_color_field(m, "git_branch_color"@, Color::Cyan);
    let f2 = spec_bool_field(m, "git_branch_disable"@, false);
    let f3 = spec_color_field(m, "git_status_color"@, Color::Cyan);
    let f4 = spec_bool_field(m, "git_status_disable"@, false);
    let f5 = spec_color_field(m, "char_user_color"@, Color::Green);
    let f6 = spec_color_field(m, "char_user_failed_color"@, Color::Red);
    let f7 = spec_color_field(m, "char_root_color"@, Color::Green);
    let f8 = spec_color_field(m, "char_root_failed_color"@, Color::Red);
    if f0 is Err {
        Some(("path_color"@, f0->Err_0.0, f0->Err_0.1))
    } else if f1 is Err {
        Some(("git_branch_color"@, f1->Err_0.0, f1->Err_0.1))
    } else if f2 is Err {
        Some(("git_branch_disable"@, f2->Err_0.0, f2->Err_0.1))
    } else if f3 is Err {
        Some(("git_status_color"@, f3->Err_0.0, f3->Err_0.1))
    } else if f4 is Err {
        Some(("git_status_disable"@, f4->Err_0.0, f4->Err_0.1))
    } else if f5 is Err {
        Some(("char_user_color"@, f5->Err_0.0, f5->Err_0.1))
    } else if f6 is Err {
        Some(("char_user_failed_color"@, f6->Err_0.0, f6->Err_0.1))
    } else if f7 is Err {
        Some(("char_root_color"@, f7->Err_0.0, f7->Err_0.1))
    } else if f8 is Err {
        Some(("char_root_failed_color"@, f8->Err_0.0, f8->Err_0.1))
    } else {
        None
    }
}

/// Every field of `c` holds what the mapping `m` gives it: the parsed
/// present value, or the default when its key is absent.
pub open spec fn config_matches_map(c: Config, m: Seq<(Seq<char>, Seq<char>)>) -> bool {
    &&& Ok::<Color, (Seq<char>, ErrorKind)>(c.path_color) == spec_color_field(
        m,
        "path_color"@,
        Color::Blue,
    )
    &&& c.git_branch_icon@ == spec_string_field(m, "git_branch_icon"@, ""@)
    &&& Ok::<Color, (Seq<char>, ErrorKind)>(c.git_branch_color) == spec_color_field(
        m,
        "git_branch_color"@,
        Color::Cyan,
    )
    &&& Ok::<bool, (Seq<char>, ErrorKind)>(c.git_branch_disable) == spec_bool_field(
        m,
        "git_branch_disable"@,
        false,
    )
    &&& c.git_status_staged_icon@ == spec_string_field(m, "git_status_staged_icon"@, "+"@)
    &&& c.git_status_unstaged_icon@ == spec_string_field(m, "git_status_unstaged_icon"@, "!"@)
    &&& c.git_status_untracked_icon@ == spec_string_field(m, "git_status_untracked_icon"@, "?"@)
    &&& c.git_status_ahead_icon@ == spec_string_field(m, "git_status_ahead_icon"@, "↥"@)
    &&& c.git_status_behind_icon@ == spec_string_field(m, "git_status_behind_icon"@, "↧"@)
    &&& Ok::<Color, (Seq<char>, ErrorKind)>(c.git_status_color) == spec_color_field(
        m,
        "git_status_color"@,
        Color::Cyan,
    )
    &&& Ok::<bool, (Seq<char>, ErrorKind)>(c.git_status_disable) == spec_bool_field(
        m,
        "git_status_disable"@,
        false,
    )
    &&& c.char_user_icon@ == spec_string_field(m, "char_user_icon"@, "$"@)
    &&& Ok::<Color, (Seq<char>, ErrorKind)>(c.char_user_color) == spec_color_field(
        m,
        "char_user_color"@,
        Color::Green,
    )
    &&& c.char_user_failed_icon@ == spec_string_field(m, "char_user_failed_icon"@, "$"@)
    &&& Ok::<Color, (Seq<char>, ErrorKind)>(c.char_user_failed_color) == spec_color_field(
        m,
        "char_user_failed_color"@,
        Color::Red,
    )
    &&& c.char_root_icon@ == spec_string_field(m, "char_root_icon"@, "#"@)
    &&& Ok::<Color, (Seq<char>, ErrorKind)>(c.char_root_color) == spec_color_field(
        m,
        "char_root_color"@,
        Color::Green,
    )
    &&& c.char_root_failed_icon@ == spec_string_field(m, "char_root_failed_icon"@, "#"@)
    &&& Ok::<Color, (Seq<char>, ErrorKind)>(c.char_root_failed_color) == spec_color_field(
        m,
        "char_root_failed_color"@,
        Color::Red,
    )
}

/// An absent key leaves a color field at its default.
pub proof fn lemma_absent_color_default(
    m: Seq<(Seq<char>, Seq<char>)>,
    key: Seq<char>,
    dflt: Color,
)
    requires
        spec_lookup(m, key) is None,
    ensures
        spec_color_field(m, key, dflt) == Ok::<Color, (Seq<char>, ErrorKind)>(dflt),
{
}

/// An absent key leaves a boolean field at its default.
pub proof fn lemma_absent_bool_default(m: Seq<(Seq<char>, Seq<char>)>, key: Seq<char>, dflt: bool)
    requires
        spec_lookup(m, key) is None,
    ensures
        spec_bool_field(m, key, dflt) == Ok::<bool, (Seq<char>, ErrorKind)>(dflt),
{
}

/// An absent key leaves a string field at its default.
pub proof fn lemma_absent_string_default(
    m: Seq<(Seq<char>, Seq<char>)>,
    key: Seq<char>,
    dflt: Seq<char>,
)
    requires
        spec_lookup(m, key) is None,
    ensures
        spec_string_field(m, key, dflt) == dflt,
{
}

/// A mapping in which no recognized key occurs — the empty mapping among
/// them — yields the record in which every field holds its default.
pub proof fn lemma_all_absent_gives_default(m: Seq<(Seq<char>, Seq<char>)>, c: Config)
    requires
        spec_lookup(m, "path_color"@) is None,
        spec_lookup(m, "git_branch_icon"@) is None,
        spec_lookup(m, "git_branch_color"@) is None,
        spec_lookup(m, "git_branch_disable"@) is None,
        spec_lookup(m, "git_status_staged_icon"@) is None,
        spec_lookup(m, "git_status_unstaged_icon"@) is None,
        spec_lookup(m, "git_status_untracked_icon"@) is None,
        spec_lookup(m, "git_status_ahead_icon"@) is None,
        spec_lookup(m, "git_status_behind_icon"@) is None,
        spec_lookup(m, "git_status_color"@) is None,
        spec_lookup(m, "git_status_disable"@) is None,
        spec_lookup(m, "char_user_icon"@) is None,
        spec_lookup(m, "char_user_color"@) is None,
        spec_lookup(m, "char_user_failed_icon"@) is None,
        spec_lookup(m, "char_user_failed_color"@) is None,
        spec_lookup(m, "char_root_icon"@) is None,
        spec_lookup(m, "char_root_color"@) is None,
        spec_lookup(m, "char_root_failed_icon"@) is None,
        spec_lookup(m, "char_root_failed_color"@) is None,
        config_matches_map(c, m),
    ensures
        config_is_default(c),
        spec_first_error(m) is None,
{
}

/// Read one color field of the mapping.
fn color_field(pairs: &Vec<(String, String)>, key: &str, dflt: Color) -> (r: Result<
    Color,
    ConfigError,
>)
    ensures
        ({
            let f = spec_color_field(pairs_view(pairs@), key@, dflt);
            match r {
                Ok(c) => f == Ok::<Color, (Seq<char>, ErrorKind)>(c),
                Err(e) => {
                    &&& f is Err
                    &&& e.field@ == key@
                    &&& e.value@ == f->Err_0.0
                    &&& e.kind == f->Err_0.1
                },
            }
        }),
{
    match lookup(pairs, key) {
        Option::None => Ok(dflt),
        Option::Some(v) => match parse_color(v.as_str()) {
            Ok(c) => Ok(c),
            Err(e) => Err(
                ConfigError {
                    field: key.to_owned(),
                    value: v.clone(),
                    kind: color_error_kind(e),
                },
            ),
        },
    }
}

/// Read one boolean field of the mapping.
fn bool_field(pairs: &Vec<(String, String)>, key: &str, dflt: bool) -> (r: Result<
    bool,
    ConfigError,
>)
    ensures
        ({
            let f = spec_bool_field(pairs_view(pairs@), key@, dflt);
            match r {
                Ok(b) => f == Ok::<bool, (Seq<char>, ErrorKind)>(b),
                Err(e) => {
                    &&& f is Err
                    &&& e.field@ == key@
                    &&& e.value@ == f->Err_0.0
                    &&& e.kind == f->Err_0.1
                },
            }
        }),
{
    match lookup(pairs, key) {
        Option::None => Ok(dflt),
        Option::Some(v) => match parse_bool(v.as_str()) {
            Option::Some(b) => Ok(b),
            Option::None => Err(
                ConfigError {
                    field: key.to_owned(),
                    value: v.clone(),
                    kind: ErrorKind::InvalidBoolValue,
                },
            ),
        },
    }
}

/// Read one string field of the mapping. String fields cannot fail.
fn string_field(pairs: &Vec<(String, String)>, key: &str, dflt: &str) -> (r: String)
    ensures
        r@ == spec_string_field(pairs_view(pairs@), key@, dflt@),
{
    match lookup(pairs, key) {
        Option::None => dflt.to_owned(),
        Option::Some(v) => v.clone(),
    }
}

impl Config {
    /// Build the configuration from a mapping of raw key/value pairs.
    ///
    /// Recognized keys that are absent leave their field at its default,
    /// unrecognized keys are ignored, and the first recognized key, in
    /// field declaration order, whose value does not parse aborts the
    /// whole record with an error naming that field, the raw value and
    /// what was wrong with it.
    pub fn from_pairs(pairs: &Vec<(String, String)>) -> (r: Result<Config, ConfigError>)
        ensures
            r matches Ok(c) ==> config_matches_map(c, pairs_view(pairs@)) && spec_first_error(
                pairs_view(pairs@),
            ) is None,
            r matches Err(e) ==> spec_first_error(pairs_view(pairs@)) == Some(
                (e.field@, e.value@, e.kind),
            ),
    {
        let path_color = match color_field(pairs, "path_color", Color::Blue) {
            Ok(c) => c,
            Err(e) => return Err(e),
        };
        let git_branch_icon = string_field(pairs, "git_branch_icon", "");
        let git_branch_color = match color_field(pairs, "git_branch_color", Color::Cyan) {
            Ok(c) => c,
            Err(e) => return Err(e),
        };
        let git_branch_disable = match bool_field(pairs, "git_branch_disable", false) {
            Ok(b) => b,
            Err(e) => return Err(e),
        };
        let git_status_staged_icon = string_field(pairs, "git_status_staged_icon", "+");
        let git_status_unstaged_icon = string_field(pairs, "git_status_unstaged_icon", "!");
        let git_status_untracked_icon = string_field(pairs, "git_status_untracked_icon", "?");
        let git_status_ahead_icon = string_field(pairs, "git_status_ahead_icon", "↥");
        let git_status_behind_icon = string_field(pairs, "git_status_behind_icon", "↧");
        let git_status_color = match color_field(pairs, "git_status_color", Color::Cyan) {
            Ok(c) => c,
            Err(e) => return Err(e),
        };
        let git_status_disable = match bool_field(pairs, "git_status_disable", false) {
            Ok(b) => b,
            Err(e) => return Err(e),
        };
        let char_user_icon = string_field(pairs, "char_user_icon", "$");
        let char_user_color = match color_field(pairs, "char_user_color", Color::Green) {
            Ok(c) => c,
            Err(e) => return Err(e),
        };
        let char_user_failed_icon = string_field(pairs, "char_user_failed_icon", "$");
        let char_user_failed_color = match color_field(pairs, "char_user_failed_color", Color::Red)
            {
            Ok(c) => c,
            Err(e) => return Err(e),
        };
        let char_root_icon = string_field(pairs, "char_root_icon", "#");
        let char_root_color = match color_field(pairs, "char_root_color", Color::Green) {
            Ok(c) => c,
            Err(e) => return Err(e),
        };
        let char_root_failed_icon = string_field(pairs, "char_root_failed_icon", "#");
        let char_root_failed_color = match color_field(pairs, "char_root_failed_color", Color::Red)
            {
            Ok(c) => c,
            Err(e) => return Err(e),
        };
        Ok(
            Config {
                path_color,
                git_branch_icon,
                git_branch_color,
                git_branch_disable,
                git_status_staged_icon,
                git_status_unstaged_icon,
                git_status_untracked_icon,
                git_status_ahead_icon,
                git_status_behind_icon,
                git_status_color,
                git_status_disable,
                char_user_icon,
                char_user_color,
                char_user_failed_icon,
                char_user_failed_color,
                char_root_icon,
                char_root_color,
                char_root_failed_icon,
                char_root_failed_color,
            },
        )
    }
}

} // verus!
