//! Persistent settings: the Gemini API key and model, read from and written to
//! a small TOML file, and the order in which their sources are consulted.
use vstd::prelude::*;

use crate::gemini::DEFAULT_GEMINI_MODEL;
use crate::text::{
    opt_text, find_char, first_index_of, in_class, is_white_space, occurs_at, occurs_at_exec, str_chars,
    trim, trim_class, trim_class_str, trim_end_class, trim_spec, trim_start_class,
    trim_start_class_str, CharClass,
};

verus! {

/// The settings a user can store.
#[derive(Debug, Clone)]
pub struct DubstripConfig {
    pub gemini_api_key: Option<String>,
    pub gemini_model: Option<String>,
}

impl Default for DubstripConfig {
    fn default() -> (r: Self)
        ensures
            r.gemini_api_key is None,
            r.gemini_model is None,
    {
        DubstripConfig { gemini_api_key: None, gemini_model: None }
    }
}

/// The settings as text: API key and model.
pub type ConfigView = (Option<Seq<char>>, Option<Seq<char>>);

pub open spec fn config_view(c: DubstripConfig) -> ConfigView {
    (
        match c.gemini_api_key {
            Some(k) => Some(k@),
            None => None,
        },
        match c.gemini_model {
            Some(m) => Some(m@),
            None => None,
        },
    )
}

/// The value of a `<key> = "<value>"` line, once `key` is stripped: separators,
/// then surrounding double and single quotes, then white space are removed.
pub open spec fn setting_value(rest: Seq<char>) -> Seq<char> {
    trim_spec(
        trim_class(
            trim_class(trim_start_class(rest, CharClass::KeySeparator), CharClass::DoubleQuote),
            CharClass::SingleQuote,
        ),
    )
}

/// The value that a trimmed line gives to `key`, if it sets it to something
/// non-empty.
pub open spec fn line_setting(line: Seq<char>, key: Seq<char>) -> Option<Seq<char>> {
    let t = trim_spec(line);
    if occurs_at(t, key, 0) {
        let v = setting_value(t.subrange(key.len() as int, t.len() as int));
        if v.len() > 0 {
            Some(v)
        } else {
            None
        }
    } else {
        None
    }
}

/// The settings after one more line.
#[verifier::opaque]
pub open spec fn apply_line(state: ConfigView, line: Seq<char>) -> ConfigView {
    (
        match line_setting(line, "gemini_api_key"@) {
            Some(v) => Some(v),
            None => state.0,
        },
        match line_setting(line, "gemini_model"@) {
            Some(v) => Some(v),
            None => state.1,
        },
    )
}

/// A line without the carriage return of a `\r\n` ending.
pub open spec fn strip_cr(line: Seq<char>) -> Seq<char> {
    if line.len() > 0 && line.last() == '\r' {
        line.drop_last()
    } else {
        line
    }
}

/// The settings after the lines of `s` (as `str::lines` splits it), starting
/// from `state`; later lines win.
pub open spec fn apply_lines(s: Seq<char>, state: ConfigView) -> ConfigView
    decreases s.len(),
{
    if s.len() == 0 {
        state
    } else {
        match first_index_of(s, '\n') {
            Some(i) => if 0 <= i < s.len() {
                apply_lines(
                    s.subrange(i + 1, s.len() as int),
                    apply_line(state, strip_cr(s.subrange(0, i))),
                )
            } else {
                state
            },
            None => apply_line(state, s),
        }
    }
}

fn setting_of_line(line: &str, key: &str) -> (r: Option<String>)
    ensures
        match r {
            Some(v) => line_setting(line@, key@) == Some(v@),
            None => line_setting(line@, key@) is None,
        },
{
    let t = trim(line);
    let tc = str_chars(t);
    let kc = str_chars(key);
    if kc.len() <= tc.len() && occurs_at_exec(&tc, &kc, 0) {
        let rest = t.substring_char(kc.len(), tc.len());
        let v = trim(
            trim_class_str(
                trim_class_str(
                    trim_start_class_str(rest, CharClass::KeySeparator),
                    CharClass::DoubleQuote,
                ),
                CharClass::SingleQuote,
            ),
        );
        if v.is_empty() {
            None
        } else {
            Some(v.to_owned())
        }
    } else {
        None
    }
}

pub open spec fn opt_string_view(o: Option<String>) -> Option<Seq<char>> {
    match o {
        Some(s) => Some(s@),
        None => None,
    }
}

/// The next line of `content` from character `start`, and where the line after
/// it starts.
fn next_line<'a>(content: &'a str, chars: &Vec<char>, start: usize) -> (r: (&'a str, usize))
    requires
        chars@ == content@,
        start < content@.len(),
    ensures
        start < r.1 <= content@.len(),
        forall|st: ConfigView|
            #[trigger] apply_lines(content@.subrange(start as int, content@.len() as int), st)
                == apply_lines(
                content@.subrange(r.1 as int, content@.len() as int),
                apply_line(st, r.0@),
            ),
{
    let n = chars.len();
    let rest = content.substring_char(start, n);
    match find_char(rest, '\n') {
        Some(i) => {
            let raw = rest.substring_char(0, i);
            let line = if i > 0 && chars[start + i - 1] == '\r' {
                rest.substring_char(0, i - 1)
            } else {
                raw
            };
            proof {
                if i > 0 {
                    assert(raw@.last() == chars@[start + i - 1]);
                    assert(raw@.drop_last() =~= rest@.subrange(0, i - 1));
                }
                assert(line@ == strip_cr(rest@.subrange(0, i as int)));
                assert(rest@.subrange(i + 1, rest@.len() as int) =~= content@.subrange(
                    start + i + 1,
                    n as int,
                ));
            }
            (line, start + i + 1)
        },
        None => {
            assert(content@.subrange(n as int, n as int) =~= Seq::<char>::empty());
            (rest, n)
        },
    }
}

/// Reads the settings from the text of a configuration file: every line of
/// the form `gemini_api_key = "<key>"` or `gemini_model = "<model>"` (quotes
/// optional) with a non-empty value sets that value; the last such line wins.
pub fn parse_toml_config(content: &str) -> (r: DubstripConfig)
    ensures
        config_view(r) == apply_lines(content@, (None, None)),
{
    let chars = str_chars(content);
    let n = chars.len();
    let mut key: Option<String> = None;
    let mut model: Option<String> = None;
    let mut start: usize = 0;
    assert(content@.subrange(0, n as int) =~= content@);
    while start < n
        invariant
            chars@ == content@,
            n == content@.len(),
            start <= n,
            apply_lines(content@, (None, None)) == apply_lines(
                content@.subrange(start as int, n as int),
                (opt_string_view(key), opt_string_view(model)),
            ),
        decreases n - start,
    {
        let ghost state = (opt_string_view(key), opt_string_view(model));
        let (line, next) = next_line(content, &chars, start);
        if let Some(v) = setting_of_line(line, "gemini_api_key") {
            key = Some(v);
        }
        if let Some(v) = setting_of_line(line, "gemini_model") {
            model = Some(v);
        }
        assert((opt_string_view(key), opt_string_view(model)) == apply_line(state, line@)) by {
            reveal(apply_line);
        }
        start = next;
    }
    assert(content@.subrange(n as int, n as int) =~= Seq::<char>::empty());
    DubstripConfig { gemini_api_key: key, gemini_model: model }
}

/// The text written to the configuration file.
pub open spec fn render_config_spec(c: ConfigView) -> Seq<char> {
    "# DubStrip Configuration\n"@ + match c.0 {
        Some(k) => "gemini_api_key = \""@ + k + "\"\n"@,
        None => Seq::empty(),
    } + match c.1 {
        Some(m) => "gemini_model = \""@ + m + "\"\n"@,
        None => Seq::empty(),
    }
}

/// Writes the settings as the text of a configuration file.
pub fn render_config(config: &DubstripConfig) -> (r: String)
    ensures
        r@ == render_config_spec(config_view(*config)),
{
    let mut content = "# DubStrip Configuration\n".to_owned();
    let ghost header = content@;
    match &config.gemini_api_key {
        Some(k) => {
            content.append("gemini_api_key = \"");
            content.append(k.as_str());
            content.append("\"\n");
        },
        None => {},
    }
    let ghost after_key = content@;
    match &config.gemini_model {
        Some(m) => {
            content.append("gemini_model = \"");
            content.append(m.as_str());
            content.append("\"\n");
        },
        None => {},
    }
    proof {
        let c = config_view(*config);
        let key_part = match c.0 {
            Some(k) => "gemini_api_key = \""@ + k + "\"\n"@,
            None => Seq::<char>::empty(),
        };
        let model_part = match c.1 {
            Some(m) => "gemini_model = \""@ + m + "\"\n"@,
            None => Seq::<char>::empty(),
        };
        assert(after_key =~= header + key_part);
        assert(content@ =~= header + key_part + model_part);
    }
    content
}

/// A setting's value when it is not blank, trimmed.
pub open spec fn non_blank(v: Option<Seq<char>>) -> Option<Seq<char>> {
    match v {
        Some(s) => if trim_spec(s).len() > 0 {
            Some(trim_spec(s))
        } else {
            None
        },
        None => None,
    }
}

fn non_blank_of(v: &Option<String>) -> (r: Option<String>)
    ensures
        match r {
            Some(s) => non_blank(
                match v {
                    Some(x) => Some(x@),
                    None => None,
                },
            ) == Some(s@),
            None => non_blank(
                match v {
                    Some(x) => Some(x@),
                    None => None,
                },
            ) is None,
        },
{
    match v {
        Some(s) => {
            let t = trim(s.as_str());
            if t.is_empty() {
                None
            } else {
                Some(t.to_owned())
            }
        },
        None => None,
    }
}

/// The model to use: the `GEMINI_MODEL` environment value, else the stored
/// model, else the default; blank values do not count and values are trimmed.
pub fn choose_gemini_model(env_model: Option<String>, config: &DubstripConfig) -> (r: String)
    ensures
        r@ == match non_blank(
            match env_model {
                Some(x) => Some(x@),
                None => None,
            },
        ) {
            Some(m) => m,
            None => match non_blank(config_view(*config).1) {
                Some(m) => m,
                None => DEFAULT_GEMINI_MODEL@,
            },
        },
{
    if let Some(m) = non_blank_of(&env_model) {
        return m;
    }
    if let Some(m) = non_blank_of(&config.gemini_model) {
        return m;
    }
    DEFAULT_GEMINI_MODEL.to_owned()
}

/// The API key to use: the `GEMINI_API_KEY` environment value, else the stored
/// key, else one inherited from the notifier's configuration; blank values do
/// not count and the first two are trimmed. `None` leaves asking the user.
/// The key that `choose_gemini_key` settles on, as text.
pub open spec fn chosen_gemini_key(
    env_key: Option<Seq<char>>,
    stored: Option<Seq<char>>,
    inherited: Option<Seq<char>>,
) -> Option<Seq<char>> {
    match non_blank(env_key) {
        Some(e) => Some(e),
        None => match non_blank(stored) {
            Some(c) => Some(c),
            None => inherited,
        },
    }
}

pub fn choose_gemini_key(
    env_key: Option<String>,
    config: &DubstripConfig,
    inherited: Option<String>,
) -> (r: Option<String>)
    ensures
        opt_text(r) == chosen_gemini_key(opt_text(env_key), config_view(*config).0, opt_text(inherited)),
        r is None <==> (non_blank(opt_text(env_key)) is None && non_blank(config_view(*config).0) is None
            && inherited is None),
{
    if let Some(k) = non_blank_of(&env_key) {
        return Some(k);
    }
    if let Some(k) = non_blank_of(&config.gemini_api_key) {
        return Some(k);
    }
    inherited
}

/// A value that survives being written to and read back from the file: it
/// is not empty, holds no line break, and neither starts nor ends with a
/// quote or white space.
pub open spec fn storable(v: Seq<char>) -> bool {
    &&& v.len() > 0
    &&& forall|i: int| 0 <= i < v.len() ==> v[i] != '\n'
    &&& v[0] != '"' && v[0] != '\'' && !is_white_space(v[0])
    &&& v.last() != '"' && v.last() != '\'' && !is_white_space(v.last())
}

pub open spec fn storable_setting(v: Option<Seq<char>>) -> bool {
    match v {
        Some(x) => storable(x),
        None => true,
    }
}

proof fn lemma_apply_lines_split(line: Seq<char>, rest: Seq<char>, st: ConfigView)
    requires
        forall|j: int| 0 <= j < line.len() ==> line[j] != '\n',
    ensures
        apply_lines(line + seq!['\n'] + rest, st) == apply_lines(rest, apply_line(st, strip_cr(line))),
{
    let s = line + seq!['\n'] + rest;
    let n = line.len() as int;
    assert(s[n] == '\n');
    assert(exists|i: int| 0 <= i < s.len() && s[i] == '\n');
    let i = choose|i: int|
        0 <= i < s.len() && s[i] == '\n' && (forall|j: int| 0 <= j < i ==> s[j] != '\n');
    assert(0 <= i < s.len() && s[i] == '\n' && (forall|j: int| 0 <= j < i ==> s[j] != '\n')) by {
        assert(0 <= n < s.len() && s[n] == '\n' && (forall|j: int| 0 <= j < n ==> s[j] != '\n'));
    }
    if i < n {
        assert(s[i] == line[i]);
    }
    if i > n {
        assert(s[n] != '\n');
    }
    assert(i == n);
    assert(s.subrange(0, n) =~= line);
    assert(s.subrange(n + 1, s.len() as int) =~= rest);
}

proof fn lemma_trim_identity(s: Seq<char>, k: CharClass)
    requires
        s.len() > 0,
        !in_class(s[0], k),
        !in_class(s.last(), k),
    ensures
        trim_class(s, k) == s,
{
}

/// The setting a line `<key> = "<v>"` gives to `key`, and that it gives
/// nothing to `other`.
proof fn lemma_setting_line(key: Seq<char>, other: Seq<char>, v: Seq<char>)
    requires
        key == "gemini_api_key"@ || key == "gemini_model"@,
        other == "gemini_api_key"@ || other == "gemini_model"@,
        key != other,
        storable(v),
    ensures
        line_setting(key + seq![' ', '=', ' ', '"'] + v + seq!['"'], key) == Some(v),
        line_setting(key + seq![' ', '=', ' ', '"'] + v + seq!['"'], other) is None,
{
    reveal_strlit("gemini_api_key");
    reveal_strlit("gemini_model");
    let line = key + seq![' ', '=', ' ', '"'] + v + seq!['"'];
    assert(line[0] == 'g');
    assert(line.last() == '"');
    lemma_trim_identity(line, CharClass::WhiteSpace);
    let rest = line.subrange(key.len() as int, line.len() as int);
    assert(line.subrange(0, key.len() as int) =~= key);
    assert(rest =~= seq![' ', '=', ' ', '"'] + v + seq!['"']);
    let quoted = seq!['"'] + v + seq!['"'];
    assert(rest.drop_first().drop_first().drop_first() =~= quoted);
    reveal_with_fuel(trim_start_class, 4);
    assert(trim_start_class(rest, CharClass::KeySeparator) == quoted);
    assert(quoted.drop_first() =~= v + seq!['"']);
    assert((v + seq!['"']).drop_last() =~= v);
    assert(trim_start_class(quoted, CharClass::DoubleQuote) == v + seq!['"']);
    reveal_with_fuel(trim_end_class, 3);
    assert(trim_end_class(v + seq!['"'], CharClass::DoubleQuote) == v);
    lemma_trim_identity(v, CharClass::SingleQuote);
    lemma_trim_identity(v, CharClass::WhiteSpace);
    assert(setting_value(rest) == v);
    assert(line[7] != other[7]);
    assert(!occurs_at(line, other, 0)) by {
        if occurs_at(line, other, 0) {
            assert(line.subrange(0, other.len() as int)[7] == line[7]);
        }
    }
}

/// Law: what is written to the configuration file is read back unchanged:
/// parsing the rendered text of stored settings gives those settings.
pub proof fn law_config_round_trip(c: ConfigView)
    requires
        storable_setting(c.0),
        storable_setting(c.1),
    ensures
        apply_lines(render_config_spec(c), (None, None)) == c,
{
    reveal_strlit("# DubStrip Configuration\n");
    reveal_strlit("# DubStrip Configuration");
    reveal_strlit("gemini_api_key = \"");
    reveal_strlit("gemini_model = \"");
    reveal_strlit("\"\n");
    reveal_strlit("gemini_api_key");
    reveal_strlit("gemini_model");
    let header = "# DubStrip Configuration"@;
    let key_name = "gemini_api_key"@;
    let model_name = "gemini_model"@;
    assert("# DubStrip Configuration\n"@ =~= header + seq!['\n']);
    assert(key_name != model_name) by {
        assert(key_name.len() != model_name.len());
    }
    // The header line sets nothing.
    assert(header[0] == '#' && header.last() == 'n');
    lemma_trim_identity(header, CharClass::WhiteSpace);
    assert(!occurs_at(header, key_name, 0)) by {
        if occurs_at(header, key_name, 0) {
            assert(header.subrange(0, key_name.len() as int)[0] == header[0]);
        }
    }
    assert(!occurs_at(header, model_name, 0)) by {
        if occurs_at(header, model_name, 0) {
            assert(header.subrange(0, model_name.len() as int)[0] == header[0]);
        }
    }
    assert(strip_cr(header) == header);
    assert(apply_line((None, None), strip_cr(header)) == (None::<Seq<char>>, None::<Seq<char>>))
        by {
        reveal(apply_line);
    }
    let key_part = match c.0 {
        Some(k) => "gemini_api_key = \""@ + k + "\"\n"@,
        None => Seq::<char>::empty(),
    };
    let model_part = match c.1 {
        Some(m) => "gemini_model = \""@ + m + "\"\n"@,
        None => Seq::<char>::empty(),
    };
    assert(render_config_spec(c) =~= header + seq!['\n'] + (key_part + model_part));
    lemma_apply_lines_split(header, key_part + model_part, (None, None));
    let after_key = match c.0 {
        Some(k) => (Some(k), None),
        None => (None, None),
    };
    match c.0 {
        Some(k) => {
            let line = key_name + seq![' ', '=', ' ', '"'] + k + seq!['"'];
            assert("gemini_api_key = \""@ + k + "\"\n"@ =~= line + seq!['\n']);
            assert(forall|j: int| 0 <= j < line.len() ==> line[j] != '\n') by {
                assert forall|j: int| 0 <= j < line.len() implies line[j] != '\n' by {
                    if 18 <= j < 18 + k.len() {
                        assert(line[j] == k[j - 18]);
                    }
                }
            }
            assert(key_part + model_part =~= line + seq!['\n'] + model_part);
            lemma_apply_lines_split(line, model_part, (None, None));
            lemma_setting_line(key_name, model_name, k);
            assert(strip_cr(line) == line);
            assert(apply_line((None, None), line) == (Some(k), None::<Seq<char>>)) by {
                reveal(apply_line);
            }
        },
        None => {
            assert(key_part + model_part =~= model_part);
        },
    }
    assert(apply_lines(render_config_spec(c), (None, None)) == apply_lines(model_part, after_key));
    match c.1 {
        Some(m) => {
            let line = model_name + seq![' ', '=', ' ', '"'] + m + seq!['"'];
            assert("gemini_model = \""@ + m + "\"\n"@ =~= line + seq!['\n']);
            assert(forall|j: int| 0 <= j < line.len() ==> line[j] != '\n') by {
                assert forall|j: int| 0 <= j < line.len() implies line[j] != '\n' by {
                    if 16 <= j < 16 + m.len() {
                        assert(line[j] == m[j - 16]);
                    }
                }
            }
            assert(model_part =~= line + seq!['\n'] + Seq::<char>::empty());
            lemma_apply_lines_split(line, Seq::<char>::empty(), after_key);
            lemma_setting_line(model_name, key_name, m);
            assert(strip_cr(line) == line);
            assert(apply_line(after_key, line) == (after_key.0, Some(m))) by {
                reveal(apply_line);
            }
        },
        None => {},
    }
}

} // verus!
