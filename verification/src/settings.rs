//! Application settings: the seeded defaults and the rows returned to the
//! frontend.
use vstd::prelude::*;

verus! {

/// A single setting to write; its value type is fixed by the seeded row.
pub struct SettingInput {
    pub key: String,
    pub value: String,
}

/// A setting row as returned to the frontend.
pub struct SettingEntry {
    pub key: String,
    pub value: String,
    pub default_value: String,
    pub value_type: String,
    pub created_at: String,
    pub updated_at: String,
}

/// The columns of a `setting` row: key, value, default value, value type,
/// creation and update times.
pub type SettingRow = (String, String, String, String, String, String);

/// A setting row as returned to the frontend.
pub fn row_to_entry(row: SettingRow) -> (r: SettingEntry)
    ensures
        r.key == row.0,
        r.value == row.1,
        r.default_value == row.2,
        r.value_type == row.3,
        r.created_at == row.4,
        r.updated_at == row.5,
{
    let (key, value, default_value, value_type, created_at, updated_at) = row;
    SettingEntry { key, value, default_value, value_type, created_at, updated_at }
}

/// Defaults of every known setting: key, TEXT-encoded value (numbers and
/// booleans stringified, `null` as the empty text, objects as JSON) and
/// value type. The value is written into both `value` and `default_value`
/// on first seed.
pub open spec fn seed_table() -> Seq<(Seq<char>, Seq<char>, Seq<char>)> {
    seq![
        ("terminal.appearance.color_scheme"@, r##"{"background":"#1e1e2e","foreground":"#cdd6f4","cursor":"#f5e0dc","cursorAccent":"#1e1e2e","selectionBackground":"#f5e0dc","selectionForeground":"#1e1e2e","black":"#45475a","red":"#f38ba8","green":"#a6e3a1","yellow":"#f9e2af","blue":"#89b4fa","magenta":"#f5c2e7","cyan":"#94e2d5","white":"#bac2de","brightBlack":"#585b70","brightRed":"#f38ba8","brightGreen":"#a6e3a1","brightYellow":"#f9e2af","brightBlue":"#89b4fa","brightMagenta":"#f5c2e7","brightCyan":"#94e2d5","brightWhite":"#a6adc8"}"##@, "json"@),
        ("terminal.appearance.font_family"@, r##""JetBrains Mono", "Fira Code", monospace"##@, "string"@),
        ("terminal.appearance.font_size"@, "14"@, "number"@),
        ("terminal.appearance.font_weight"@, "400"@, "number"@),
        ("terminal.appearance.font_weight_bold"@, "700"@, "number"@),
        ("terminal.appearance.line_height"@, "1.2"@, "number"@),
        ("terminal.appearance.cursor_style"@, "block"@, "string"@),
        ("terminal.appearance.cursor_blink"@, "true"@, "boolean"@),
        ("terminal.appearance.minimum_contrast_ratio"@, "1"@, "number"@),
        ("terminal.behavior.copy_on_select"@, "false"@, "boolean"@),
        ("terminal.behavior.scrollback"@, "1000"@, "number"@),
        ("terminal.behavior.scroll_sensitivity"@, "1"@, "number"@),
        ("ai.enabled"@, "false"@, "boolean"@),
        ("ai.model_id"@, "qwen2.5-coder-0.5b-instruct"@, "string"@),
        ("ai.quant"@, "Q4_K_M"@, "string"@),
        ("ai.inline_completion_enabled"@, "true"@, "boolean"@),
        ("ai.command_generator_enabled"@, "true"@, "boolean"@),
        ("ai.max_tokens"@, "32"@, "number"@),
        ("ai.temperature"@, "0.2"@, "number"@),
        ("ai.top_p"@, "0.95"@, "number"@),
        ("ai.context_lines"@, "20"@, "number"@),
        ("ssh.keepalive_interval"@, ""@, "null"@),
        ("ssh.connect_timeout"@, ""@, "null"@)
    ]
}

/// The seeded defaults.
pub fn seeds() -> (r: Vec<(&'static str, &'static str, &'static str)>)
    ensures
        r@.len() == seed_table().len(),
        forall|i: int|
            0 <= i < r@.len() ==> (#[trigger] r@[i]).0@ == seed_table()[i].0 && r@[i].1@
                == seed_table()[i].1 && r@[i].2@ == seed_table()[i].2,
{
    let r = vec![
        ("terminal.appearance.color_scheme", r##"{"background":"#1e1e2e","foreground":"#cdd6f4","cursor":"#f5e0dc","cursorAccent":"#1e1e2e","selectionBackground":"#f5e0dc","selectionForeground":"#1e1e2e","black":"#45475a","red":"#f38ba8","green":"#a6e3a1","yellow":"#f9e2af","blue":"#89b4fa","magenta":"#f5c2e7","cyan":"#94e2d5","white":"#bac2de","brightBlack":"#585b70","brightRed":"#f38ba8","brightGreen":"#a6e3a1","brightYellow":"#f9e2af","brightBlue":"#89b4fa","brightMagenta":"#f5c2e7","brightCyan":"#94e2d5","brightWhite":"#a6adc8"}"##, "json"),
        ("terminal.appearance.font_family", r##""JetBrains Mono", "Fira Code", monospace"##, "string"),
        ("terminal.appearance.font_size", "14", "number"),
        ("terminal.appearance.font_weight", "400", "number"),
        ("terminal.appearance.font_weight_bold", "700", "number"),
        ("terminal.appearance.line_height", "1.2", "number"),
        ("terminal.appearance.cursor_style", "block", "string"),
        ("terminal.appearance.cursor_blink", "true", "boolean"),
        ("terminal.appearance.minimum_contrast_ratio", "1", "number"),
        ("terminal.behavior.copy_on_select", "false", "boolean"),
        ("terminal.behavior.scrollback", "1000", "number"),
        ("terminal.behavior.scroll_sensitivity", "1", "number"),
        ("ai.enabled", "false", "boolean"),
        ("ai.model_id", "qwen2.5-coder-0.5b-instruct", "string"),
        ("ai.quant", "Q4_K_M", "string"),
        ("ai.inline_completion_enabled", "true", "boolean"),
        ("ai.command_generator_enabled", "true", "boolean"),
        ("ai.max_tokens", "32", "number"),
        ("ai.temperature", "0.2", "number"),
        ("ai.top_p", "0.95", "number"),
        ("ai.context_lines", "20", "number"),
        ("ssh.keepalive_interval", "", "null"),
        ("ssh.connect_timeout", "", "null")
    ];
    r
}

/// A value type the settings table knows.
pub open spec fn known_value_type(t: Seq<char>) -> bool {
    t == "string"@ || t == "number"@ || t == "boolean"@ || t == "null"@ || t == "json"@
}

/// Every seeded setting has a known value type, and a `null` setting has
/// the empty text as its default.
pub proof fn law_seed_value_types()
    ensures
        forall|i: int|
            0 <= i < seed_table().len() ==> known_value_type(#[trigger] seed_table()[i].2) && (
            seed_table()[i].2 == "null"@ ==> seed_table()[i].1.len() == 0),
{
    reveal_strlit("string");
    reveal_strlit("number");
    reveal_strlit("boolean");
    reveal_strlit("null");
    reveal_strlit("json");
    reveal_strlit("");
    assert("json"@ != "null"@) by {
        assert("json"@[0] != "null"@[0]);
    }
    assert("string"@ != "null"@) by {
        assert("string"@[0] != "null"@[0]);
    }
    assert("number"@ != "null"@) by {
        assert("number"@[2] != "null"@[2]);
    }
    assert("boolean"@ != "null"@) by {
        assert("boolean"@[0] != "null"@[0]);
    }
    assert(seed_table().len() == 23);
    assert forall|i: int|
        0 <= i < seed_table().len() implies known_value_type(#[trigger] seed_table()[i].2) && (
        seed_table()[i].2 == "null"@ ==> seed_table()[i].1.len() == 0) by {
        if i == 0 {
        } else if i == 1 {
        } else if i == 2 {
        } else if i == 3 {
        } else if i == 4 {
        } else if i == 5 {
        } else if i == 6 {
        } else if i == 7 {
        } else if i == 8 {
        } else if i == 9 {
        } else if i == 10 {
        } else if i == 11 {
        } else if i == 12 {
        } else if i == 13 {
        } else if i == 14 {
        } else if i == 15 {
        } else if i == 16 {
        } else if i == 17 {
        } else if i == 18 {
        } else if i == 19 {
        } else if i == 20 {
        } else if i == 21 {
        } else if i == 22 {
        }
    }
}

/// The seeded keys are distinct, so seeding writes one row per entry.
pub proof fn law_seed_keys_distinct()
    ensures
        forall|i: int, j: int|
            0 <= i < j < seed_table().len() ==> #[trigger] seed_table()[i].0
                != #[trigger] seed_table()[j].0,
{
    reveal_strlit("terminal.appearance.color_scheme");
    reveal_strlit("terminal.appearance.font_family");
    reveal_strlit("terminal.appearance.font_size");
    reveal_strlit("terminal.appearance.font_weight");
    reveal_strlit("terminal.appearance.font_weight_bold");
    reveal_strlit("terminal.appearance.line_height");
    reveal_strlit("terminal.appearance.cursor_style");
    reveal_strlit("terminal.appearance.cursor_blink");
    reveal_strlit("terminal.appearance.minimum_contrast_ratio");
    reveal_strlit("terminal.behavior.copy_on_select");
    reveal_strlit("terminal.behavior.scrollback");
    reveal_strlit("terminal.behavior.scroll_sensitivity");
    reveal_strlit("ai.enabled");
    reveal_strlit("ai.model_id");
    reveal_strlit("ai.quant");
    reveal_strlit("ai.inline_completion_enabled");
    reveal_strlit("ai.command_generator_enabled");
    reveal_strlit("ai.max_tokens");
    reveal_strlit("ai.temperature");
    reveal_strlit("ai.top_p");
    reveal_strlit("ai.context_lines");
    reveal_strlit("ssh.keepalive_interval");
    reveal_strlit("ssh.connect_timeout");
    assert("terminal.appearance.color_scheme"@[21] != "terminal.appearance.cursor_style"@[21]);
    assert("terminal.appearance.color_scheme"@[21] != "terminal.appearance.cursor_blink"@[21]);
    assert("terminal.appearance.color_scheme"@[9] != "terminal.behavior.copy_on_select"@[9]);
    assert("terminal.appearance.font_family"@[25] != "terminal.appearance.font_weight"@[25]);
    assert("terminal.appearance.font_family"@[20] != "terminal.appearance.line_height"@[20]);
    assert("terminal.appearance.font_weight"@[20] != "terminal.appearance.line_height"@[20]);
    assert("terminal.appearance.font_weight_bold"@[9] != "terminal.behavior.scroll_sensitivity"@[9]);
    assert("terminal.appearance.cursor_style"@[27] != "terminal.appearance.cursor_blink"@[27]);
    assert("terminal.appearance.cursor_style"@[9] != "terminal.behavior.copy_on_select"@[9]);
    assert("terminal.appearance.cursor_blink"@[9] != "terminal.behavior.copy_on_select"@[9]);
    assert("terminal.behavior.scrollback"@[0] != "ai.inline_completion_enabled"@[0]);
    assert("terminal.behavior.scrollback"@[0] != "ai.command_generator_enabled"@[0]);
    assert("ai.quant"@[3] != "ai.top_p"@[3]);
    assert("ai.inline_completion_enabled"@[3] != "ai.command_generator_enabled"@[3]);
    assert(seed_table().len() == 23);
    assert forall|i: int, j: int| 0 <= i < j < seed_table().len() implies #[trigger] seed_table()[i].0 != #[trigger] seed_table()[j].0 by {
        if i == 0 {
            assert(seed_table()[0].0 == "terminal.appearance.color_scheme"@);
        } else if i == 1 {
            assert(seed_table()[1].0 == "terminal.appearance.font_family"@);
        } else if i == 2 {
            assert(seed_table()[2].0 == "terminal.appearance.font_size"@);
        } else if i == 3 {
            assert(seed_table()[3].0 == "terminal.appearance.font_weight"@);
        } else if i == 4 {
            assert(seed_table()[4].0 == "terminal.appearance.font_weight_bold"@);
        } else if i == 5 {
            assert(seed_table()[5].0 == "terminal.appearance.line_height"@);
        } else if i == 6 {
            assert(seed_table()[6].0 == "terminal.appearance.cursor_style"@);
        } else if i == 7 {
            assert(seed_table()[7].0 == "terminal.appearance.cursor_blink"@);
        } else if i == 8 {
            assert(seed_table()[8].0 == "terminal.appearance.minimum_contrast_ratio"@);
        } else if i == 9 {
            assert(seed_table()[9].0 == "terminal.behavior.copy_on_select"@);
        } else if i == 10 {
            assert(seed_table()[10].0 == "terminal.behavior.scrollback"@);
        } else if i == 11 {
            assert(seed_table()[11].0 == "terminal.behavior.scroll_sensitivity"@);
        } else if i == 12 {
            assert(seed_table()[12].0 == "ai.enabled"@);
        } else if i == 13 {
            assert(seed_table()[13].0 == "ai.model_id"@);
        } else if i == 14 {
            assert(seed_table()[14].0 == "ai.quant"@);
        } else if i == 15 {
            assert(seed_table()[15].0 == "ai.inline_completion_enabled"@);
        } else if i == 16 {
            assert(seed_table()[16].0 == "ai.command_generator_enabled"@);
        } else if i == 17 {
            assert(seed_table()[17].0 == "ai.max_tokens"@);
        } else if i == 18 {
            assert(seed_table()[18].0 == "ai.temperature"@);
        } else if i == 19 {
            assert(seed_table()[19].0 == "ai.top_p"@);
        } else if i == 20 {
            assert(seed_table()[20].0 == "ai.context_lines"@);
        } else if i == 21 {
            assert(seed_table()[21].0 == "ssh.keepalive_interval"@);
        } else if i == 22 {
            assert(seed_table()[22].0 == "ssh.connect_timeout"@);
        }
        if j == 0 {
            assert(seed_table()[0].0 == "terminal.appearance.color_scheme"@);
        } else if j == 1 {
            assert(seed_table()[1].0 == "terminal.appearance.font_family"@);
        } else if j == 2 {
            assert(seed_table()[2].0 == "terminal.appearance.font_size"@);
        } else if j == 3 {
            assert(seed_table()[3].0 == "terminal.appearance.font_weight"@);
        } else if j == 4 {
            assert(seed_table()[4].0 == "terminal.appearance.font_weight_bold"@);
        } else if j == 5 {
            assert(seed_table()[5].0 == "terminal.appearance.line_height"@);
        } else if j == 6 {
            assert(seed_table()[6].0 == "terminal.appearance.cursor_style"@);
        } else if j == 7 {
            assert(seed_table()[7].0 == "terminal.appearance.cursor_blink"@);
        } else if j == 8 {
            assert(seed_table()[8].0 == "terminal.appearance.minimum_contrast_ratio"@);
        } else if j == 9 {
            assert(seed_table()[9].0 == "terminal.behavior.copy_on_select"@);
        } else if j == 10 {
            assert(seed_table()[10].0 == "terminal.behavior.scrollback"@);
        } else if j == 11 {
            assert(seed_table()[11].0 == "terminal.behavior.scroll_sensitivity"@);
        } else if j == 12 {
            assert(seed_table()[12].0 == "ai.enabled"@);
        } else if j == 13 {
            assert(seed_table()[13].0 == "ai.model_id"@);
        } else if j == 14 {
            assert(seed_table()[14].0 == "ai.quant"@);
        } else if j == 15 {
            assert(seed_table()[15].0 == "ai.inline_completion_enabled"@);
        } else if j == 16 {
            assert(seed_table()[16].0 == "ai.command_generator_enabled"@);
        } else if j == 17 {
            assert(seed_table()[17].0 == "ai.max_tokens"@);
        } else if j == 18 {
            assert(seed_table()[18].0 == "ai.temperature"@);
        } else if j == 19 {
            assert(seed_table()[19].0 == "ai.top_p"@);
        } else if j == 20 {
            assert(seed_table()[20].0 == "ai.context_lines"@);
        } else if j == 21 {
            assert(seed_table()[21].0 == "ssh.keepalive_interval"@);
        } else if j == 22 {
            assert(seed_table()[22].0 == "ssh.connect_timeout"@);
        }
    }
}

/// The seeded defaults, setting by setting: what a fresh database holds
/// and what a reset restores.
pub proof fn law_seed_defaults()
    ensures
        seed_table()[0] == ("terminal.appearance.color_scheme"@, r##"{"background":"#1e1e2e","foreground":"#cdd6f4","cursor":"#f5e0dc","cursorAccent":"#1e1e2e","selectionBackground":"#f5e0dc","selectionForeground":"#1e1e2e","black":"#45475a","red":"#f38ba8","green":"#a6e3a1","yellow":"#f9e2af","blue":"#89b4fa","magenta":"#f5c2e7","cyan":"#94e2d5","white":"#bac2de","brightBlack":"#585b70","brightRed":"#f38ba8","brightGreen":"#a6e3a1","brightYellow":"#f9e2af","brightBlue":"#89b4fa","brightMagenta":"#f5c2e7","brightCyan":"#94e2d5","brightWhite":"#a6adc8"}"##@, "json"@),
        seed_table()[1] == ("terminal.appearance.font_family"@, r##""JetBrains Mono", "Fira Code", monospace"##@, "string"@),
        seed_table()[2] == ("terminal.appearance.font_size"@, "14"@, "number"@),
        seed_table()[3] == ("terminal.appearance.font_weight"@, "400"@, "number"@),
        seed_table()[4] == ("terminal.appearance.font_weight_bold"@, "700"@, "number"@),
        seed_table()[5] == ("terminal.appearance.line_height"@, "1.2"@, "number"@),
        seed_table()[6] == ("terminal.appearance.cursor_style"@, "block"@, "string"@),
        seed_table()[7] == ("terminal.appearance.cursor_blink"@, "true"@, "boolean"@),
        seed_table()[8] == ("terminal.appearance.minimum_contrast_ratio"@, "1"@, "number"@),
        seed_table()[9] == ("terminal.behavior.copy_on_select"@, "false"@, "boolean"@),
        seed_table()[10] == ("terminal.behavior.scrollback"@, "1000"@, "number"@),
        seed_table()[11] == ("terminal.behavior.scroll_sensitivity"@, "1"@, "number"@),
        seed_table()[12] == ("ai.enabled"@, "false"@, "boolean"@),
        seed_table()[13] == ("ai.model_id"@, "qwen2.5-coder-0.5b-instruct"@, "string"@),
        seed_table()[14] == ("ai.quant"@, "Q4_K_M"@, "string"@),
        seed_table()[15] == ("ai.inline_completion_enabled"@, "true"@, "boolean"@),
        seed_table()[16] == ("ai.command_generator_enabled"@, "true"@, "boolean"@),
        seed_table()[17] == ("ai.max_tokens"@, "32"@, "number"@),
        seed_table()[18] == ("ai.temperature"@, "0.2"@, "number"@),
        seed_table()[19] == ("ai.top_p"@, "0.95"@, "number"@),
        seed_table()[20] == ("ai.context_lines"@, "20"@, "number"@),
        seed_table()[21] == ("ssh.keepalive_interval"@, ""@, "null"@),
        seed_table()[22] == ("ssh.connect_timeout"@, ""@, "null"@),
        seed_table().len() == 23,
{
}

} // verus!
