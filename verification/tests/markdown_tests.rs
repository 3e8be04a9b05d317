use dect::json::Json;
use dect::markdown::{format_default, markdown_of_output, MdError};
use dect::scan::last_json_array;

const SCHEMA_OUTPUT: &str = "noise\n[{\"option_strings\":[\"--help\"],\"dest\":\"help\",\"help\":null,\"type\":\"bool\",\"default\":null,\"required\":false,\"nargs\":0,\"choices\":null,\"metavar\":null},{\"option_strings\":[\"--foo\"],\"dest\":\"foo\",\"help\":\"does a|b\",\"type\":\"str\",\"default\":\"x\",\"required\":true,\"nargs\":null,\"choices\":null,\"metavar\":null}]";

#[test]
fn generator_renders_single_row_table() {
    let expected = "## Command-Line Arguments Table\n\n| Field | Type | Default | Required | Description |\n|-------|------|---------|----------|-------------|\n| --foo | str | `x` | Yes | does a\\|b |\n";
    let got = markdown_of_output(SCHEMA_OUTPUT).expect("schema output must render");
    assert_eq!(got, expected);
}

#[test]
fn generator_fails_without_json_array() {
    assert_eq!(
        markdown_of_output("just diagnostics, no schema"),
        Err(MdError::NoJsonArray)
    );
}

#[test]
fn generator_ignores_array_without_objects() {
    assert_eq!(markdown_of_output("[1, 2, 3]"), Err(MdError::NoJsonArray));
}

#[test]
fn generator_rejects_invalid_json_in_span() {
    assert_eq!(markdown_of_output("text [{,}] text"), Err(MdError::SchemaParse));
}

#[test]
fn generator_rejects_wrong_record_shape() {
    assert_eq!(markdown_of_output("[{}]"), Err(MdError::SchemaParse));
}

#[test]
fn null_default_renders_as_none() {
    assert_eq!(format_default(&Json::Null), "None");
}

#[test]
fn suppress_sentinel_renders_as_dash() {
    assert_eq!(format_default(&Json::Str("==SUPPRESS==".to_owned())), "-");
}

#[test]
fn string_default_renders_in_inline_code() {
    assert_eq!(format_default(&Json::Str("x".to_owned())), "`x`");
}

#[test]
fn bool_and_number_defaults_render_literally() {
    assert_eq!(format_default(&Json::Bool(true)), "true");
    assert_eq!(format_default(&Json::Bool(false)), "false");
    assert_eq!(format_default(&Json::Num("42".to_owned())), "42");
}

#[test]
fn array_default_renders_its_bracketed_text() {
    let d = Json::Arr(
        vec![Json::Str("a".to_owned())],
        "[String(\"a\")]".to_owned(),
    );
    assert_eq!(format_default(&d), "[String(\"a\")]");
}

#[test]
fn object_default_renders_as_empty_object() {
    assert_eq!(format_default(&Json::Obj(Vec::new())), "{}");
}

#[test]
fn scan_finds_array_after_noise() {
    let s = "noise [ {\"a\": 1} ] tail";
    assert_eq!(last_json_array(s), Some("[ {\"a\": 1} ]"));
}

#[test]
fn scan_takes_last_array() {
    let s = "[{\"a\":1}] middle [{\"b\":2}]";
    assert_eq!(last_json_array(s), Some("[{\"b\":2}]"));
}

#[test]
fn scan_finds_nothing_in_plain_text() {
    assert_eq!(last_json_array("nothing here"), None);
}

#[test]
fn help_flag_alone_yields_empty_table() {
    let s = "[{\"option_strings\":[\"--dump_argparse_schema\"],\"dest\":\"d\",\
             \"help\":null,\"type\":\"bool\",\"default\":null,\"required\":false,\
             \"nargs\":null,\"choices\":null,\"metavar\":null}]";
    let expected = "## Command-Line Arguments Table\n\n| Field | Type | Default | Required | Description |\n|-------|------|---------|----------|-------------|\n";
    assert_eq!(markdown_of_output(s).expect("valid schema"), expected);
}

#[test]
fn option_strings_join_with_comma_space() {
    let s = "[{\"option_strings\":[\"-f\",\"--foo\"],\"dest\":\"foo\",\"help\":\"h\",\"type\":\"str\",\"default\":null,\"required\":false,\"nargs\":null,\"choices\":null,\"metavar\":null}]";
    let got = markdown_of_output(s).expect("valid schema");
    assert!(got.contains("| -f, --foo | str | None | No | h |\n"));
}

#[test]
fn numeric_default_renders_its_decimal_text() {
    let s = "[{\"option_strings\":[\"--rate\"],\"dest\":\"rate\",\"help\":null,\"type\":\"float\",\"default\":0.5,\"required\":false,\"nargs\":null,\"choices\":null,\"metavar\":null}]";
    let got = markdown_of_output(s).expect("valid schema");
    assert!(got.contains("| --rate | float | 0.5 | No |  |\n"));
}
