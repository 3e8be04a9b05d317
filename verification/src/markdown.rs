use vstd::prelude::*;

use crate::json::{parse_json, json_of_text, Json};
use crate::scan;
use crate::schema::{
    records_of_json, records_ok, recs_of_value, ArgRecord, RecView,
};
use crate::strutil::str_eq;

verus! {

use vstd::string::*;

/// Why no markdown table could be produced from a script's output.
#[derive(Debug, Clone, Copy, PartialEq, Eq, Structural)]
pub enum MdError {
    /// No JSON array was found in the output.
    NoJsonArray,
    /// The located text is not valid JSON of the expected record shape.
    SchemaParse,
}

/// `s` from position `i` on, with a backslash put before every `|`.
pub open spec fn escaped_from(s: Seq<char>, i: int) -> Seq<char>
    decreases s.len() - i,
{
    if i < 0 || i >= s.len() {
        Seq::empty()
    } else if s[i] == '|' {
        seq!['\\', '|'] + escaped_from(s, i + 1)
    } else {
        seq![s[i]] + escaped_from(s, i + 1)
    }
}

/// `s` with a backslash put before every `|`, so a help text cannot
/// break the table.
pub open spec fn escaped(s: Seq<char>) -> Seq<char> {
    escaped_from(s, 0)
}

/// The first `i` parts joined by `", "`.
pub open spec fn joined(parts: Seq<Seq<char>>, i: int) -> Seq<char>
    decreases i,
{
    if i <= 0 {
        Seq::empty()
    } else if i == 1 {
        parts[0]
    } else {
        joined(parts, i - 1) + ", "@ + parts[i - 1]
    }
}

/// How a record's default value is shown: nothing as `None`, booleans
/// and numbers as their literal text, the suppression sentinel as a
/// dash, other strings in inline code, arrays as their bracketed text,
/// objects as an empty object.
pub open spec fn default_text(d: Json) -> Seq<char> {
    match d {
        Json::Null => "None"@,
        Json::Bool(b) => if b {
            "true"@
        } else {
            "false"@
        },
        Json::Num(t) => t@,
        Json::Str(s) => if s@ == "==SUPPRESS=="@ {
            "-"@
        } else {
            "`"@ + s@ + "`"@
        },
        Json::Arr(_, text) => text@,
        Json::Obj(_) => "{}"@,
    }
}

/// One table row for a record.
pub open spec fn row_of(r: RecView) -> Seq<char> {
    "| "@ + joined(r.option_strings, r.option_strings.len() as int) + " | "@ + r.arg_type + " | "@
        + default_text(r.default) + " | "@ + (if r.required {
        "Yes"@
    } else {
        "No"@
    }) + " | "@ + escaped(
        match r.help {
            Some(h) => h,
            None => Seq::empty(),
        },
    ) + " |\n"@
}

/// The rows of the first `i` records, in order.
pub open spec fn rows_of(rs: Seq<RecView>, i: int) -> Seq<char>
    decreases i,
{
    if i <= 0 {
        Seq::empty()
    } else {
        rows_of(rs, i - 1) + row_of(rs[i - 1])
    }
}

/// The whole table: title, header, and one row per record.
pub open spec fn table_of(rs: Seq<RecView>) -> Seq<char> {
    "## Command-Line Arguments Table\n\n| Field | Type | Default | Required | Description |\n|-------|------|---------|----------|-------------|\n"@
        + rows_of(rs, rs.len() as int)
}

/// Whether a record is dropped: one of its option strings is the help
/// flag or the schema-dump flag itself.
pub open spec fn denied(opts: Seq<Seq<char>>) -> bool {
    exists|k: int|
        0 <= k < opts.len() && (opts[k] == "--help"@ || opts[k] == "--dump_argparse_schema"@)
}

/// The records among the first `i` that are not dropped, in order.
pub open spec fn kept(rs: Seq<RecView>, i: int) -> Seq<RecView>
    decreases i,
{
    if i <= 0 {
        Seq::empty()
    } else {
        kept(rs, i - 1) + (if denied(rs[i - 1].option_strings) {
            Seq::<RecView>::empty()
        } else {
            seq![rs[i - 1]]
        })
    }
}

/// The records that are not dropped, in order.
pub open spec fn filtered(rs: Seq<RecView>) -> Seq<RecView> {
    kept(rs, rs.len() as int)
}

/// The whole generator on a script's captured output: the last JSON
/// array in it, parsed, read as records, filtered, and rendered.
pub open spec fn markdown_spec(s: Seq<char>) -> Result<Seq<char>, MdError> {
    match scan::last_match_from(s, 0) {
        None => Err(MdError::NoJsonArray),
        Some(m) => match json_of_text(s.subrange(m.0, m.1 + 1)) {
            None => Err(MdError::SchemaParse),
            Some(v) => if records_ok(v) {
                Ok(table_of(filtered(recs_of_value(v))))
            } else {
                Err(MdError::SchemaParse)
            },
        },
    }
}

/// `s` with a backslash put before every `|`.
#[verifier::loop_isolation(false)]
pub fn escape_pipes(s: &str) -> (r: String)
    ensures
        r@ == escaped(s@),
{
    let n = s.unicode_len();
    let mut out = String::new();
    let mut i: usize = 0;
    while i < n
        invariant
            i <= n,
            escaped(s@) == out@ + escaped_from(s@, i as int),
        decreases n - i,
    {
        let c = s.get_char(i);
        if c == '|' {
            out.append("\\|");
            proof {
                reveal_strlit("\\|");
                assert("\\|"@ =~= seq!['\\', '|']);
            }
        } else {
            let piece = s.substring_char(i, i + 1);
            out.append(piece);
            proof {
                assert(s@.subrange(i as int, i as int + 1) =~= seq![s@[i as int]]);
            }
        }
        i = i + 1;
        proof {
            assert(escaped(s@) =~= out@ + escaped_from(s@, i as int));
        }
    }
    proof {
        assert(escaped(s@) =~= out@);
    }
    out
}

/// The option strings joined by `", "`.
#[verifier::loop_isolation(false)]
pub fn join_options(parts: &Vec<String>) -> (r: String)
    ensures
        r@ == joined(
            parts@.map_values(|s: String| s@),
            parts@.len() as int,
        ),
{
    let ghost ps = parts@.map_values(|s: String| s@);
    let mut out = String::new();
    let mut i: usize = 0;
    while i < parts.len()
        invariant
            i <= parts@.len(),
            out@ == joined(ps, i as int),
        decreases parts@.len() - i,
    {
        if i > 0 {
            out.append(", ");
        }
        out.append(parts[i].as_str());
        i = i + 1;
        proof {
            assert(out@ =~= joined(ps, i as int));
        }
    }
    out
}

/// Renders a record's default value.
pub fn format_default(d: &Json) -> (r: String)
    ensures
        r@ == default_text(*d),
{
    match d {
        Json::Null => "None".to_owned(),
        Json::Bool(b) => if *b {
            "true".to_owned()
        } else {
            "false".to_owned()
        },
        Json::Num(t) => t.clone(),
        Json::Str(s) => {
            if str_eq(s.as_str(), "==SUPPRESS==") {
                "-".to_owned()
            } else {
                let mut out = "`".to_owned();
                out.append(s.as_str());
                out.append("`");
                proof {
                    assert(out@ =~= "`"@ + s@ + "`"@);
                }
                out
            }
        },
        Json::Arr(_, text) => text.clone(),
        Json::Obj(_) => "{}".to_owned(),
    }
}

/// Renders one table row.
pub fn render_row(rec: &ArgRecord) -> (r: String)
    ensures
        r@ == row_of(rec@),
{
    let mut out = "| ".to_owned();
    let field = join_options(&rec.option_strings);
    out.append(field.as_str());
    out.append(" | ");
    out.append(rec.arg_type.as_str());
    out.append(" | ");
    let default = format_default(&rec.default);
    out.append(default.as_str());
    out.append(" | ");
    if rec.required {
        out.append("Yes");
    } else {
        out.append("No");
    }
    out.append(" | ");
    let help = match &rec.help {
        Some(h) => escape_pipes(h.as_str()),
        None => String::new(),
    };
    out.append(help.as_str());
    out.append(" |\n");
    proof {
        assert(out@ =~= row_of(rec@));
    }
    out
}

/// Renders the whole table for the given records.
#[verifier::loop_isolation(false)]
pub fn render_table(recs: &Vec<ArgRecord>) -> (r: String)
    ensures
        r@ == table_of(recs@.map_values(|a: ArgRecord| a@)),
{
    let ghost rs = recs@.map_values(|a: ArgRecord| a@);
    let mut out =
        "## Command-Line Arguments Table\n\n| Field | Type | Default | Required | Description |\n|-------|------|---------|----------|-------------|\n".to_owned();
    let ghost head = out@;
    let mut i: usize = 0;
    while i < recs.len()
        invariant
            i <= recs@.len(),
            out@ == head + rows_of(rs, i as int),
        decreases recs@.len() - i,
    {
        let row = render_row(&recs[i]);
        out.append(row.as_str());
        i = i + 1;
        proof {
            assert(out@ =~= head + rows_of(rs, i as int));
        }
    }
    proof {
        assert(out@ =~= table_of(rs));
    }
    out
}

/// Whether one of the option strings is the help flag or the
/// schema-dump flag.
#[verifier::loop_isolation(false)]
fn is_denied(opts: &Vec<String>) -> (r: bool)
    ensures
        r == denied(opts@.map_values(|s: String| s@)),
{
    let ghost os = opts@.map_values(|s: String| s@);
    let mut i: usize = 0;
    while i < opts.len()
        invariant
            i <= opts@.len(),
            forall|k: int|
                0 <= k < i ==> !(os[k] == "--help"@ || os[k] == "--dump_argparse_schema"@),
        decreases opts@.len() - i,
    {
        if str_eq(opts[i].as_str(), "--help") || str_eq(
            opts[i].as_str(),
            "--dump_argparse_schema",
        ) {
            proof {
                assert(os[i as int] == opts@[i as int]@);
                assert(denied(os));
            }
            return true;
        }
        i = i + 1;
    }
    false
}

/// Drops every record one of whose option strings is the help flag or
/// the schema-dump flag, keeping the rest in order.
#[verifier::loop_isolation(false)]
pub fn filter_records(recs: Vec<ArgRecord>) -> (r: Vec<ArgRecord>)
    ensures
        r@.map_values(|a: ArgRecord| a@) == filtered(recs@.map_values(|a: ArgRecord| a@)),
{
    let ghost rs = recs@.map_values(|a: ArgRecord| a@);
    let ghost n = rs.len();
    let mut rest = recs;
    let mut out: Vec<ArgRecord> = Vec::new();
    while rest.len() > 0
        invariant
            rest@.len() <= n,
            rest@ == recs@.subrange(n as int - rest@.len() as int, n as int),
            out@.map_values(|a: ArgRecord| a@) == kept(rs, n as int - rest@.len() as int),
        decreases rest.len(),
    {
        let ghost idx = n as int - rest@.len() as int;
        let rec = rest.remove(0);
        proof {
            assert(rec == recs@[idx]);
            assert(rest@ =~= recs@.subrange(idx + 1, n as int));
        }
        if !is_denied(&rec.option_strings) {
            out.push(rec);
        }
        proof {
            assert(out@.map_values(|a: ArgRecord| a@) =~= kept(rs, idx + 1));
        }
    }
    proof {
        assert(out@.map_values(|a: ArgRecord| a@) =~= filtered(rs));
    }
    out
}

/// The schema-to-markdown generator on a script's captured output:
/// locates the last JSON array in it, parses it, reads the records,
/// drops the denylisted ones, and renders the markdown table.
pub fn markdown_of_output(stdout_text: &str) -> (r: Result<String, MdError>)
    ensures
        match r {
            Ok(out) => markdown_spec(stdout_text@) is Ok && out@ == markdown_spec(
                stdout_text@,
            )->Ok_0,
            Err(e) => markdown_spec(stdout_text@) == Err::<Seq<char>, MdError>(e),
        },
{
    let sub = match scan::last_json_array(stdout_text) {
        Some(t) => t,
        None => {
            return Err(MdError::NoJsonArray);
        },
    };
    let v = match parse_json(sub) {
        Some(v) => v,
        None => {
            return Err(MdError::SchemaParse);
        },
    };
    let recs = match records_of_json(v) {
        Some(recs) => recs,
        None => {
            return Err(MdError::SchemaParse);
        },
    };
    let kept_recs = filter_records(recs);
    Ok(render_table(&kept_recs))
}

/// The generator reports that no array was found exactly when no
/// array-shaped span occurs anywhere in the output.
pub proof fn lemma_not_found_iff_no_array(s: Seq<char>)
    ensures
        markdown_spec(s) == Err::<Seq<char>, MdError>(MdError::NoJsonArray) <==> (forall|i: int|
            0 <= i < s.len() ==> scan::match_end_at(s, i) is None),
{
    scan::lemma_scan_none_iff_no_match(s, 0);
}

} // verus!
