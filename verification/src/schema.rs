use vstd::prelude::*;

use crate::json::Json;
use crate::strutil::str_eq;

verus! {

/// One entry of a script's argument schema, as the table renderer
/// consumes it.
#[derive(Debug, PartialEq, Eq)]
pub struct ArgRecord {
    pub option_strings: Vec<String>,
    pub dest: String,
    pub help: Option<String>,
    pub arg_type: String,
    pub default: Json,
    pub required: bool,
    pub nargs: Json,
    pub choices: Option<Json>,
    pub metavar: Option<String>,
}

/// The mathematical content of an `ArgRecord`.
pub ghost struct RecView {
    pub option_strings: Seq<Seq<char>>,
    pub dest: Seq<char>,
    pub help: Option<Seq<char>>,
    pub arg_type: Seq<char>,
    pub default: Json,
    pub required: bool,
    pub nargs: Json,
    pub choices: Option<Json>,
    pub metavar: Option<Seq<char>>,
}

impl View for ArgRecord {
    type V = RecView;

    open spec fn view(&self) -> RecView {
        RecView {
            option_strings: self.option_strings@.map_values(|s: String| s@),
            dest: self.dest@,
            help: match self.help {
                Some(h) => Some(h@),
                None => None,
            },
            arg_type: self.arg_type@,
            default: self.default,
            required: self.required,
            nargs: self.nargs,
            choices: self.choices,
            metavar: match self.metavar {
                Some(m) => Some(m@),
                None => None,
            },
        }
    }
}

/// The value of the first field at or after position `k` named `name`.
pub open spec fn field_from(fields: Seq<(String, Json)>, name: Seq<char>, k: int) -> Option<Json>
    decreases fields.len() - k,
{
    if k < 0 || k >= fields.len() {
        None
    } else if fields[k].0@ == name {
        Some(fields[k].1)
    } else {
        field_from(fields, name, k + 1)
    }
}

/// The value of the first field named `name`, if any.
pub open spec fn field_of(fields: Seq<(String, Json)>, name: Seq<char>) -> Option<Json> {
    field_from(fields, name, 0)
}

/// Whether every element is a JSON string.
pub open spec fn all_strings(items: Seq<Json>) -> bool {
    forall|k: int| 0 <= k < items.len() ==> items[k] is Str
}

/// The character sequences of a sequence of JSON strings.
pub open spec fn texts_of(items: Seq<Json>) -> Seq<Seq<char>> {
    items.map_values(
        |j: Json|
            match j {
                Json::Str(s) => s@,
                _ => Seq::<char>::empty(),
            },
    )
}

/// A field that may be absent or null (then nothing), or a string (then
/// its text); any other value is a shape error (`None`).
pub open spec fn opt_text_field(fields: Seq<(String, Json)>, name: Seq<char>) -> Option<
    Option<Seq<char>>,
> {
    match field_of(fields, name) {
        None => Some(None),
        Some(Json::Null) => Some(None),
        Some(Json::Str(s)) => Some(Some(s@)),
        Some(_) => None,
    }
}

/// The `choices` field: absent and null both mean none; any other value
/// is kept whole.
pub open spec fn choices_of(fields: Seq<(String, Json)>) -> Option<Json> {
    match field_of(fields, "choices"@) {
        None => None,
        Some(Json::Null) => None,
        Some(v) => Some(v),
    }
}

/// Whether an object's fields have the shape of one schema record:
/// `option_strings` an array of strings, `dest` and `type` strings,
/// `required` a boolean, `default` and `nargs` present with any value,
/// `help` and `metavar` absent, null or strings. Unknown fields are
/// ignored.
pub open spec fn fields_ok(fields: Seq<(String, Json)>) -> bool {
    &&& match field_of(fields, "option_strings"@) {
        Some(Json::Arr(items, _)) => all_strings(items@),
        _ => false,
    }
    &&& field_of(fields, "dest"@) matches Some(Json::Str(_))
    &&& field_of(fields, "type"@) matches Some(Json::Str(_))
    &&& field_of(fields, "default"@) is Some
    &&& field_of(fields, "required"@) matches Some(Json::Bool(_))
    &&& field_of(fields, "nargs"@) is Some
    &&& opt_text_field(fields, "help"@) is Some
    &&& opt_text_field(fields, "metavar"@) is Some
}

/// The record read off an object's fields; meaningful when `fields_ok`.
pub open spec fn rec_of_fields(fields: Seq<(String, Json)>) -> RecView {
    RecView {
        option_strings: match field_of(fields, "option_strings"@) {
            Some(Json::Arr(items, _)) => texts_of(items@),
            _ => Seq::empty(),
        },
        dest: match field_of(fields, "dest"@) {
            Some(Json::Str(s)) => s@,
            _ => Seq::empty(),
        },
        help: match opt_text_field(fields, "help"@) {
            Some(h) => h,
            None => None,
        },
        arg_type: match field_of(fields, "type"@) {
            Some(Json::Str(s)) => s@,
            _ => Seq::empty(),
        },
        default: match field_of(fields, "default"@) {
            Some(v) => v,
            None => Json::Null,
        },
        required: match field_of(fields, "required"@) {
            Some(Json::Bool(b)) => b,
            _ => false,
        },
        nargs: match field_of(fields, "nargs"@) {
            Some(v) => v,
            None => Json::Null,
        },
        choices: choices_of(fields),
        metavar: match opt_text_field(fields, "metavar"@) {
            Some(m) => m,
            None => None,
        },
    }
}

/// The strings of a JSON array of strings; `None` where an element is
/// not a string.
#[verifier::loop_isolation(false)]
fn take_strings(items: Vec<Json>) -> (r: Option<Vec<String>>)
    ensures
        r is Some <==> all_strings(items@),
        r is Some ==> r->0@.map_values(|s: String| s@) == texts_of(items@),
{
    let ghost orig = items@;
    let ghost n = orig.len();
    let mut rest = items;
    let mut out: Vec<String> = Vec::new();
    while rest.len() > 0
        invariant
            rest@.len() <= n,
            rest@ == orig.subrange(n as int - rest@.len() as int, n as int),
            out@.len() == n - rest@.len(),
            forall|k: int|
                0 <= k < out@.len() ==> orig[k] is Str && out@[k]@ == (match orig[k] {
                    Json::Str(s) => s@,
                    _ => Seq::<char>::empty(),
                }),
        decreases rest.len(),
    {
        let ghost idx = n as int - rest@.len() as int;
        let j = rest.remove(0);
        proof {
            assert(j == orig[idx]);
            assert(rest@ =~= orig.subrange(idx + 1, n as int));
        }
        match j {
            Json::Str(s) => {
                out.push(s);
            },
            _ => {
                proof {
                    assert(!(orig[idx] is Str));
                }
                return None;
            },
        }
    }
    proof {
        assert(out@.map_values(|s: String| s@) =~= texts_of(orig));
    }
    Some(out)
}

/// Reads one schema record off an object's fields, taking for each
/// field name its first occurrence; `None` on any shape error.
#[verifier::loop_isolation(false)]
pub fn record_of_fields(fields: Vec<(String, Json)>) -> (r: Option<ArgRecord>)
    ensures
        r is Some <==> fields_ok(fields@),
        r is Some ==> r->0@ == rec_of_fields(fields@),
{
    let ghost orig = fields@;
    let mut rest = fields;
    let mut f_os: Option<Json> = None;
    let mut f_dest: Option<Json> = None;
    let mut f_help: Option<Json> = None;
    let mut f_type: Option<Json> = None;
    let mut f_default: Option<Json> = None;
    let mut f_required: Option<Json> = None;
    let mut f_nargs: Option<Json> = None;
    let mut f_choices: Option<Json> = None;
    let mut f_meta: Option<Json> = None;
    while rest.len() > 0
        invariant
            rest@.len() <= orig.len(),
            rest@ == orig.subrange(0, rest@.len() as int),
            f_os == field_from(orig, "option_strings"@, rest@.len() as int),
            f_dest == field_from(orig, "dest"@, rest@.len() as int),
            f_help == field_from(orig, "help"@, rest@.len() as int),
            f_type == field_from(orig, "type"@, rest@.len() as int),
            f_default == field_from(orig, "default"@, rest@.len() as int),
            f_required == field_from(orig, "required"@, rest@.len() as int),
            f_nargs == field_from(orig, "nargs"@, rest@.len() as int),
            f_choices == field_from(orig, "choices"@, rest@.len() as int),
            f_meta == field_from(orig, "metavar"@, rest@.len() as int),
        decreases rest.len(),
    {
        let kv = rest.pop().unwrap();
        let ghost i = rest@.len() as int;
        proof {
            assert(kv == orig[i]);
            assert(rest@ =~= orig.subrange(0, i as int));
            reveal_strlit("option_strings");
            reveal_strlit("dest");
            reveal_strlit("help");
            reveal_strlit("type");
            reveal_strlit("default");
            reveal_strlit("required");
            reveal_strlit("nargs");
            reveal_strlit("choices");
            reveal_strlit("metavar");
            assert("option_strings"@[0] == 'o');
            assert("dest"@[0] == 'd');
            assert("help"@[0] == 'h');
            assert("type"@[0] == 't');
            assert("default"@[0] == 'd');
            assert("default"@[2] == 'f');
            assert("dest"@[2] == 's');
            assert("required"@[0] == 'r');
            assert("nargs"@[0] == 'n');
            assert("choices"@[0] == 'c');
            assert("metavar"@[0] == 'm');
        }
        let (k, v) = kv;
        if str_eq(k.as_str(), "option_strings") {
            f_os = Some(v);
        } else if str_eq(k.as_str(), "dest") {
            f_dest = Some(v);
        } else if str_eq(k.as_str(), "help") {
            f_help = Some(v);
        } else if str_eq(k.as_str(), "type") {
            f_type = Some(v);
        } else if str_eq(k.as_str(), "default") {
            f_default = Some(v);
        } else if str_eq(k.as_str(), "required") {
            f_required = Some(v);
        } else if str_eq(k.as_str(), "nargs") {
            f_nargs = Some(v);
        } else if str_eq(k.as_str(), "choices") {
            f_choices = Some(v);
        } else if str_eq(k.as_str(), "metavar") {
            f_meta = Some(v);
        }
    }
    let option_strings = match f_os {
        Some(Json::Arr(items, _)) => match take_strings(items) {
            Some(ss) => ss,
            None => {
                return None;
            },
        },
        _ => {
            return None;
        },
    };
    let dest = match f_dest {
        Some(Json::Str(s)) => s,
        _ => {
            return None;
        },
    };
    let help = match f_help {
        None => None,
        Some(Json::Null) => None,
        Some(Json::Str(s)) => Some(s),
        Some(_) => {
            return None;
        },
    };
    let arg_type = match f_type {
        Some(Json::Str(s)) => s,
        _ => {
            return None;
        },
    };
    let default = match f_default {
        Some(v) => v,
        None => {
            return None;
        },
    };
    let required = match f_required {
        Some(Json::Bool(b)) => b,
        _ => {
            return None;
        },
    };
    let nargs = match f_nargs {
        Some(v) => v,
        None => {
            return None;
        },
    };
    let choices = match f_choices {
        None => None,
        Some(Json::Null) => None,
        Some(v) => Some(v),
    };
    let metavar = match f_meta {
        None => None,
        Some(Json::Null) => None,
        Some(Json::Str(s)) => Some(s),
        Some(_) => {
            return None;
        },
    };
    let rec = ArgRecord {
        option_strings,
        dest,
        help,
        arg_type,
        default,
        required,
        nargs,
        choices,
        metavar,
    };
    proof {
        assert(rec@.option_strings =~~= rec_of_fields(orig).option_strings);
        assert(rec@ == rec_of_fields(orig));
    }
    Some(rec)
}

/// The fields of a JSON object, and nothing of any other value.
pub open spec fn obj_fields(j: Json) -> Seq<(String, Json)> {
    match j {
        Json::Obj(fields) => fields@,
        _ => Seq::empty(),
    }
}

/// The record read off one array element; meaningful when `item_ok`.
pub open spec fn rec_of_item(j: Json) -> RecView {
    rec_of_fields(obj_fields(j))
}

/// Whether one array element is an object of record shape.
pub open spec fn item_ok(j: Json) -> bool {
    j matches Json::Obj(fields) && fields_ok(fields@)
}

/// Whether a parsed value is an array of record-shaped objects.
pub open spec fn records_ok(v: Json) -> bool {
    v matches Json::Arr(items, _) && (forall|k: int| 0 <= k < items@.len() ==> item_ok(items@[k]))
}

/// The records of a parsed array; meaningful when `records_ok`.
pub open spec fn recs_of_value(v: Json) -> Seq<RecView> {
    match v {
        Json::Arr(items, _) => items@.map_values(|j: Json| rec_of_item(j)),
        _ => Seq::empty(),
    }
}

/// Reads a full schema off a parsed JSON value: an array of objects,
/// each of record shape; `None` on any shape error.
#[verifier::loop_isolation(false)]
pub fn records_of_json(v: Json) -> (r: Option<Vec<ArgRecord>>)
    ensures
        r is Some <==> records_ok(v),
        r is Some ==> r->0@.map_values(|a: ArgRecord| a@) == recs_of_value(v),
{
    let items = match v {
        Json::Arr(items, _) => items,
        _ => {
            return None;
        },
    };
    let ghost orig = items@;
    let ghost n = orig.len();
    let mut rest = items;
    let mut out: Vec<ArgRecord> = Vec::new();
    while rest.len() > 0
        invariant
            rest@.len() <= n,
            rest@ == orig.subrange(n as int - rest@.len() as int, n as int),
            out@.len() == n - rest@.len(),
            forall|k: int|
                0 <= k < out@.len() ==> item_ok(orig[k]) && out@[k]@ == rec_of_item(orig[k]),
        decreases rest.len(),
    {
        let ghost idx = n as int - rest@.len() as int;
        let j = rest.remove(0);
        proof {
            assert(j == orig[idx]);
            assert(rest@ =~= orig.subrange(idx + 1, n as int));
        }
        match j {
            Json::Obj(fields) => {
                match record_of_fields(fields) {
                    Some(rec) => {
                        out.push(rec);
                    },
                    None => {
                        return None;
                    },
                }
            },
            _ => {
                return None;
            },
        }
    }
    proof {
        assert(out@.map_values(|a: ArgRecord| a@) =~= orig.map_values(|j: Json| rec_of_item(j)));
    }
    Some(out)
}

} // verus!
