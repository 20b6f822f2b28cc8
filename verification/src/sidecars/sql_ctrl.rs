//! A sidecar that runs SQL statements: what a request asks for, and how the
//! answer of the database is told.

use crate::agent::error::joined;
use crate::agent::state;
use crate::agent::unit::artifact;
use crate::json::{self, Json, JsonFloat, JsonNumber, JsonObject, JsonView, NumberView};
use crate::protocol::error::{ProtocolError, ProtocolErrorModel, INTERNAL_ERROR, INVALID_PARAMS};
use crate::protocol::sidecar::{
    HealthResponse, HealthResponseModel, HealthStatus, SubmitResponse, SubmitResponseModel,
};
use crate::refusal::{self, Kind, Rule, RuleModel};
use crate::text;
use crate::wire::{self, DecodeError, Fault, Form, Wire};
use vstd::prelude::*;
use vstd::string::*;

verus! {

/// What a task asks of a database.
#[derive(Debug, Clone, PartialEq)]
pub struct SqlParams {
    /// What to do: `query`, `exec` or `discover`.
    pub action: String,
    /// The database, where it is not the default.
    pub dsn: Option<String>,
    /// The statement to run.
    pub sql: Option<String>,
    /// What to run it with.
    pub params: Vec<Json>,
}

/// What a value of [`SqlParams`] is.
#[verifier::ext_equal]
pub struct SqlParamsModel {
    pub action: Seq<char>,
    pub dsn: Option<Seq<char>>,
    pub sql: Option<Seq<char>>,
    pub params: Seq<JsonView>,
}

impl Wire for SqlParams {
    type Model = SqlParamsModel;

    open spec fn model(&self) -> SqlParamsModel {
        SqlParamsModel {
            action: self.action.model(),
            dsn: wire::optional_model(self.dsn),
            sql: wire::optional_model(self.sql),
            params: self.params.model(),
        }
    }

    open spec fn tree(m: SqlParamsModel) -> JsonView {
        let o = Map::<Seq<char>, JsonView>::empty();
        let o = o.insert("action"@, String::tree(m.action));
        let o = wire::with_optional::<String>(o, "dsn"@, m.dsn);
        let o = wire::with_optional::<String>(o, "sql"@, m.sql);
        let o = o.insert("params"@, Vec::<Json>::tree(m.params));
        JsonView::Object(o)
    }

    open spec fn read(t: JsonView, at: Seq<char>, form: Form) -> Result<SqlParamsModel, Fault> {
        let t = wire::unlisted(t, seq!["action"@, "dsn"@, "sql"@, "params"@], 1, form);
        let action = wire::read_required::<String>(t, "action"@, form);
        let dsn = wire::read_optional::<String>(t, "dsn"@, form);
        let sql = wire::read_optional::<String>(t, "sql"@, form);
        let params = wire::read_or::<Vec<Json>>(t, "params"@, Seq::<JsonView>::empty(), form);
        if !(t is Object) {
            Err(Fault::Invalid(at))
        } else if action is Err {
            Err(action->Err_0)
        } else if dsn is Err {
            Err(dsn->Err_0)
        } else if sql is Err {
            Err(sql->Err_0)
        } else if params is Err {
            Err(params->Err_0)
        } else {
            Ok(SqlParamsModel {
                action: action->Ok_0,
                dsn: dsn->Ok_0,
                sql: sql->Ok_0,
                params: params->Ok_0,
            })
        }
    }

    open spec fn lossless(m: SqlParamsModel) -> bool {
        &&& String::lossless(m.action)
        &&& wire::optional_lossless::<String>(m.dsn)
        &&& wire::optional_lossless::<String>(m.sql)
        &&& Vec::<Json>::lossless(m.params)
    }

    open spec fn fits(m: SqlParamsModel, depth: nat) -> bool {
        &&& depth > 0
        &&& String::fits(m.action, (depth - 1) as nat)
        &&& wire::optional_fits::<String>(m.dsn, (depth - 1) as nat)
        &&& wire::optional_fits::<String>(m.sql, (depth - 1) as nat)
        &&& Vec::<Json>::fits(m.params, (depth - 1) as nat)
    }

    fn to_json(&self) -> (r: Json) {
        let mut o = JsonObject::new();
        o.set("action", self.action.to_json());
        wire::set_optional(&mut o, "dsn", &self.dsn);
        wire::set_optional(&mut o, "sql", &self.sql);
        o.set("params", self.params.to_json());
        o.finish()
    }

    fn from_json(j: &Json, at: &str, form: Form) -> (r: Result<SqlParams, DecodeError>) {
        let names = ["action", "dsn", "sql", "params"];
        let listed = wire::unlist(j, &names, 1, form);
        let j = match &listed {
            Some(o) => o,
            None => j,
        };
        proof {
            assert(wire::strs(names@) =~= seq!["action"@, "dsn"@, "sql"@, "params"@]);
        }
        if !j.is_object() {
            return Err(DecodeError::Invalid(at.to_owned()));
        }
        assert(wire::models(Seq::<Json>::empty()) =~= Seq::empty());
        let action = match wire::required::<String>(j, "action", form) {
            Ok(x) => x,
            Err(e) => return Err(e),
        };
        let dsn = match wire::optional::<String>(j, "dsn", form) {
            Ok(x) => x,
            Err(e) => return Err(e),
        };
        let sql = match wire::optional::<String>(j, "sql", form) {
            Ok(x) => x,
            Err(e) => return Err(e),
        };
        let params = match wire::defaulted::<Vec<Json>>(j, "params", Vec::new(), form) {
            Ok(x) => x,
            Err(e) => return Err(e),
        };
        Ok(SqlParams { action, dsn, sql, params })
    }

    proof fn law_reads_what_it_writes(m: SqlParamsModel, at: Seq<char>, form: Form) {
        reveal_strlit("action");
        reveal_strlit("dsn");
        reveal_strlit("sql");
        reveal_strlit("params");
        assert("action"@.len() == 6);
        assert("dsn"@.len() == 3);
        assert("sql"@.len() == 3);
        assert("params"@.len() == 6);
        assert("action"@[0] != "params"@[0]);
        assert("dsn"@[0] != "sql"@[0]);
        String::law_reads_what_it_writes(m.action, "action"@, form);
        wire::lemma_optional_reads_back::<String>(m.dsn, "dsn"@, form);
        wire::lemma_optional_reads_back::<String>(m.sql, "sql"@, form);
        Vec::<Json>::law_reads_what_it_writes(m.params, "params"@, form);
        let t = SqlParams::tree(m);
        assert(t.field("action"@) == Some(String::tree(m.action)));
        assert(t.field("dsn"@) == wire::optional_tree::<String>(m.dsn));
        assert(t.field("sql"@) == wire::optional_tree::<String>(m.sql));
        assert(t.field("params"@) == Some(Vec::<Json>::tree(m.params)));
    }

    proof fn law_fits(m: SqlParamsModel, depth: nat) {
        let inner = (depth - 1) as nat;
        let o = Map::<Seq<char>, JsonView>::empty();
        String::law_fits(m.action, inner);
        let v = String::tree(m.action);
        json::lemma_insert_within(o, "action"@, v, inner);
        let o = o.insert("action"@, v);
        wire::lemma_optional_within::<String>(o, "dsn"@, m.dsn, inner);
        let o = wire::with_optional::<String>(o, "dsn"@, m.dsn);
        wire::lemma_optional_within::<String>(o, "sql"@, m.sql, inner);
        let o = wire::with_optional::<String>(o, "sql"@, m.sql);
        Vec::<Json>::law_fits(m.params, inner);
        let v = Vec::<Json>::tree(m.params);
        json::lemma_insert_within(o, "params"@, v, inner);
        let o = o.insert("params"@, v);
    }
}

/// Where the sidecar listens unless told otherwise.
pub const DEFAULT_SOCKET: &'static str = "/run/vasal/sql-ctrl.sock";

/// What the command line asks for.
#[derive(Debug)]
pub struct Arguments {
    /// The default database.
    pub dsn: Option<String>,
    /// Where to listen.
    pub socket_path: String,
}

/// What a command line asks for, in short.
#[verifier::ext_equal]
pub struct ArgumentsModel {
    pub dsn: Option<Seq<char>>,
    pub socket_path: Seq<char>,
}

impl View for Arguments {
    type V = ArgumentsModel;

    open spec fn view(&self) -> ArgumentsModel {
        ArgumentsModel { dsn: state::optional_text(self.dsn), socket_path: self.socket_path@ }
    }
}

/// What the arguments from `at` on make of what was asked for before them:
/// `--dsn` takes the argument behind it, an argument without a dash is the
/// socket, any other is unknown.
pub open spec fn arguments_from(args: Seq<Seq<char>>, at: int, so_far: ArgumentsModel) -> Result<
    ArgumentsModel,
    Seq<char>,
>
    decreases args.len() + 2 - at,
{
    if at < 0 || at >= args.len() {
        Ok(so_far)
    } else if args[at] == "--dsn"@ {
        arguments_from(
            args,
            at + 2,
            ArgumentsModel {
                dsn: if at + 1 < args.len() {
                    Some(args[at + 1])
                } else {
                    None
                },
                ..so_far
            },
        )
    } else if !text::has_prefix(args[at], "-"@) {
        arguments_from(args, at + 1, ArgumentsModel { socket_path: args[at], ..so_far })
    } else {
        Err(args[at])
    }
}

/// Reads a command line, whose first entry is the program; the error is the
/// unknown argument.
pub fn parse_arguments(args: &Vec<String>) -> (r: Result<Arguments, String>)
    ensures
        match arguments_from(
            text::texts(args@),
            1,
            ArgumentsModel { dsn: None, socket_path: DEFAULT_SOCKET@ },
        ) {
            Ok(m) => r is Ok && r->Ok_0@ == m,
            Err(arg) => r is Err && r->Err_0@ == arg,
        },
{
    let ghost all = text::texts(args@);
    let ghost wanted = arguments_from(
        all,
        1,
        ArgumentsModel { dsn: None, socket_path: DEFAULT_SOCKET@ },
    );
    let mut dsn: Option<String> = None;
    let mut socket_path: String = DEFAULT_SOCKET.to_owned();
    let n: usize = args.len();
    let mut i: usize = 1;
    while i < n
        invariant
            n == args@.len(),
            all == text::texts(args@),
            i >= 1,
            wanted == arguments_from(
                all,
                1,
                ArgumentsModel { dsn: None, socket_path: DEFAULT_SOCKET@ },
            ),
            wanted == arguments_from(
                all,
                i as int,
                ArgumentsModel { dsn: state::optional_text(dsn), socket_path: socket_path@ },
            ),
        decreases n - i,
    {
        let arg = args[i].as_str();
        assert(all[i as int] == arg@);
        if text::same(arg, "--dsn") {
            if i + 1 < n {
                assert(all[i + 1] == args@[i + 1]@);
                dsn = Some(args[i + 1].clone());
                i = i + 2;
            } else {
                dsn = None;
                proof {
                    assert(wanted == arguments_from(
                        all,
                        i + 2,
                        ArgumentsModel { dsn: None, socket_path: socket_path@ },
                    ));
                    reveal_with_fuel(arguments_from, 2);
                }
                i = n;
            }
        } else if !text::starts_with(arg, "-") {
            socket_path = args[i].clone();
            i = i + 1;
        } else {
            return Err(args[i].clone());
        }
    }
    Ok(Arguments { dsn, socket_path })
}

/// A value that a statement is run with.
#[derive(Debug)]
pub enum BindValue {
    Null,
    Bool(bool),
    Integer(i64),
    /// A number that is bound as a float: one that is no integer, or too large
    /// for one.
    Real(JsonNumber),
    Text(String),
}

/// What a value of [`BindValue`] is.
#[verifier::ext_equal]
pub enum BindModel {
    Null,
    Bool(bool),
    Integer(i64),
    Real(NumberView),
    Text(Seq<char>),
}

impl View for BindValue {
    type V = BindModel;

    open spec fn view(&self) -> BindModel {
        match self {
            BindValue::Null => BindModel::Null,
            BindValue::Bool(b) => BindModel::Bool(*b),
            BindValue::Integer(i) => BindModel::Integer(*i),
            BindValue::Real(n) => BindModel::Real(n@),
            BindValue::Text(s) => BindModel::Text(s@),
        }
    }
}

/// What a list of values is.
pub open spec fn binds_view(s: Seq<BindValue>) -> Seq<BindModel> {
    Seq::new(s.len(), |i: int| s[i]@)
}

/// What a JSON value is bound as. An array or object is bound as its text.
pub open spec fn bind_of(t: JsonView) -> BindModel {
    match t {
        JsonView::Null => BindModel::Null,
        JsonView::Bool(b) => BindModel::Bool(b),
        JsonView::Number(NumberView::Int(i)) => if i64::MIN <= i <= i64::MAX {
            BindModel::Integer(i as i64)
        } else {
            BindModel::Real(NumberView::Int(i))
        },
        JsonView::Number(NumberView::Float(f)) => BindModel::Real(NumberView::Float(f)),
        JsonView::Text(s) => BindModel::Text(s),
        _ => BindModel::Text(json::compact_text(t)),
    }
}

/// Makes a JSON value one that can be bound.
pub fn bind_value(v: &Json) -> (r: BindValue)
    ensures
        r@ == bind_of(v@),
{
    match v {
        Json::Null => BindValue::Null,
        Json::Bool(b) => BindValue::Bool(*b),
        Json::Number(n) => match v.as_i64() {
            Some(i) => BindValue::Integer(i),
            None => BindValue::Real(n.duplicate()),
        },
        Json::Text(s) => BindValue::Text(s.clone()),
        Json::Array(_) => BindValue::Text(v.to_text()),
        Json::Object(_) => BindValue::Text(v.to_text()),
    }
}

/// Makes JSON values ones that can be bound, one for one.
pub fn bind_values(values: &Vec<Json>) -> (r: Vec<BindValue>)
    ensures
        binds_view(r@) == Seq::new(values@.len(), |i: int| bind_of(values@[i]@)),
{
    let mut out: Vec<BindValue> = Vec::new();
    for i in 0..values.len()
        invariant
            out@.len() == i,
            forall|k: int| 0 <= k < i ==> (#[trigger] out@[k])@ == bind_of(values@[k]@),
    {
        out.push(bind_value(&values[i]));
    }
    proof {
        assert(binds_view(out@) =~= Seq::new(values@.len(), |i: int| bind_of(values@[i]@)));
    }
    out
}

/// What a request asks of a database.
#[derive(Debug)]
pub enum SqlCommand {
    /// Run a statement and hand back its rows.
    Query { dsn: String, sql: String, params: Vec<BindValue> },
    /// Run a statement and tell what it changed.
    Exec { dsn: String, sql: String, params: Vec<BindValue> },
    /// Describe the tables.
    Discover { dsn: String },
}

/// What a value of [`SqlCommand`] is.
#[verifier::ext_equal]
pub enum SqlCommandModel {
    Query { dsn: Seq<char>, sql: Seq<char>, params: Seq<BindModel> },
    Exec { dsn: Seq<char>, sql: Seq<char>, params: Seq<BindModel> },
    Discover { dsn: Seq<char> },
}

impl View for SqlCommand {
    type V = SqlCommandModel;

    open spec fn view(&self) -> SqlCommandModel {
        match self {
            SqlCommand::Query { dsn, sql, params } => SqlCommandModel::Query {
                dsn: dsn@,
                sql: sql@,
                params: binds_view(params@),
            },
            SqlCommand::Exec { dsn, sql, params } => SqlCommandModel::Exec {
                dsn: dsn@,
                sql: sql@,
                params: binds_view(params@),
            },
            SqlCommand::Discover { dsn } => SqlCommandModel::Discover { dsn: dsn@ },
        }
    }
}

/// The database of a request: the one that it names, or the default.
pub open spec fn dsn_of(requested: Option<Seq<char>>, default_dsn: Option<Seq<char>>) -> Result<
    Seq<char>,
    ProtocolErrorModel,
> {
    match (requested, default_dsn) {
        (Some(s), _) => Ok(s),
        (None, Some(s)) => Ok(s),
        (None, None) => Err(
            ProtocolError::plain(
                INVALID_PARAMS,
                "no 'dsn' provided and no default DSN configured"@,
            ),
        ),
    }
}

/// Finds the database of a request.
pub fn resolve_dsn(requested: Option<String>, default_dsn: &Option<String>) -> (r: Result<
    String,
    ProtocolError,
>)
    ensures
        match dsn_of(state::optional_text(requested), state::optional_text(*default_dsn)) {
            Ok(s) => r is Ok && r->Ok_0@ == s,
            Err(e) => r is Err && r->Err_0.model() == e,
        },
{
    if let Some(s) = requested {
        return Ok(s);
    }
    match default_dsn {
        Some(s) => Ok(s.clone()),
        None => Err(
            ProtocolError::invalid_params("no 'dsn' provided and no default DSN configured"),
        ),
    }
}

/// What is wrong with the parameters of a request.
pub open spec fn sql_fault(params: JsonView) -> Option<Seq<char>> {
    refusal::struct_fault(
        params,
        "struct SqlParams"@,
        seq![
            RuleModel { key: "action"@, kind: Kind::Text, needed: true },
            RuleModel { key: "dsn"@, kind: Kind::OptionalText, needed: false },
            RuleModel { key: "sql"@, kind: Kind::OptionalText, needed: false },
            RuleModel { key: "params"@, kind: Kind::Values, needed: false },
        ],
        seq![0usize, 1usize, 3usize, 2usize],
        Form::Plain,
    )
}

/// Words what is wrong with the parameters of a request.
fn explain_sql(params: &Json) -> (r: String)
    ensures
        r@ == refusal::words(sql_fault(params@)),
{
    let rules = [
        Rule { key: "action", kind: Kind::Text, needed: true },
        Rule { key: "dsn", kind: Kind::OptionalText, needed: false },
        Rule { key: "sql", kind: Kind::OptionalText, needed: false },
        Rule { key: "params", kind: Kind::Values, needed: false },
    ];
    let order = [0usize, 1usize, 3usize, 2usize];
    proof {
        assert(refusal::rules_view(rules@) =~= seq![
            RuleModel { key: "action"@, kind: Kind::Text, needed: true },
            RuleModel { key: "dsn"@, kind: Kind::OptionalText, needed: false },
            RuleModel { key: "sql"@, kind: Kind::OptionalText, needed: false },
            RuleModel { key: "params"@, kind: Kind::Values, needed: false },
        ]);
        assert(order@ =~= seq![0usize, 1usize, 3usize, 2usize]);
    }
    refusal::explain(params, "struct SqlParams", &rules, &order, Form::Plain)
}

/// Parameters are refused exactly when something is wrong with them.
pub proof fn law_sql_refusal_has_words(params: JsonView)
    ensures
        SqlParams::read(params, "params"@, Form::Plain) is Err <==> sql_fault(params) is Some,
{
    reveal_with_fuel(refusal::spoiled_from, 6);
    reveal_with_fuel(refusal::lacking_from, 6);
    reveal_with_fuel(refusal::listed_from, 6);
    reveal_with_fuel(refusal::needed_from, 6);
    reveal_with_fuel(wire::named, 6);
    reveal_strlit("action");
    reveal_strlit("dsn");
    reveal_strlit("sql");
    reveal_strlit("params");
    assert("action"@.len() == 6);
    assert("dsn"@.len() == 3);
    assert("sql"@.len() == 3);
    assert("params"@.len() == 6);
    assert("action"@[0] != "params"@[0]);
    assert("dsn"@[0] != "sql"@[0]);
    let t = wire::unlisted(
        params,
        seq!["action"@, "dsn"@, "sql"@, "params"@],
        1,
        Form::Plain,
    );
    if let Some(JsonView::Array(s)) = t.field("params"@) {
        refusal::lemma_values_are_read(s, "params"@, Form::Plain);
    }
}

/// What a request asks for, or why it is refused.
pub open spec fn command_of(params: JsonView, default_dsn: Option<Seq<char>>) -> Result<
    SqlCommandModel,
    ProtocolErrorModel,
> {
    match SqlParams::read(params, "params"@, Form::Plain) {
        Err(_) => Err(ProtocolError::plain(INVALID_PARAMS, refusal::words(sql_fault(params)))),
        Ok(p) => match dsn_of(p.dsn, default_dsn) {
            Err(e) => Err(e),
            Ok(dsn) => {
                let binds = Seq::new(p.params.len(), |i: int| bind_of(p.params[i]));
                if p.action == "query"@ {
                    match p.sql {
                        Some(sql) => Ok(SqlCommandModel::Query { dsn, sql, params: binds }),
                        None => Err(
                            ProtocolError::plain(
                                INVALID_PARAMS,
                                "missing 'sql' field for query action"@,
                            ),
                        ),
                    }
                } else if p.action == "exec"@ {
                    match p.sql {
                        Some(sql) => Ok(SqlCommandModel::Exec { dsn, sql, params: binds }),
                        None => Err(
                            ProtocolError::plain(
                                INVALID_PARAMS,
                                "missing 'sql' field for exec action"@,
                            ),
                        ),
                    }
                } else if p.action == "discover"@ {
                    Ok(SqlCommandModel::Discover { dsn })
                } else {
                    Err(
                        ProtocolError::plain(
                            INVALID_PARAMS,
                            "unknown action: "@ + p.action
                                + " (expected 'query', 'exec', or 'discover')"@,
                        ),
                    )
                }
            },
        },
    }
}

/// Reads a request.
pub fn read_command(params: &Json, default_dsn: &Option<String>) -> (r: Result<
    SqlCommand,
    ProtocolError,
>)
    ensures
        match command_of(params@, state::optional_text(*default_dsn)) {
            Ok(c) => r is Ok && r->Ok_0@ == c,
            Err(e) => r is Err && r->Err_0.model() == e,
        },
{
    let p = match SqlParams::from_json(params, "params", Form::Plain) {
        Ok(p) => p,
        Err(_) => return Err(ProtocolError::invalid_params(explain_sql(params).as_str())),
    };
    let ghost m = p.model();
    let dsn = match resolve_dsn(p.dsn, default_dsn) {
        Ok(s) => s,
        Err(e) => return Err(e),
    };
    let action = p.action.as_str();
    let binds = bind_values(&p.params);
    proof {
        assert(binds_view(binds@) =~= Seq::new(m.params.len(), |i: int| bind_of(m.params[i])));
    }
    if text::same(action, "query") {
        match p.sql {
            Some(sql) => Ok(SqlCommand::Query { dsn, sql, params: binds }),
            None => Err(ProtocolError::invalid_params("missing 'sql' field for query action")),
        }
    } else if text::same(action, "exec") {
        match p.sql {
            Some(sql) => Ok(SqlCommand::Exec { dsn, sql, params: binds }),
            None => Err(ProtocolError::invalid_params("missing 'sql' field for exec action")),
        }
    } else if text::same(action, "discover") {
        Ok(SqlCommand::Discover { dsn })
    } else {
        let mut s: String = joined("unknown action: ", action);
        s.append(" (expected 'query', 'exec', or 'discover')");
        Err(ProtocolError::invalid_params(s.as_str()))
    }
}

/// What a database hands back in one column of a row.
#[derive(Debug)]
pub enum SqlCell {
    Null,
    Integer(i64),
    /// A float; none where JSON has no number for it.
    Real(Option<JsonFloat>),
    /// A text; none where it is not UTF-8.
    Text(Option<String>),
    Blob(Vec<u8>),
}

impl SqlCell {
    /// The cell as JSON. A blob is its digits in hexadecimal.
    pub open spec fn tree(self) -> JsonView {
        match self {
            SqlCell::Integer(i) => JsonView::Number(NumberView::Int(i as int)),
            SqlCell::Real(Some(f)) => JsonView::Number(NumberView::Float(f)),
            SqlCell::Text(Some(s)) => JsonView::Text(s@),
            SqlCell::Blob(b) => JsonView::Text(artifact::hex_text(b@)),
            _ => JsonView::Null,
        }
    }

    /// Writes the cell as JSON.
    pub fn to_json(&self) -> (r: Json)
        ensures
            r@ == self.tree(),
    {
        match self {
            SqlCell::Null => Json::Null,
            SqlCell::Integer(i) => Json::signed(*i),
            SqlCell::Real(Some(f)) => Json::Number(JsonNumber::Float(f.duplicate())),
            SqlCell::Real(None) => Json::Null,
            SqlCell::Text(Some(s)) => Json::Text(s.clone()),
            SqlCell::Text(None) => Json::Null,
            SqlCell::Blob(b) => Json::Text(artifact::hex_encode(b.as_slice())),
        }
    }
}

/// The first `n` columns of a row, by name; of two columns with one name the
/// later counts. A column without a cell is `null`.
pub open spec fn row_members(columns: Seq<Seq<char>>, cells: Seq<SqlCell>, n: nat) -> Map<
    Seq<char>,
    JsonView,
>
    decreases n,
{
    if n == 0 {
        Map::empty()
    } else {
        let i = n - 1;
        row_members(columns, cells, i as nat).insert(
            columns[i],
            if i < cells.len() {
                cells[i].tree()
            } else {
                JsonView::Null
            },
        )
    }
}

/// A row as JSON.
pub open spec fn row_tree(columns: Seq<Seq<char>>, cells: Seq<SqlCell>) -> JsonView {
    JsonView::Object(row_members(columns, cells, columns.len()))
}

/// Writes a row as JSON.
pub fn row_json(columns: &Vec<String>, cells: &Vec<SqlCell>) -> (r: Json)
    ensures
        r@ == row_tree(text::texts(columns@), cells@),
{
    let mut o = JsonObject::new();
    for i in 0..columns.len()
        invariant
            o@ == row_members(text::texts(columns@), cells@, i as nat),
    {
        let v: Json = if i < cells.len() {
            cells[i].to_json()
        } else {
            Json::Null
        };
        assert(text::texts(columns@)[i as int] == columns@[i as int]@);
        o.set(columns[i].as_str(), v);
    }
    o.finish()
}

/// A list of texts as JSON.
pub open spec fn texts_tree(s: Seq<Seq<char>>) -> JsonView {
    JsonView::Array(Seq::new(s.len(), |i: int| JsonView::Text(s[i])))
}

/// Writes a list of texts as JSON.
pub fn texts_json(items: &Vec<String>) -> (r: Json)
    ensures
        r@ == texts_tree(text::texts(items@)),
{
    let mut out: Vec<Json> = Vec::new();
    for i in 0..items.len()
        invariant
            out@.len() == i,
            forall|k: int| 0 <= k < i ==> (#[trigger] out@[k])@ == JsonView::Text(items@[k]@),
    {
        out.push(Json::Text(items[i].clone()));
    }
    proof {
        json::lemma_elements_view(out@);
        assert(json::elements_view(out@) =~= texts_tree(text::texts(items@))->Array_0);
    }
    Json::Array(out)
}

/// A task that is done, with the given output.
pub open spec fn done(output: JsonView) -> SubmitResponseModel {
    SubmitResponseModel::Completed {
        stdout: json::compact_text(output),
        stderr: Seq::<char>::empty(),
        truncated: false,
    }
}

/// Whether an answer says that a task is done, with the given output, which can
/// be read back from the answer.
pub open spec fn tells(r: SubmitResponse, output: JsonView) -> bool {
    &&& r.model() == done(output)
    &&& json::rereadable(output) ==> json::parsed_text(r->stdout@) == Ok::<JsonView, Seq<char>>(
        output,
    )
}

/// Answers that a task is done, with the given output.
pub fn completed(output: &Json) -> (r: SubmitResponse)
    ensures
        tells(r, output@),
{
    SubmitResponse::Completed {
        stdout: output.to_text(),
        stderr: String::new(),
        truncated: false,
    }
}

/// What a query came to, as JSON.
pub open spec fn query_tree(columns: Seq<Seq<char>>, rows: Seq<Vec<SqlCell>>) -> JsonView {
    JsonView::Object(
        Map::<Seq<char>, JsonView>::empty().insert("columns"@, texts_tree(columns)).insert(
            "rows"@,
            JsonView::Array(Seq::new(rows.len(), |i: int| row_tree(columns, rows[i]@))),
        ).insert("row_count"@, JsonView::Number(NumberView::Int(rows.len() as int))),
    )
}

/// Answers with the rows of a query.
pub fn query_response(columns: &Vec<String>, rows: &Vec<Vec<SqlCell>>) -> (r: SubmitResponse)
    ensures
        tells(r, query_tree(text::texts(columns@), rows@)),
{
    let mut out: Vec<Json> = Vec::new();
    for i in 0..rows.len()
        invariant
            out@.len() == i,
            forall|k: int|
                0 <= k < i ==> (#[trigger] out@[k])@ == row_tree(
                    text::texts(columns@),
                    rows@[k]@,
                ),
    {
        out.push(row_json(columns, &rows[i]));
    }
    let count: u64 = out.len() as u64;
    proof {
        json::lemma_elements_view(out@);
        assert(json::elements_view(out@) =~= Seq::new(
            rows@.len(),
            |i: int| row_tree(text::texts(columns@), rows@[i]@),
        ));
    }
    let mut o = JsonObject::new();
    o.set("columns", texts_json(columns));
    o.set("rows", Json::Array(out));
    o.set("row_count", Json::unsigned(count));
    completed(&o.finish())
}

/// What a statement changed, as JSON.
pub open spec fn exec_tree(affected_rows: u64, last_insert_rowid: i64) -> JsonView {
    JsonView::Object(
        Map::<Seq<char>, JsonView>::empty().insert(
            "affected_rows"@,
            JsonView::Number(NumberView::Int(affected_rows as int)),
        ).insert(
            "last_insert_rowid"@,
            JsonView::Number(NumberView::Int(last_insert_rowid as int)),
        ),
    )
}

/// Answers with what a statement changed.
pub fn exec_response(affected_rows: u64, last_insert_rowid: i64) -> (r: SubmitResponse)
    ensures
        tells(r, exec_tree(affected_rows, last_insert_rowid)),
{
    let mut o = JsonObject::new();
    o.set("affected_rows", Json::unsigned(affected_rows));
    o.set("last_insert_rowid", Json::signed(last_insert_rowid));
    completed(&o.finish())
}

/// The statement that lists the tables.
pub const TABLES_SQL: &'static str =
    "SELECT name FROM sqlite_master WHERE type='table' AND name NOT LIKE 'sqlite_%' ORDER BY name";

/// A name with each quotation mark doubled.
pub open spec fn doubled_quotes(s: Seq<char>) -> Seq<char>
    decreases s.len(),
{
    if s.len() == 0 {
        Seq::empty()
    } else {
        let front = doubled_quotes(s.drop_last());
        if s.last() == '"' {
            front.push('"').push('"')
        } else {
            front.push(s.last())
        }
    }
}

/// The statement that lists the columns of a table.
pub fn table_info_sql(table: &str) -> (r: String)
    ensures
        r@ == "PRAGMA table_info(\""@ + doubled_quotes(table@) + "\")"@,
{
    let chars = text::chars_of(table);
    let mut s: String = "PRAGMA table_info(\"".to_owned();
    let ghost head = s@;
    let mut quoted: String = String::new();
    for i in 0..chars.len()
        invariant
            chars@ == table@,
            quoted@ == doubled_quotes(chars@.take(i as int)),
    {
        proof {
            assert(chars@.take(i + 1).drop_last() =~= chars@.take(i as int));
        }
        if chars[i] == '"' {
            quoted.push('"');
        }
        quoted.push(chars[i]);
    }
    assert(chars@.take(chars@.len() as int) =~= chars@);
    s.append(quoted.as_str());
    s.append("\")");
    s
}

/// A column of a table.
#[derive(Debug)]
pub struct ColumnInfo {
    pub name: String,
    pub col_type: String,
    pub not_null: bool,
    pub primary_key: bool,
}

impl ColumnInfo {
    /// The column as JSON.
    pub open spec fn tree(self) -> JsonView {
        JsonView::Object(
            Map::<Seq<char>, JsonView>::empty().insert("name"@, JsonView::Text(self.name@)).insert(
                "type"@,
                JsonView::Text(self.col_type@),
            ).insert("not_null"@, JsonView::Bool(self.not_null)).insert(
                "primary_key"@,
                JsonView::Bool(self.primary_key),
            ),
        )
    }

    /// Writes the column as JSON.
    pub fn to_json(&self) -> (r: Json)
        ensures
            r@ == self.tree(),
    {
        let mut o = JsonObject::new();
        o.set("name", Json::Text(self.name.clone()));
        o.set("type", Json::Text(self.col_type.clone()));
        o.set("not_null", Json::Bool(self.not_null));
        o.set("primary_key", Json::Bool(self.primary_key));
        o.finish()
    }
}

/// A table and its columns.
#[derive(Debug)]
pub struct TableInfo {
    pub table: String,
    pub columns: Vec<ColumnInfo>,
}

impl TableInfo {
    /// The table as JSON.
    pub open spec fn tree(self) -> JsonView {
        JsonView::Object(
            Map::<Seq<char>, JsonView>::empty().insert("table"@, JsonView::Text(self.table@)).insert(
                "columns"@,
                JsonView::Array(
                    Seq::new(self.columns@.len(), |i: int| self.columns@[i].tree()),
                ),
            ),
        )
    }

    /// Writes the table as JSON.
    pub fn to_json(&self) -> (r: Json)
        ensures
            r@ == self.tree(),
    {
        let mut out: Vec<Json> = Vec::new();
        for i in 0..self.columns.len()
            invariant
                out@.len() == i,
                forall|k: int| 0 <= k < i ==> (#[trigger] out@[k])@ == self.columns@[k].tree(),
        {
            out.push(self.columns[i].to_json());
        }
        proof {
            json::lemma_elements_view(out@);
            assert(json::elements_view(out@) =~= Seq::new(
                self.columns@.len(),
                |i: int| self.columns@[i].tree(),
            ));
        }
        let mut o = JsonObject::new();
        o.set("table", Json::Text(self.table.clone()));
        o.set("columns", Json::Array(out));
        o.finish()
    }
}

/// The tables of a database, as JSON.
pub open spec fn tables_tree(tables: Seq<TableInfo>) -> JsonView {
    JsonView::Object(
        Map::<Seq<char>, JsonView>::empty().insert(
            "tables"@,
            JsonView::Array(Seq::new(tables.len(), |i: int| tables[i].tree())),
        ).insert("table_count"@, JsonView::Number(NumberView::Int(tables.len() as int))).insert(
            "driver"@,
            JsonView::Text("sqlite"@),
        ),
    )
}

/// Answers with the tables of a database.
pub fn discover_response(tables: &Vec<TableInfo>) -> (r: SubmitResponse)
    ensures
        tells(r, tables_tree(tables@)),
{
    let mut out: Vec<Json> = Vec::new();
    for i in 0..tables.len()
        invariant
            out@.len() == i,
            forall|k: int| 0 <= k < i ==> (#[trigger] out@[k])@ == tables@[k].tree(),
    {
        out.push(tables[i].to_json());
    }
    let count: u64 = out.len() as u64;
    proof {
        json::lemma_elements_view(out@);
        assert(json::elements_view(out@) =~= Seq::new(tables@.len(), |i: int| tables@[i].tree()));
    }
    let mut o = JsonObject::new();
    o.set("tables", Json::Array(out));
    o.set("table_count", Json::unsigned(count));
    o.set("driver", Json::text("sqlite"));
    completed(&o.finish())
}

/// What went wrong with a database.
#[derive(Debug, Clone, Copy, PartialEq, Eq, Structural)]
pub enum SqlFault {
    Prepare,
    Query,
    Row,
    Exec,
    Discover,
    TableInfo,
    ColumnInfo,
}

impl SqlFault {
    /// The fault in words.
    pub open spec fn label(self) -> Seq<char> {
        match self {
            SqlFault::Prepare => "SQL prepare error: "@,
            SqlFault::Query => "SQL query error: "@,
            SqlFault::Row => "row read error: "@,
            SqlFault::Exec => "SQL exec error: "@,
            SqlFault::Discover => "discover error: "@,
            SqlFault::TableInfo => "table_info error: "@,
            SqlFault::ColumnInfo => "column info error: "@,
        }
    }

    /// The error for a fault.
    pub fn error(&self, complaint: &str) -> (r: ProtocolError)
        ensures
            r.model() == ProtocolError::plain(INTERNAL_ERROR, self.label() + complaint@),
    {
        let label = match self {
            SqlFault::Prepare => "SQL prepare error: ",
            SqlFault::Query => "SQL query error: ",
            SqlFault::Row => "row read error: ",
            SqlFault::Exec => "SQL exec error: ",
            SqlFault::Discover => "discover error: ",
            SqlFault::TableInfo => "table_info error: ",
            SqlFault::ColumnInfo => "column info error: ",
        };
        ProtocolError::internal_error(joined(label, complaint).as_str())
    }
}

/// The error that a database could not be opened.
pub fn open_error(dsn: &str, complaint: &str) -> (r: ProtocolError)
    ensures
        r.model() == ProtocolError::plain(
            INTERNAL_ERROR,
            "failed to open database "@ + dsn@ + ": "@ + complaint@,
        ),
{
    let mut s: String = joined("failed to open database ", dsn);
    s.append(": ");
    s.append(complaint);
    ProtocolError::internal_error(s.as_str())
}

/// How the default database answered.
#[derive(Debug)]
pub enum Ping {
    /// There is none.
    NoDatabase,
    /// It answered.
    Answered { dsn: String },
    /// It did not answer.
    Failed { complaint: String },
    /// It could not be opened.
    Closed(ProtocolError),
}

/// What is told of the sidecar, by how the default database answered: without
/// one it is well and idle.
pub open spec fn health_of(ping: Ping, version: Seq<char>) -> HealthResponseModel {
    let metadata = |dsn: JsonView|
        JsonView::Object(
            Map::<Seq<char>, JsonView>::empty().insert(
                "driver"@,
                JsonView::Text("sqlite"@),
            ).insert("dsn"@, dsn),
        );
    match ping {
        Ping::NoDatabase => HealthResponseModel {
            status: HealthStatus::Healthy,
            version: Some(version),
            error: None,
            metadata: Some(metadata(JsonView::Null)),
        },
        Ping::Answered { dsn } => HealthResponseModel {
            status: HealthStatus::Healthy,
            version: Some(version),
            error: None,
            metadata: Some(metadata(JsonView::Text(dsn@))),
        },
        Ping::Failed { complaint } => HealthResponseModel {
            status: HealthStatus::Unhealthy,
            version: Some(version),
            error: Some("database ping failed: "@ + complaint@),
            metadata: None,
        },
        Ping::Closed(e) => HealthResponseModel {
            status: HealthStatus::Unhealthy,
            version: Some(version),
            error: Some(ProtocolError::text(e.model())),
            metadata: None,
        },
    }
}

/// Tells how the sidecar is.
pub fn health_response(ping: &Ping, version: &str) -> (r: HealthResponse)
    ensures
        r.model() == health_of(*ping, version@),
{
    let mut o = JsonObject::new();
    o.set("driver", Json::text("sqlite"));
    let (status, error, metadata) = match ping {
        Ping::NoDatabase => {
            o.set("dsn", Json::Null);
            (HealthStatus::Healthy, None, Some(o.finish()))
        },
        Ping::Answered { dsn } => {
            o.set("dsn", Json::text(dsn.as_str()));
            (HealthStatus::Healthy, None, Some(o.finish()))
        },
        Ping::Failed { complaint } => (
            HealthStatus::Unhealthy,
            Some(joined("database ping failed: ", complaint.as_str())),
            None,
        ),
        Ping::Closed(e) => (HealthStatus::Unhealthy, Some(e.to_text()), None),
    };
    HealthResponse { status, version: Some(version.to_owned()), error, metadata }
}

/// What is kept open, by name; nothing is kept twice.
#[derive(Debug)]
pub struct Pool<T> {
    entries: Vec<(String, T)>,
}

impl<T> Pool<T> {
    /// What is kept, oldest first.
    pub closed spec fn entries(&self) -> Seq<(String, T)> {
        self.entries@
    }

    /// No name is kept twice.
    pub open spec fn wf(&self) -> bool {
        forall|i: int, j: int|
            0 <= i < j < self.entries().len() ==> (#[trigger] self.entries()[i]).0@ != (
            #[trigger] self.entries()[j]).0@
    }

    /// Whether something is kept under a name.
    pub open spec fn keeps(&self, name: Seq<char>) -> bool {
        exists|i: int| 0 <= i < self.entries().len() && (#[trigger] self.entries()[i]).0@ == name
    }

    /// Nothing is kept.
    pub fn new() -> (r: Pool<T>)
        ensures
            r.wf(),
            r.entries() == Seq::<(String, T)>::empty(),
    {
        Pool { entries: Vec::new() }
    }

    /// What is kept under a name.
    pub fn find(&self, name: &str) -> (r: Option<&T>)
        ensures
            r is Some <==> self.keeps(name@),
            r matches Some(x) ==> exists|i: int|
                0 <= i < self.entries().len() && (#[trigger] self.entries()[i]).0@ == name@
                    && self.entries()[i].1 == *x,
    {
        for i in 0..self.entries.len()
            invariant
                forall|k: int| 0 <= k < i ==> (#[trigger] self.entries@[k]).0@ != name@,
        {
            if text::same(self.entries[i].0.as_str(), name) {
                assert(self.entries()[i as int].0@ == name@);
                return Some(&self.entries[i].1);
            }
        }
        None
    }

    /// Keeps something under a name that is not taken.
    pub fn keep(&mut self, name: &str, x: T)
        requires
            old(self).wf(),
            !old(self).keeps(name@),
        ensures
            final(self).wf(),
            final(self).entries().len() == old(self).entries().len() + 1,
            final(self).entries().drop_last() == old(self).entries(),
            final(self).entries().last().0@ == name@,
            final(self).entries().last().1 == x,
    {
        let ghost before = self.entries@;
        self.entries.push((name.to_owned(), x));
        proof {
            assert(self.entries@.drop_last() =~= before);
            assert forall|i: int, j: int|
                0 <= i < j < self.entries().len() implies (#[trigger] self.entries()[i]).0@ != (
            #[trigger] self.entries()[j]).0@ by {
                assert(self.entries()[i] == old(self).entries()[i]);
                if j < before.len() {
                    assert(self.entries()[j] == old(self).entries()[j]);
                }
            }
        }
    }
}

/// A request that names no database uses the default; one that names one uses
/// that, whatever the default.
pub proof fn law_request_overrides_the_default(
    requested: Seq<char>,
    default_dsn: Option<Seq<char>>,
)
    ensures
        dsn_of(Some(requested), default_dsn) == Ok::<Seq<char>, ProtocolErrorModel>(requested),
        default_dsn matches Some(d) ==> dsn_of(None, default_dsn) == Ok::<
            Seq<char>,
            ProtocolErrorModel,
        >(d),
{
}

/// A quoted name with one mark for each pair; none where a mark stands alone.
pub open spec fn single_quotes(s: Seq<char>) -> Option<Seq<char>>
    decreases s.len(),
{
    if s.len() == 0 {
        Some(Seq::empty())
    } else if s.last() != '"' {
        match single_quotes(s.drop_last()) {
            Some(front) => Some(front.push(s.last())),
            None => None,
        }
    } else if s.len() >= 2 && s[s.len() - 2] == '"' {
        match single_quotes(s.drop_last().drop_last()) {
            Some(front) => Some(front.push('"')),
            None => None,
        }
    } else {
        None
    }
}

/// A quoted name never ends its quotes early, and stands for the name.
pub proof fn law_quoted_name_stands_for_the_name(s: Seq<char>)
    ensures
        single_quotes(doubled_quotes(s)) == Some(s),
    decreases s.len(),
{
    if s.len() > 0 {
        let front = doubled_quotes(s.drop_last());
        law_quoted_name_stands_for_the_name(s.drop_last());
        if s.last() == '"' {
            assert(front.push('"').push('"').drop_last().drop_last() =~= front);
        } else {
            assert(front.push(s.last()).drop_last() =~= front);
        }
        assert(s.drop_last().push(s.last()) =~= s);
    } else {
        assert(s =~= Seq::empty());
    }
}

/// The command line argument by argument: `--dsn` takes the argument behind it for
/// the default database, an argument without a dash is the socket, the latest of
/// each counts, and the first other one is refused.
pub proof fn law_arguments_are_taken_in_turn(
    args: Seq<Seq<char>>,
    at: int,
    so_far: ArgumentsModel,
)
    requires
        0 <= at,
    ensures
        ({
            let r = arguments_from(args, at, so_far);
            let dashed = at < args.len() && args[at].len() > 0 && args[at][0] == '-';
            &&& at >= args.len() ==> r == Ok::<ArgumentsModel, Seq<char>>(so_far)
            &&& at + 1 < args.len() && args[at] == "--dsn"@ ==> r == arguments_from(
                args,
                at + 2,
                ArgumentsModel {
                    dsn: Some(args[at + 1]),
                    socket_path: so_far.socket_path,
                },
            )
            &&& at + 1 == args.len() && args[at] == "--dsn"@ ==> r == Ok::<
                ArgumentsModel,
                Seq<char>,
            >(ArgumentsModel { dsn: None, socket_path: so_far.socket_path })
            &&& at < args.len() && !dashed ==> r == arguments_from(
                args,
                at + 1,
                ArgumentsModel { dsn: so_far.dsn, socket_path: args[at] },
            )
            &&& at < args.len() && dashed && args[at] != "--dsn"@ ==> r == Err::<
                ArgumentsModel,
                Seq<char>,
            >(args[at])
        }),
{
    reveal_with_fuel(arguments_from, 2);
    reveal_strlit("--dsn");
    reveal_strlit("-");
    assert("--dsn"@[0] == '-');
    if at < args.len() {
        let a = args[at];
        assert("-"@.len() == 1 && "-"@[0] == '-');
        if a.len() > 0 && a[0] == '-' {
            assert(a.take(1) =~= "-"@);
            assert(a.subrange(0, 1) =~= "-"@);
        }
        if text::has_prefix(a, "-"@) {
            assert(a.len() >= 1);
            assert(a[0] == "-"@[0]);
        }
    }
}

/// What a value is bound as: itself, where the database has its like; a number
/// that is no integer of 64 bits as a float; a list or an object as its text.
pub proof fn law_values_are_bound_as_what_they_are(v: JsonView)
    ensures
        match v {
            JsonView::Null => bind_of(v) == BindModel::Null,
            JsonView::Bool(b) => bind_of(v) == BindModel::Bool(b),
            JsonView::Number(n) => (bind_of(v) is Integer <==> n is Int && i64::MIN <= n->Int_0
                <= i64::MAX) && (bind_of(v) is Integer ==> bind_of(v)->Integer_0 == n->Int_0) && (!(
            bind_of(v) is Integer) ==> bind_of(v) == BindModel::Real(n)),
            JsonView::Text(s) => bind_of(v) == BindModel::Text(s),
            JsonView::Array(_) => bind_of(v) == BindModel::Text(json::compact_text(v)),
            JsonView::Object(_) => bind_of(v) == BindModel::Text(json::compact_text(v)),
        },
{
}

/// What a request comes to: the command that its action names, on the database
/// that it names or on the default, with its statement and its values in order;
/// it is refused where its parameters cannot be read, where there is no database,
/// no statement that has to be there, or no such action.
pub proof fn law_requests_come_to_their_commands(
    params: JsonView,
    default_dsn: Option<Seq<char>>,
    i: int,
)
    ensures
        ({
            let r = command_of(params, default_dsn);
            let read = SqlParams::read(params, "params"@, Form::Plain);
            let p = read->Ok_0;
            let dsn = if p.dsn is Some {
                p.dsn
            } else {
                default_dsn
            };
            let known = p.action == "query"@ || p.action == "exec"@ || p.action == "discover"@;
            let lacks = |words: Seq<char>|
                r is Err && r->Err_0.code == -32602 && r->Err_0.message == words
                    && r->Err_0.data is None;
            &&& r is Ok <==> read is Ok && dsn is Some && (p.action == "discover"@ || (known
                && p.sql is Some))
            &&& read is Err ==> lacks(refusal::words(sql_fault(params)))
            &&& read is Ok && dsn is None ==> lacks(
                "no 'dsn' provided and no default DSN configured"@,
            )
            &&& read is Ok && dsn is Some && p.action == "query"@ && p.sql is None ==> lacks(
                "missing 'sql' field for query action"@,
            )
            &&& read is Ok && dsn is Some && p.action == "exec"@ && p.sql is None ==> lacks(
                "missing 'sql' field for exec action"@,
            )
            &&& read is Ok && dsn is Some && !known ==> lacks(
                "unknown action: "@ + p.action + " (expected 'query', 'exec', or 'discover')"@,
            )
            &&& r matches Ok(SqlCommandModel::Query { dsn: d, sql, params: b }) ==> p.action
                == "query"@ && Some(d) == dsn && Some(sql) == p.sql && b.len() == p.params.len()
                && (0 <= i < b.len() ==> b[i] == bind_of(p.params[i]))
            &&& r matches Ok(SqlCommandModel::Exec { dsn: d, sql, params: b }) ==> p.action
                == "exec"@ && Some(d) == dsn && Some(sql) == p.sql && b.len() == p.params.len()
                && (0 <= i < b.len() ==> b[i] == bind_of(p.params[i]))
            &&& r matches Ok(SqlCommandModel::Discover { dsn: d }) ==> p.action == "discover"@
                && Some(d) == dsn
        }),
{
    reveal_strlit("query");
    reveal_strlit("exec");
    reveal_strlit("discover");
    assert("query"@.len() == 5);
    assert("exec"@.len() == 4);
    assert("discover"@.len() == 8);
}

/// A cell is told as what it is: a number, a text or a blob in hexadecimal, and
/// `null` where it is empty or has no form in JSON.
pub proof fn law_cells_are_told_as_what_they_are(cell: SqlCell)
    ensures
        match cell {
            SqlCell::Null => cell.tree() == JsonView::Null,
            SqlCell::Integer(i) => cell.tree() == JsonView::Number(NumberView::Int(i as int)),
            SqlCell::Real(None) => cell.tree() == JsonView::Null,
            SqlCell::Real(Some(f)) => cell.tree() == JsonView::Number(NumberView::Float(f)),
            SqlCell::Text(None) => cell.tree() == JsonView::Null,
            SqlCell::Text(Some(s)) => cell.tree() == JsonView::Text(s@),
            SqlCell::Blob(b) => cell.tree() == JsonView::Text(artifact::hex_text(b@)),
        },
{
}

/// A row tells each of its columns under the column's name, and nothing else: of
/// columns with one name the last.
pub proof fn law_rows_tell_their_columns(
    columns: Seq<Seq<char>>,
    cells: Seq<SqlCell>,
    at: int,
    other: Seq<char>,
)
    requires
        cells.len() == columns.len(),
        0 <= at < columns.len(),
        forall|j: int| at < j < columns.len() ==> #[trigger] columns[j] != columns[at],
        !columns.contains(other),
    ensures
        row_tree(columns, cells).field(columns[at]) == Some(cells[at].tree()),
        row_tree(columns, cells).field(other) is None,
{
    lemma_row_members(columns, cells, columns.len(), at, other);
}

/// The members of a row are its columns.
proof fn lemma_row_members(
    columns: Seq<Seq<char>>,
    cells: Seq<SqlCell>,
    n: nat,
    at: int,
    other: Seq<char>,
)
    requires
        cells.len() == columns.len(),
        n <= columns.len(),
        0 <= at < columns.len(),
        forall|j: int| at < j < columns.len() ==> #[trigger] columns[j] != columns[at],
        !columns.contains(other),
    ensures
        at < n ==> JsonView::Object(row_members(columns, cells, n)).field(columns[at]) == Some(
            cells[at].tree(),
        ),
        JsonView::Object(row_members(columns, cells, n)).field(other) is None,
    decreases n,
{
    if n > 0 {
        lemma_row_members(columns, cells, (n - 1) as nat, at, other);
        assert(columns[n - 1] != other);
    }
}

/// What is told of a query: the names of its columns, its rows, all of them in
/// order, and how many there are.
pub proof fn law_queries_tell_all_their_rows(
    columns: Seq<Seq<char>>,
    rows: Seq<Vec<SqlCell>>,
    i: int,
    j: int,
)
    requires
        0 <= i < rows.len(),
        0 <= j < columns.len(),
    ensures
        ({
            let t = query_tree(columns, rows);
            &&& t.field("columns"@) is Some && t.field("columns"@)->0 is Array
            &&& t.field("columns"@)->0->Array_0.len() == columns.len()
            &&& t.field("columns"@)->0->Array_0[j] == JsonView::Text(columns[j])
            &&& t.field("rows"@) is Some && t.field("rows"@)->0 is Array
            &&& t.field("rows"@)->0->Array_0.len() == rows.len()
            &&& t.field("rows"@)->0->Array_0[i] == row_tree(columns, rows[i]@)
            &&& t.field("row_count"@) == Some(
                JsonView::Number(NumberView::Int(rows.len() as int)),
            )
        }),
{
    reveal_strlit("columns");
    reveal_strlit("rows");
    reveal_strlit("row_count");
    assert("columns"@.len() == 7);
    assert("rows"@.len() == 4);
    assert("row_count"@.len() == 9);
}

/// What is told of a statement: how many rows it changed, and the number of the
/// row that was inserted last.
pub proof fn law_statements_tell_what_they_changed(affected_rows: u64, last_insert_rowid: i64)
    ensures
        exec_tree(affected_rows, last_insert_rowid).field("affected_rows"@) == Some(
            JsonView::Number(NumberView::Int(affected_rows as int)),
        ),
        exec_tree(affected_rows, last_insert_rowid).field("last_insert_rowid"@) == Some(
            JsonView::Number(NumberView::Int(last_insert_rowid as int)),
        ),
{
    reveal_strlit("affected_rows");
    reveal_strlit("last_insert_rowid");
    assert("affected_rows"@.len() == 13);
    assert("last_insert_rowid"@.len() == 17);
}

/// What is told of a database: its tables, all of them in order with all their
/// columns, how many there are, and the driver.
pub proof fn law_databases_tell_all_their_tables(tables: Seq<TableInfo>, i: int, j: int)
    requires
        0 <= i < tables.len(),
        0 <= j < tables[i].columns@.len(),
    ensures
        ({
            let t = tables_tree(tables);
            let table = tables[i].tree();
            let column = tables[i].columns@[j];
            &&& t.field("tables"@) is Some && t.field("tables"@)->0 is Array
            &&& t.field("tables"@)->0->Array_0.len() == tables.len()
            &&& t.field("tables"@)->0->Array_0[i] == table
            &&& t.field("table_count"@) == Some(
                JsonView::Number(NumberView::Int(tables.len() as int)),
            )
            &&& t.field("driver"@) == Some(JsonView::Text("sqlite"@))
            &&& table.field("table"@) == Some(JsonView::Text(tables[i].table@))
            &&& table.field("columns"@) is Some && table.field("columns"@)->0 is Array
            &&& table.field("columns"@)->0->Array_0.len() == tables[i].columns@.len()
            &&& table.field("columns"@)->0->Array_0[j] == column.tree()
            &&& column.tree().field("name"@) == Some(JsonView::Text(column.name@))
            &&& column.tree().field("type"@) == Some(JsonView::Text(column.col_type@))
            &&& column.tree().field("not_null"@) == Some(JsonView::Bool(column.not_null))
            &&& column.tree().field("primary_key"@) == Some(JsonView::Bool(column.primary_key))
        }),
{
    reveal_strlit("tables");
    reveal_strlit("table_count");
    reveal_strlit("driver");
    reveal_strlit("table");
    reveal_strlit("columns");
    reveal_strlit("name");
    reveal_strlit("type");
    reveal_strlit("not_null");
    reveal_strlit("primary_key");
    assert("tables"@.len() == 6);
    assert("driver"@.len() == 6);
    assert("tables"@[0] == 't');
    assert("driver"@[0] == 'd');
    assert("table_count"@.len() == 11);
    assert("table"@.len() == 5);
    assert("columns"@.len() == 7);
    assert("name"@.len() == 4);
    assert("type"@.len() == 4);
    assert("name"@[0] == 'n');
    assert("type"@[0] == 't');
    assert("not_null"@.len() == 8);
    assert("primary_key"@.len() == 11);
}

/// A task that is done is answered as completed, with its output as the only
/// output, and not cut.
pub proof fn law_done_is_completed(output: JsonView)
    ensures
        done(output) is Completed,
        done(output)->stdout == json::compact_text(output),
        done(output)->Completed_stderr.len() == 0,
        !done(output)->truncated,
{
}

/// How the sidecar is: well exactly where its default database answers or there
/// is none; otherwise it says what is wrong.
pub proof fn law_sidecar_is_as_well_as_its_database(ping: Ping, version: Seq<char>)
    ensures
        ({
            let h = health_of(ping, version);
            &&& h.version == Some(version)
            &&& h.status == HealthStatus::Healthy <==> ping is NoDatabase || ping is Answered
            &&& h.status != HealthStatus::Healthy ==> h.status == HealthStatus::Unhealthy
            &&& h.error is None <==> h.status == HealthStatus::Healthy
            &&& h.metadata is Some <==> h.status == HealthStatus::Healthy
            &&& h.metadata is Some ==> h.metadata->0.field("driver"@) == Some(
                JsonView::Text("sqlite"@),
            )
            &&& ping is NoDatabase ==> h.metadata->0.field("dsn"@) == Some(JsonView::Null)
            &&& ping matches Ping::Answered { dsn } ==> h.metadata->0.field("dsn"@) == Some(
                JsonView::Text(dsn@),
            )
            &&& ping matches Ping::Failed { complaint } ==> h.error == Some(
                "database ping failed: "@ + complaint@,
            )
            &&& ping matches Ping::Closed(e) ==> h.error == Some(
                "["@ + text::signed_decimal(e.code as int) + "] "@ + e.message@,
            )
        }),
{
    reveal_strlit("driver");
    reveal_strlit("dsn");
    assert("driver"@.len() == 6);
    assert("dsn"@.len() == 3);
    reveal_strlit("[");
    assert("["@ =~= seq!['[']);
}

/// A name is quoted by doubling its quotation marks and nothing else.
pub proof fn law_names_without_marks_stay(s: Seq<char>)
    requires
        !s.contains('"'),
    ensures
        doubled_quotes(s) == s,
    decreases s.len(),
{
    if s.len() > 0 {
        assert(s[s.len() - 1] != '"');
        assert forall|i: int| 0 <= i < s.drop_last().len() implies s.drop_last()[i] != '"' by {
            assert(s[i] != '"');
        }
        assert(!s.drop_last().contains('"'));
        law_names_without_marks_stay(s.drop_last());
        assert(s.drop_last().push(s.last()) =~= s);
    } else {
        assert(s =~= Seq::empty());
    }
}

/// What went wrong with a database is told by what was done.
pub proof fn law_database_faults_are_told(fault: SqlFault)
    ensures
        match fault {
            SqlFault::Prepare => fault.label() == "SQL prepare error: "@,
            SqlFault::Query => fault.label() == "SQL query error: "@,
            SqlFault::Row => fault.label() == "row read error: "@,
            SqlFault::Exec => fault.label() == "SQL exec error: "@,
            SqlFault::Discover => fault.label() == "discover error: "@,
            SqlFault::TableInfo => fault.label() == "table_info error: "@,
            SqlFault::ColumnInfo => fault.label() == "column info error: "@,
        },
{
}

} // verus!
