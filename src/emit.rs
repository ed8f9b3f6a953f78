//! Source text for row shapes, parameter shapes, custom types, queries and
//! whole modules.

use vstd::prelude::*;

use crate::ir::{CodegenSettings, PreparedContent, PreparedItem, PreparedModule, PreparedQuery, PreparedType, Preparation};
use crate::lists::{param_tys, param_tys_spec, decimals, decimals_spec, iota, weave, weave_spec, select, select_spec, assigns, assigns_spec, brw_tys, brw_tys_spec, concat, concat_spec, decls, decls_spec, ergo_fold, ergo_tys, generic_names, generic_names_spec, generics, generics_spec, iota_exec, join, join_spec, lemma_pick_iota, names, names_in, names_spec, own_tys, own_tys_spec, pick, prepend, wrapped, wrapped_spec};
use crate::text::{decimal, views};
use crate::ty::{client_mod, client_mod_exec, PreparedField};
use crate::text::append_decimal;

verus! {

pub open spec fn client_mut(is_async: bool) -> Seq<char> {
    if is_async { ""@ } else { "mut "@ }
}

fn client_mut_exec(is_async: bool) -> (r: &'static str)
    ensures
        r@ == client_mut(is_async),
{
    if is_async { "" } else { "mut " }
}

pub open spec fn backend(is_async: bool) -> Seq<char> {
    if is_async { "tokio_postgres"@ } else { "postgres"@ }
}

fn backend_exec(is_async: bool) -> (r: &'static str)
    ensures
        r@ == backend(is_async),
{
    if is_async { "tokio_postgres" } else { "postgres" }
}

pub open spec fn fn_async(is_async: bool) -> Seq<char> {
    if is_async { "async "@ } else { ""@ }
}

fn fn_async_exec(is_async: bool) -> (r: &'static str)
    ensures
        r@ == fn_async(is_async),
{
    if is_async { "async " } else { "" }
}

pub open spec fn fn_await(is_async: bool) -> Seq<char> {
    if is_async { ".await"@ } else { ""@ }
}

fn fn_await_exec(is_async: bool) -> (r: &'static str)
    ensures
        r@ == fn_await(is_async),
{
    if is_async { ".await" } else { "" }
}

pub open spec fn collect_call(is_async: bool) -> Seq<char> {
    if is_async { "try_collect().await"@ } else { "collect()"@ }
}

fn collect_call_exec(is_async: bool) -> (r: &'static str)
    ensures
        r@ == collect_call(is_async),
{
    if is_async { "try_collect().await" } else { "collect()" }
}

pub open spec fn raw_type(is_async: bool) -> Seq<char> {
    if is_async { "futures::Stream"@ } else { "Iterator"@ }
}

fn raw_type_exec(is_async: bool) -> (r: &'static str)
    ensures
        r@ == raw_type(is_async),
{
    if is_async { "futures::Stream" } else { "Iterator" }
}

pub open spec fn raw_pre(is_async: bool) -> Seq<char> {
    if is_async { ""@ } else { ".iterator()"@ }
}

fn raw_pre_exec(is_async: bool) -> (r: &'static str)
    ensures
        r@ == raw_pre(is_async),
{
    if is_async { "" } else { ".iterator()" }
}

pub open spec fn raw_post(is_async: bool) -> Seq<char> {
    if is_async { ".into_stream()"@ } else { ""@ }
}

fn raw_post_exec(is_async: bool) -> (r: &'static str)
    ensures
        r@ == raw_post(is_async),
{
    if is_async { ".into_stream()" } else { "" }
}

pub open spec fn stop_after_error(is_async: bool) -> Seq<char> {
    if is_async { ".scan(false, |failed, res| futures::future::ready(if *failed { None } else { *failed = res.is_err(); Some(res) }))"@ } else { ".scan(false, |failed, res| if *failed { None } else { *failed = res.is_err(); Some(res) })"@ }
}

fn stop_after_error_exec(is_async: bool) -> (r: &'static str)
    ensures
        r@ == stop_after_error(is_async),
{
    if is_async { ".scan(false, |failed, res| futures::future::ready(if *failed { None } else { *failed = res.is_err(); Some(res) }))" } else { ".scan(false, |failed, res| if *failed { None } else { *failed = res.is_err(); Some(res) })" }
}

pub open spec fn import_line(is_async: bool) -> Seq<char> {
    if is_async { "use futures::{StreamExt, TryStreamExt};\nuse futures;\nuse cornucopia_async::GenericClient;\n"@ } else { "use postgres::{fallible_iterator::FallibleIterator, GenericClient};\n"@ }
}

fn import_line_exec(is_async: bool) -> (r: &'static str)
    ensures
        r@ == import_line(is_async),
{
    if is_async { "use futures::{StreamExt, TryStreamExt};\nuse futures;\nuse cornucopia_async::GenericClient;\n" } else { "use postgres::{fallible_iterator::FallibleIterator, GenericClient};\n" }
}

/// Struct of a named parameter shape: one generic type parameter per
/// distinct capability bound its ergonomic fields require.
pub open spec fn params_struct_spec(p: PreparedItem, is_async: bool) -> Seq<char> {
    if !p.is_named {
        Seq::empty()
    } else {
        "#[derive("@ + ((if p.is_copy { "Clone, Copy, "@ } else { Seq::empty() }))
        + "Debug)]\npub struct "@ + (p.name@) + "<"@
        + (join_spec((if p.is_ref { seq!["'a"@] } else { Seq::empty() }) + generics_spec(ergo_fold(p.fields@, is_async).1), ", "@))
        + "> {\n"@
        + (join_spec(decls_spec(names_spec(p.fields@), ergo_fold(p.fields@, is_async).0), ",\n"@))
        + "\n}\n"@
    }
}

/// Emits the struct of a named parameter shape; nothing for a bare one.
pub fn gen_params_struct(p: &PreparedItem, settings: CodegenSettings) -> (r: String)
    requires
        p.fields@.len() < usize::MAX,
    ensures
        r@ == params_struct_spec(*p, settings.is_async),
{
    if !p.is_named {
        return String::new();
    }
    let is_async = settings.is_async;
    let copy: &str = if p.is_copy { "Clone, Copy, " } else { "" };
    assert(copy@ == (if p.is_copy { "Clone, Copy, "@ } else { Seq::<char>::empty() })) by {
        reveal_strlit("");
    }
    proof { lemma_pick_iota(p.fields@); }
    let idx = iota_exec(p.fields.len());
    let (tys, bounds) = ergo_tys(&p.fields, &idx, is_async);
    let gs = generics(&bounds);
    let gl_items = if p.is_ref {
        prepend(String::from_str("'a"), &gs)
    } else {
        assert(Seq::<Seq<char>>::empty() + views(gs@) =~= views(gs@));
        gs
    };
    let gl = join(&gl_items, ", ");
    let ns = names(&p.fields);
    let ds = decls(&ns, &tys);
    let body = join(&ds, ",\n");
    let mut s = String::from_str("#[derive(");
    s.append(copy);
    s.append("Debug)]\npub struct ");
    s.append(p.name.as_str());
    s.append("<");
    s.append(gl.as_str());
    s.append("> {\n");
    s.append(body.as_str());
    s.append("\n}\n");
    s
}

/// Type that a row's extractor hands to its mapper: the borrowed struct
/// (or the owned one where it is copyable), or the single field's borrowed
/// type for a bare row.
pub open spec fn row_struct_spec(row: PreparedItem, is_async: bool) -> Seq<char> {
    if row.is_named {
        if row.is_copy { row.name@ } else { row.name@ + "Borrowed"@ }
    } else {
        row.fields@[0].brw_ty_spec(false, is_async)
    }
}

fn row_struct_exec(row: &PreparedItem, is_async: bool) -> (r: String)
    requires
        !row.is_named ==> row.fields@.len() > 0,
    ensures
        r@ == row_struct_spec(*row, is_async),
{
    if row.is_named {
        let mut s = row.name.clone();
        if !row.is_copy {
            s.append("Borrowed");
        }
        s
    } else {
        row.fields[0].brw_ty(false, is_async)
    }
}

pub open spec fn row_owned_spec(row: PreparedItem, settings: CodegenSettings) -> Seq<char> {
    "#[derive("@ + ((if settings.derive_ser { "serde::Serialize, "@ } else { Seq::empty() }))
        + "Debug, Clone, PartialEq"@ + ((if row.is_copy { ", Copy"@ } else { Seq::empty() }))
        + ")]\npub struct "@ + (row.name@) + " {\n"@
        + (join_spec(decls_spec(names_spec(row.fields@), own_tys_spec(row.fields@)), ",\n"@)) + "\n}\n"@
}

pub open spec fn row_borrowed_spec(row: PreparedItem, settings: CodegenSettings) -> Seq<char> {
    "pub struct "@ + (row.name@) + "Borrowed<'a> {\n"@
        + (join_spec(decls_spec(names_spec(row.fields@), brw_tys_spec(row.fields@, settings.is_async)), ",\n"@))
        + "\n}\nimpl<'a> From<"@ + (row.name@) + "Borrowed<'a>> for "@ + (row.name@)
        + " {\n    fn from("@ + (row.name@) + "Borrowed { "@
        + (join_spec(names_spec(row.fields@), ", "@)) + " }: "@ + (row.name@)
        + "Borrowed<'a>) -> Self {\n        Self { "@ + (join_spec(assigns_spec(row.fields@), ", "@))
        + " }\n    }\n}\n"@
}

/// Result builder of a row shape: `map` replaces the mapping; `one` and
/// `opt` return a row that fails to decode as their error; `iter` yields a
/// failed row and then ends, and `all` collects through it.
pub open spec fn row_query_spec(row: PreparedItem, is_async: bool) -> Seq<char> {
    "pub struct "@ + (row.name@)
        + "Query<'a, C: GenericClient, T, const N: usize> {\n    client: &'a "@ + (client_mut(is_async))
        + "C,\n    params: [&'a (dyn postgres_types::ToSql + Sync); N],\n"@ + "    stmt: &'a mut "@
        + (client_mod(is_async)) + "::private::Stmt,\n    extractor: fn(&"@ + (backend(is_async))
        + "::Row) -> Result<"@ + (row_struct_spec(row, is_async)) + ", "@ + (backend(is_async))
        + "::Error>,\n    mapper: fn("@ + (row_struct_spec(row, is_async))
        + ") -> T,\n}\nimpl<'a, C, T: 'a, const N: usize> "@ + (row.name@)
        + "Query<'a, C, T, N> where C: GenericClient {\n"@ + "    pub fn map<R>(self, mapper: fn("@
        + (row_struct_spec(row, is_async)) + ") -> R) -> "@ + (row.name@)
        + "Query<'a, C, R, N> {\n        "@ + (row.name@)
        + "Query { client: self.client, params: self.params, stmt: self.stmt, extractor: self.extractor, mapper }\n"@
        + "    }\n    pub "@ + (fn_async(is_async)) + "fn one(self) -> Result<T, "@
        + (backend(is_async)) + "::Error> {\n        let stmt = self.stmt.prepare(self.client)"@
        + (fn_await(is_async)) + "?;\n        let row = self.client.query_one(stmt, &self.params)"@
        + (fn_await(is_async))
        + "?;\n        Ok((self.mapper)((self.extractor)(&row)?))\n    }\n    pub "@
        + (fn_async(is_async)) + "fn all(self) -> Result<Vec<T>, "@ + (backend(is_async))
        + "::Error> {\n        self.iter()"@ + (fn_await(is_async)) + "?."@ + (collect_call(is_async))
        + "\n    }\n    pub "@ + (fn_async(is_async)) + "fn opt(self) -> Result<Option<T>, "@
        + (backend(is_async)) + "::Error> {\n        let stmt = self.stmt.prepare(self.client)"@
        + (fn_await(is_async)) + "?;\n        match self.client.query_opt(stmt, &self.params)"@
        + (fn_await(is_async)) + "? {\n"@
        + "            Some(row) => Ok(Some((self.mapper)((self.extractor)(&row)?))),\n"@
        + "            None => Ok(None),\n        }\n    }\n    pub "@ + (fn_async(is_async))
        + "fn iter(self) -> Result<impl "@ + (raw_type(is_async)) + "<Item = Result<T, "@
        + (backend(is_async)) + "::Error>> + 'a, "@ + (backend(is_async))
        + "::Error> {\n        let stmt = self.stmt.prepare(self.client)"@ + (fn_await(is_async))
        + "?;\n        let it = self.client.query_raw(stmt, "@ + (client_mod(is_async))
        + "::private::slice_iter(&self.params))"@ + (fn_await(is_async)) + "?"@ + (raw_pre(is_async))
        + "\n"@
        + "            .map(move |res| res.and_then(|row| (self.extractor)(&row).map(self.mapper)))\n"@
        + "            "@ + (stop_after_error(is_async)) + (raw_post(is_async))
        + ";\n        Ok(it)\n    }\n}\n"@
}

/// Source of a row shape: its owned struct when named, the borrowed dual
/// and its conversion when not copyable, then the result builder type.
pub open spec fn row_structs_spec(row: PreparedItem, settings: CodegenSettings) -> Seq<char> {
    let structs = if !row.is_named {
        Seq::empty()
    } else if row.is_copy {
        row_owned_spec(row, settings)
    } else {
        row_owned_spec(row, settings) + row_borrowed_spec(row, settings)
    };
    structs + row_query_spec(row, settings.is_async)
}

fn row_owned(row: &PreparedItem, settings: CodegenSettings) -> (r: String)
    ensures
        r@ == row_owned_spec(*row, settings),
{
    let ser: &str = if settings.derive_ser { "serde::Serialize, " } else { "" };
    let copy: &str = if row.is_copy { ", Copy" } else { "" };
    proof { reveal_strlit(""); }
    assert(ser@ == (if settings.derive_ser { "serde::Serialize, "@ } else { Seq::<char>::empty() }));
    assert(copy@ == (if row.is_copy { ", Copy"@ } else { Seq::<char>::empty() }));
    let ns = names(&row.fields);
    let ts = own_tys(&row.fields);
    let ds = decls(&ns, &ts);
    let own_body = join(&ds, ",\n");
    let mut s = String::from_str("#[derive(");
    s.append(ser);
    s.append("Debug, Clone, PartialEq");
    s.append(copy);
    s.append(")]\npub struct ");
    s.append(row.name.as_str());
    s.append(" {\n");
    s.append(own_body.as_str());
    s.append("\n}\n");
    s
}

fn row_borrowed(row: &PreparedItem, settings: CodegenSettings) -> (r: String)
    ensures
        r@ == row_borrowed_spec(*row, settings),
{
    let ns = names(&row.fields);
    let ts = brw_tys(&row.fields, settings.is_async);
    let ds = decls(&ns, &ts);
    let brw_body = join(&ds, ",\n");
    let name_list = join(&ns, ", ");
    let asg = assigns(&row.fields);
    let assign_list = join(&asg, ", ");
    let mut s = String::from_str("pub struct ");
    s.append(row.name.as_str());
    s.append("Borrowed<'a> {\n");
    s.append(brw_body.as_str());
    s.append("\n}\nimpl<'a> From<");
    s.append(row.name.as_str());
    s.append("Borrowed<'a>> for ");
    s.append(row.name.as_str());
    s.append(" {\n    fn from(");
    s.append(row.name.as_str());
    s.append("Borrowed { ");
    s.append(name_list.as_str());
    s.append(" }: ");
    s.append(row.name.as_str());
    s.append("Borrowed<'a>) -> Self {\n        Self { ");
    s.append(assign_list.as_str());
    s.append(" }\n    }\n}\n");
    s
}

fn row_query(row: &PreparedItem, is_async: bool) -> (r: String)
    requires
        !row.is_named ==> row.fields@.len() > 0,
    ensures
        r@ == row_query_spec(*row, is_async),
{
    let rs = row_struct_exec(row, is_async);
    let mut s = String::from_str("pub struct ");
    s.append(row.name.as_str());
    s.append("Query<'a, C: GenericClient, T, const N: usize> {\n    client: &'a ");
    s.append(client_mut_exec(is_async));
    s.append("C,\n    params: [&'a (dyn postgres_types::ToSql + Sync); N],\n");
    s.append("    stmt: &'a mut ");
    s.append(client_mod_exec(is_async));
    s.append("::private::Stmt,\n    extractor: fn(&");
    s.append(backend_exec(is_async));
    s.append("::Row) -> Result<");
    s.append(rs.as_str());
    s.append(", ");
    s.append(backend_exec(is_async));
    s.append("::Error>,\n    mapper: fn(");
    s.append(rs.as_str());
    s.append(") -> T,\n}\nimpl<'a, C, T: 'a, const N: usize> ");
    s.append(row.name.as_str());
    s.append("Query<'a, C, T, N> where C: GenericClient {\n");
    s.append("    pub fn map<R>(self, mapper: fn(");
    s.append(rs.as_str());
    s.append(") -> R) -> ");
    s.append(row.name.as_str());
    s.append("Query<'a, C, R, N> {\n        ");
    s.append(row.name.as_str());
    s.append("Query { client: self.client, params: self.params, stmt: self.stmt, extractor: self.extractor, mapper }\n");
    s.append("    }\n    pub ");
    s.append(fn_async_exec(is_async));
    s.append("fn one(self) -> Result<T, ");
    s.append(backend_exec(is_async));
    s.append("::Error> {\n        let stmt = self.stmt.prepare(self.client)");
    s.append(fn_await_exec(is_async));
    s.append("?;\n        let row = self.client.query_one(stmt, &self.params)");
    s.append(fn_await_exec(is_async));
    s.append("?;\n        Ok((self.mapper)((self.extractor)(&row)?))\n    }\n    pub ");
    s.append(fn_async_exec(is_async));
    s.append("fn all(self) -> Result<Vec<T>, ");
    s.append(backend_exec(is_async));
    s.append("::Error> {\n        self.iter()");
    s.append(fn_await_exec(is_async));
    s.append("?.");
    s.append(collect_call_exec(is_async));
    s.append("\n    }\n    pub ");
    s.append(fn_async_exec(is_async));
    s.append("fn opt(self) -> Result<Option<T>, ");
    s.append(backend_exec(is_async));
    s.append("::Error> {\n        let stmt = self.stmt.prepare(self.client)");
    s.append(fn_await_exec(is_async));
    s.append("?;\n        match self.client.query_opt(stmt, &self.params)");
    s.append(fn_await_exec(is_async));
    s.append("? {\n");
    s.append("            Some(row) => Ok(Some((self.mapper)((self.extractor)(&row)?))),\n");
    s.append("            None => Ok(None),\n        }\n    }\n    pub ");
    s.append(fn_async_exec(is_async));
    s.append("fn iter(self) -> Result<impl ");
    s.append(raw_type_exec(is_async));
    s.append("<Item = Result<T, ");
    s.append(backend_exec(is_async));
    s.append("::Error>> + 'a, ");
    s.append(backend_exec(is_async));
    s.append("::Error> {\n        let stmt = self.stmt.prepare(self.client)");
    s.append(fn_await_exec(is_async));
    s.append("?;\n        let it = self.client.query_raw(stmt, ");
    s.append(client_mod_exec(is_async));
    s.append("::private::slice_iter(&self.params))");
    s.append(fn_await_exec(is_async));
    s.append("?");
    s.append(raw_pre_exec(is_async));
    s.append("\n");
    s.append("            .map(move |res| res.and_then(|row| (self.extractor)(&row).map(self.mapper)))\n");
    s.append("            ");
    s.append(stop_after_error_exec(is_async));
    s.append(raw_post_exec(is_async));
    s.append(";\n        Ok(it)\n    }\n}\n");
    s
}

/// Emits the source of a row shape.
pub fn gen_row_structs(row: &PreparedItem, settings: CodegenSettings) -> (r: String)
    requires
        !row.is_named ==> row.fields@.len() > 0,
    ensures
        r@ == row_structs_spec(*row, settings),
{
    let mut s = String::new();
    if row.is_named {
        let o = row_owned(row, settings);
        s.append(o.as_str());
        if !row.is_copy {
            let b = row_borrowed(row, settings);
            s.append(b.as_str());
        }
    }
    let q = row_query(row, settings.is_async);
    s.append(q.as_str());
    assert(s@ =~= row_structs_spec(*row, settings));
    s
}

/// Name of the type that a composite's encoder is written for: the owned
/// struct, or the borrowed form when the type serves as parameters, else the
/// parameter struct.
pub open spec fn tosql_name(struct_name: Seq<char>, is_borrow: bool, is_params: bool) -> Seq<char> {
    if !is_borrow {
        struct_name
    } else if is_params {
        struct_name + "Borrowed"@
    } else {
        struct_name + "Params"@
    }
}

/// Encoder and accepts predicate of a composite type, as source text: the
/// field count, then per field as the runtime reports it, its type
/// identifier, a length placeholder filled in after the value is written
/// (`-1` for null), refusing lengths past the 31-bit signed maximum. Each
/// field's type is accepted as its parameter-input type accepts it.
pub open spec fn struct_tosql_spec(struct_name: Seq<char>, fields: Seq<PreparedField>, name: Seq<char>, is_borrow: bool, is_params: bool) -> Seq<char> {
    let sname = tosql_name(struct_name, is_borrow, is_params);
    let lt = if is_borrow { "<'a>"@ } else { Seq::empty() };
    "impl<'a> postgres_types::ToSql for "@ + (sname) + (lt) + " {\n"@
        + "    fn to_sql(&self, ty: &postgres_types::Type, out: &mut postgres_types::private::BytesMut) -> Result<postgres_types::IsNull, Box<dyn std::error::Error + Sync + Send>> {\n"@
        + "        let "@ + (sname) + " { "@ + (join_spec(names_spec(fields), ", "@))
        + " } = self;\n        let fields = match *ty.kind() {\n"@
        + "            postgres_types::Kind::Composite(ref fields) => fields,\n"@
        + "            _ => unreachable!(),\n        };\n"@
        + "        out.extend_from_slice(&(fields.len() as i32).to_be_bytes());\n"@
        + "        for field in fields {\n"@
        + "            out.extend_from_slice(&field.type_().oid().to_be_bytes());\n"@
        + "            let base = out.len();\n"@ + "            out.extend_from_slice(&[0; 4]);\n"@
        + "            let r = match field.name() {\n"@
        + (concat_spec(weave_spec("                \""@, names_spec(fields), "\" => postgres_types::ToSql::to_sql("@, names_spec(fields), ", field.type_(), out),\n"@)))
        + "                _ => unreachable!(),\n            };\n"@
        + "            let count = match r? {\n"@
        + "                postgres_types::IsNull::Yes => -1,\n"@
        + "                postgres_types::IsNull::No => {\n"@
        + "                    let len = out.len() - base - 4;\n"@
        + "                    if len > i32::max_value() as usize {\n"@
        + "                        return Err(Into::into(\"value too large to transmit\"));\n"@
        + "                    }\n                    len as i32\n                }\n"@
        + "            };\n"@
        + "            out[base..base + 4].copy_from_slice(&count.to_be_bytes());\n"@
        + "        }\n        Ok(postgres_types::IsNull::No)\n    }\n"@
        + "    fn accepts(ty: &postgres_types::Type) -> bool {\n"@ + "        if ty.name() != \""@
        + (name) + "\" {\n            return false;\n        }\n        match *ty.kind() {\n"@
        + "            postgres_types::Kind::Composite(ref fields) => {\n"@
        + "                if fields.len() != "@ + (decimal(fields.len()))
        + "usize {\n                    return false;\n                }\n"@
        + "                fields.iter().all(|f| match f.name() {\n"@
        + (concat_spec(weave_spec("                    \""@, names_spec(fields), "\" => <"@, param_tys_spec(fields), " as postgres_types::ToSql>::accepts(f.type_()),\n"@)))
        + "                    _ => false,\n                })\n            }\n"@
        + "            _ => false,\n        }\n    }\n"@
        + "    fn to_sql_checked(&self, ty: &postgres_types::Type, out: &mut postgres_types::private::BytesMut) -> Result<postgres_types::IsNull, Box<dyn std::error::Error + Sync + Send>> {\n"@
        + "        postgres_types::__to_sql_checked(self, ty, out)\n    }\n}\n"@
}

/// Emits the encoder of a composite type.
pub fn struct_tosql(struct_name: &str, fields: &Vec<PreparedField>, name: &str, is_borrow: bool, is_params: bool) -> (r: String)
    ensures
        r@ == struct_tosql_spec(struct_name@, fields@, name@, is_borrow, is_params),
{
    let mut sname = String::from_str(struct_name);
    if is_borrow {
        if is_params {
            sname.append("Borrowed");
        } else {
            sname.append("Params");
        }
    }
    let lt = if is_borrow { String::from_str("<'a>") } else { String::new() };
    let ns = names(fields);
    let name_list = join(&ns, ", ");
    let wa = weave("                \"", &ns, "\" => postgres_types::ToSql::to_sql(", &ns, ", field.type_(), out),\n");
    let write_arms = concat(&wa);
    let mut count = String::new();
    append_decimal(&mut count, fields.len());
    assert(count@ =~= decimal(fields@.len()));
    let ts = param_tys(fields, false);
    let aa = weave("                    \"", &ns, "\" => <", &ts, " as postgres_types::ToSql>::accepts(f.type_()),\n");
    let accept_arms = concat(&aa);
    let mut s = String::from_str("impl<'a> postgres_types::ToSql for ");
    s.append(sname.as_str());
    s.append(lt.as_str());
    s.append(" {\n");
    s.append("    fn to_sql(&self, ty: &postgres_types::Type, out: &mut postgres_types::private::BytesMut) -> Result<postgres_types::IsNull, Box<dyn std::error::Error + Sync + Send>> {\n");
    s.append("        let ");
    s.append(sname.as_str());
    s.append(" { ");
    s.append(name_list.as_str());
    s.append(" } = self;\n        let fields = match *ty.kind() {\n");
    s.append("            postgres_types::Kind::Composite(ref fields) => fields,\n");
    s.append("            _ => unreachable!(),\n        };\n");
    s.append("        out.extend_from_slice(&(fields.len() as i32).to_be_bytes());\n");
    s.append("        for field in fields {\n");
    s.append("            out.extend_from_slice(&field.type_().oid().to_be_bytes());\n");
    s.append("            let base = out.len();\n");
    s.append("            out.extend_from_slice(&[0; 4]);\n");
    s.append("            let r = match field.name() {\n");
    s.append(write_arms.as_str());
    s.append("                _ => unreachable!(),\n            };\n");
    s.append("            let count = match r? {\n");
    s.append("                postgres_types::IsNull::Yes => -1,\n");
    s.append("                postgres_types::IsNull::No => {\n");
    s.append("                    let len = out.len() - base - 4;\n");
    s.append("                    if len > i32::max_value() as usize {\n");
    s.append("                        return Err(Into::into(\"value too large to transmit\"));\n");
    s.append("                    }\n                    len as i32\n                }\n");
    s.append("            };\n");
    s.append("            out[base..base + 4].copy_from_slice(&count.to_be_bytes());\n");
    s.append("        }\n        Ok(postgres_types::IsNull::No)\n    }\n");
    s.append("    fn accepts(ty: &postgres_types::Type) -> bool {\n");
    s.append("        if ty.name() != \"");
    s.append(name);
    s.append("\" {\n            return false;\n        }\n        match *ty.kind() {\n");
    s.append("            postgres_types::Kind::Composite(ref fields) => {\n");
    s.append("                if fields.len() != ");
    s.append(count.as_str());
    s.append("usize {\n                    return false;\n                }\n");
    s.append("                fields.iter().all(|f| match f.name() {\n");
    s.append(accept_arms.as_str());
    s.append("                    _ => false,\n                })\n            }\n");
    s.append("            _ => false,\n        }\n    }\n");
    s.append("    fn to_sql_checked(&self, ty: &postgres_types::Type, out: &mut postgres_types::private::BytesMut) -> Result<postgres_types::IsNull, Box<dyn std::error::Error + Sync + Send>> {\n");
    s.append("        postgres_types::__to_sql_checked(self, ty, out)\n    }\n}\n");
    s
}

/// Decoder of a composite type into its borrowed form, as source text: the
/// encoded field count must be the statically known one, then each statically known field in declared
/// order skips its type identifier and decodes its value.
pub open spec fn composite_fromsql_spec(struct_name: Seq<char>, fields: Seq<PreparedField>, name: Seq<char>, schema: Seq<char>) -> Seq<char> {
    "impl<'a> postgres_types::FromSql<'a> for "@ + (struct_name) + "Borrowed<'a> {\n"@
        + "    fn from_sql(ty: &postgres_types::Type, out: &'a [u8]) -> Result<"@ + (struct_name)
        + "Borrowed<'a>, Box<dyn std::error::Error + Sync + Send>> {\n"@
        + "        let fields = match *ty.kind() {\n"@
        + "            postgres_types::Kind::Composite(ref fields) => fields,\n"@
        + "            _ => unreachable!(),\n        };\n        let mut out = out;\n"@
        + "        let num_fields = postgres_types::private::read_be_i32(&mut out)?;\n"@
        + "        if num_fields as usize != "@ + (decimal(fields.len())) + "usize {\n"@
        + "            return std::result::Result::Err(std::convert::Into::into(format!(\"invalid field count: {} vs {}\", num_fields, "@
        + (decimal(fields.len())) + "usize)));\n        }\n"@
        + (concat_spec(weave_spec("        let _oid = postgres_types::private::read_be_i32(&mut out)?;\n        let "@, names_spec(fields), " = postgres_types::private::read_value(fields["@, decimals_spec(iota(fields.len())), "].type_(), &mut out)?;\n"@)))
        + "        Ok("@ + (struct_name) + "Borrowed { "@ + (join_spec(names_spec(fields), ", "@))
        + " })\n    }\n    fn accepts(ty: &postgres_types::Type) -> bool {\n"@
        + "        ty.name() == \""@ + (name) + "\" && ty.schema() == \""@ + (schema)
        + "\"\n    }\n}\n"@
}

/// Emits the decoder of a composite type.
pub fn composite_fromsql(struct_name: &str, fields: &Vec<PreparedField>, name: &str, schema: &str) -> (r: String)
    ensures
        r@ == composite_fromsql_spec(struct_name@, fields@, name@, schema@),
{
    let ns = names(fields);
    let name_list = join(&ns, ", ");
    let idx = iota_exec(fields.len());
    let ds = decimals(&idx);
    let rd = weave("        let _oid = postgres_types::private::read_be_i32(&mut out)?;\n        let ", &ns, " = postgres_types::private::read_value(fields[", &ds, "].type_(), &mut out)?;\n");
    let reads = concat(&rd);
    let mut count = String::new();
    append_decimal(&mut count, fields.len());
    assert(count@ =~= decimal(fields@.len()));
    let mut s = String::from_str("impl<'a> postgres_types::FromSql<'a> for ");
    s.append(struct_name);
    s.append("Borrowed<'a> {\n");
    s.append("    fn from_sql(ty: &postgres_types::Type, out: &'a [u8]) -> Result<");
    s.append(struct_name);
    s.append("Borrowed<'a>, Box<dyn std::error::Error + Sync + Send>> {\n");
    s.append("        let fields = match *ty.kind() {\n");
    s.append("            postgres_types::Kind::Composite(ref fields) => fields,\n");
    s.append("            _ => unreachable!(),\n        };\n        let mut out = out;\n");
    s.append("        let num_fields = postgres_types::private::read_be_i32(&mut out)?;\n");
    s.append("        if num_fields as usize != ");
    s.append(count.as_str());
    s.append("usize {\n");
    s.append("            return std::result::Result::Err(std::convert::Into::into(format!(\"invalid field count: {} vs {}\", num_fields, ");
    s.append(count.as_str());
    s.append("usize)));\n        }\n");
    s.append(reads.as_str());
    s.append("        Ok(");
    s.append(struct_name);
    s.append("Borrowed { ");
    s.append(name_list.as_str());
    s.append(" })\n    }\n    fn accepts(ty: &postgres_types::Type) -> bool {\n");
    s.append("        ty.name() == \"");
    s.append(name);
    s.append("\" && ty.schema() == \"");
    s.append(schema);
    s.append("\"\n    }\n}\n");
    s
}

pub open spec fn ser_spec(derive_ser: bool) -> Seq<char> {
    if derive_ser { "serde::Serialize, "@ } else { Seq::empty() }
}

fn ser_exec(derive_ser: bool) -> (r: &'static str)
    ensures
        r@ == ser_spec(derive_ser),
{
    proof { reveal_strlit(""); }
    if derive_ser { "serde::Serialize, " } else { "" }
}

pub open spec fn enum_spec(t: PreparedType, variants: Vec<String>, settings: CodegenSettings) -> Seq<char> {
    "#[derive("@ + (ser_spec(settings.derive_ser))
        + "Debug, postgres_types::ToSql, postgres_types::FromSql, Clone, Copy, PartialEq, Eq)]\n"@
        + "#[postgres(name = \""@ + (t.name@) + "\")]\npub enum "@ + (t.struct_name@) + " {\n"@
        + (join_spec(views(variants@), ",\n"@)) + "\n}\n"@
}

pub open spec fn composite_owned_spec(t: PreparedType, fields: Vec<PreparedField>, settings: CodegenSettings) -> Seq<char> {
    "#[derive("@ + (ser_spec(settings.derive_ser)) + "Debug, postgres_types::FromSql, "@
        + ((if t.is_copy { "Copy, "@ } else { Seq::empty() }))
        + "Clone, PartialEq)]\n#[postgres(name = \""@ + (t.name@) + "\")]\npub struct "@
        + (t.struct_name@) + " {\n"@
        + (join_spec(decls_spec(names_spec(fields@), own_tys_spec(fields@)), ",\n"@)) + "\n}\n"@
}

pub open spec fn composite_borrowed_spec(t: PreparedType, fields: Vec<PreparedField>, is_async: bool) -> Seq<char> {
    "#[derive(Debug)]\npub struct "@ + (t.struct_name@) + "Borrowed<'a> {\n"@
        + (join_spec(decls_spec(names_spec(fields@), brw_tys_spec(fields@, is_async)), ",\n"@))
        + "\n}\nimpl<'a> From<"@ + (t.struct_name@) + "Borrowed<'a>> for "@ + (t.struct_name@)
        + " {\n    fn from("@ + (t.struct_name@) + "Borrowed { "@
        + (join_spec(names_spec(fields@), ", "@)) + " }: "@ + (t.struct_name@)
        + "Borrowed<'a>) -> Self {\n        Self { "@ + (join_spec(assigns_spec(fields@), ", "@))
        + " }\n    }\n}\n"@
}

pub open spec fn composite_params_spec(t: PreparedType, fields: Vec<PreparedField>) -> Seq<char> {
    "#[derive(Debug)]\npub struct "@ + (t.struct_name@) + "Params<'a> {\n"@
        + (join_spec(decls_spec(names_spec(fields@), param_tys_spec(fields@)), ",\n"@)) + "\n}\n"@
}

/// Source of a custom type: a bare-variant enum bound to its database
/// name; or a composite's owned struct, then (when copyable) its encoder,
/// else its borrowed dual with the conversion to the owned struct, its
/// decoder, a parameter struct unless the borrowed form serves as one, and
/// the encoder of the borrowed or parameter form.
pub open spec fn custom_type_spec(schema: Seq<char>, t: PreparedType, settings: CodegenSettings) -> Seq<char> {
    match t.content {
        PreparedContent::Enum(variants) => enum_spec(t, variants, settings),
        PreparedContent::Composite(fields) => {
            let owned = composite_owned_spec(t, fields, settings);
            if t.is_copy {
                owned + struct_tosql_spec(t.struct_name@, fields@, t.name@, false, t.is_params)
            } else {
                owned + composite_borrowed_spec(t, fields, settings.is_async)
                    + composite_fromsql_spec(t.struct_name@, fields@, t.name@, schema)
                    + (if t.is_params { Seq::empty() } else { composite_params_spec(t, fields) })
                    + struct_tosql_spec(t.struct_name@, fields@, t.name@, true, t.is_params)
            }
        },
    }
}

fn enum_text(t: &PreparedType, variants: &Vec<String>, settings: CodegenSettings) -> (r: String)
    ensures
        r@ == enum_spec(*t, *variants, settings),
{
    let ser = ser_exec(settings.derive_ser);
    let body = join(variants, ",\n");
    let mut s = String::from_str("#[derive(");
    s.append(ser);
    s.append("Debug, postgres_types::ToSql, postgres_types::FromSql, Clone, Copy, PartialEq, Eq)]\n");
    s.append("#[postgres(name = \"");
    s.append(t.name.as_str());
    s.append("\")]\npub enum ");
    s.append(t.struct_name.as_str());
    s.append(" {\n");
    s.append(body.as_str());
    s.append("\n}\n");
    s
}

fn composite_owned(t: &PreparedType, fields: &Vec<PreparedField>, settings: CodegenSettings) -> (r: String)
    ensures
        r@ == composite_owned_spec(*t, *fields, settings),
{
    let ser = ser_exec(settings.derive_ser);
    let copy: &str = if t.is_copy { "Copy, " } else { "" };
    proof { reveal_strlit(""); }
    assert(copy@ == (if t.is_copy { "Copy, "@ } else { Seq::<char>::empty() }));
    let ns = names(fields);
    let ts = own_tys(fields);
    let ds = decls(&ns, &ts);
    let body = join(&ds, ",\n");
    let mut s = String::from_str("#[derive(");
    s.append(ser);
    s.append("Debug, postgres_types::FromSql, ");
    s.append(copy);
    s.append("Clone, PartialEq)]\n#[postgres(name = \"");
    s.append(t.name.as_str());
    s.append("\")]\npub struct ");
    s.append(t.struct_name.as_str());
    s.append(" {\n");
    s.append(body.as_str());
    s.append("\n}\n");
    s
}

fn composite_borrowed(t: &PreparedType, fields: &Vec<PreparedField>, is_async: bool) -> (r: String)
    ensures
        r@ == composite_borrowed_spec(*t, *fields, is_async),
{
    let ns = names(fields);
    let ts = brw_tys(fields, is_async);
    let ds = decls(&ns, &ts);
    let brw_body = join(&ds, ",\n");
    let name_list = join(&ns, ", ");
    let asg = assigns(fields);
    let assign_list = join(&asg, ", ");
    let mut s = String::from_str("#[derive(Debug)]\npub struct ");
    s.append(t.struct_name.as_str());
    s.append("Borrowed<'a> {\n");
    s.append(brw_body.as_str());
    s.append("\n}\nimpl<'a> From<");
    s.append(t.struct_name.as_str());
    s.append("Borrowed<'a>> for ");
    s.append(t.struct_name.as_str());
    s.append(" {\n    fn from(");
    s.append(t.struct_name.as_str());
    s.append("Borrowed { ");
    s.append(name_list.as_str());
    s.append(" }: ");
    s.append(t.struct_name.as_str());
    s.append("Borrowed<'a>) -> Self {\n        Self { ");
    s.append(assign_list.as_str());
    s.append(" }\n    }\n}\n");
    s
}

fn composite_params(t: &PreparedType, fields: &Vec<PreparedField>, is_async: bool) -> (r: String)
    ensures
        r@ == composite_params_spec(*t, *fields),
{
    let ns = names(fields);
    let ts = param_tys(fields, is_async);
    let ds = decls(&ns, &ts);
    let par_body = join(&ds, ",\n");
    let mut s = String::from_str("#[derive(Debug)]\npub struct ");
    s.append(t.struct_name.as_str());
    s.append("Params<'a> {\n");
    s.append(par_body.as_str());
    s.append("\n}\n");
    s
}

/// Emits the source of a custom type.
pub fn gen_custom_type(schema: &str, t: &PreparedType, settings: CodegenSettings) -> (r: String)
    ensures
        r@ == custom_type_spec(schema@, *t, settings),
{
    match &t.content {
        PreparedContent::Enum(variants) => enum_text(t, variants, settings),
        PreparedContent::Composite(fields) => {
            let mut s = composite_owned(t, fields, settings);
            if t.is_copy {
                let e = struct_tosql(t.struct_name.as_str(), fields, t.name.as_str(), false, t.is_params);
                s.append(e.as_str());
            } else {
                let b = composite_borrowed(t, fields, settings.is_async);
                s.append(b.as_str());
                let d = composite_fromsql(t.struct_name.as_str(), fields, t.name.as_str(), schema);
                s.append(d.as_str());
                if !t.is_params {
                    let pp = composite_params(t, fields, settings.is_async);
                    s.append(pp.as_str());
                } else {
                    assert(s@ + Seq::<char>::empty() =~= s@);
                }
                let e = struct_tosql(t.struct_name.as_str(), fields, t.name.as_str(), true, t.is_params);
                s.append(e.as_str());
            }
            s
        },
    }
}

pub open spec fn send_sync(is_async: bool) -> Seq<char> {
    if is_async { " + Send + Sync"@ } else { ""@ }
}

fn send_sync_exec(is_async: bool) -> (r: &'static str)
    ensures
        r@ == send_sync(is_async),
{
    if is_async { " + Send + Sync" } else { "" }
}

pub open spec fn exec_result_ty(is_async: bool) -> Seq<char> {
    if is_async { "std::pin::Pin<Box<dyn futures::Future<Output = Result<u64, tokio_postgres::Error>> + Send + 'a>>"@ } else { "Result<u64, postgres::Error>"@ }
}

fn exec_result_ty_exec(is_async: bool) -> (r: &'static str)
    ensures
        r@ == exec_result_ty(is_async),
{
    if is_async { "std::pin::Pin<Box<dyn futures::Future<Output = Result<u64, tokio_postgres::Error>> + Send + 'a>>" } else { "Result<u64, postgres::Error>" }
}

pub open spec fn exec_pre(is_async: bool) -> Seq<char> {
    if is_async { "Box::pin(self"@ } else { "self"@ }
}

fn exec_pre_exec(is_async: bool) -> (r: &'static str)
    ensures
        r@ == exec_pre(is_async),
{
    if is_async { "Box::pin(self" } else { "self" }
}

pub open spec fn exec_post(is_async: bool) -> Seq<char> {
    if is_async { ")"@ } else { ""@ }
}

fn exec_post_exec(is_async: bool) -> (r: &'static str)
    ensures
        r@ == exec_post(is_async),
{
    if is_async { ")" } else { "" }
}

/// Statement constructor and holder of a query, with its `bind`.
pub open spec fn stmt_text_spec(name: Seq<char>, stmt: Seq<char>, sql: Seq<char>, bind: Seq<char>, is_async: bool) -> Seq<char> {
    "pub fn "@ + (name) + "() -> "@ + (stmt) + " {\n    "@ + (stmt) + "("@ + (client_mod(is_async))
        + "::private::Stmt::new(\""@ + (sql) + "\"))\n}\npub struct "@ + (stmt) + "("@
        + (client_mod(is_async)) + "::private::Stmt);\nimpl "@ + (stmt) + " {\n"@ + (bind) + "}\n"@
}

fn stmt_text(name: &str, stmt: &str, sql: &str, bind: &str, is_async: bool) -> (r: String)
    ensures
        r@ == stmt_text_spec(name@, stmt@, sql@, bind@, is_async),
{
    let mut s = String::from_str("pub fn ");
    s.append(name);
    s.append("() -> ");
    s.append(stmt);
    s.append(" {\n    ");
    s.append(stmt);
    s.append("(");
    s.append(client_mod_exec(is_async));
    s.append("::private::Stmt::new(\"");
    s.append(sql);
    s.append("\"))\n}\npub struct ");
    s.append(stmt);
    s.append("(");
    s.append(client_mod_exec(is_async));
    s.append("::private::Stmt);\nimpl ");
    s.append(stmt);
    s.append(" {\n");
    s.append(bind);
    s.append("}\n");
    s
}

/// `bind` of a query that returns rows: builds its result builder.
pub open spec fn bind_row_text_spec(gens: Seq<char>, args: Seq<char>, qname: Seq<char>, rsn: Seq<char>, n: Seq<char>, plist: Seq<char>, extractor: Seq<char>, mapper: Seq<char>, is_async: bool) -> Seq<char> {
    "    pub fn bind<"@ + (gens) + ">("@ + (args) + ") -> "@ + (qname) + "Query<'a, C, "@ + (rsn)
        + ", "@ + (n) + "> {\n        "@ + (qname)
        + "Query {\n            client,\n            params: ["@ + (plist)
        + "],\n            stmt: &mut self.0,\n            extractor: |row| { "@ + (extractor)
        + " },\n            mapper: |it| { "@ + (mapper) + " },\n        }\n    }\n"@
}

fn bind_row_text(gens: &str, args: &str, qname: &str, rsn: &str, n: &str, plist: &str, extractor: &str, mapper: &str, is_async: bool) -> (r: String)
    ensures
        r@ == bind_row_text_spec(gens@, args@, qname@, rsn@, n@, plist@, extractor@, mapper@, is_async),
{
    let mut s = String::from_str("    pub fn bind<");
    s.append(gens);
    s.append(">(");
    s.append(args);
    s.append(") -> ");
    s.append(qname);
    s.append("Query<'a, C, ");
    s.append(rsn);
    s.append(", ");
    s.append(n);
    s.append("> {\n        ");
    s.append(qname);
    s.append("Query {\n            client,\n            params: [");
    s.append(plist);
    s.append("],\n            stmt: &mut self.0,\n            extractor: |row| { ");
    s.append(extractor);
    s.append(" },\n            mapper: |it| { ");
    s.append(mapper);
    s.append(" },\n        }\n    }\n");
    s
}

/// `bind` of a query that returns no rows: executes it.
pub open spec fn bind_exec_text_spec(gens: Seq<char>, args: Seq<char>, plist: Seq<char>, is_async: bool) -> Seq<char> {
    "    pub "@ + (fn_async(is_async)) + "fn bind<"@ + (gens) + ">("@ + (args)
        + ") -> Result<u64, "@ + (backend(is_async))
        + "::Error> {\n        let stmt = self.0.prepare(client)"@ + (fn_await(is_async))
        + "?;\n        client.execute(stmt, &["@ + (plist) + "])"@ + (fn_await(is_async)) + "\n    }\n"@
}

fn bind_exec_text(gens: &str, args: &str, plist: &str, is_async: bool) -> (r: String)
    ensures
        r@ == bind_exec_text_spec(gens@, args@, plist@, is_async),
{
    let mut s = String::from_str("    pub ");
    s.append(fn_async_exec(is_async));
    s.append("fn bind<");
    s.append(gens);
    s.append(">(");
    s.append(args);
    s.append(") -> Result<u64, ");
    s.append(backend_exec(is_async));
    s.append("::Error> {\n        let stmt = self.0.prepare(client)");
    s.append(fn_await_exec(is_async));
    s.append("?;\n        client.execute(stmt, &[");
    s.append(plist);
    s.append("])");
    s.append(fn_await_exec(is_async));
    s.append("\n    }\n");
    s
}

/// Binding of a whole parameter struct, for a query that returns rows.
pub open spec fn params_row_text_spec(gens: Seq<char>, targs: Seq<char>, qty: Seq<char>, stmt: Seq<char>, call: Seq<char>, is_async: bool) -> Seq<char> {
    "impl<"@ + (gens) + "> "@ + (client_mod(is_async)) + "::Params<'a, "@ + (targs) + ", "@ + (qty)
        + ", C> for "@ + (stmt) + " {\n    fn params(&'a mut self, client: &'a "@
        + (client_mut(is_async)) + "C, params: &'a "@ + (targs) + ") -> "@ + (qty)
        + " {\n        self.bind(client, "@ + (call) + ")\n    }\n}\n"@
}

fn params_row_text(gens: &str, targs: &str, qty: &str, stmt: &str, call: &str, is_async: bool) -> (r: String)
    ensures
        r@ == params_row_text_spec(gens@, targs@, qty@, stmt@, call@, is_async),
{
    let mut s = String::from_str("impl<");
    s.append(gens);
    s.append("> ");
    s.append(client_mod_exec(is_async));
    s.append("::Params<'a, ");
    s.append(targs);
    s.append(", ");
    s.append(qty);
    s.append(", C> for ");
    s.append(stmt);
    s.append(" {\n    fn params(&'a mut self, client: &'a ");
    s.append(client_mut_exec(is_async));
    s.append("C, params: &'a ");
    s.append(targs);
    s.append(") -> ");
    s.append(qty);
    s.append(" {\n        self.bind(client, ");
    s.append(call);
    s.append(")\n    }\n}\n");
    s
}

/// Binding of a whole parameter struct, for a query that returns no rows.
pub open spec fn params_exec_text_spec(gens: Seq<char>, targs: Seq<char>, stmt: Seq<char>, call: Seq<char>, is_async: bool) -> Seq<char> {
    "impl<"@ + (gens) + "> "@ + (client_mod(is_async)) + "::Params<'a, "@ + (targs) + ", "@
        + (exec_result_ty(is_async)) + ", C> for "@ + (stmt)
        + " {\n    fn params(&'a mut self, client: &'a "@ + (client_mut(is_async)) + "C, params: &'a "@
        + (targs) + ") -> "@ + (exec_result_ty(is_async)) + " {\n        "@ + (exec_pre(is_async))
        + ".bind(client, "@ + (call) + ")"@ + (exec_post(is_async)) + "\n    }\n}\n"@
}

fn params_exec_text(gens: &str, targs: &str, stmt: &str, call: &str, is_async: bool) -> (r: String)
    ensures
        r@ == params_exec_text_spec(gens@, targs@, stmt@, call@, is_async),
{
    let mut s = String::from_str("impl<");
    s.append(gens);
    s.append("> ");
    s.append(client_mod_exec(is_async));
    s.append("::Params<'a, ");
    s.append(targs);
    s.append(", ");
    s.append(exec_result_ty_exec(is_async));
    s.append(", C> for ");
    s.append(stmt);
    s.append(" {\n    fn params(&'a mut self, client: &'a ");
    s.append(client_mut_exec(is_async));
    s.append("C, params: &'a ");
    s.append(targs);
    s.append(") -> ");
    s.append(exec_result_ty_exec(is_async));
    s.append(" {\n        ");
    s.append(exec_pre_exec(is_async));
    s.append(".bind(client, ");
    s.append(call);
    s.append(")");
    s.append(exec_post_exec(is_async));
    s.append("\n    }\n}\n");
    s
}

/// Upper camel case of a name, as heck computes it.
pub uninterp spec fn upper_camel_of(s: Seq<char>) -> Seq<char>;

/// Relies on heck's `ToUpperCamelCase::to_upper_camel_case` for `str`,
/// whose result depends on the characters of `s` alone.
#[verifier::external_body]
fn upper_camel(s: &str) -> (r: String)
    ensures
        r@ == upper_camel_of(s@),
{
    heck::ToUpperCamelCase::to_upper_camel_case(s)
}

/// Text of one character inside a string literal.
pub open spec fn escape_char(c: char) -> Seq<char> {
    if c == '\\' {
        seq!['\\', '\\']
    } else if c == '"' {
        seq!['\\', '"']
    } else {
        seq![c]
    }
}

/// Body of a string literal whose value is `s`: each `\` and `"` escaped
/// by a backslash, every other character kept.
pub open spec fn escape_literal(s: Seq<char>) -> Seq<char>
    decreases s.len(),
{
    if s.len() == 0 {
        Seq::empty()
    } else {
        escape_literal(s.drop_last()) + escape_char(s.last())
    }
}

/// Body of a string literal whose value is `s`.
pub fn escape_sql(s: &str) -> (r: String)
    ensures
        r@ == escape_literal(s@),
{
    let n = s.unicode_len();
    let mut r = String::new();
    let mut i: usize = 0;
    assert(s@.take(0) =~= Seq::<char>::empty());
    while i < n
        invariant
            n == s@.len(),
            i <= n,
            r@ == escape_literal(s@.take(i as int)),
        decreases n - i,
    {
        assert(s@.take(i as int + 1).drop_last() =~= s@.take(i as int));
        let c = s.get_char(i);
        if c == '\\' {
            proof { reveal_strlit("\\\\"); }
            assert("\\\\"@ =~= seq!['\\', '\\']);
            r.append("\\\\");
        } else if c == '"' {
            proof { reveal_strlit("\\\""); }
            assert("\\\""@ =~= seq!['\\', '"']);
            r.append("\\\"");
        } else {
            let one = s.substring_char(i, i + 1);
            assert(one@ =~= seq![c]);
            r.append(one);
        }
        i = i + 1;
    }
    assert(s@.take(n as int) =~= s@);
    r
}

/// Declared fields of a query's parameter shape and its order table.
pub open spec fn query_params(m: PreparedModule, q: PreparedQuery) -> (Seq<PreparedField>, Seq<usize>) {
    match q.param {
        Some((i, order)) => (m.params@[i as int].fields@, order@),
        None => (Seq::empty(), Seq::empty()),
    }
}

/// Owned type of a query's result.
pub open spec fn row_own_name(row: PreparedItem) -> Seq<char> {
    if row.is_named { row.name@ } else { row.fields@[0].own_struct_spec() }
}

/// Decoding of one row; a column that fails to decode is the error.
pub open spec fn extractor_spec(row: PreparedItem, cols: Seq<usize>) -> Seq<char> {
    if row.is_named {
"Ok("@ + (if row.is_copy { row.name@ } else { row.name@ + "Borrowed"@ }) + " { "@
            + join_spec(weave_spec(Seq::empty(), names_spec(row.fields@), ": row.try_get("@, decimals_spec(cols), ")?"@), ", "@)
            + " })"@
    } else {
        "row.try_get(0)"@
    }
}

pub open spec fn mapper_spec(row: PreparedItem) -> Seq<char> {
    if row.is_named {
        "<"@ + row.name@ + ">::from(it)"@
    } else {
        row.fields@[0].owning_call_spec("it"@)
    }
}

/// Type arguments of a query's parameter struct.
pub open spec fn targs_spec(p: PreparedItem, bounds: Seq<Seq<char>>) -> Seq<char> {
    p.name@ + "<"@ + (if p.is_copy || !p.is_ref { Seq::empty() } else { "'a, "@ })
        + join_spec(generic_names_spec(bounds), ", "@) + ">"@
}

/// Arguments of a query's `bind` after the client, in SQL order: the
/// declared field the order table names at each position, spelled as in
/// the parameter shape (whose bounds are collected in declared order).
pub open spec fn bind_arg_items(m: PreparedModule, q: PreparedQuery, is_async: bool) -> Seq<Seq<char>> {
    let (pf, order) = query_params(m, q);
    weave_spec(Seq::empty(), names_spec(pick(pf, order)), ": &'a "@, select_spec(ergo_fold(pf, is_async).0, order),
        Seq::empty())
}

/// Arguments that binding a whole parameter struct hands to `bind`.
pub open spec fn params_call_items(m: PreparedModule, q: PreparedQuery) -> Seq<Seq<char>> {
    let (pf, order) = query_params(m, q);
    wrapped_spec("&params."@, names_spec(pick(pf, order)), Seq::empty())
}

/// Source of one query: its statement holder, whose SQL literal has the
/// SQL text as its value, with a `bind` whose arguments follow the SQL
/// positions, and, for a named parameter shape, the binding of a whole
/// parameter struct, under the same generic parameters as its struct.
#[verifier::opaque]
pub open spec fn query_fn_spec(m: PreparedModule, q: PreparedQuery, settings: CodegenSettings) -> Seq<char> {
    let is_async = settings.is_async;
    let stmt = upper_camel_of(q.name@) + "Stmt"@;
    let (pf, order) = query_params(m, q);
    let ef = ergo_fold(pf, is_async);
    let pnames = names_spec(pick(pf, order));
    let gens = join_spec(seq!["'a"@, "C: GenericClient"@] + generics_spec(ef.1), ", "@);
    let args = join_spec(seq!["&'a mut self"@, "client: &'a "@ + client_mut(is_async) + "C"@]
        + bind_arg_items(m, q, is_async), ", "@);
    let plist = join_spec(pnames, ", "@);
    let n = decimal(order.len());
    let bind = match q.row {
        Some((ri, cols)) => {
            let row = m.rows@[ri as int];
            bind_row_text_spec(gens, args, row.name@, row_own_name(row), n, plist, extractor_spec(row, cols@),
                mapper_spec(row), is_async)
        },
        None => bind_exec_text_spec(gens, args, plist, is_async),
    };
    let call = join_spec(params_call_items(m, q), ", "@);
    let params_impl = match q.param {
        None => Seq::empty(),
        Some((pi, _)) => {
            let p = m.params@[pi as int];
            if !p.is_named {
                Seq::empty()
            } else {
                match q.row {
                    Some((ri, _)) => {
                        let row = m.rows@[ri as int];
                        let qty = row.name@ + "Query<'a, C, "@ + row_own_name(row) + ", "@ + n + ">"@;
                        params_row_text_spec(gens, targs_spec(p, ef.1), qty, stmt, call, is_async)
                    },
                    None => {
                        let gens2 = join_spec(seq!["'a"@, "C: GenericClient"@ + send_sync(is_async)]
                            + generics_spec(ef.1), ", "@);
                        params_exec_text_spec(gens2, targs_spec(p, ef.1), stmt, call, is_async)
                    },
                }
            }
        },
    };
    stmt_text_spec(q.name@, stmt, escape_literal(q.sql@), bind, is_async) + params_impl
}

/// Positional reordering: argument `k` of `bind` (after the client), and
/// argument `k` that binding a whole parameter struct passes, is the
/// declared field that the order table places at SQL position `k`; and
/// `bind` takes the same generic parameters as the parameter struct.
pub proof fn lemma_positional_arguments(m: PreparedModule, q: PreparedQuery, is_async: bool, k: int)
    requires
        q.wf_in(m),
        q.param is Some,
        0 <= k < query_params(m, q).1.len(),
    ensures
        ({
            let (pf, order) = query_params(m, q);
            let f = pf[order[k] as int];
            &&& bind_arg_items(m, q, is_async)[k] =~= f.name@ + ": &'a "@ + ergo_fold(pf, is_async).0[order[k] as int]
            &&& params_call_items(m, q)[k] =~= "&params."@ + f.name@
            &&& pf == m.params@[q.param->Some_0.0 as int].fields@
        }),
{
}

fn row_own_name_exec(row: &PreparedItem) -> (r: String)
    requires
        !row.is_named ==> row.fields@.len() > 0,
    ensures
        r@ == row_own_name(*row),
{
    if row.is_named { row.name.clone() } else { row.fields[0].own_struct() }
}

fn extractor_exec(row: &PreparedItem, cols: &Vec<usize>) -> (r: String)
    requires
        row.is_named ==> cols@.len() == row.fields@.len(),
    ensures
        r@ == extractor_spec(*row, cols@),
{
    if row.is_named {
        let mut s = String::from_str("Ok(");
        s.append(row.name.as_str());
        if !row.is_copy {
            s.append("Borrowed");
        }
        s.append(" { ");
        let ns = names(&row.fields);
        let ds = decimals(cols);
        let gets = weave("", &ns, ": row.try_get(", &ds, ")?");
        proof { reveal_strlit(""); }
        assert(""@ =~= Seq::<char>::empty());
        let g = join(&gets, ", ");
        s.append(g.as_str());
        s.append(" })");
        s
    } else {
        String::from_str("row.try_get(0)")
    }
}

fn mapper_exec(row: &PreparedItem) -> (r: String)
    requires
        !row.is_named ==> row.fields@.len() > 0,
    ensures
        r@ == mapper_spec(*row),
{
    if row.is_named {
        let mut s = String::from_str("<");
        s.append(row.name.as_str());
        s.append(">::from(it)");
        s
    } else {
        row.fields[0].owning_call(Some("it"))
    }
}

fn targs_exec(p: &PreparedItem, bounds: &Vec<String>) -> (r: String)
    requires
        bounds@.len() < usize::MAX,
    ensures
        r@ == targs_spec(*p, views(bounds@)),
{
    let mut s = p.name.clone();
    s.append("<");
    if !(p.is_copy || !p.is_ref) {
        s.append("'a, ");
    } else {
        assert(s@ + Seq::<char>::empty() =~= s@);
    }
    let gn = generic_names(bounds);
    let g = join(&gn, ", ");
    s.append(g.as_str());
    s.append(">");
    s
}

/// Emits the source of one query of module `m`.
pub fn gen_query_fn(m: &PreparedModule, q: &PreparedQuery, settings: CodegenSettings) -> (r: String)
    requires
        q.wf_in(*m),
    ensures
        r@ == query_fn_spec(*m, *q, settings),
{
    reveal(query_fn_spec);
    let is_async = settings.is_async;
    let mut stmt = upper_camel(q.name.as_str());
    stmt.append("Stmt");
    let empty_fields: Vec<PreparedField> = Vec::new();
    let empty_order: Vec<usize> = Vec::new();
    let (pf, order): (&Vec<PreparedField>, &Vec<usize>) = match &q.param {
        Some((i, order)) => (&m.params[*i].fields, order),
        None => (&empty_fields, &empty_order),
    };
    assert((pf@, order@) == query_params(*m, *q));
    proof { lemma_pick_iota(pf@); }
    let idx = iota_exec(pf.len());
    let (decl_tys, bounds) = ergo_tys(pf, &idx, is_async);
    let tys = select(&decl_tys, order);
    let pnames = names_in(pf, order);
    proof { reveal_strlit(""); }
    assert(""@ =~= Seq::<char>::empty());
    let gs = generics(&bounds);
    let gl0 = prepend(String::from_str("C: GenericClient"), &gs);
    let gl = prepend(String::from_str("'a"), &gl0);
    assert(views(gl@) =~= seq!["'a"@, "C: GenericClient"@] + generics_spec(views(bounds@)));
    let gens = join(&gl, ", ");
    let pargs = weave("", &pnames, ": &'a ", &tys, "");
    let mut client_arg = String::from_str("client: &'a ");
    client_arg.append(client_mut_exec(is_async));
    client_arg.append("C");
    let al0 = prepend(client_arg, &pargs);
    let al = prepend(String::from_str("&'a mut self"), &al0);
    assert(views(al@) =~= seq!["&'a mut self"@, "client: &'a "@ + client_mut(is_async) + "C"@]
        + weave_spec(Seq::empty(), views(pnames@), ": &'a "@, views(tys@), Seq::empty()));
    assert(views(pargs@) == bind_arg_items(*m, *q, is_async));
    let args = join(&al, ", ");
    let plist = join(&pnames, ", ");
    let mut n = String::new();
    append_decimal(&mut n, order.len());
    assert(n@ =~= decimal(order@.len()));
    let bind = match &q.row {
        Some((ri, cols)) => {
            let row = &m.rows[*ri];
            let rsn = row_own_name_exec(row);
            let ex = extractor_exec(row, cols);
            let mp = mapper_exec(row);
            bind_row_text(gens.as_str(), args.as_str(), row.name.as_str(), rsn.as_str(), n.as_str(),
                plist.as_str(), ex.as_str(), mp.as_str(), is_async)
        },
        None => bind_exec_text(gens.as_str(), args.as_str(), plist.as_str(), is_async),
    };
    let sql = escape_sql(q.sql.as_str());
    let mut s = stmt_text(q.name.as_str(), stmt.as_str(), sql.as_str(), bind.as_str(), is_async);
    let wr = wrapped("&params.", &pnames, "");
    assert(views(wr@) == params_call_items(*m, *q));
    let call = join(&wr, ", ");
    match &q.param {
        None => {
            assert(s@ + Seq::<char>::empty() =~= s@);
        },
        Some((pi, _)) => {
            let p = &m.params[*pi];
            if !p.is_named {
                assert(s@ + Seq::<char>::empty() =~= s@);
            } else {
                let targs = targs_exec(p, &bounds);
                match &q.row {
                    Some((ri, _)) => {
                        let row = &m.rows[*ri];
                        let mut qty = row.name.clone();
                        qty.append("Query<'a, C, ");
                        let rsn = row_own_name_exec(row);
                        qty.append(rsn.as_str());
                        qty.append(", ");
                        qty.append(n.as_str());
                        qty.append(">");
                        let t = params_row_text(gens.as_str(), targs.as_str(), qty.as_str(), stmt.as_str(),
                            call.as_str(), is_async);
                        s.append(t.as_str());
                    },
                    None => {
                        let mut cg = String::from_str("C: GenericClient");
                        cg.append(send_sync_exec(is_async));
                        let gl2a = prepend(cg, &gs);
                        let gl2 = prepend(String::from_str("'a"), &gl2a);
                        assert(views(gl2@) =~= seq!["'a"@, "C: GenericClient"@ + send_sync(is_async)]
                            + generics_spec(views(bounds@)));
                        let gens2 = join(&gl2, ", ");
                        let t = params_exec_text(gens2.as_str(), targs.as_str(), stmt.as_str(), call.as_str(),
                            is_async);
                        s.append(t.as_str());
                    },
                }
            }
        },
    }
    s
}

/// Module of one schema's custom types.
pub open spec fn schema_mod_spec(schema: Seq<char>, tys: Seq<PreparedType>, settings: CodegenSettings) -> Seq<char> {
    "pub mod "@ + schema + " {\n"@
        + concat_spec(tys.map_values(|t: PreparedType| custom_type_spec(schema, t, settings))) + "}\n"@
}

/// Namespace of custom types, one module per schema, in order.
pub open spec fn type_modules_spec(types: Seq<(String, Vec<PreparedType>)>, settings: CodegenSettings) -> Seq<char> {
    "#[allow(clippy::all, clippy::pedantic)]\n#[allow(unused_variables)]\n#[allow(unused_imports)]\n#[allow(dead_code)]\npub mod types {\n"@
        + concat_spec(types.map_values(|e: (String, Vec<PreparedType>)| schema_mod_spec(e.0@, e.1@, settings)))
        + "}\n"@
}

/// Module of one group of queries: the import preamble of the execution
/// mode, then parameter structs, row shapes and queries, each in order.
pub open spec fn module_spec(m: PreparedModule, settings: CodegenSettings) -> Seq<char> {
    "pub mod "@ + m.name@ + " {\n"@ + import_line(settings.is_async)
        + concat_spec(m.params@.map_values(|p: PreparedItem| params_struct_spec(p, settings.is_async)))
        + concat_spec(m.rows@.map_values(|r: PreparedItem| row_structs_spec(r, settings)))
        + concat_spec(m.queries@.map_values(|q: PreparedQuery| query_fn_spec(m, q, settings)))
        + "}\n"@
}

/// Marker comment that heads every output.
pub open spec fn header() -> Seq<char> {
    "// This file was generated with `cornucopia`. Do not modify.\n\n"@
}

/// The whole output: marker comment, custom types, then queries.
pub open spec fn generate_spec(prep: Preparation, settings: CodegenSettings) -> Seq<char> {
    header() + body_spec(prep, settings)
}

/// Custom types, then queries, in one execution mode.
pub open spec fn body_spec(prep: Preparation, settings: CodegenSettings) -> Seq<char> {
    type_modules_spec(prep.types@, settings)
        + "#[allow(clippy::all, clippy::pedantic)]\n#[allow(unused_variables)]\n#[allow(unused_imports)]\n#[allow(dead_code)]\npub mod queries {\n"@
        + concat_spec(prep.modules@.map_values(|m: PreparedModule| module_spec(m, settings)))
        + "}\n"@
}

fn schema_mod(schema: &String, tys: &Vec<PreparedType>, settings: CodegenSettings) -> (r: String)
    ensures
        r@ == schema_mod_spec(schema@, tys@, settings),
{
    let mut items: Vec<String> = Vec::new();
    let mut i: usize = 0;
    while i < tys.len()
        invariant
            i <= tys@.len(),
            items@.len() == i,
            forall|j: int| 0 <= j < i ==> items@[j]@ == custom_type_spec(schema@, tys@[j], settings),
        decreases tys@.len() - i,
    {
        items.push(gen_custom_type(schema.as_str(), &tys[i], settings));
        i = i + 1;
    }
    assert(views(items@) =~= tys@.map_values(|t: PreparedType| custom_type_spec(schema@, t, settings)));
    let body = concat(&items);
    let mut s = String::from_str("pub mod ");
    s.append(schema.as_str());
    s.append(" {\n");
    s.append(body.as_str());
    s.append("}\n");
    s
}

/// Emits the namespace of custom types.
pub fn gen_type_modules(types: &Vec<(String, Vec<PreparedType>)>, settings: CodegenSettings) -> (r: String)
    ensures
        r@ == type_modules_spec(types@, settings),
{
    let mut items: Vec<String> = Vec::new();
    let mut i: usize = 0;
    while i < types.len()
        invariant
            i <= types@.len(),
            items@.len() == i,
            forall|j: int| 0 <= j < i ==> items@[j]@ == schema_mod_spec(types@[j].0@, types@[j].1@, settings),
        decreases types@.len() - i,
    {
        let e = &types[i];
        items.push(schema_mod(&e.0, &e.1, settings));
        i = i + 1;
    }
    assert(views(items@) =~= types@.map_values(|e: (String, Vec<PreparedType>)| schema_mod_spec(e.0@, e.1@, settings)));
    let body = concat(&items);
    let mut s = String::from_str("#[allow(clippy::all, clippy::pedantic)]\n#[allow(unused_variables)]\n#[allow(unused_imports)]\n#[allow(dead_code)]\npub mod types {\n");
    s.append(body.as_str());
    s.append("}\n");
    s
}

fn gen_module(m: &PreparedModule, settings: CodegenSettings) -> (r: String)
    requires
        m.wf(),
    ensures
        r@ == module_spec(*m, settings),
{
    let mut ps: Vec<String> = Vec::new();
    let mut i: usize = 0;
    while i < m.params.len()
        invariant
            m.wf(),
            i <= m.params@.len(),
            ps@.len() == i,
            forall|j: int| 0 <= j < i ==> ps@[j]@ == params_struct_spec(m.params@[j], settings.is_async),
        decreases m.params@.len() - i,
    {
        assert(m.params@[i as int].fields@.len() < usize::MAX);
        ps.push(gen_params_struct(&m.params[i], settings));
        i = i + 1;
    }
    assert(views(ps@) =~= m.params@.map_values(|p: PreparedItem| params_struct_spec(p, settings.is_async)));
    let mut rs: Vec<String> = Vec::new();
    let mut i: usize = 0;
    while i < m.rows.len()
        invariant
            m.wf(),
            i <= m.rows@.len(),
            rs@.len() == i,
            forall|j: int| 0 <= j < i ==> rs@[j]@ == row_structs_spec(m.rows@[j], settings),
        decreases m.rows@.len() - i,
    {
        assert(!m.rows@[i as int].is_named ==> m.rows@[i as int].fields@.len() > 0);
        rs.push(gen_row_structs(&m.rows[i], settings));
        i = i + 1;
    }
    assert(views(rs@) =~= m.rows@.map_values(|r: PreparedItem| row_structs_spec(r, settings)));
    let mut qs: Vec<String> = Vec::new();
    let mut i: usize = 0;
    while i < m.queries.len()
        invariant
            m.wf(),
            i <= m.queries@.len(),
            qs@.len() == i,
            forall|j: int| 0 <= j < i ==> qs@[j]@ == query_fn_spec(*m, m.queries@[j], settings),
        decreases m.queries@.len() - i,
    {
        assert(m.queries@[i as int].wf_in(*m));
        qs.push(gen_query_fn(m, &m.queries[i], settings));
        i = i + 1;
    }
    assert(views(qs@) =~= m.queries@.map_values(|q: PreparedQuery| query_fn_spec(*m, q, settings)));
    let p_text = concat(&ps);
    let r_text = concat(&rs);
    let q_text = concat(&qs);
    let mut s = String::from_str("pub mod ");
    s.append(m.name.as_str());
    s.append(" {\n");
    s.append(import_line_exec(settings.is_async));
    s.append(p_text.as_str());
    s.append(r_text.as_str());
    s.append(q_text.as_str());
    s.append("}\n");
    s
}

/// Emits the whole output for a resolved description of queries and types.
pub fn generate(prep: &Preparation, settings: CodegenSettings) -> (r: String)
    requires
        prep.wf(),
    ensures
        r@ == generate_spec(*prep, settings),
{
    let mut s = String::from_str("// This file was generated with `cornucopia`. Do not modify.\n\n");
    let b = gen_body(prep, settings);
    s.append(b.as_str());
    s
}

/// Emits the custom types and the queries in one execution mode.
fn gen_body(prep: &Preparation, settings: CodegenSettings) -> (r: String)
    requires
        prep.wf(),
    ensures
        r@ == body_spec(*prep, settings),
{
    let mut s = gen_type_modules(&prep.types, settings);
    let mut ms: Vec<String> = Vec::new();
    let mut i: usize = 0;
    while i < prep.modules.len()
        invariant
            prep.wf(),
            i <= prep.modules@.len(),
            ms@.len() == i,
            forall|j: int| 0 <= j < i ==> ms@[j]@ == module_spec(prep.modules@[j], settings),
        decreases prep.modules@.len() - i,
    {
        assert(prep.modules@[i as int].wf());
        ms.push(gen_module(&prep.modules[i], settings));
        i = i + 1;
    }
    assert(views(ms@) =~= prep.modules@.map_values(|m: PreparedModule| module_spec(m, settings)));
    let body = concat(&ms);
    s.append("#[allow(clippy::all, clippy::pedantic)]\n#[allow(unused_variables)]\n#[allow(unused_imports)]\n#[allow(dead_code)]\npub mod queries {\n");
    s.append(body.as_str());
    s.append("}\n");
    s
}

/// The output for the execution modes asked for: one mode's body under
/// the marker comment; with both, each under a module of its own
/// (`sync` and `async_`); with neither, the marker alone.
pub open spec fn generate_modes_spec(prep: Preparation, gen_sync: bool, gen_async: bool, derive_ser: bool) -> Seq<char> {
    let sync = CodegenSettings { is_async: false, derive_ser };
    let asy = CodegenSettings { is_async: true, derive_ser };
    if gen_sync && gen_async {
        header() + "pub mod sync {\n"@ + body_spec(prep, sync) + "}\npub mod async_ {\n"@ + body_spec(prep, asy)
            + "}\n"@
    } else if gen_sync {
        generate_spec(prep, sync)
    } else if gen_async {
        generate_spec(prep, asy)
    } else {
        header()
    }
}

/// Emits the output for the execution modes asked for.
pub fn generate_modes(prep: &Preparation, gen_sync: bool, gen_async: bool, derive_ser: bool) -> (r: String)
    requires
        prep.wf(),
    ensures
        r@ == generate_modes_spec(*prep, gen_sync, gen_async, derive_ser),
{
    let sync = CodegenSettings { is_async: false, derive_ser };
    let asy = CodegenSettings { is_async: true, derive_ser };
    if gen_sync && gen_async {
        let mut s = String::from_str("// This file was generated with `cornucopia`. Do not modify.\n\n");
        s.append("pub mod sync {\n");
        let a = gen_body(prep, sync);
        s.append(a.as_str());
        s.append("}\npub mod async_ {\n");
        let b = gen_body(prep, asy);
        s.append(b.as_str());
        s.append("}\n");
        s
    } else if gen_sync {
        generate(prep, sync)
    } else if gen_async {
        generate(prep, asy)
    } else {
        String::from_str("// This file was generated with `cornucopia`. Do not modify.\n\n")
    }
}

} // verus!
