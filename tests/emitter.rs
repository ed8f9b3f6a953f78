use cornucopia::config::{default_config_path, mode_flags, on_unreadable_config, CliError, Config};
use cornucopia::emit::{gen_custom_type, gen_params_struct, gen_query_fn, gen_row_structs, generate, generate_modes};
use cornucopia::ir::{
    CodegenSettings, Preparation, PreparedContent, PreparedItem, PreparedModule, PreparedQuery, PreparedType,
};
use cornucopia::ty::{idx_char, CornucopiaType, PreparedField, TypeKind};

fn int4() -> CornucopiaType {
    CornucopiaType {
        kind: TypeKind::Copy,
        own_name: "i32".to_string(),
        brw_name: String::new(),
        ergo_bound: None,
        is_array: false,
    }
}

fn text() -> CornucopiaType {
    CornucopiaType {
        kind: TypeKind::Ref,
        own_name: "String".to_string(),
        brw_name: "str".to_string(),
        ergo_bound: Some("StringSql".to_string()),
        is_array: false,
    }
}

fn field(name: &str, ty: CornucopiaType, nullable: bool, inner: bool) -> PreparedField {
    PreparedField { name: name.to_string(), ty, is_nullable: nullable, is_inner_nullable: inner }
}

const ASYNC: CodegenSettings = CodegenSettings { is_async: true, derive_ser: false };
const SYNC: CodegenSettings = CodegenSettings { is_async: false, derive_ser: false };

#[test]
fn generic_parameter_names() {
    assert_eq!(idx_char(1), "T1");
    assert_eq!(idx_char(12), "T12");
    assert_eq!(idx_char(0), "T0");
}

#[test]
fn representations_of_a_nullable_text_field() {
    let f = field("title", text(), true, false);
    assert_eq!(f.own_struct(), "Option<String>");
    assert_eq!(f.brw_ty(true, true), "Option<&'a str>");
    assert_eq!(f.brw_ty(false, true), "Option<&'_ str>");
    assert_eq!(f.param_ty(true), "Option<&'a str>");
    let mut traits: Vec<String> = Vec::new();
    assert_eq!(f.param_ergo_ty(true, &mut traits), "Option<T1>");
    assert_eq!(traits, vec!["cornucopia_async::StringSql".to_string()]);
    assert_eq!(f.owning_call(None), "title.map(|v| v.into())");
    assert_eq!(f.owning_assign(), "title: title.map(|v| v.into())");
}

#[test]
fn representations_of_an_array_field() {
    let mut ty = int4();
    ty.is_array = true;
    let f = field("ids", ty, false, true);
    assert_eq!(f.own_struct(), "Vec<Option<i32>>");
    assert_eq!(f.brw_ty(true, false), "cornucopia_sync::ArrayIterator<'a, Option<i32>>");
    assert_eq!(f.param_ty(false), "&'a [Option<i32>]");
    let mut traits: Vec<String> = vec!["cornucopia_sync::StringSql".to_string()];
    assert_eq!(f.param_ergo_ty(false, &mut traits), "T2");
    assert_eq!(traits[1], "cornucopia_sync::ArraySql<Item = Option<i32>>");
    assert_eq!(f.owning_call(Some("it")), "it.collect()");
}

#[test]
fn copy_fields_convert_by_identity() {
    let f = field("id", int4(), true, false);
    assert_eq!(f.owning_call(None), "id");
    assert_eq!(f.owning_assign(), "id");
    let mut traits: Vec<String> = Vec::new();
    assert_eq!(f.param_ergo_ty(false, &mut traits), "Option<i32>");
    assert!(traits.is_empty());
}

#[test]
fn params_struct_shares_one_bound() {
    let p = PreparedItem {
        name: "AuthorParams".to_string(),
        fields: vec![field("first", text(), false, false), field("last", text(), false, false)],
        is_copy: false,
        is_named: true,
        is_ref: true,
    };
    assert_eq!(
        gen_params_struct(&p, ASYNC),
        "#[derive(Debug)]\npub struct AuthorParams<'a, T1: cornucopia_async::StringSql> {\npub first: T1,\npub last: T1\n}\n"
    );
    let mut bare = p.clone();
    bare.is_named = false;
    assert_eq!(gen_params_struct(&bare, ASYNC), "");
}

#[test]
fn row_struct_has_borrowed_dual() {
    let row = PreparedItem {
        name: "Book".to_string(),
        fields: vec![field("id", int4(), false, false), field("title", text(), false, false)],
        is_copy: false,
        is_named: true,
        is_ref: false,
    };
    let out = gen_row_structs(&row, SYNC);
    assert!(out.starts_with(
        "#[derive(Debug, Clone, PartialEq)]\npub struct Book {\npub id: i32,\npub title: String\n}\npub struct BookBorrowed<'a> {\npub id: i32,\npub title: &'a str\n}\n"
    ));
    assert!(out.contains("Self { id, title: title.into() }"));
    assert!(out.contains("pub struct BookQuery<'a, C: GenericClient, T, const N: usize> {\n    client: &'a mut C,"));
    assert!(out.contains("extractor: fn(&postgres::Row) -> Result<BookBorrowed, postgres::Error>,"));
    assert!(out.contains("Ok((self.mapper)((self.extractor)(&row)?))"));
    assert!(out.contains(".scan(false, |failed, res| if *failed { None } else { *failed = res.is_err(); Some(res) })"));
}

#[test]
fn enum_type_binds_database_name() {
    let t = PreparedType {
        name: "spongebob_character".to_string(),
        struct_name: "SpongebobCharacter".to_string(),
        content: PreparedContent::Enum(vec!["Bob".to_string(), "Patrick".to_string(), "Squidward".to_string()]),
        is_copy: true,
        is_params: true,
    };
    assert_eq!(
        gen_custom_type("public", &t, ASYNC),
        "#[derive(Debug, postgres_types::ToSql, postgres_types::FromSql, Clone, Copy, PartialEq, Eq)]\n#[postgres(name = \"spongebob_character\")]\npub enum SpongebobCharacter {\nBob,\nPatrick,\nSquidward\n}\n"
    );
}

#[test]
fn composite_type_gets_codec() {
    let t = PreparedType {
        name: "custom_composite".to_string(),
        struct_name: "CustomComposite".to_string(),
        content: PreparedContent::Composite(vec![
            field("such_cool", int4(), false, false),
            field("wow", text(), false, false),
        ]),
        is_copy: false,
        is_params: false,
    };
    let out = gen_custom_type("public", &t, ASYNC);
    assert!(out.contains("pub struct CustomCompositeBorrowed<'a> {\npub such_cool: i32,\npub wow: &'a str\n}\n"));
    assert!(out.contains("impl<'a> postgres_types::FromSql<'a> for CustomCompositeBorrowed<'a>"));
    assert!(out.contains("let wow = postgres_types::private::read_value(fields[1].type_(), &mut out)?;"));
    assert!(out.contains("pub struct CustomCompositeParams<'a> {\npub such_cool: i32,\npub wow: &'a str\n}\n"));
    assert!(out.contains("impl<'a> postgres_types::ToSql for CustomCompositeParams<'a>"));
    assert!(out.contains("if fields.len() != 2usize {"));
    assert!(out.contains("if num_fields as usize != 2usize {"));
    assert!(out.contains("\"wow\" => <&'a str as postgres_types::ToSql>::accepts(f.type_()),"));
    assert!(out.contains("\"wow\" => postgres_types::ToSql::to_sql(wow, field.type_(), out),"));
    assert!(out.contains("ty.name() == \"custom_composite\" && ty.schema() == \"public\""));
}

fn books_module() -> PreparedModule {
    PreparedModule {
        name: "module_1".to_string(),
        queries: vec![PreparedQuery {
            name: "insert_book".to_string(),
            sql: "INSERT INTO \"Book\" (title, id) VALUES ($1, $2)".to_string(),
            row: None,
            param: Some((0, vec![1, 0])),
        }],
        rows: vec![],
        params: vec![PreparedItem {
            name: "InsertBookParams".to_string(),
            fields: vec![field("id", int4(), false, false), field("title", text(), false, false)],
            is_copy: false,
            is_named: true,
            is_ref: true,
        }],
    }
}

#[test]
fn query_binds_in_sql_order() {
    let m = books_module();
    let out = gen_query_fn(&m, &m.queries[0], SYNC);
    assert!(out.starts_with("pub fn insert_book() -> InsertBookStmt {\n"));
    assert!(out.contains("Stmt::new(\"INSERT INTO \\\"Book\\\" (title, id) VALUES ($1, $2)\")"));
    assert!(out.contains(
        "pub fn bind<'a, C: GenericClient, T1: cornucopia_sync::StringSql>(&'a mut self, client: &'a mut C, title: &'a T1, id: &'a i32) -> Result<u64, postgres::Error>"
    ));
    assert!(out.contains("client.execute(stmt, &[title, id])"));
    assert!(out.contains("self.bind(client, &params.title, &params.id)"));
}

#[test]
fn generate_assembles_namespaces() {
    let prep = Preparation { types: vec![("public".to_string(), vec![])], modules: vec![books_module()] };
    let out = generate(&prep, ASYNC);
    assert!(out.starts_with("// This file was generated with `cornucopia`. Do not modify.\n\n"));
    assert!(out.contains("pub mod types {\npub mod public {\n}\n}\n"));
    assert!(out.contains("pub mod queries {\npub mod module_1 {\nuse futures::{StreamExt, TryStreamExt};"));
    assert!(out.ends_with("}\n}\n"));
}

#[test]
fn config_fallback_only_for_default_path() {
    assert_eq!(default_config_path(), "cornucopia.toml");
    let ok: Config = on_unreadable_config("cornucopia.toml".to_string(), "gone".to_string()).unwrap();
    assert!(ok.custom_type_map.is_empty());
    let err = on_unreadable_config("other.toml".to_string(), "gone".to_string()).unwrap_err();
    assert_eq!(err, CliError::MissingConfig { path: "other.toml".to_string(), err: "gone".to_string() });
    assert_eq!(err.message(), "Could not load config `other.toml`: (gone)");
}

#[test]
fn mode_flags_default_to_async() {
    let f = mode_flags(false, false, true);
    assert!(f.gen_async && !f.gen_sync && f.derive_ser);
    let f = mode_flags(true, false, false);
    assert!(!f.gen_async && f.gen_sync);
    let f = mode_flags(true, true, false);
    assert!(f.gen_async && f.gen_sync);
}

fn bytes() -> CornucopiaType {
    CornucopiaType {
        kind: TypeKind::Ref,
        own_name: "Vec<u8>".to_string(),
        brw_name: "[u8]".to_string(),
        ergo_bound: Some("BytesSql".to_string()),
        is_array: false,
    }
}

fn swapped_module() -> PreparedModule {
    PreparedModule {
        name: "m".to_string(),
        queries: vec![PreparedQuery {
            name: "insert_pair".to_string(),
            sql: "INSERT INTO pair (a, b) VALUES ($1, $2)".to_string(),
            row: None,
            param: Some((0, vec![1, 0])),
        }],
        rows: vec![],
        params: vec![PreparedItem {
            name: "InsertPairParams".to_string(),
            fields: vec![field("b", text(), false, false), field("a", bytes(), false, false)],
            is_copy: false,
            is_named: true,
            is_ref: true,
        }],
    }
}

#[test]
fn bind_uses_the_struct_generics() {
    let m = swapped_module();
    assert_eq!(
        gen_params_struct(&m.params[0], SYNC),
        "#[derive(Debug)]\npub struct InsertPairParams<'a, T1: cornucopia_sync::StringSql, T2: cornucopia_sync::BytesSql> {\npub b: T1,\npub a: T2\n}\n"
    );
    let out = gen_query_fn(&m, &m.queries[0], SYNC);
    assert!(out.contains(
        "pub fn bind<'a, C: GenericClient, T1: cornucopia_sync::StringSql, T2: cornucopia_sync::BytesSql>(&'a mut self, client: &'a mut C, a: &'a T2, b: &'a T1)"
    ));
    assert!(out.contains("client.execute(stmt, &[a, b])"));
    assert!(out.contains("self.bind(client, &params.a, &params.b)"));
    assert!(out.contains("InsertPairParams<'a, T1, T2>"));
}

#[test]
fn sql_literal_keeps_backslashes() {
    let mut m = books_module();
    m.queries[0].sql = "SELECT '\\d', 'a\\nb', \"x\"".to_string();
    let out = gen_query_fn(&m, &m.queries[0], SYNC);
    assert!(out.contains("Stmt::new(\"SELECT '\\\\d', 'a\\\\nb', \\\"x\\\"\")"));
}

#[test]
fn rows_are_read_with_try_get() {
    let mut m = books_module();
    m.rows.push(PreparedItem {
        name: "Book".to_string(),
        fields: vec![field("id", int4(), false, false), field("title", text(), false, false)],
        is_copy: false,
        is_named: true,
        is_ref: false,
    });
    m.queries[0].row = Some((0, vec![1, 0]));
    let out = gen_query_fn(&m, &m.queries[0], ASYNC);
    assert!(out.contains("extractor: |row| { Ok(BookBorrowed { id: row.try_get(1)?, title: row.try_get(0)? }) },"));
    assert!(out.contains("mapper: |it| { <Book>::from(it) },"));
}

#[test]
fn both_modes_get_a_module_each() {
    let prep = Preparation { types: vec![], modules: vec![books_module()] };
    let out = generate_modes(&prep, true, true, false);
    assert!(out.starts_with("// This file was generated with `cornucopia`. Do not modify.\n\npub mod sync {\n"));
    assert!(out.contains("}\npub mod async_ {\n"));
    assert_eq!(out.matches("pub mod queries {").count(), 2);
    assert_eq!(generate_modes(&prep, false, true, false), generate(&prep, ASYNC));
}
