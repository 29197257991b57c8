use orm::attribute::Attribute;
use orm::model::model;
use orm::query::{Query, SortOrder};
use orm::sql::{build_filter, build_sql};
use orm::text::{push_decimal, push_signed_decimal, same_text};

#[test]
fn compiles_single_equality() {
    let user = model("user", "id");
    let id = Attribute::I32(Some(1));
    let query = Query::new(&user).where_("id").eq(&id);
    let (sql, params) = build_sql(&query);
    assert_eq!(sql, "SELECT * FROM user WHERE id=$1");
    assert_eq!(params, vec![&Attribute::I32(Some(1))]);
}

#[test]
fn compiles_projection_conjunction_order_and_limit() {
    let user = model("user", "id");
    let id = Attribute::I32(Some(1));
    let name = Attribute::String(Some("admin".to_string()));
    let query = Query::new(&user)
        .select(vec!["id", "name"])
        .where_("id")
        .eq(&id)
        .and("name")
        .eq(&name)
        .order_by("id", SortOrder::ASC)
        .limit(1);
    let (sql, params) = build_sql(&query);
    assert_eq!(
        sql,
        "SELECT id,name FROM user WHERE (id=$1) AND (name=$2) ORDER BY id ASC LIMIT 1"
    );
    assert_eq!(
        params,
        vec![
            &Attribute::I32(Some(1)),
            &Attribute::String(Some("admin".to_string()))
        ]
    );
}

#[test]
fn compiles_bare_query() {
    let user = model("user", "id");
    let (sql, params) = build_sql(&Query::new(&user));
    assert_eq!(sql, "SELECT * FROM user");
    assert!(params.is_empty());
}

#[test]
fn compiles_null_tests_without_parameters() {
    let user = model("user", "id");
    let query = Query::new(&user)
        .where_("telephone")
        .is_null()
        .or("email")
        .is_not_null();
    let (sql, params) = build_sql(&query);
    assert_eq!(
        sql,
        "SELECT * FROM user WHERE (telephone IS NULL) OR (email IS NOT NULL)"
    );
    assert!(params.is_empty());
}

#[test]
fn compiles_membership_with_one_placeholder_per_value() {
    let user = model("user", "id");
    let a = Attribute::I64(Some(10));
    let b = Attribute::I64(Some(20));
    let c = Attribute::I64(Some(30));
    let query = Query::new(&user).where_("id").in_(vec![&a, &b, &c]);
    let (sql, params) = build_sql(&query);
    assert_eq!(sql, "SELECT * FROM user WHERE id IN ($1,$2,$3)");
    assert_eq!(params, vec![&a, &b, &c]);
}

#[test]
fn compiles_empty_membership_list() {
    let user = model("user", "id");
    let query = Query::new(&user).where_("id").in_(vec![]);
    let (sql, params) = build_sql(&query);
    assert_eq!(sql, "SELECT * FROM user WHERE id IN ()");
    assert!(params.is_empty());
}

#[test]
fn numbers_placeholders_across_the_whole_tree() {
    let user = model("user", "id");
    let one = Attribute::I32(Some(1));
    let two = Attribute::I32(Some(2));
    let three = Attribute::I32(Some(3));
    let name = Attribute::String(Some("admin".to_string()));
    let flag = Attribute::Bool(Some(true));
    let query = Query::new(&user)
        .where_("a")
        .eq(&one)
        .and("b")
        .in_(vec![&two, &three])
        .or("c")
        .is_null()
        .and("d")
        .eq(&name)
        .or("e")
        .eq(&flag);
    let (sql, params) = build_sql(&query);
    assert_eq!(
        sql,
        "SELECT * FROM user WHERE ((((a=$1) AND (b IN ($2,$3))) OR (c IS NULL)) AND (d=$4)) OR (e=$5)"
    );
    assert_eq!(params, vec![&one, &two, &three, &name, &flag]);
}

#[test]
fn numbers_placeholders_beyond_nine() {
    let user = model("user", "id");
    let values: Vec<Attribute> = (0..12).map(|n| Attribute::I32(Some(n))).collect();
    let refs: Vec<&Attribute> = values.iter().collect();
    let last = Attribute::I32(Some(99));
    let query = Query::new(&user).where_("id").in_(refs.clone()).and("x").eq(&last);
    let (sql, params) = build_sql(&query);
    assert_eq!(
        sql,
        "SELECT * FROM user WHERE (id IN ($1,$2,$3,$4,$5,$6,$7,$8,$9,$10,$11,$12)) AND (x=$13)"
    );
    assert_eq!(params.len(), 13);
    assert_eq!(params[12], &last);
    assert_eq!(params[9], &Attribute::I32(Some(9)));
}

#[test]
fn compiles_sort_entries_in_call_order() {
    let user = model("user", "id");
    let query = Query::new(&user)
        .order_by("name", SortOrder::DESC)
        .order_by("id", SortOrder::ASC);
    let (sql, _) = build_sql(&query);
    assert_eq!(sql, "SELECT * FROM user ORDER BY name DESC,id ASC");
}

#[test]
fn compiles_limit_before_offset() {
    let user = model("user", "id");
    let query = Query::new(&user).offset(40).limit(20);
    let (sql, _) = build_sql(&query);
    assert_eq!(sql, "SELECT * FROM user LIMIT 20 OFFSET 40");
}

#[test]
fn compiles_negative_and_extreme_numbers() {
    let user = model("user", "id");
    let query = Query::new(&user).limit(-5).offset(i32::MIN);
    let (sql, _) = build_sql(&query);
    assert_eq!(sql, "SELECT * FROM user LIMIT -5 OFFSET -2147483648");
    let query = Query::new(&user).limit(i32::MAX).offset(0);
    let (sql, _) = build_sql(&query);
    assert_eq!(sql, "SELECT * FROM user LIMIT 2147483647 OFFSET 0");
}

#[test]
fn joins_fields_with_plain_commas() {
    let user = model("user", "id");
    let (sql, _) = build_sql(&Query::new(&user).select(vec!["", "a"]));
    assert_eq!(sql, "SELECT ,a FROM user");
    let (sql, _) = build_sql(&Query::new(&user).select(vec![]));
    assert_eq!(sql, "SELECT  FROM user");
    let (sql, _) = build_sql(&Query::new(&user).select(vec!["only"]));
    assert_eq!(sql, "SELECT only FROM user");
}

#[test]
fn empty_sort_list_writes_no_order_clause() {
    let user = model("user", "id");
    let mut query = Query::new(&user);
    query.sort = Some(vec![]);
    let (sql, _) = build_sql(&query);
    assert_eq!(sql, "SELECT * FROM user");
}

#[test]
fn filter_numbering_goes_on_from_earlier_parameters() {
    let user = model("user", "id");
    let earlier = Attribute::Bool(Some(false));
    let v = Attribute::I16(Some(7));
    let query = Query::new(&user).where_("n").eq(&v);
    let mut sql = String::from("x ");
    let mut params = vec![&earlier, &earlier];
    build_filter(&mut sql, &mut params, query.filter.as_ref().unwrap());
    assert_eq!(sql, "x n=$3");
    assert_eq!(params, vec![&earlier, &earlier, &v]);
}

#[test]
fn placeholder_count_is_equalities_plus_listed_values() {
    let user = model("user", "id");
    let v = Attribute::I32(Some(1));
    let query = Query::new(&user)
        .where_("a")
        .in_(vec![&v, &v])
        .and("b")
        .eq(&v)
        .or("c")
        .is_not_null()
        .or("d")
        .in_(vec![&v, &v, &v]);
    let (sql, params) = build_sql(&query);
    assert_eq!(params.len(), 6);
    assert_eq!(sql.matches('$').count(), 6);
    for n in 1..=6 {
        assert!(sql.contains(&format!("${}", n)));
    }
    assert!(!sql.contains("$7"));
    assert!(!sql.contains("$0"));
}

#[test]
fn writes_decimal_numerals() {
    let mut out = String::new();
    push_decimal(&mut out, 0);
    out.push(' ');
    push_decimal(&mut out, 7);
    out.push(' ');
    push_decimal(&mut out, 10);
    out.push(' ');
    push_decimal(&mut out, 1234567890);
    out.push(' ');
    push_decimal(&mut out, u64::MAX);
    assert_eq!(out, "0 7 10 1234567890 18446744073709551615");
    let mut out = String::from("n=");
    push_signed_decimal(&mut out, -42);
    assert_eq!(out, "n=-42");
    let mut out = String::new();
    push_signed_decimal(&mut out, 0);
    assert_eq!(out, "0");
}

#[test]
fn compares_names_as_text() {
    assert!(same_text("name", "name"));
    assert!(same_text("", ""));
    assert!(!same_text("name", "names"));
    assert!(!same_text("name", "nam\u{e9}"));
    assert!(same_text("caf\u{e9}", "caf\u{e9}"));
    assert!(!same_text("a", "b"));
}

#[test]
fn builder_setters_replace_and_append() {
    let user = model("user", "id");
    let order = model("order", "id");
    let query = Query::new(&user)
        .select(vec!["a"])
        .select(vec!["b", "c"])
        .limit(1)
        .limit(2)
        .offset(3)
        .including(vec![&order]);
    assert_eq!(query.fields, Some(vec!["b", "c"]));
    assert_eq!(query.limit, Some(2));
    assert_eq!(query.offset, Some(3));
    assert_eq!(query.included.as_ref().unwrap().len(), 1);
    assert_eq!(query.included.as_ref().unwrap()[0].ty, "order");
    assert!(query.filter.is_none());
    assert!(query.sort.is_none());
    assert_eq!(query.model.ty, "user");
}

#[test]
fn later_filter_call_replaces_the_filter() {
    let user = model("user", "id");
    let v = Attribute::I32(Some(1));
    let query = Query::new(&user).where_("a").eq(&v).where_("b").is_null();
    let (sql, params) = build_sql(&query);
    assert_eq!(sql, "SELECT * FROM user WHERE b IS NULL");
    assert!(params.is_empty());
}

#[test]
fn test_connection() {
    let user = model("cheezmall.user", "user_id");
    let user_id = 10001.into();
    let name = "admin".to_string().into();
    let query = Query::new(&user)
        .select(vec!["user_id", "name"])
        .where_("user_id")
        .eq(&user_id)
        .and("name")
        .eq(&name)
        .and("telephone")
        .is_null()
        .order_by("user_id", SortOrder::ASC)
        .limit(1);
    let (sql, params) = build_sql(&query);
    assert_eq!(
        sql,
        "SELECT user_id,name FROM cheezmall.user WHERE ((user_id=$1) AND (name=$2)) AND (telephone IS NULL) ORDER BY user_id ASC LIMIT 1"
    );
    assert_eq!(
        params,
        vec![
            &Attribute::I32(Some(10001)),
            &Attribute::String(Some("admin".to_string()))
        ]
    );
}
