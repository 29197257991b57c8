use orm::adapter::{decode_row, Adapter, Column};
use orm::attribute::{Attribute, AttributeType, Attributes};
use orm::codec::ColumnType;
use orm::model::{model, ModelDef, Record, RecordSet, SchemaViolation};
use orm::name_map::NameMap;
use orm::query::{Filter, Query};
use orm::relationship::{Relationship, RelationshipType};
use orm::serializer::{Serializer, SimpleSerializer};
use orm::store::{shape_first, shape_rows, Store};

fn user_model() -> ModelDef {
    model("user", "id")
        .attribute("name", AttributeType::String)
        .attribute("age", AttributeType::I32)
        .relationship("orders", RelationshipType::HasMany("order"))
        .relationship("team", RelationshipType::BelongsTo("team"))
}

fn row(pairs: Vec<(&str, Attribute)>) -> Attributes {
    let mut attributes = NameMap::new();
    for (name, value) in pairs {
        attributes.insert(name.to_string(), value);
    }
    attributes
}

struct MemoryAdapter {
    usernames: Vec<(i32, i32)>,
}

impl MemoryAdapter {
    fn new() -> MemoryAdapter {
        MemoryAdapter {
            usernames: vec![(1, 1), (2, 2), (3, 3)],
        }
    }

    fn find(&self, model: &ModelDef, id: &Attribute) -> Option<Attributes> {
        let query = model.find(id);
        self.query(&query)?.into_iter().next()
    }
}

impl Adapter for MemoryAdapter {
    fn query(&self, query: &Query) -> Option<Vec<Attributes>> {
        if query.model.ty != "user" {
            return None;
        }
        let wanted = match &query.filter {
            Some(Filter::Equal(_, Attribute::I32(Some(id)))) => Some(*id),
            _ => None,
        };
        let mut rows = vec![];
        for (id, username) in &self.usernames {
            if wanted.is_none() || wanted == Some(*id) {
                rows.push(row(vec![
                    ("id", Attribute::I32(Some(*id))),
                    ("name", Attribute::I32(Some(*username))),
                ]));
            }
        }
        if wanted.is_some() && rows.is_empty() {
            return None;
        }
        Some(rows)
    }
}

struct FailingAdapter;

impl Adapter for FailingAdapter {
    fn query(&self, _query: &Query) -> Option<Vec<Attributes>> {
        None
    }
}

struct EmptyAdapter;

impl Adapter for EmptyAdapter {
    fn query(&self, _query: &Query) -> Option<Vec<Attributes>> {
        Some(vec![])
    }
}

#[test]
fn adapter_test() {
    let user = model("user", "id").attribute("name", AttributeType::I32);
    let adapter = MemoryAdapter::new();
    let serializer = SimpleSerializer;

    let attributes = adapter.find(&user, &Attribute::from(1)).unwrap();
    assert_eq!(attributes.get("name"), Some(&Attribute::from(1)));
    let record = serializer.extract(&user, attributes);
    assert_eq!(record.get("name"), Some(&Attribute::from(1)));

    let attributes = adapter.find(&user, &Attribute::from(10));
    assert!(attributes.is_none());
}

#[test]
fn model_test() {
    let user = model("user", "id")
        .attribute("first_name", AttributeType::String)
        .attribute("last_name", AttributeType::String)
        .relationship("orders", RelationshipType::HasMany("order"));
    let order = model("order", "id")
        .attribute("price", AttributeType::F32)
        .relationship("customer", RelationshipType::BelongsTo("user"));
    let user_id = 1.into();
    let query = user.find(&user_id);
    assert_eq!(query.model.ty, "user");
    assert_eq!(query.limit, Some(1));
    match query.filter {
        Some(Filter::Equal(name, value)) => {
            assert_eq!(name, "id");
            assert_eq!(value, &Attribute::I32(Some(1)));
        }
        _ => panic!("the filter is not an equality"),
    }
    assert_eq!(order.ty, "order");
    assert_eq!(order.primary_key, "id");
}

#[test]
fn extract_separates_id_and_drops_unknown_columns() {
    let user = user_model();
    let attributes = row(vec![
        ("id", Attribute::I32(Some(7))),
        ("name", Attribute::String(Some("coeuvre".to_string()))),
        ("unknown_col", Attribute::I32(Some(5))),
    ]);
    let record = SimpleSerializer.extract(&user, attributes);
    assert_eq!(record.id, Attribute::I32(Some(7)));
    assert_eq!(record.ty, "user");
    assert_eq!(
        record.get("name"),
        Some(&Attribute::String(Some("coeuvre".to_string())))
    );
    assert_eq!(record.get("age"), Some(&Attribute::I32(None)));
    assert_eq!(record.get("unknown_col"), None);
    assert_eq!(record.get("id"), None);
    assert_eq!(record.attributes.len(), 2);
    assert_eq!(record.relationships.len(), 2);
    assert_eq!(record.get_many("orders").map(|r| r.len()), Some(0));
    assert!(matches!(record.get_one("team"), Some(None)));
}

#[test]
fn extract_without_primary_key_keeps_the_null_id() {
    let user = user_model();
    let record = SimpleSerializer.extract(&user, row(vec![("age", Attribute::I32(Some(3)))]));
    assert_eq!(record.id, Attribute::String(None));
    assert_eq!(record.get("age"), Some(&Attribute::I32(Some(3))));
    assert_eq!(record.get("name"), Some(&Attribute::String(None)));
}

#[test]
fn extract_sends_a_declared_primary_key_column_to_the_id_only() {
    let user = model("user", "user_id").attribute("user_id", AttributeType::I32);
    let record = SimpleSerializer.extract(&user, row(vec![("user_id", Attribute::I32(Some(9)))]));
    assert_eq!(record.id, Attribute::I32(Some(9)));
    assert_eq!(record.get("user_id"), Some(&Attribute::I32(None)));
}

#[test]
fn create_gives_the_empty_record() {
    let user = user_model();
    let record = user.create();
    assert_eq!(record.id, Attribute::String(None));
    assert_eq!(record.ty, "user");
    assert_eq!(record.attributes.len(), 2);
    assert_eq!(record.get("name"), Some(&Attribute::String(None)));
    assert_eq!(record.get("age"), Some(&Attribute::I32(None)));
    assert_eq!(record.get("other"), None);
    assert_eq!(record.get_many("orders").map(|r| r.len()), Some(0));
    assert!(record.get_one("orders").is_none());
    assert!(matches!(record.get_one("team"), Some(None)));
    assert!(record.get_many("team").is_none());
    assert!(record.get_one("nothing").is_none());
    assert!(record.get_many("nothing").is_none());
}

#[test]
fn empty_relationship_by_cardinality() {
    assert!(matches!(
        RelationshipType::BelongsTo("user").to_relationship(),
        Relationship::BelongsTo(None)
    ));
    match RelationshipType::HasMany("order").to_relationship() {
        Relationship::HasMany(records) => assert!(records.is_empty()),
        _ => panic!("a to-many relationship is expected"),
    }
}

#[test]
fn record_set_overwrites_declared_names_only() {
    let user = user_model();
    let mut record = user.create();
    record.set("age", Attribute::I32(Some(30)));
    record.set("height", Attribute::I32(Some(180)));
    assert_eq!(record.get("age"), Some(&Attribute::I32(Some(30))));
    assert_eq!(record.get("height"), None);
    assert_eq!(record.attributes.len(), 2);
    record.set("age", Attribute::I32(Some(31)));
    assert_eq!(record.get("age"), Some(&Attribute::I32(Some(31))));
}

#[test]
fn materialised_relationships_are_read_back() {
    let user = user_model();
    let mut record = user.create();
    let mut child = user.create();
    child.id = Attribute::I32(Some(2));
    let mut other = user.create();
    other.id = Attribute::I32(Some(3));
    record
        .relationships
        .insert("orders".to_string(), Relationship::HasMany(vec![child, other]));
    let mut team = user.create();
    team.id = Attribute::I32(Some(4));
    record
        .relationships
        .insert("team".to_string(), Relationship::BelongsTo(Some(team)));
    let many = record.get_many("orders").unwrap();
    assert_eq!(many.len(), 2);
    assert_eq!(many[0].id, Attribute::I32(Some(2)));
    assert_eq!(many[1].id, Attribute::I32(Some(3)));
    let one = record.get_one("team").unwrap();
    assert_eq!(one.as_ref().unwrap().id, Attribute::I32(Some(4)));
}

#[test]
fn model_builder_declares_and_redeclares() {
    let m = model("user", "user_id");
    assert_eq!(m.ty, "user");
    assert_eq!(m.primary_key, "user_id");
    assert_eq!(m.attributes.len(), 0);
    assert_eq!(m.relationships.len(), 0);
    let m = m
        .attribute("name", AttributeType::String)
        .attribute("name", AttributeType::I64)
        .attribute("email", AttributeType::String);
    assert_eq!(m.attributes.len(), 2);
    assert_eq!(m.attributes.get("name"), Some(&AttributeType::I64));
    assert_eq!(m.attributes.get("email"), Some(&AttributeType::String));
    assert_eq!(m.attributes.get("phone"), None);
}

#[test]
fn finders_build_the_expected_queries() {
    let user = model("user", "user_id");
    let id = Attribute::I32(Some(10001));
    let q = user.find(&id);
    let (sql, params) = orm::sql::build_sql(&q);
    assert_eq!(sql, "SELECT * FROM user WHERE user_id=$1 LIMIT 1");
    assert_eq!(params, vec![&id]);
    let name = Attribute::String(Some("admin".to_string()));
    let q = user.find_by("name", &name);
    let (sql, params) = orm::sql::build_sql(&q);
    assert_eq!(sql, "SELECT * FROM user WHERE name=$1");
    assert_eq!(params, vec![&name]);
    let q = user.find_in("user_id", vec![&id, &id]);
    let (sql, params) = orm::sql::build_sql(&q);
    assert_eq!(sql, "SELECT * FROM user WHERE user_id IN ($1,$2)");
    assert_eq!(params, vec![&id, &id]);
}

#[test]
fn name_map_behaves_as_a_map() {
    let mut m: NameMap<i32> = NameMap::new();
    assert_eq!(m.len(), 0);
    assert!(!m.contains("a"));
    assert_eq!(m.get("a"), None);
    m.insert("a".to_string(), 1);
    m.insert("b".to_string(), 2);
    m.insert("a".to_string(), 3);
    assert_eq!(m.len(), 2);
    assert_eq!(m.get("a"), Some(&3));
    assert_eq!(m.get("b"), Some(&2));
    assert!(m.contains("b"));
    assert!(!m.replace("c", 9));
    assert_eq!(m.len(), 2);
    assert!(m.replace("b", 8));
    assert_eq!(m.get("b"), Some(&8));
    assert_eq!(m.name_at(0), "a");
    assert_eq!(m.value_at(0), &3);
    assert_eq!(m.name_at(1), "b");
    assert_eq!(
        m.into_entries(),
        vec![("a".to_string(), 3), ("b".to_string(), 8)]
    );
}

#[test]
fn row_decoding_skips_what_cannot_be_decoded() {
    let columns = vec![
        Column {
            name: "user_id".to_string(),
            ty: ColumnType::Int4,
            raw: Some(vec![0, 0, 0x27, 0x11]),
        },
        Column {
            name: "created".to_string(),
            ty: ColumnType::Unsupported(1114),
            raw: Some(vec![0, 0, 0, 0, 0, 0, 0, 1]),
        },
        Column {
            name: "name".to_string(),
            ty: ColumnType::Varchar,
            raw: Some(b"admin".to_vec()),
        },
        Column {
            name: "broken".to_string(),
            ty: ColumnType::Int2,
            raw: Some(vec![1, 2, 3]),
        },
        Column {
            name: "telephone".to_string(),
            ty: ColumnType::Text,
            raw: None,
        },
    ];
    let attributes = decode_row(&columns);
    assert_eq!(attributes.len(), 3);
    assert_eq!(attributes.get("user_id"), Some(&Attribute::I32(Some(10001))));
    assert_eq!(
        attributes.get("name"),
        Some(&Attribute::String(Some("admin".to_string())))
    );
    assert_eq!(attributes.get("telephone"), Some(&Attribute::String(None)));
    assert_eq!(attributes.get("created"), None);
    assert_eq!(attributes.get("broken"), None);
}

#[test]
fn row_decoding_of_no_columns_and_of_repeated_names() {
    assert_eq!(decode_row(&vec![]).len(), 0);
    let columns = vec![
        Column {
            name: "n".to_string(),
            ty: ColumnType::Int2,
            raw: Some(vec![0, 1]),
        },
        Column {
            name: "n".to_string(),
            ty: ColumnType::Int2,
            raw: Some(vec![0, 2]),
        },
        Column {
            name: "n".to_string(),
            ty: ColumnType::Int2,
            raw: Some(vec![9]),
        },
    ];
    let attributes = decode_row(&columns);
    assert_eq!(attributes.len(), 1);
    assert_eq!(attributes.get("n"), Some(&Attribute::I16(Some(2))));
}

#[test]
fn record_set_gives_its_first_record() {
    let user = user_model();
    assert!(RecordSet::new(vec![]).first().is_none());
    let mut a = user.create();
    a.id = Attribute::I32(Some(1));
    let mut b = user.create();
    b.id = Attribute::I32(Some(2));
    let set = RecordSet::new(vec![a, b]);
    assert_eq!(set.first().unwrap().id, Attribute::I32(Some(1)));
}

#[test]
fn rows_are_shaped_in_order() {
    let user = user_model();
    let rows = vec![
        row(vec![("id", Attribute::I32(Some(1)))]),
        row(vec![("id", Attribute::I32(Some(2)))]),
        row(vec![("id", Attribute::I32(Some(3)))]),
    ];
    let records: Vec<Record> = shape_rows(&user, &SimpleSerializer, rows);
    let ids: Vec<Attribute> = records.into_iter().map(|r| r.id).collect();
    assert_eq!(
        ids,
        vec![
            Attribute::I32(Some(1)),
            Attribute::I32(Some(2)),
            Attribute::I32(Some(3))
        ]
    );
    let rows = vec![
        row(vec![("id", Attribute::I32(Some(8)))]),
        row(vec![("id", Attribute::I32(Some(9)))]),
    ];
    let first = shape_first(&user, &SimpleSerializer, rows).unwrap();
    assert_eq!(first.id, Attribute::I32(Some(8)));
    assert!(shape_first(&user, &SimpleSerializer, vec![]).is_none());
    assert!(shape_rows(&user, &SimpleSerializer, vec![]).is_empty());
}

#[test]
fn store_finds_through_adapter_and_serializer() {
    let user = model("user", "id").attribute("name", AttributeType::I32);
    let adapter = MemoryAdapter::new();
    let mut store = Store::new();
    let id = Attribute::I32(Some(2));
    let record = store.find(&user, &adapter, &SimpleSerializer, &id).unwrap();
    assert_eq!(record.id, Attribute::I32(Some(2)));
    assert_eq!(record.get("name"), Some(&Attribute::I32(Some(2))));
    let all = store
        .query(&user, &adapter, &SimpleSerializer, &Query::new(&user))
        .unwrap();
    assert_eq!(all.len(), 3);
    assert_eq!(all[0].id, Attribute::I32(Some(1)));
    assert_eq!(all[2].id, Attribute::I32(Some(3)));
    let name = Attribute::I32(Some(3));
    let some = store
        .find_by(&user, &adapter, &SimpleSerializer, "id", &name)
        .unwrap();
    assert_eq!(some.len(), 1);
    assert_eq!(some[0].id, Attribute::I32(Some(3)));
}

#[test]
fn store_tells_failure_from_no_rows() {
    let user = user_model();
    let mut store = Store::new();
    let id = Attribute::I32(Some(1));
    assert!(store
        .query(&user, &FailingAdapter, &SimpleSerializer, &Query::new(&user))
        .is_none());
    assert!(store.find(&user, &FailingAdapter, &SimpleSerializer, &id).is_none());
    assert!(store
        .find_by(&user, &FailingAdapter, &SimpleSerializer, "id", &id)
        .is_none());
    let rows = store
        .query(&user, &EmptyAdapter, &SimpleSerializer, &Query::new(&user))
        .unwrap();
    assert!(rows.is_empty());
    assert!(store.find(&user, &EmptyAdapter, &SimpleSerializer, &id).is_none());
    assert!(store
        .find_by(&user, &EmptyAdapter, &SimpleSerializer, "id", &id)
        .unwrap()
        .is_empty());
}

#[test]
fn query_get_runs_and_shapes() {
    let user = model("user", "id").attribute("name", AttributeType::I32);
    let adapter = MemoryAdapter::new();
    let id = Attribute::I32(Some(3));
    let set = user.find(&id).get(&adapter).unwrap();
    let first = set.first().unwrap();
    assert_eq!(first.id, Attribute::I32(Some(3)));
    assert_eq!(first.get("name"), Some(&Attribute::I32(Some(3))));
    assert!(Query::new(&user).get(&FailingAdapter).is_none());
    assert!(Query::new(&user).get(&EmptyAdapter).unwrap().first().is_none());
}

#[test]
fn registry_keeps_the_first_definition() {
    let mut registry = orm::registry::Registry::new();
    assert!(registry.lookup("user").is_none());
    assert!(registry.define(model("user", "id").attribute("name", AttributeType::String)));
    assert!(registry.define(model("order", "order_id")));
    assert!(!registry.define(model("user", "other_key")));
    let user = registry.lookup("user").unwrap();
    assert_eq!(user.primary_key, "id");
    assert_eq!(user.attributes.len(), 1);
    assert_eq!(registry.lookup("order").unwrap().primary_key, "order_id");
    assert!(registry.lookup("team").is_none());
    let to_order = RelationshipType::HasMany("order");
    assert_eq!(registry.target(&to_order).unwrap().ty, "order");
    let to_user = RelationshipType::BelongsTo("user");
    assert_eq!(registry.target(&to_user).unwrap().ty, "user");
    assert!(registry.target(&RelationshipType::BelongsTo("team")).is_none());
}

#[test]
fn schema_check_tells_undeclared_names_and_wrong_kinds() {
    let user = user_model();
    assert_eq!(user.check("age", &Attribute::I32(Some(3))), Ok(()));
    assert_eq!(user.check("age", &Attribute::I32(None)), Ok(()));
    assert_eq!(
        user.check("age", &Attribute::I64(Some(3))),
        Err(SchemaViolation::KindMismatch)
    );
    assert_eq!(
        user.check("name", &Attribute::Bool(Some(true))),
        Err(SchemaViolation::KindMismatch)
    );
    assert_eq!(
        user.check("height", &Attribute::I32(Some(3))),
        Err(SchemaViolation::UndeclaredAttribute)
    );
    assert_eq!(
        user.check("id", &Attribute::I32(Some(3))),
        Err(SchemaViolation::UndeclaredAttribute)
    );
}
