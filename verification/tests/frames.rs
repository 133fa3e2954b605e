use restq::ast::Statement;
use restq::ast::Value;
use restq::data_value::cast_data_value;
use restq::parse_statement;
use restq::DataType;
use restq::DataValue;
use restq::MultiStatement;
use restq::PlainData;
use restq::StmtData;

#[test]
fn test_statement_with_method_prefix() {
    let select = parse_statement("GET /product").expect("must be parsed");
    assert!(matches!(select, Statement::Select(_)));
    let select_no_prefix = parse_statement("/product").expect("must be parsed");
    assert!(matches!(select_no_prefix, Statement::Select(_)));
    let insert = parse_statement("POST /product{id,name}").expect("must be parsed");
    assert!(matches!(insert, Statement::Insert(_)));
    let create = parse_statement("PUT /product{id:i32,name:text}").expect("must be parsed");
    assert!(matches!(create, Statement::Create(_)));
    let create_plus = parse_statement("PUT /+product{id:i32,name:text}").expect("must be parsed");
    assert!(matches!(create_plus, Statement::Create(_)));
    let delete = parse_statement("DELETE /product").expect("must be parsed");
    assert!(matches!(delete, Statement::Delete(_)));
    let drop = parse_statement("DELETE /-product").expect("must be parsed");
    assert!(matches!(drop, Statement::DropTable(_)));
    let update =
        parse_statement("PATCH /product{name='new name',description='new desc'}").expect("must be parsed");
    assert!(matches!(update, Statement::Update(_)));
    let alter = parse_statement("PATCH /product{-name,-description}").expect("must be parsed");
    assert!(matches!(alter, Statement::AlterTable(_)));
    let alter_add_column =
        parse_statement("PATCH /product{-name,-description,+discount:f32?(0.0)}")
            .expect("must be parsed");
    assert!(matches!(alter_add_column, Statement::AlterTable(_)));
}

#[test]
fn test_statement_with_method_prefix_no_space() {
    let select = parse_statement("GET/product").expect("must be parsed");
    assert!(matches!(select, Statement::Select(_)));
    let insert = parse_statement("POST/product{id,name}").expect("must be parsed");
    assert!(matches!(insert, Statement::Insert(_)));
    let create = parse_statement("PUT/product{id:i32,name:text}").expect("must be parsed");
    assert!(matches!(create, Statement::Create(_)));
    let create_plus = parse_statement("PUT/+product{id:i32,name:text}").expect("must be parsed");
    assert!(matches!(create_plus, Statement::Create(_)));
    let delete = parse_statement("DELETE/product").expect("must be parsed");
    assert!(matches!(delete, Statement::Delete(_)));
    let drop = parse_statement("DELETE/-product").expect("must be parsed");
    assert!(matches!(drop, Statement::DropTable(_)));
    let update =
        parse_statement("PATCH/product{name='new name',description='new desc'}").expect("must be parsed");
    assert!(matches!(update, Statement::Update(_)));
    let alter = parse_statement("PATCH/product{-name,-description}").expect("must be parsed");
    assert!(matches!(alter, Statement::AlterTable(_)));
    let alter_add_column = parse_statement("PATCH/product{-name,-description,+discount:f32?(0.0)}")
        .expect("must be parsed");
    assert!(matches!(alter_add_column, Statement::AlterTable(_)));
}

#[test]
fn test_select_and_paging() {
    let select = parse_statement("/product&page=1&page_size=20").expect("must be parsed");
    assert!(matches!(select, Statement::Select(_)));
}

#[test]
fn test_csv_data() {
    let data = "PUT /product(*product_id:s32,@name:text,description:text,updated:utc,created_by(users):u32,@is_active:bool)\n\
1,go pro,a slightly used go pro, 2019-10-31 10:10:10\n\
2,shovel,a slightly used shovel, 2019-11-11 11:11:11\n";
    let csv_data = StmtData::from_bytes(&data.as_bytes().to_vec()).expect("must be valid");
    let mut rows_iter = csv_data.rows_iter().expect("must have iterator");
    let rows: Vec<Vec<Value>> = rows_iter.collect_rows();
    assert_eq!(rows.len(), 2);
    assert_eq!(rows[0][1], Value::String("go pro".to_string()));
}

#[test]
fn test_plain_data() {
    let data = "product(*product_id:s32,@name:text,description:text,updated:utc,created_by(users):u32,@is_active:bool)\n\
1,go pro,a slightly used go pro, 2019-10-31 10:10:10\n\
2,shovel,a slightly used shovel, 2019-11-11 11:11:11\n";
    let plain = PlainData::from_bytes(&data.as_bytes().to_vec()).expect("must be valid");
    let defs = plain.table_def().matching_column_def_all();
    let mut rows_iter = plain.rows_iter();
    let rows: Vec<Vec<DataValue>> = rows_iter
        .collect_typed_rows(&defs)
        .expect("rows must coerce");
    assert_eq!(rows.len(), 2);
    assert_eq!(rows[0][0], DataValue::S32(1));
    assert_eq!(rows[1][1], DataValue::Text("shovel".to_string()));
}

#[test]
fn test_multi_statement() {
    let data = "PUT /+category{*category_id:s32,name:text,description:text?,slug:text?,topic:i32?,created_at:utc,updated:utc}\n\
1,Staff,staff,Private categories for staff discussion. Topics are only visible to admin and moderators\n\
2,Technology,tecnology,Anything related to technology\n\
\n\
PUT /+topic{*topic:s32,title:text,excerpt:text?,created_at:utc(now()),updated_at:utc?}\n\
1,About Euphorum,1\n\
3,Topic3,3\n\
2,Welcome to Euphorum,2";
    let ms = MultiStatement::from_bytes(data.as_bytes().to_vec());
    let mut iter = ms.statement_iter();
    let stmt1 = iter
        .next_statement()
        .expect("must have a next")
        .expect("must not error");
    assert!(matches!(stmt1.statement(), Statement::Create(_)));
    let mut data1 = stmt1.rows_iter().expect("must have csv rows");
    let all_data1 = data1.collect_rows();
    assert_eq!(all_data1.len(), 2);
    let stmt2 = iter
        .next_statement()
        .expect("must have a next")
        .expect("must not error");
    assert!(matches!(stmt2.statement(), Statement::Create(_)));
    let mut data2 = stmt2.rows_iter().expect("must have csv rows");
    let all_data2 = data2.collect_rows();
    assert_eq!(all_data2.len(), 3);
}

#[test]
fn test_multi_statement_with_multiple_empty_lines() {
    let data = "\n\
\n\
PUT /+category{*category_id:s32,name:text,description:text?,slug:text?,topic:i32?,created_at:utc,updated:utc}\n\
1,Staff,staff,Private categories for staff discussion. Topics are only visible to admin and moderators\n\
2,Technology,tecnology,Anything related to technology\n\
\n\
\n\
\n\
PUT /+topic{*topic:s32,title:text,excerpt:text?,created_at:utc(now()),updated_at:utc?}\n\
1,About Euphorum,1\n\
3,Topic3,3\n\
2,Welcome to Euphorum,2";
    let ms = MultiStatement::from_bytes(data.as_bytes().to_vec());
    let mut iter = ms.statement_iter();
    let stmt1 = iter
        .next_statement()
        .expect("must have a next")
        .expect("must not error");
    assert!(matches!(stmt1.statement(), Statement::Create(_)));
    let mut data1 = stmt1.rows_iter().expect("must have csv rows");
    assert_eq!(data1.collect_rows().len(), 2);
    let stmt2 = iter
        .next_statement()
        .expect("must have a next")
        .expect("must not error");
    assert!(matches!(stmt2.statement(), Statement::Create(_)));
    let mut data2 = stmt2.rows_iter().expect("must have csv rows");
    assert_eq!(data2.collect_rows().len(), 3);
}

#[test]
fn parse_simple_date() {
    let v = Value::String("2006-02-14".to_string());
    let cast = cast_data_value(&v, &DataType::Utc).expect("must coerce");
    match &cast {
        DataValue::Utc(ms) => {
            assert_eq!(*ms, 1139875200000i64);
        }
        other => panic!("unexpected value: {:?}", other),
    }
    assert_eq!(cast.to_text(), "2006-02-14T00:00:00+00:00");
}

#[test]
fn parse_dates() {
    let v = Value::String("2006-02-15T09:34:33+00:00".to_string());
    let cast = cast_data_value(&v, &DataType::Utc).expect("must coerce");
    match &cast {
        DataValue::Utc(ms) => {
            assert_eq!(*ms, 1139996073000i64);
        }
        other => panic!("unexpected value: {:?}", other),
    }
}

#[test]
fn coerce_integer_widths() {
    let v = Value::String("300".to_string());
    assert!(cast_data_value(&v, &DataType::U8).is_err());
    assert_eq!(
        cast_data_value(&v, &DataType::U16).expect("fits"),
        DataValue::U16(300)
    );
    let neg = Value::String("-7".to_string());
    assert_eq!(
        cast_data_value(&neg, &DataType::I8).expect("fits"),
        DataValue::I8(-7)
    );
    assert!(cast_data_value(&neg, &DataType::U8).is_err());
}

#[test]
fn coerce_empty_string_to_nil() {
    let v = Value::String(String::new());
    assert_eq!(
        cast_data_value(&v, &DataType::U32).expect("nil"),
        DataValue::Nil
    );
    assert_eq!(
        cast_data_value(&v, &DataType::F64).expect("nil"),
        DataValue::Nil
    );
    assert_eq!(
        cast_data_value(&v, &DataType::Bytes).expect("nil"),
        DataValue::Nil
    );
    assert_eq!(
        cast_data_value(&v, &DataType::Text).expect("text"),
        DataValue::Text(String::new())
    );
}

#[test]
fn coerce_bool_words() {
    for (text, expected) in [("true", true), ("1", true), ("false", false), ("weird", false)] {
        assert_eq!(
            cast_data_value(&Value::String(text.to_string()), &DataType::Bool).expect("bool"),
            DataValue::Bool(expected)
        );
    }
}

#[test]
fn coerce_uuid_is_canonicalized() {
    let v = Value::String("3C03C6F0-7D91-4570-A882-0EF44C427B90".to_string());
    assert_eq!(
        cast_data_value(&v, &DataType::Uuid).expect("uuid"),
        DataValue::Uuid("3c03c6f0-7d91-4570-a882-0ef44c427b90".to_string())
    );
    let bad = Value::String("not-a-uuid".to_string());
    assert!(cast_data_value(&bad, &DataType::Uuid).is_err());
}

#[test]
fn coerce_bytes_from_base64() {
    let v = Value::String("aGVsbG8=".to_string());
    assert_eq!(
        cast_data_value(&v, &DataType::Bytes).expect("bytes"),
        DataValue::Bytes(b"hello".to_vec())
    );
    let bad = Value::String("!!!".to_string());
    assert!(cast_data_value(&bad, &DataType::Bytes).is_err());
}

#[test]
fn csv_rows_parse_quoted_fields() {
    let data = "POST /product{id,name}\n1,\"a, quoted\"\n2,plain\n";
    let stmt = StmtData::from_bytes(&data.as_bytes().to_vec()).expect("must parse");
    let mut rows = stmt.rows_iter().expect("insert carries rows");
    let all = rows.collect_rows();
    assert_eq!(all.len(), 2);
    assert_eq!(all[0][1], Value::String("a, quoted".to_string()));
}

#[test]
fn bytes_render_as_base64() {
    let v = DataValue::Bytes(b"hi".to_vec());
    assert_eq!(v.to_text(), "aGk=");
}

#[test]
fn page_offset_formula() {
    let select =
        restq::ast::parser::select(&restq::to_chars("person&page=3&page_size=7")).expect("parses");
    let query = select.into_sql_query(None).expect("lowers");
    assert_eq!(query.limit, Some(7));
    assert_eq!(query.offset, Some(14));
}

#[test]
fn plus_signed_integer_coercion() {
    let v = Value::String("+5".to_string());
    assert_eq!(cast_data_value(&v, &DataType::I64).expect("coerces"), DataValue::I64(5));
    assert_eq!(cast_data_value(&v, &DataType::U32).expect("coerces"), DataValue::U32(5));
    let bad = Value::String("+-5".to_string());
    assert!(cast_data_value(&bad, &DataType::I64).is_err());
    let lone = Value::String("+".to_string());
    assert!(cast_data_value(&lone, &DataType::U8).is_err());
}

#[test]
fn parse_error_carries_position_and_expectation() {
    let err = parse_statement("POST ?x=1").err().expect("must fail");
    match err {
        restq::Error::ParseError(_, what) => assert!(!what.is_empty()),
        other => panic!("unexpected error {:?}", other),
    }
}
