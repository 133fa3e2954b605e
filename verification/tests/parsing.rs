use restq::ast::ddl::column_def;
use restq::ast::ddl::column_def_list;
use restq::ast::ddl::data_type_def;
use restq::ast::ddl::drop_table;
use restq::ast::ddl::table_def;
use restq::ast::ddl::ColumnAttribute;
use restq::ast::ddl::ColumnDef;
use restq::ast::ddl::DataTypeDef;
use restq::ast::ddl::DefaultValue;
use restq::ast::ddl::DropTable;
use restq::ast::ddl::Foreign;
use restq::ast::ddl::TableDef;
use restq::ast::parser::expr_rename;
use restq::ast::parser::filter_expr;
use restq::ast::parser::select;
use restq::ast::BinaryOperation;
use restq::ast::ColumnName;
use restq::ast::Expr;
use restq::ast::ExprRename;
use restq::ast::FromTable;
use restq::ast::JoinType;
use restq::ast::Operator;
use restq::ast::Select;
use restq::ast::TableName;
use restq::ast::Value;
use restq::data_type::data_type;
use restq::to_chars;
use restq::DataType;
use restq::DataValue;

#[test]
fn test_data_type() {
    let input = to_chars("s32");
    let ret = data_type(&input).expect("must be parsed");
    assert_eq!(ret, DataType::S32);
}

#[test]
fn test_invalid_data_type() {
    let input = to_chars("x32");
    let ret = data_type(&input);
    assert!(ret.is_err());
}

#[test]
fn test_invalid_more_data_type() {
    let input = to_chars("serial32");
    let ret = data_type(&input);
    assert!(ret.is_err());
    let err = ret.err().unwrap();
    assert!(err.to_text().contains(r#"InvalidDataType("serial32")"#));
}

#[test]
fn all_data_types() {
    let all = [
        "bool", "s8", "s16", "s32", "s64", "u8", "u16", "u32", "u64", "i8", "i16", "i32", "i64",
        "f32", "f64", "uuid", "uuid_rand", "uuid_slug", "local", "utc", "text", "ident", "email",
        "domain", "ip_addr", "url",
    ];
    for d in all.iter() {
        let input = to_chars(d);
        let ret = data_type(&input).expect("must be parsed");
        assert_eq!(ret.display(), *d);
    }
}

#[test]
fn data_type_tags_round_trip() {
    for t in DataType::all() {
        let rendered = t.display();
        let parsed = data_type(&to_chars(rendered)).expect("must be parsed");
        assert_eq!(parsed, t);
    }
}

#[test]
fn test_column_name_with_table_dot() {
    let input = to_chars("product.name");
    let ret = restq::ast::parser::column(&input).expect("must be parsed");
    assert_eq!(
        ret,
        ColumnName {
            name: "product.name".to_string()
        }
    );
}

#[test]
fn test_schema_table_column_name() {
    let input = to_chars("public.product.name");
    let ret = restq::ast::parser::column(&input).expect("must be parsed");
    assert_eq!(
        ret,
        ColumnName {
            name: "public.product.name".to_string()
        }
    );
}

#[test]
fn test_description() {
    let input = to_chars("description");
    let ret = restq::ast::parser::column(&input).expect("must be parsed");
    assert_eq!(
        ret,
        ColumnName {
            name: "description".into()
        },
    )
}

#[test]
fn test_ascension() {
    let input = to_chars("ascension");
    let ret = restq::ast::parser::column(&input).expect("must be parsed");
    assert_eq!(
        ret,
        ColumnName {
            name: "ascension".into()
        },
    )
}

#[test]
fn test_expr_rename() {
    let input = to_chars("column1=>new_column");
    let ret = expr_rename(&input).expect("must be parsed");
    assert_eq!(
        ret,
        ExprRename {
            expr: Expr::Column(ColumnName {
                name: "column1".into()
            }),
            rename: Some("new_column".to_string())
        }
    )
}

#[test]
fn test_select_with_no_selection() {
    let input = to_chars("product");
    let ret = select(&input).expect("must be parsed");
    assert_eq!(
        ret,
        Select {
            from_table: FromTable {
                from: TableName {
                    name: "product".into()
                },
                join: None,
            },
            ..Default::default()
        }
    );
}

#[test]
fn test_right_join_table() {
    let input = to_chars("product->product_old");
    let ret = select(&input).expect("must be parsed");
    assert_eq!(
        ret,
        Select {
            from_table: FromTable {
                from: TableName {
                    name: "product".into()
                },
                join: Some((
                    JoinType::RightJoin,
                    Box::new(FromTable {
                        from: TableName {
                            name: "product_old".into()
                        },
                        join: None,
                    })
                )),
            },
            ..Default::default()
        }
    );
}

#[test]
#[should_panic]
fn test_expect_table() {
    let input = to_chars("123123");
    let _ret = select(&input).expect("must be parsed");
}

#[test]
#[should_panic]
fn test_expect_valid_table_after_join() {
    let input = to_chars("product->123213");
    let _ret = select(&input).expect("must be parsed");
}

#[test]
fn test_add_operation() {
    let input = to_chars("age+year");
    let ret = filter_expr(&input).expect("must be parsed");
    assert_eq!(
        ret,
        Expr::BinaryOperation(Box::new(BinaryOperation {
            left: Expr::Column(ColumnName { name: "age".into() }),
            operator: Operator::Plus,
            right: Expr::Column(ColumnName {
                name: "year".into()
            }),
        }))
    );
}

#[test]
fn test_math_operation() {
    let input = to_chars("1+1");
    let ret = filter_expr(&input).expect("must be parsed");
    assert_eq!(
        ret,
        Expr::BinaryOperation(Box::new(BinaryOperation {
            left: Expr::Value(Value::Number("1".to_string())),
            operator: Operator::Plus,
            right: Expr::Value(Value::Number("1".to_string()))
        }))
    );
}

#[test]
fn test_binary_operation() {
    let input = to_chars("age=gt.42");
    let ret = filter_expr(&input).expect("must be parsed");
    assert_eq!(
        ret,
        Expr::BinaryOperation(Box::new(BinaryOperation {
            left: Expr::Column(ColumnName { name: "age".into() }),
            operator: Operator::Gt,
            right: Expr::Value(Value::Number("42".to_string()))
        }))
    );
}

#[test]
fn test_binary_operation_grouped() {
    let input = to_chars("((age=gt.42))");
    let ret = filter_expr(&input).expect("must be parsed");
    assert_eq!(
        ret,
        Expr::Nested(Box::new(Expr::Nested(Box::new(Expr::BinaryOperation(
            Box::new(BinaryOperation {
                left: Expr::Column(ColumnName { name: "age".into() }),
                operator: Operator::Gt,
                right: Expr::Value(Value::Number("42".to_string()))
            })
        )))))
    );
}

#[test]
fn test_complex_expr() {
    let input = to_chars("age=gt.42|true");
    let ret = filter_expr(&input).expect("must be parsed");
    assert_eq!(
        ret,
        Expr::BinaryOperation(Box::new(BinaryOperation {
            left: Expr::BinaryOperation(Box::new(BinaryOperation {
                left: Expr::Column(ColumnName { name: "age".into() }),
                operator: Operator::Gt,
                right: Expr::Value(Value::Number("42".to_string()))
            })),
            operator: Operator::Or,
            right: Expr::Value(Value::Bool(true))
        }))
    );
}

#[test]
fn test_complex_expr_rev() {
    let input = to_chars("false|age=gt.42");
    let ret = filter_expr(&input).expect("must be parsed");
    assert_eq!(
        ret,
        Expr::BinaryOperation(Box::new(BinaryOperation {
            left: Expr::Value(Value::Bool(false)),
            operator: Operator::Or,
            right: Expr::BinaryOperation(Box::new(BinaryOperation {
                left: Expr::Column(ColumnName { name: "age".into() }),
                operator: Operator::Gt,
                right: Expr::Value(Value::Number("42".to_string()))
            })),
        }))
    );
}

#[test]
fn test_complex_filter_grouped() {
    let input = to_chars("(false|age=gt.42)");
    let ret = filter_expr(&input).expect("must be parsed");
    assert_eq!(
        ret,
        Expr::Nested(Box::new(Expr::BinaryOperation(Box::new(BinaryOperation {
            left: Expr::Value(Value::Bool(false)),
            operator: Operator::Or,
            right: Expr::BinaryOperation(Box::new(BinaryOperation {
                left: Expr::Column(ColumnName { name: "age".into() }),
                operator: Operator::Gt,
                right: Expr::Value(Value::Number("42".to_string()))
            })),
        }))))
    );
}

#[test]
fn test_complex_filter_grouped_of_grouped() {
    let input = to_chars("(age=gt.42)|(is_active=true)");
    let ret = filter_expr(&input).expect("must be parsed");
    assert_eq!(
        ret,
        Expr::BinaryOperation(Box::new(BinaryOperation {
            left: Expr::Nested(Box::new(Expr::BinaryOperation(Box::new(BinaryOperation {
                left: Expr::Column(ColumnName { name: "age".into() }),
                operator: Operator::Gt,
                right: Expr::Value(Value::Number("42".to_string()))
            })))),
            operator: Operator::Or,
            right: Expr::Nested(Box::new(Expr::BinaryOperation(Box::new(BinaryOperation {
                left: Expr::Column(ColumnName {
                    name: "is_active".into()
                }),
                operator: Operator::Eq,
                right: Expr::Value(Value::Bool(true))
            }))))
        }))
    );
}

#[test]
fn complex_select() {
    let input = "person?age=lt.42&(student=eq.true|gender=eq.'M')&group_by=sum(age),grade,gender&having=min(age)=gt.42&order_by=age.desc,height.asc&page=20&page_size=100";
    let input_chars = to_chars(input);
    let ret = select(&input_chars).expect("must be parsed");
    assert_eq!(input, ret.to_text());
}

#[test]
fn select_with_uuid() {
    let input = "bazaar.product?product_id=eq.'3c03c6f0-7d91-4570-a882-0ef44c427b90'";
    let input_chars = to_chars(input);
    let ret = select(&input_chars).expect("must be parsed");
    assert_eq!(input, ret.to_text());
}

#[test]
fn complex_select_with_projection() {
    let input = "person{person_id,name,updated}?age=lt.42&(student=eq.true|gender=eq.'M')&group_by=sum(age),grade,gender&having=min(age)=gt.42&order_by=age.desc,height.asc&page=20&page_size=100";
    let input_chars = to_chars(input);
    let ret = select(&input_chars).expect("must be parsed");
    assert_eq!(input, ret.to_text());
}

#[test]
fn complex_select_with_filter_in() {
    let input = "person{person_id,name,updated}?person_id=in.[100,101,102]";
    let input_chars = to_chars(input);
    let ret = select(&input_chars).expect("must be parsed");
    assert_eq!(input, ret.to_text());
}

#[test]
fn select_with_left_join() {
    let input = "public.inventory<-public.film{inventory_id,film_id,store_id,last_update}?public.film.film_id=eq.1&page=1&page_size=40";
    let input_chars = to_chars(input);
    let ret = select(&input_chars).expect("must be parsed");
    assert_eq!(input, ret.to_text());
}

#[test]
fn parse_drop_table() {
    let input = to_chars("-product");
    let ret = drop_table(&input).expect("must be parsed");
    assert_eq!(
        ret,
        DropTable {
            table: TableName {
                name: "product".into()
            }
        }
    );
    let statement = ret.into_sql_statement().unwrap();
    assert_eq!(
        statement.to_sql_string(),
        "DROP TABLE IF EXISTS product CASCADE"
    );
}

#[test]
fn parse_data_type_def() {
    let input = to_chars("u32");
    let ret = data_type_def(&input).expect("must be parsed");
    assert_eq!(
        ret,
        DataTypeDef {
            data_type: DataType::U32,
            is_optional: false,
            default: None,
        }
    );
}

#[test]
fn test_invalid_data_type_def() {
    let input = to_chars("invalid32");
    let ret = data_type_def(&input);
    assert!(ret.is_err());
    assert!(ret
        .err()
        .unwrap()
        .to_text()
        .contains(r#"InvalidDataType("invalid32")"#));
}

#[test]
fn parse_column_def() {
    let input = to_chars("*product_id:u32");
    let ret = column_def(&input).expect("must be parsed");
    assert_eq!(
        ret,
        ColumnDef {
            column: ColumnName {
                name: "product_id".to_string()
            },
            attributes: Some(vec![ColumnAttribute::Primary]),
            data_type_def: DataTypeDef {
                data_type: DataType::U32,
                is_optional: false,
                default: None,
            },
            foreign: None,
        },
    );
}

#[test]
fn display_column_def() {
    assert_eq!(
        "*product_id:u32",
        ColumnDef {
            column: ColumnName {
                name: "product_id".to_string()
            },
            attributes: Some(vec![ColumnAttribute::Primary]),
            data_type_def: DataTypeDef {
                data_type: DataType::U32,
                is_optional: false,
                default: None,
            },
            foreign: None,
        }
        .to_text(),
    );
}

#[test]
fn display_column_def2() {
    assert_eq!(
        "*&@product_id(product):u32?(qr-123)",
        ColumnDef {
            column: ColumnName {
                name: "product_id".to_string()
            },
            attributes: Some(vec![
                ColumnAttribute::Primary,
                ColumnAttribute::Unique,
                ColumnAttribute::Index
            ]),
            data_type_def: DataTypeDef {
                data_type: DataType::U32,
                is_optional: true,
                default: Some(DefaultValue::DataValue(DataValue::Text(
                    "qr-123".to_string()
                ))),
            },
            foreign: Some(Foreign {
                table: TableName {
                    name: "product".to_string()
                },
                column: None,
            }),
        }
        .to_text(),
    );
}

#[test]
fn test_column_def_list() {
    let input = to_chars("*product_id:u32,name:text");
    let ret = column_def_list(&input).expect("must be parsed");
    assert_eq!(
        ret,
        vec![
            ColumnDef {
                column: ColumnName {
                    name: "product_id".to_string()
                },
                attributes: Some(vec![ColumnAttribute::Primary]),
                data_type_def: DataTypeDef {
                    data_type: DataType::U32,
                    is_optional: false,
                    default: None,
                },
                foreign: None,
            },
            ColumnDef {
                column: ColumnName {
                    name: "name".to_string()
                },
                attributes: None,
                data_type_def: DataTypeDef {
                    data_type: DataType::Text,
                    is_optional: false,
                    default: None,
                },
                foreign: None,
            }
        ],
    );
}

#[test]
fn test_invalid_column_def_list() {
    let input = to_chars("*product_id:invalid32,name:text");
    let ret = column_def_list(&input);
    assert!(ret.is_err());
    assert!(ret
        .err()
        .unwrap()
        .to_text()
        .contains(r#"InvalidDataType("invalid32")"#));
}

#[test]
fn test_invalid_column_def_list_2() {
    let input = to_chars("id:u32,*product_id:invalid32,name:text");
    let ret = column_def_list(&input);
    assert!(ret.is_err());
    assert!(ret
        .err()
        .unwrap()
        .to_text()
        .contains(r#"InvalidDataType("invalid32")"#));
}

#[test]
fn test_invalid_column_def_list_3() {
    let input = to_chars("id:u32,*product_id:u32,name:invalid_text");
    let ret = column_def_list(&input);
    assert!(ret.is_err());
    assert!(ret
        .err()
        .unwrap()
        .to_text()
        .contains(r#"InvalidDataType("invalid_text")"#));
}

#[test]
fn parse_invalid_column_def() {
    let input = to_chars("*product_id:invalid32");
    let ret = column_def(&input);
    assert!(ret.is_err());
    assert!(ret
        .err()
        .unwrap()
        .to_text()
        .contains(r#"InvalidDataType("invalid32")"#));
}

#[test]
fn parse_column_def_with_foreign() {
    let input = to_chars("*product_id(product):u32");
    let ret = column_def(&input).expect("must be parsed");
    assert_eq!(
        ret,
        ColumnDef {
            column: ColumnName {
                name: "product_id".to_string()
            },
            attributes: Some(vec![ColumnAttribute::Primary]),
            data_type_def: DataTypeDef {
                data_type: DataType::U32,
                is_optional: false,
                default: None,
            },
            foreign: Some(Foreign {
                table: TableName {
                    name: "product".to_string()
                },
                column: None,
            }),
        },
    );
}

#[test]
fn parse_data_type_def_opt() {
    let input = to_chars("u32?");
    let ret = data_type_def(&input).expect("must be parsed");
    assert_eq!(
        ret,
        DataTypeDef {
            data_type: DataType::U32,
            is_optional: true,
            default: None,
        }
    );
}

#[test]
fn parse_data_type_def_default() {
    let input = to_chars("f32(0.0)");
    let ret = data_type_def(&input).expect("must be parsed");
    assert_eq!(
        ret,
        DataTypeDef {
            data_type: DataType::F32,
            is_optional: false,
            default: Some(DefaultValue::DataValue(DataValue::F32("0.0".to_string()))),
        }
    );
}

#[test]
fn parse_data_type_def_opt_default() {
    let input = to_chars("f64?(11.62)");
    let ret = data_type_def(&input).expect("must be parsed");
    assert_eq!(
        ret,
        DataTypeDef {
            data_type: DataType::F64,
            is_optional: true,
            default: Some(DefaultValue::DataValue(DataValue::F64("11.62".to_string()))),
        }
    );
}

#[test]
fn parse_actor_table_with_invalid_data_type() {
    let input = to_chars(
        "actor{*actor_id:s32,&first_name:text,&@last_name:text,last_update:timestamp,created_by(users):u32,is_active:bool}",
    );
    let ret = table_def(&input);
    assert!(ret.is_err());
    assert!(ret
        .err()
        .unwrap()
        .to_text()
        .contains(r#"InvalidDataType("timestamp")"#));
}

#[test]
fn parse_actor_table() {
    let input = to_chars(
        "actor{*actor_id:s32,&first_name:text,&@last_name:text,last_update:utc,created_by(users):u32,is_active:bool}",
    );
    let ret = table_def(&input).expect("must be parsed");
    assert_eq!(ret.table.name, "actor");
    assert_eq!(ret.columns.len(), 6);
    assert_eq!(ret.columns[0].column.name, "actor_id");
    assert_eq!(
        ret.columns[0].attributes,
        Some(vec![ColumnAttribute::Primary])
    );
    assert_eq!(ret.columns[0].data_type_def.data_type, DataType::S32);
    assert_eq!(
        ret.columns[2].attributes,
        Some(vec![ColumnAttribute::Unique, ColumnAttribute::Index])
    );
    assert_eq!(ret.columns[3].data_type_def.data_type, DataType::Utc);
    assert_eq!(
        ret.columns[4].foreign,
        Some(Foreign {
            table: TableName {
                name: "users".into()
            },
            column: None,
        })
    );
    assert_eq!(ret.columns[5].data_type_def.data_type, DataType::Bool);
}

#[test]
fn displa_actor_table() {
    let input =
        "actor{*actor_id:s32,&first_name:text,&@last_name:text,last_update:utc,created_by(users):u32,is_active:bool}";
    let ret = table_def(&to_chars(input)).expect("must be parsed");
    assert_eq!(input, ret.to_text());
}

#[test]
fn table_def_with_default_function() {
    let input =
        r#"public.film{*film_id:uuid(uuid_generate_v4()),title:text,release_date:utc?(now())}"#;
    let ret = table_def(&to_chars(input)).expect("must be parsed");
    assert_eq!(ret.columns.len(), 3);
    match &ret.columns[0].data_type_def.default {
        Some(DefaultValue::Function(f)) => assert_eq!(f.name, "uuid_generate_v4"),
        other => panic!("unexpected default: {:?}", other),
    }
    match &ret.columns[2].data_type_def.default {
        Some(DefaultValue::Function(f)) => assert_eq!(f.name, "now"),
        other => panic!("unexpected default: {:?}", other),
    }
}

#[test]
fn table_def_has_column_with_space() {
    let input = r#"public.film{*film_id:uuid(uuid_generate_v4()),"zip code":text,title:text,release_date:utc?(now())}"#;
    let ret = table_def(&to_chars(input)).expect("must be parsed");
    assert_eq!(ret.columns[1].column.name, "zip code");
}

#[test]
fn complex_table_def() {
    let input = r#"public.film{*film_id:s32,title:text,description:text?,release_year:s16?,language_id(public.language::language_id):s16,original_language_id(public.language):s16?,rental_duration:s16(3),rental_rate:f64(4.99),length:s16?,replacement_cost:f64(19.99),rating:text?("'G'::mpaa_rating"),last_update:local,special_features:text?,fulltext:text}"#;
    let ret = table_def(&to_chars(input)).expect("must be parsed");
    assert_eq!(ret.columns.len(), 14);
    assert_eq!(
        ret.columns[4].foreign,
        Some(Foreign {
            table: TableName {
                name: "public.language".to_string()
            },
            column: Some(ColumnName {
                name: "language_id".to_string()
            })
        })
    );
    assert_eq!(
        ret.columns[6].data_type_def.default,
        Some(DefaultValue::DataValue(DataValue::S16(3)))
    );
    assert_eq!(
        ret.columns[7].data_type_def.default,
        Some(DefaultValue::DataValue(DataValue::F64("4.99".to_string())))
    );
    assert_eq!(
        ret.columns[10].data_type_def.default,
        Some(DefaultValue::DataValue(DataValue::Text(
            "'G'::mpaa_rating".to_string()
        )))
    );
}

#[test]
fn more_complex_table_def() {
    let input = r#"adempiere.ad_element{*ad_element_id:f64,ad_client_id:f64,ad_org_id:f64,isactive:text('Y'),created:local,createdby:f64,updated:local(now()),updatedby:f64,columnname:text,entitytype(adempiere.ad_entitytype):text('D'),name:text,printname:text,description:text?,help:text?,po_name:text?,po_printname:text?,po_description:text?,po_help:text?,ad_reference_id(adempiere.ad_reference):f64?,fieldlength:f64?,ad_reference_value_id(adempiere.ad_reference):f64?,uuid:text?(NULL)}"#;
    let ret = table_def(&to_chars(input)).expect("must be parsed");
    assert_eq!(ret.columns.len(), 22);
}
